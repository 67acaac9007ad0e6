//! The behaviour of expanded groups, on code written out exactly as the
//! generator emits it, beside checks that the generator emits exactly that
//! code for the corresponding invocations.

use function_group::function_group;
use function_group::tokens::{Delim, Spacing, Tok};

fn w(s: &str) -> Tok {
    Tok::Word(s.to_string())
}

fn p(c: char) -> Tok {
    Tok::Punct(c, Spacing::Alone)
}

fn pj(c: char) -> Tok {
    Tok::Punct(c, Spacing::Joint)
}

fn lit(s: &str) -> Tok {
    Tok::Lit(s.to_string())
}

fn paren(ts: Vec<Tok>) -> Tok {
    Tok::Group(Delim::Paren, ts)
}

fn brace(ts: Vec<Tok>) -> Tok {
    Tok::Group(Delim::Brace, ts)
}

fn bracket(ts: Vec<Tok>) -> Tok {
    Tok::Group(Delim::Bracket, ts)
}

fn attr_tokens() -> Vec<Tok> {
    vec![p('#'), bracket(vec![w("allow"), paren(vec![w("non_camel_case_types")])])]
}

// The expansion of the `add` group, written out by hand.
#[allow(non_camel_case_types)]
trait add {
    fn add(self) -> usize;
}

fn add<T: add>(a: T) -> usize {
    a.add()
}

impl add for (usize, usize) {
    fn add(self) -> usize {
        let (one, two) = self;
        {
            one + two
        }
    }
}

impl add for (usize, usize, usize) {
    fn add(self) -> usize {
        let (one, two, three) = self;
        {
            add((one, two)) + three
        }
    }
}

fn add_invocation() -> Vec<Tok> {
    vec![
        Tok::KwFn,
        w("add"),
        pj('-'),
        p('>'),
        w("usize"),
        brace(vec![
            paren(vec![
                w("one"),
                p(':'),
                w("usize"),
                p(','),
                w("two"),
                p(':'),
                w("usize"),
            ]),
            brace(vec![w("one"), p('+'), w("two")]),
            paren(vec![
                w("one"),
                p(':'),
                w("usize"),
                p(','),
                w("two"),
                p(':'),
                w("usize"),
                p(','),
                w("three"),
                p(':'),
                w("usize"),
            ]),
            brace(vec![
                w("add"),
                paren(vec![paren(vec![w("one"), p(','), w("two")])]),
                p('+'),
                w("three"),
            ]),
        ]),
    ]
}

fn add_impl(types: Vec<Tok>, pattern: Vec<Tok>, body: Vec<Tok>) -> Vec<Tok> {
    vec![
        w("impl"),
        w("add"),
        w("for"),
        paren(types),
        brace(vec![
            Tok::KwFn,
            w("add"),
            paren(vec![w("self")]),
            pj('-'),
            p('>'),
            w("usize"),
            brace(vec![
                w("let"),
                paren(pattern),
                p('='),
                w("self"),
                p(';'),
                brace(body),
            ]),
        ]),
    ]
}

fn expected_add_expansion() -> Vec<Tok> {
    let mut out = attr_tokens();
    out.extend(vec![
        w("trait"),
        w("add"),
        brace(vec![
            Tok::KwFn,
            w("add"),
            paren(vec![w("self")]),
            pj('-'),
            p('>'),
            w("usize"),
            p(';'),
        ]),
        Tok::KwFn,
        w("add"),
        p('<'),
        w("T"),
        p(':'),
        w("add"),
        p('>'),
        paren(vec![w("a"), p(':'), w("T")]),
        pj('-'),
        p('>'),
        w("usize"),
        brace(vec![w("a"), p('.'), w("add"), paren(vec![])]),
    ]);
    out.extend(add_impl(
        vec![w("usize"), p(','), w("usize"), p(',')],
        vec![w("one"), p(','), w("two"), p(',')],
        vec![w("one"), p('+'), w("two")],
    ));
    out.extend(add_impl(
        vec![w("usize"), p(','), w("usize"), p(','), w("usize"), p(',')],
        vec![w("one"), p(','), w("two"), p(','), w("three"), p(',')],
        vec![
            w("add"),
            paren(vec![paren(vec![w("one"), p(','), w("two")])]),
            p('+'),
            w("three"),
        ],
    ));
    out
}

#[test]
fn test_function_group() {
    let out = function_group(add_invocation()).unwrap();
    assert_eq!(out, expected_add_expansion());
    assert!(add((5, 5)) == 10);
    assert!(add((5, 5, 5)) == 15);
}

// The expansion of the `add_to` group, written out by hand: no declared
// output, so every operation returns unit, and the variants mutate through
// their reference parameter.
#[allow(non_camel_case_types)]
trait add_to {
    fn add_to(self) -> ();
}

fn add_to<T: add_to>(a: T) -> () {
    a.add_to()
}

impl add_to for (&mut usize, usize) {
    fn add_to(self) -> () {
        let (one, two) = self;
        {
            *one += two;
        }
    }
}

impl add_to for (&mut usize, usize, usize) {
    fn add_to(self) -> () {
        let (one, two, three) = self;
        {
            *one += two + three;
        }
    }
}

#[test]
fn test_function_group_mutability() {
    let mut x: usize = 10;
    add_to((&mut x, 5));
    add_to((&mut x, 5, 5));
    assert!(x == 25);
    add_to((&mut x, 5));
    assert!(x == 30);
}

// The expansion of the `add_to_struct` group, written out by hand: a
// receiver was declared, so the owning type gains the method and no free
// dispatcher exists.
struct TestStruct(usize);

#[allow(non_camel_case_types)]
trait add_to_struct<Arg> {
    fn add_to_struct(&mut self, _args: Arg) -> ();
}

impl add_to_struct<(usize,)> for TestStruct {
    fn add_to_struct(&mut self, (one,): (usize,)) -> () {
        {
            self.0 += one;
        }
    }
}

impl add_to_struct<(usize, usize)> for TestStruct {
    fn add_to_struct(&mut self, (one, two): (usize, usize)) -> () {
        {
            self.0 += one + two;
        }
    }
}

fn add_to_struct_invocation() -> Vec<Tok> {
    vec![
        Tok::KwFn,
        w("add_to_struct"),
        paren(vec![p('&'), Tok::KwMut, w("self"), p(':'), w("TestStruct")]),
        brace(vec![
            paren(vec![w("one"), p(':'), w("usize")]),
            brace(vec![
                w("self"),
                p('.'),
                lit("0"),
                pj('+'),
                p('='),
                w("one"),
                p(';'),
            ]),
            paren(vec![
                w("one"),
                p(':'),
                w("usize"),
                p(','),
                w("two"),
                p(':'),
                w("usize"),
            ]),
            brace(vec![
                w("self"),
                p('.'),
                lit("0"),
                pj('+'),
                p('='),
                w("one"),
                p('+'),
                w("two"),
                p(';'),
            ]),
        ]),
    ]
}

fn add_to_struct_impl(arity: usize, pattern: Vec<Tok>, body: Vec<Tok>) -> Vec<Tok> {
    vec![
        w("impl"),
        w("add_to_struct"),
        p('<'),
        paren(usize_types(arity)),
        p('>'),
        w("for"),
        w("TestStruct"),
        brace(vec![
            Tok::KwFn,
            w("add_to_struct"),
            paren(vec![
                p('&'),
                Tok::KwMut,
                w("self"),
                p(','),
                paren(pattern),
                p(':'),
                paren(usize_types(arity)),
            ]),
            pj('-'),
            p('>'),
            paren(vec![]),
            brace(vec![brace(body)]),
        ]),
    ]
}

fn usize_types(arity: usize) -> Vec<Tok> {
    let mut ts = Vec::new();
    for _ in 0..arity {
        ts.push(w("usize"));
        ts.push(p(','));
    }
    ts
}

fn expected_add_to_struct_expansion() -> Vec<Tok> {
    let mut out = attr_tokens();
    out.extend(vec![
        w("trait"),
        w("add_to_struct"),
        p('<'),
        w("Arg"),
        p('>'),
        brace(vec![
            Tok::KwFn,
            w("add_to_struct"),
            paren(vec![
                p('&'),
                Tok::KwMut,
                w("self"),
                p(','),
                w("_args"),
                p(':'),
                w("Arg"),
            ]),
            pj('-'),
            p('>'),
            paren(vec![]),
            p(';'),
        ]),
    ]);
    out.extend(add_to_struct_impl(
        1,
        vec![w("one"), p(',')],
        vec![w("self"), p('.'), lit("0"), pj('+'), p('='), w("one"), p(';')],
    ));
    out.extend(add_to_struct_impl(
        2,
        vec![w("one"), p(','), w("two"), p(',')],
        vec![
            w("self"),
            p('.'),
            lit("0"),
            pj('+'),
            p('='),
            w("one"),
            p('+'),
            w("two"),
            p(';'),
        ],
    ));
    out
}

#[test]
fn test_function_group_method() {
    let out = function_group(add_to_struct_invocation()).unwrap();
    assert_eq!(out, expected_add_to_struct_expansion());
    let mut x = TestStruct(10);
    x.add_to_struct((1, 2));
    assert!(x.0 == 13);
}

// The expansion of the `add_10` group, written out by hand: its one
// parameter is declared mutable, so the binding is a local mutable one.
#[allow(non_camel_case_types)]
trait add_10 {
    fn add_10(self) -> usize;
}

fn add_10<T: add_10>(a: T) -> usize {
    a.add_10()
}

impl add_10 for (usize,) {
    fn add_10(self) -> usize {
        let (mut one,) = self;
        {
            one += 10;
            one
        }
    }
}

#[test]
fn test_mutable_binding_behaviour() {
    assert!(add_10((1,)) == 11);
}

#[test]
fn test_cross_arity_recursion_uses_smaller_arity() {
    // The three-argument variant of `add` delegates to the two-argument one.
    assert!(add((2, 3, 4)) == add((2, 3)) + 4);
    assert!(add((0, 0, 7)) == 7);
}
