//! The shape of generated code: exposure carried onto every item, the unit
//! type substituted for an absent output, the mutability marker in the
//! destructuring pattern, and the split between free-function and method
//! mode.

use function_group::function_group;
use function_group::generate::{function_group_fn, function_group_method};
use function_group::group::FunctionGroup;
use function_group::tokens::{Delim, Spacing, Tok};

fn w(s: &str) -> Tok {
    Tok::Word(s.to_string())
}

fn p(c: char) -> Tok {
    Tok::Punct(c, Spacing::Alone)
}

fn pj(c: char) -> Tok {
    Tok::Punct(c, Spacing::Joint)
}

fn paren(ts: Vec<Tok>) -> Tok {
    Tok::Group(Delim::Paren, ts)
}

fn brace(ts: Vec<Tok>) -> Tok {
    Tok::Group(Delim::Brace, ts)
}

fn bracket(ts: Vec<Tok>) -> Tok {
    Tok::Group(Delim::Bracket, ts)
}

#[test]
fn test_unit_output_expansion() {
    // `fn f { () {} }` — no output declared, one variant with no
    // parameters: the whole expansion, token for token.
    let out = function_group(vec![
        Tok::KwFn,
        w("f"),
        brace(vec![paren(vec![]), brace(vec![])]),
    ])
    .unwrap();
    let expected = vec![
        p('#'),
        bracket(vec![w("allow"), paren(vec![w("non_camel_case_types")])]),
        w("trait"),
        w("f"),
        brace(vec![
            Tok::KwFn,
            w("f"),
            paren(vec![w("self")]),
            pj('-'),
            p('>'),
            paren(vec![]),
            p(';'),
        ]),
        Tok::KwFn,
        w("f"),
        p('<'),
        w("T"),
        p(':'),
        w("f"),
        p('>'),
        paren(vec![w("a"), p(':'), w("T")]),
        pj('-'),
        p('>'),
        paren(vec![]),
        brace(vec![w("a"), p('.'), w("f"), paren(vec![])]),
        w("impl"),
        w("f"),
        w("for"),
        paren(vec![]),
        brace(vec![
            Tok::KwFn,
            w("f"),
            paren(vec![w("self")]),
            pj('-'),
            p('>'),
            paren(vec![]),
            brace(vec![
                w("let"),
                paren(vec![]),
                p('='),
                w("self"),
                p(';'),
                brace(vec![]),
            ]),
        ]),
    ];
    assert_eq!(out, expected);
}

#[test]
fn test_visibility_on_every_item() {
    // Private: no exposure tokens anywhere.
    let private = function_group(vec![Tok::KwFn, w("f"), brace(vec![])]).unwrap();
    assert_eq!(private[2], w("trait"));
    // `pub`: the trait carries it right after the attribute, the
    // dispatcher carries it at the start of its segment.
    let public = function_group(vec![Tok::KwPub, Tok::KwFn, w("f"), brace(vec![])]).unwrap();
    assert_eq!(public[2], Tok::KwPub);
    assert_eq!(public[3], w("trait"));
    // trait = attribute (2) + pub (1) + `trait f { .. }` (3)
    assert_eq!(public[6], Tok::KwPub);
    assert_eq!(public[7], Tok::KwFn);
    assert_eq!(public.len(), private.len() + 2);
    // `pub(crate)`: the restriction is echoed verbatim on each item.
    let restricted = function_group(vec![
        Tok::KwPub,
        paren(vec![w("crate")]),
        Tok::KwFn,
        w("f"),
        brace(vec![]),
    ])
    .unwrap();
    assert_eq!(restricted[2], Tok::KwPub);
    assert_eq!(restricted[3], paren(vec![w("crate")]));
    assert_eq!(restricted[7], Tok::KwPub);
    assert_eq!(restricted[8], paren(vec![w("crate")]));
    assert_eq!(restricted.len(), private.len() + 4);
}

#[test]
fn test_mut_parameter_in_pattern() {
    // A parameter declared `mut` reappears as `mut name` in the
    // destructuring pattern; one declared without stays bare.
    let out = function_group(vec![
        Tok::KwFn,
        w("f"),
        brace(vec![
            paren(vec![
                Tok::KwMut,
                w("one"),
                p(':'),
                w("usize"),
                p(','),
                w("two"),
                p(':'),
                w("usize"),
            ]),
            brace(vec![w("one")]),
        ]),
    ])
    .unwrap();
    let pattern = paren(vec![Tok::KwMut, w("one"), p(','), w("two"), p(',')]);
    let found = out.iter().any(|t| match t {
        Tok::Group(Delim::Brace, inner) => inner.iter().any(|u| match u {
            Tok::Group(Delim::Brace, inner2) => inner2.contains(&pattern),
            _ => false,
        }),
        _ => false,
    });
    assert!(found);
}

#[test]
fn test_method_mode_emits_no_dispatcher() {
    // With a receiver the expansion holds no free function: after the
    // trait, every top-level run starts with `impl`.
    let out = function_group(vec![
        Tok::KwFn,
        w("m"),
        paren(vec![p('&'), w("self"), p(':'), w("T0")]),
        brace(vec![paren(vec![]), brace(vec![])]),
    ])
    .unwrap();
    // trait = attribute (2) + `trait m < Arg > { .. }` (6)
    assert_eq!(out[2], w("trait"));
    assert_eq!(out[4], p('<'));
    assert_eq!(out[5], w("Arg"));
    assert_eq!(out[8], w("impl"));
    // A top-level `fn` would open a dispatcher; method mode emits none.
    let has_top_level_fn = out.iter().any(|t| matches!(t, Tok::KwFn));
    assert!(!has_top_level_fn);
}

#[test]
fn test_generator_entry_points_agree_with_dispatch() {
    // The two generator entry points match what the combined entry point
    // chooses on the same parsed group.
    let free = FunctionGroup::parse(vec![Tok::KwFn, w("f"), brace(vec![])]).unwrap();
    let free_again = FunctionGroup::parse(vec![Tok::KwFn, w("f"), brace(vec![])]).unwrap();
    assert_eq!(
        function_group(vec![Tok::KwFn, w("f"), brace(vec![])]).unwrap(),
        function_group_fn(free)
    );
    assert!(free_again.self_input.is_none());

    let recv_invocation = || {
        vec![
            Tok::KwFn,
            w("m"),
            paren(vec![w("self"), p(':'), w("T0")]),
            brace(vec![]),
        ]
    };
    let parsed = FunctionGroup::parse(recv_invocation()).unwrap();
    assert_eq!(
        function_group(recv_invocation()).unwrap(),
        function_group_method(parsed)
    );
}

#[test]
fn test_error_is_propagated() {
    assert_eq!(
        function_group(vec![w("junk")]),
        Err(function_group::parse::ParseError::ExpectedFn)
    );
}
