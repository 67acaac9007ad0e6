//! The parser on well-formed and ill-formed invocations: the parsed
//! structure, the tolerated variations, and each syntax error on an input
//! that provokes it.

use function_group::group::{Function, FunctionGroup};
use function_group::parse::{ParseError, parse_functions, parse_params, parse_receiver};
use function_group::tokens::{Delim, Spacing, Tok};

fn w(s: &str) -> Tok {
    Tok::Word(s.to_string())
}

fn p(c: char) -> Tok {
    Tok::Punct(c, Spacing::Alone)
}

fn pj(c: char) -> Tok {
    Tok::Punct(c, Spacing::Joint)
}

fn paren(ts: Vec<Tok>) -> Tok {
    Tok::Group(Delim::Paren, ts)
}

fn brace(ts: Vec<Tok>) -> Tok {
    Tok::Group(Delim::Brace, ts)
}

#[test]
fn test_parse_structure() {
    let g = FunctionGroup::parse(vec![
        Tok::KwFn,
        w("add"),
        pj('-'),
        p('>'),
        w("usize"),
        brace(vec![
            paren(vec![
                w("one"),
                p(':'),
                w("usize"),
                p(','),
                w("two"),
                p(':'),
                w("usize"),
            ]),
            brace(vec![w("one"), p('+'), w("two")]),
            paren(vec![Tok::KwMut, w("three"), p(':'), w("usize")]),
            brace(vec![w("three")]),
        ]),
    ])
    .unwrap();
    assert_eq!(g.name, "add".to_string());
    assert_eq!(g.output, Some(vec![w("usize")]));
    assert!(g.self_input.is_none());
    assert!(g.self_type.is_none());
    assert!(!g.self_mut);
    assert_eq!(g.functions.len(), 2);
    assert_eq!(g.functions[0].args.len(), 2);
    assert_eq!(g.functions[0].args[0].name, "one".to_string());
    assert_eq!(g.functions[0].args[0].ty, vec![w("usize")]);
    assert!(!g.functions[0].args[0].is_mut);
    assert_eq!(g.functions[0].args[1].name, "two".to_string());
    assert_eq!(g.functions[0].body, vec![w("one"), p('+'), w("two")]);
    assert_eq!(g.functions[1].args.len(), 1);
    assert!(g.functions[1].args[0].is_mut);
    assert_eq!(g.functions[1].args[0].name, "three".to_string());
}

#[test]
fn test_parse_receiver_forms() {
    // `&mut self : T` leaves the mutability flag unset: the flag answers
    // only to a `mut` before the whole binding.
    let g = FunctionGroup::parse(vec![
        Tok::KwFn,
        w("m"),
        paren(vec![p('&'), Tok::KwMut, w("self"), p(':'), w("T0")]),
        brace(vec![]),
    ])
    .unwrap();
    assert!(!g.self_mut);
    assert_eq!(g.self_input, Some(vec![p('&'), Tok::KwMut, w("self")]));
    assert_eq!(g.self_type, Some(vec![w("T0")]));

    let g2 = FunctionGroup::parse(vec![
        Tok::KwFn,
        w("m"),
        paren(vec![Tok::KwMut, w("self"), p(':'), w("T0")]),
        brace(vec![]),
    ])
    .unwrap();
    assert!(g2.self_mut);
    assert_eq!(g2.self_input, Some(vec![w("self")]));
}

#[test]
fn test_parse_generic_type_spans_comma() {
    // A comma inside angle brackets belongs to the type, not to the
    // parameter list.
    let g = FunctionGroup::parse(vec![
        Tok::KwFn,
        w("f"),
        brace(vec![
            paren(vec![
                w("x"),
                p(':'),
                w("Pair"),
                p('<'),
                w("u8"),
                p(','),
                w("u8"),
                p('>'),
                p(','),
                w("y"),
                p(':'),
                w("u8"),
            ]),
            brace(vec![]),
        ]),
    ])
    .unwrap();
    assert_eq!(g.functions[0].args.len(), 2);
    assert_eq!(
        g.functions[0].args[0].ty,
        vec![w("Pair"), p('<'), w("u8"), p(','), w("u8"), p('>')]
    );
    assert_eq!(g.functions[0].args[1].name, "y".to_string());
}

#[test]
fn test_parse_fn_pointer_type_arrow() {
    // The `>` of an arrow inside a parameter's type closes no angle
    // bracket.
    let g = FunctionGroup::parse(vec![
        Tok::KwFn,
        w("f"),
        brace(vec![
            paren(vec![
                w("x"),
                p(':'),
                Tok::KwFn,
                paren(vec![w("u8")]),
                pj('-'),
                p('>'),
                w("u8"),
                p(','),
                w("y"),
                p(':'),
                w("u8"),
            ]),
            brace(vec![]),
        ]),
    ])
    .unwrap();
    assert_eq!(g.functions[0].args.len(), 2);
    assert_eq!(
        g.functions[0].args[0].ty,
        vec![Tok::KwFn, paren(vec![w("u8")]), pj('-'), p('>'), w("u8")]
    );
}

#[test]
fn test_parse_trailing_semicolon_tolerated() {
    let g = FunctionGroup::parse(vec![
        Tok::KwFn,
        w("f"),
        brace(vec![paren(vec![]), brace(vec![]), p(';')]),
    ])
    .unwrap();
    assert_eq!(g.functions.len(), 1);
    assert_eq!(g.functions[0].args.len(), 0);
}

#[test]
fn test_parse_dangling_mut_dropped() {
    // A `mut` with no identifier after it ends the parameter list.
    let g = FunctionGroup::parse(vec![
        Tok::KwFn,
        w("f"),
        brace(vec![paren(vec![Tok::KwMut]), brace(vec![])]),
    ])
    .unwrap();
    assert_eq!(g.functions[0].args.len(), 0);
}

#[test]
fn test_parse_visibility_forms() {
    let g = FunctionGroup::parse(vec![Tok::KwFn, w("f"), brace(vec![])]).unwrap();
    assert_eq!(g.visibility, function_group::group::Vis::Private);
    let g2 = FunctionGroup::parse(vec![Tok::KwPub, Tok::KwFn, w("f"), brace(vec![])]).unwrap();
    assert_eq!(g2.visibility, function_group::group::Vis::Public);
    let g3 = FunctionGroup::parse(vec![
        Tok::KwPub,
        paren(vec![w("crate")]),
        Tok::KwFn,
        w("f"),
        brace(vec![]),
    ])
    .unwrap();
    assert_eq!(
        g3.visibility,
        function_group::group::Vis::Restricted(vec![w("crate")])
    );
}

#[test]
fn test_error_expected_fn() {
    assert_eq!(FunctionGroup::parse(vec![]), Err(ParseError::ExpectedFn));
    assert_eq!(
        FunctionGroup::parse(vec![w("f"), brace(vec![])]),
        Err(ParseError::ExpectedFn)
    );
    assert_eq!(
        FunctionGroup::parse(vec![Tok::KwPub, w("f")]),
        Err(ParseError::ExpectedFn)
    );
}

#[test]
fn test_error_expected_name() {
    assert_eq!(FunctionGroup::parse(vec![Tok::KwFn]), Err(ParseError::ExpectedName));
    assert_eq!(
        FunctionGroup::parse(vec![Tok::KwFn, p(':')]),
        Err(ParseError::ExpectedName)
    );
}

#[test]
fn test_error_malformed_receiver() {
    // No colon between binding and owning type.
    assert_eq!(
        FunctionGroup::parse(vec![Tok::KwFn, w("m"), paren(vec![w("self")]), brace(vec![])]),
        Err(ParseError::MalformedReceiver)
    );
    // Colon with nothing before it.
    assert_eq!(
        FunctionGroup::parse(vec![
            Tok::KwFn,
            w("m"),
            paren(vec![p(':'), w("T0")]),
            brace(vec![]),
        ]),
        Err(ParseError::MalformedReceiver)
    );
    // Colon with nothing after it.
    assert_eq!(
        FunctionGroup::parse(vec![
            Tok::KwFn,
            w("m"),
            paren(vec![w("self"), p(':')]),
            brace(vec![]),
        ]),
        Err(ParseError::MalformedReceiver)
    );
}

#[test]
fn test_error_expected_arrow() {
    assert_eq!(
        FunctionGroup::parse(vec![Tok::KwFn, w("f"), p('-'), w("usize"), brace(vec![])]),
        Err(ParseError::ExpectedArrow)
    );
}

#[test]
fn test_error_expected_return_type() {
    assert_eq!(
        FunctionGroup::parse(vec![Tok::KwFn, w("f"), pj('-'), p('>'), brace(vec![])]),
        Err(ParseError::ExpectedReturnType)
    );
}

#[test]
fn test_error_expected_body() {
    assert_eq!(
        FunctionGroup::parse(vec![Tok::KwFn, w("f")]),
        Err(ParseError::ExpectedBody)
    );
    assert_eq!(
        FunctionGroup::parse(vec![Tok::KwFn, w("f"), pj('-'), p('>'), w("usize")]),
        Err(ParseError::ExpectedBody)
    );
}

#[test]
fn test_error_unexpected_token_after_body() {
    assert_eq!(
        FunctionGroup::parse(vec![Tok::KwFn, w("f"), brace(vec![]), w("junk")]),
        Err(ParseError::UnexpectedToken)
    );
}

#[test]
fn test_error_expected_block() {
    assert_eq!(
        FunctionGroup::parse(vec![Tok::KwFn, w("f"), brace(vec![paren(vec![])])]),
        Err(ParseError::ExpectedBlock)
    );
}

#[test]
fn test_error_expected_colon() {
    assert_eq!(
        FunctionGroup::parse(vec![
            Tok::KwFn,
            w("f"),
            brace(vec![paren(vec![w("one")]), brace(vec![])]),
        ]),
        Err(ParseError::ExpectedColon)
    );
}

#[test]
fn test_error_expected_type() {
    assert_eq!(
        FunctionGroup::parse(vec![
            Tok::KwFn,
            w("f"),
            brace(vec![paren(vec![w("one"), p(':')]), brace(vec![])]),
        ]),
        Err(ParseError::ExpectedType)
    );
    // A comma right after the colon leaves the type empty too.
    assert_eq!(
        FunctionGroup::parse(vec![
            Tok::KwFn,
            w("f"),
            brace(vec![
                paren(vec![w("one"), p(':'), p(','), w("two"), p(':'), w("u8")]),
                brace(vec![]),
            ]),
        ]),
        Err(ParseError::ExpectedType)
    );
}

#[test]
fn test_error_unexpected_token_in_params() {
    assert_eq!(
        FunctionGroup::parse(vec![
            Tok::KwFn,
            w("f"),
            brace(vec![paren(vec![p(',')]), brace(vec![])]),
        ]),
        Err(ParseError::UnexpectedToken)
    );
}

#[test]
fn test_parse_params_directly() {
    let args = parse_params(vec![
        w("one"),
        p(':'),
        w("u8"),
        p(','),
        Tok::KwMut,
        w("two"),
        p(':'),
        p('&'),
        w("u8"),
    ])
    .unwrap();
    assert_eq!(args.len(), 2);
    assert_eq!(args[0].name, "one".to_string());
    assert!(!args[0].is_mut);
    assert_eq!(args[1].name, "two".to_string());
    assert!(args[1].is_mut);
    assert_eq!(args[1].ty, vec![p('&'), w("u8")]);
}

#[test]
fn test_parse_receiver_directly() {
    let (m, binding, ty) =
        parse_receiver(vec![Tok::KwMut, w("self"), p(':'), w("T0")]).unwrap();
    assert!(m);
    assert_eq!(binding, vec![w("self")]);
    assert_eq!(ty, vec![w("T0")]);
    assert_eq!(
        parse_receiver(vec![w("self")]),
        Err(ParseError::MalformedReceiver)
    );
}

#[test]
fn test_parse_one_function_returns_rest() {
    let (f, rest) = Function::parse(vec![
        paren(vec![]),
        brace(vec![w("body")]),
        p(';'),
        paren(vec![]),
        brace(vec![]),
    ])
    .unwrap();
    assert_eq!(f.args.len(), 0);
    assert_eq!(f.body, vec![w("body")]);
    assert_eq!(rest, vec![paren(vec![]), brace(vec![])]);
}

#[test]
fn test_parse_functions_directly() {
    let fs = parse_functions(vec![
        paren(vec![w("x"), p(':'), w("u8")]),
        brace(vec![w("x")]),
        paren(vec![]),
        brace(vec![]),
    ])
    .unwrap();
    assert_eq!(fs.len(), 2);
    assert_eq!(fs[0].args.len(), 1);
    assert_eq!(fs[1].args.len(), 0);
}
