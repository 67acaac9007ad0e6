//! The grammar of one invocation, and the parser that reads it.
//!
//! ```text
//! group    := visibility? 'fn' name receiver? ('->' type)? '{' variant* '}'
//! receiver := '(' 'mut'? binding ':' type ')'
//! variant  := '(' param (',' param)* ')' block ';'?
//! param    := 'mut'? name ':' type
//! ```
//!
//! The functions named `spec_parse_*` state the grammar as one total
//! function from token sequences to parsed groups or syntax errors; the
//! executable parser is proved to return exactly what they say. A type
//! expression is opaque: it is the longest token run that closes every angle
//! bracket it opens, ending at the next comma outside angle brackets (the
//! `>` of a `->` arrow closes nothing), or at the block that starts the
//! variant list.

use vstd::prelude::*;

use crate::group::{
    ArgumentSpec, ArgumentSpecView, Function, FunctionGroup, FunctionGroupView, FunctionView, Vis,
    VisView, args_view, fns_view, group_model_views,
};
use crate::tokens::{Delim, Spacing, Tok, TokView, group_toks_view, tok_view, toks_view};

verus! {

/// A syntax error, named for the token the parser expected.
#[derive(Clone, Copy, PartialEq, Eq, Structural, Debug)]
pub enum ParseError {
    /// The `fn` keyword is missing after the optional exposure modifier.
    ExpectedFn,
    /// The group's name is missing or is not an identifier.
    ExpectedName,
    /// The receiver parentheses hold no `binding : type` pair.
    MalformedReceiver,
    /// A `-` stands without the `>` that would make it an arrow.
    ExpectedArrow,
    /// An arrow stands directly before the variant list.
    ExpectedReturnType,
    /// The brace-delimited variant list is missing.
    ExpectedBody,
    /// A parameter list is not followed by a block.
    ExpectedBlock,
    /// A parameter name is not followed by a colon.
    ExpectedColon,
    /// A colon is not followed by a type.
    ExpectedType,
    /// A token stands where the grammar allows none.
    UnexpectedToken,
}

// ---------------------------------------------------------------------------
// Token predicates
// ---------------------------------------------------------------------------

pub open spec fn is_comma(t: TokView) -> bool {
    t matches TokView::Punct(c, _) && c == ','
}

pub open spec fn is_semi(t: TokView) -> bool {
    t matches TokView::Punct(c, _) && c == ';'
}

pub open spec fn is_joint_minus(t: TokView) -> bool {
    t == TokView::Punct('-', Spacing::Joint)
}

pub open spec fn is_joint_colon(t: TokView) -> bool {
    t == TokView::Punct(':', Spacing::Joint)
}

pub open spec fn is_lone_colon(t: TokView) -> bool {
    t == TokView::Punct(':', Spacing::Alone)
}

pub open spec fn is_paren_group(t: TokView) -> bool {
    t matches TokView::Group(d, _) && d == Delim::Paren
}

pub open spec fn is_brace_group(t: TokView) -> bool {
    t matches TokView::Group(d, _) && d == Delim::Brace
}

// ---------------------------------------------------------------------------
// Scanners: where a type expression ends
// ---------------------------------------------------------------------------

/// Angle-bracket depth after reading one token of a type expression.
/// `prev_jm` says whether the token before was the `-` of an arrow, whose
/// `>` is part of the arrow and closes nothing.
pub open spec fn next_depth(depth: nat, prev_jm: bool, t: TokView) -> nat {
    if t matches TokView::Punct(c, _) && c == '<' {
        depth + 1
    } else if t matches TokView::Punct(c, _) && c == '>' && !prev_jm {
        if depth > 0 {
            (depth - 1) as nat
        } else {
            0
        }
    } else {
        depth
    }
}

/// How many tokens the type expression starting here covers: everything up
/// to the first comma outside angle brackets, or the whole run.
pub open spec fn type_len(s: Seq<TokView>, depth: nat, prev_jm: bool) -> nat
    decreases s.len(),
{
    if s.len() == 0 {
        0
    } else if depth == 0 && is_comma(s[0]) {
        0
    } else {
        1 + type_len(s.drop_first(), next_depth(depth, prev_jm, s[0]), is_joint_minus(s[0]))
    }
}

pub proof fn lemma_type_len_le(s: Seq<TokView>, depth: nat, prev_jm: bool)
    ensures
        type_len(s, depth, prev_jm) <= s.len(),
    decreases s.len(),
{
    if s.len() > 0 && !(depth == 0 && is_comma(s[0])) {
        lemma_type_len_le(s.drop_first(), next_depth(depth, prev_jm, s[0]), is_joint_minus(s[0]));
    }
}

/// How many tokens the receiver's binding covers: everything up to the
/// first colon that is not part of a `::` path separator.
pub open spec fn colon_split(s: Seq<TokView>, prev_jc: bool) -> nat
    decreases s.len(),
{
    if s.len() == 0 {
        0
    } else if !prev_jc && is_lone_colon(s[0]) {
        0
    } else {
        1 + colon_split(s.drop_first(), is_joint_colon(s[0]))
    }
}

pub proof fn lemma_colon_split_le(s: Seq<TokView>, prev_jc: bool)
    ensures
        colon_split(s, prev_jc) <= s.len(),
    decreases s.len(),
{
    if s.len() > 0 && !(!prev_jc && is_lone_colon(s[0])) {
        lemma_colon_split_le(s.drop_first(), is_joint_colon(s[0]));
    }
}

/// How many tokens the return type covers: everything up to the brace group
/// that opens the variant list.
pub open spec fn output_len(s: Seq<TokView>) -> nat
    decreases s.len(),
{
    if s.len() == 0 {
        0
    } else if is_brace_group(s[0]) {
        0
    } else {
        1 + output_len(s.drop_first())
    }
}

pub proof fn lemma_output_len_le(s: Seq<TokView>)
    ensures
        output_len(s) <= s.len(),
    decreases s.len(),
{
    if s.len() > 0 && !is_brace_group(s[0]) {
        lemma_output_len_le(s.drop_first());
    }
}

// ---------------------------------------------------------------------------
// The grammar as a function
// ---------------------------------------------------------------------------

/// One parameter list, as the tokens between a variant's parentheses. Reads
/// `mut`? name `:` type, separated by commas, until no identifier follows;
/// anything left over after that is a syntax error. A trailing `mut`
/// without a name after it is read and dropped, and a variant may declare
/// no parameters at all.
pub open spec fn spec_parse_params(s: Seq<TokView>) -> Result<Seq<ArgumentSpecView>, ParseError>
    decreases s.len(),
    via spec_parse_params_dec
{
    let m = s.len() > 0 && s[0] is KwMut;
    let t = if m {
        s.drop_first()
    } else {
        s
    };
    if t.len() == 0 {
        Ok(Seq::empty())
    } else if !(t[0] is Word) {
        Err(ParseError::UnexpectedToken)
    } else if t.len() < 2 || !is_lone_colon(t[1]) {
        Err(ParseError::ExpectedColon)
    } else {
        let after = t.skip(2);
        let k = type_len(after, 0, false) as int;
        if k == 0 {
            Err(ParseError::ExpectedType)
        } else {
            let ty = after.take(k);
            let rest = if k < after.len() && is_comma(after[k]) {
                after.skip(k + 1)
            } else {
                after.skip(k)
            };
            match spec_parse_params(rest) {
                Ok(more) => Ok(
                    seq![(ArgumentSpecView { name: t[0]->Word_0, ty: ty, is_mut: m })] + more,
                ),
                Err(e) => Err(e),
            }
        }
    }
}

#[via_fn]
proof fn spec_parse_params_dec(s: Seq<TokView>) {
    let m = s.len() > 0 && s[0] is KwMut;
    let t = if m {
        s.drop_first()
    } else {
        s
    };
    if t.len() >= 2 {
        let after = t.skip(2);
        lemma_type_len_le(after, 0, false);
    }
}

/// One variant: a parenthesized parameter list, a brace-delimited body
/// taken verbatim, and an optional statement separator after the block.
/// Returns the variant and the tokens after it.
pub open spec fn spec_parse_function(s: Seq<TokView>) -> Result<
    (FunctionView, Seq<TokView>),
    ParseError,
> {
    if s.len() == 0 {
        Err(ParseError::UnexpectedToken)
    } else {
        match s[0] {
            TokView::Group(Delim::Paren, ptoks) => match spec_parse_params(ptoks) {
                Err(e) => Err(e),
                Ok(args) => {
                    if s.len() >= 2 && s[1] matches TokView::Group(Delim::Brace, _) {
                        let body = s[1]->Group_1;
                        let rest = if s.len() >= 3 && is_semi(s[2]) {
                            s.skip(3)
                        } else {
                            s.skip(2)
                        };
                        Ok(((FunctionView { args, body }), rest))
                    } else {
                        Err(ParseError::ExpectedBlock)
                    }
                },
            },
            _ => Err(ParseError::UnexpectedToken),
        }
    }
}

/// The whole variant list: variants in declared order until the tokens run
/// out; a token that does not open a variant is a syntax error.
pub open spec fn spec_parse_functions(s: Seq<TokView>) -> Result<Seq<FunctionView>, ParseError>
    decreases s.len(),
    via spec_parse_functions_dec
{
    if s.len() == 0 {
        Ok(Seq::empty())
    } else {
        match spec_parse_function(s) {
            Err(e) => Err(e),
            Ok(p) => match spec_parse_functions(p.1) {
                Ok(more) => Ok(seq![p.0] + more),
                Err(e) => Err(e),
            },
        }
    }
}

#[via_fn]
proof fn spec_parse_functions_dec(s: Seq<TokView>) {
    if s.len() > 0 {
        match spec_parse_function(s) {
            Ok(p) => {
                assert(p.1.len() < s.len());
            },
            Err(_) => {},
        }
    }
}

/// The receiver, as the tokens between its parentheses: `mut`? binding `:`
/// type, with binding and type both present. Returns the mutability flag,
/// the binding tokens and the owning type's tokens.
pub open spec fn spec_parse_receiver(s: Seq<TokView>) -> Result<
    (bool, Seq<TokView>, Seq<TokView>),
    ParseError,
> {
    let m = s.len() > 0 && s[0] is KwMut;
    let t = if m {
        s.drop_first()
    } else {
        s
    };
    let k = colon_split(t, false) as int;
    if k >= t.len() {
        Err(ParseError::MalformedReceiver)
    } else if k == 0 {
        Err(ParseError::MalformedReceiver)
    } else if k + 1 == t.len() {
        Err(ParseError::MalformedReceiver)
    } else {
        Ok((m, t.take(k), t.skip(k + 1)))
    }
}

/// The optional exposure modifier: `pub`, optionally followed by a
/// parenthesized restriction, carried verbatim; absence is the most
/// restrictive exposure. Returns the exposure and the tokens after it.
pub open spec fn spec_parse_visibility(s: Seq<TokView>) -> (VisView, Seq<TokView>) {
    if s.len() > 0 && s[0] is KwPub {
        if s.len() > 1 && is_paren_group(s[1]) {
            (VisView::Restricted(s[1]->Group_1), s.skip(2))
        } else {
            (VisView::Public, s.skip(1))
        }
    } else {
        (VisView::Private, s)
    }
}

/// The variant list at the end of the group: exactly one brace group, with
/// nothing after it.
pub open spec fn spec_parse_body(
    vis: VisView,
    name: Seq<char>,
    self_mut: bool,
    self_input: Option<Seq<TokView>>,
    self_type: Option<Seq<TokView>>,
    output: Option<Seq<TokView>>,
    s: Seq<TokView>,
) -> Result<FunctionGroupView, ParseError> {
    if s.len() == 0 || !is_brace_group(s[0]) {
        Err(ParseError::ExpectedBody)
    } else if s.len() != 1 {
        Err(ParseError::UnexpectedToken)
    } else {
        match spec_parse_functions(s[0]->Group_1) {
            Ok(fs) => Ok(
                (FunctionGroupView {
                    visibility: vis,
                    name: name,
                    output: output,
                    self_input: self_input,
                    self_type: self_type,
                    self_mut: self_mut,
                    functions: fs,
                }),
            ),
            Err(e) => Err(e),
        }
    }
}

/// What follows the name and receiver: an optional `-> type`, read by
/// lookahead for the arrow, then the variant list.
pub open spec fn spec_parse_tail(
    vis: VisView,
    name: Seq<char>,
    self_mut: bool,
    self_input: Option<Seq<TokView>>,
    self_type: Option<Seq<TokView>>,
    s: Seq<TokView>,
) -> Result<FunctionGroupView, ParseError> {
    if s.len() > 0 && (s[0] matches TokView::Punct(c, _) && c == '-') {
        if s.len() > 1 && (s[1] matches TokView::Punct(c2, _) && c2 == '>') {
            let after = s.skip(2);
            let k = output_len(after) as int;
            if k == 0 {
                Err(ParseError::ExpectedReturnType)
            } else {
                spec_parse_body(
                    vis,
                    name,
                    self_mut,
                    self_input,
                    self_type,
                    Some(after.take(k)),
                    after.skip(k),
                )
            }
        } else {
            Err(ParseError::ExpectedArrow)
        }
    } else {
        spec_parse_body(vis, name, self_mut, self_input, self_type, None, s)
    }
}

/// The whole invocation: exposure, `fn`, name, optional receiver
/// (recognized by lookahead for a parenthesis group right after the name),
/// optional return type, and the variant list.
pub open spec fn spec_parse_group(s: Seq<TokView>) -> Result<FunctionGroupView, ParseError> {
    let vis = spec_parse_visibility(s).0;
    let s1 = spec_parse_visibility(s).1;
    if !(s1.len() > 0 && s1[0] is KwFn) {
        Err(ParseError::ExpectedFn)
    } else {
        let s2 = s1.drop_first();
        if !(s2.len() > 0 && s2[0] is Word) {
            Err(ParseError::ExpectedName)
        } else {
            let name = s2[0]->Word_0;
            let s3 = s2.drop_first();
            if s3.len() > 0 && is_paren_group(s3[0]) {
                match spec_parse_receiver(s3[0]->Group_1) {
                    Err(e) => Err(e),
                    Ok(r) => spec_parse_tail(
                        vis,
                        name,
                        r.0,
                        Some(r.1),
                        Some(r.2),
                        s3.drop_first(),
                    ),
                }
            } else {
                spec_parse_tail(vis, name, false, None, None, s3)
            }
        }
    }
}

// ---------------------------------------------------------------------------
// The executable parser
// ---------------------------------------------------------------------------

/// Removes and returns the first token of the remaining input.
fn take_front(v: &mut Vec<Tok>) -> (t: Tok)
    requires
        old(v).len() > 0,
    ensures
        t == old(v)@[0],
        final(v)@ == old(v)@.drop_first(),
{
    let t = v.remove(0);
    proof {
        assert(v@ =~= old(v)@.drop_first());
    }
    t
}

/// Whether the front token is the `mut` keyword.
fn front_is_mut(v: &Vec<Tok>) -> (r: bool)
    ensures
        r == (v@.len() > 0 && toks_view(v@)[0] is KwMut),
{
    proof {
        broadcast use group_toks_view;

    }
    if v.len() > 0 {
        match &v[0] {
            Tok::KwMut => true,
            _ => false,
        }
    } else {
        false
    }
}

/// Where the type expression at the front of `v` ends.
#[verifier::loop_isolation(false)]
fn scan_type(v: &Vec<Tok>) -> (k: usize)
    ensures
        k == type_len(toks_view(v@), 0, false),
        k <= v@.len(),
{
    broadcast use group_toks_view;

    let ghost full = toks_view(v@);
    let mut k: usize = 0;
    let mut depth: usize = 0;
    let mut pjm: bool = false;
    proof {
        lemma_type_len_le(full, 0, false);
        assert(full.skip(0) =~= full);
    }
    while k < v.len()
        invariant
            k <= v.len(),
            depth <= k,
            type_len(full, 0, false) == k + type_len(full.skip(k as int), depth as nat, pjm),
        decreases v.len() - k,
    {
        let at_comma = depth == 0 && (match &v[k] {
            Tok::Punct(c, _) => *c == ',',
            _ => false,
        });
        proof {
            assert(full.skip(k as int)[0] == tok_view(v@[k as int]));
        }
        if at_comma {
            assert(type_len(full.skip(k as int), depth as nat, pjm) == 0);
            return k;
        }
        proof {
            assert(full.skip(k as int).drop_first() =~= full.skip(k + 1));
            assert(type_len(full.skip(k as int), depth as nat, pjm) == 1 + type_len(
                full.skip(k + 1),
                next_depth(depth as nat, pjm, full[k as int]),
                is_joint_minus(full[k as int]),
            ));
        }
        let new_pjm = match &v[k] {
            Tok::Punct(c, sp) => *c == '-' && *sp == Spacing::Joint,
            _ => false,
        };
        match &v[k] {
            Tok::Punct(c, _) => {
                if *c == '<' {
                    depth = depth + 1;
                } else if *c == '>' && !pjm {
                    if depth > 0 {
                        depth = depth - 1;
                    }
                }
            },
            _ => {},
        }
        pjm = new_pjm;
        k = k + 1;
    }
    proof {
        assert(full.skip(k as int) =~= Seq::<TokView>::empty());
    }
    k
}

/// The parameter list of one variant, from the tokens between its
/// parentheses; returns exactly what the grammar says.
#[verifier::loop_isolation(false)]
pub fn parse_params(s: Vec<Tok>) -> (r: Result<Vec<ArgumentSpec>, ParseError>)
    ensures
        (match r {
            Ok(a) => spec_parse_params(toks_view(s@)) == Ok::<_, ParseError>(args_view(a@)),
            Err(e) => spec_parse_params(toks_view(s@)) == Err::<Seq<ArgumentSpecView>, _>(e),
        }),
    decreases s@.len(),
{
    broadcast use group_toks_view, group_model_views;

    let ghost s0 = toks_view(s@);
    let mut s = s;
    let m = front_is_mut(&s);
    if m {
        let _ = take_front(&mut s);
        proof {
            assert(toks_view(s@) =~= s0.drop_first());
        }
    }
    let ghost t = toks_view(s@);
    if s.len() == 0 {
        let empty: Vec<ArgumentSpec> = Vec::new();
        proof {
            assert(args_view(empty@) =~= Seq::<ArgumentSpecView>::empty());
        }
        return Ok(empty);
    }
    let t0 = take_front(&mut s);
    let name: String = match t0 {
        Tok::Word(n) => n,
        _ => {
            return Err(ParseError::UnexpectedToken);
        },
    };
    if s.len() == 0 {
        return Err(ParseError::ExpectedColon);
    }
    let t1 = take_front(&mut s);
    let colon_ok = match &t1 {
        Tok::Punct(c, sp) => *c == ':' && *sp == Spacing::Alone,
        _ => false,
    };
    if !colon_ok {
        return Err(ParseError::ExpectedColon);
    }
    proof {
        assert(toks_view(s@) =~= t.skip(2));
    }
    let k = scan_type(&s);
    if k == 0 {
        return Err(ParseError::ExpectedType);
    }
    let mut rest = s.split_off(k);
    let ty = s;
    proof {
        assert(toks_view(ty@) =~= t.skip(2).take(k as int));
        assert(toks_view(rest@) =~= t.skip(2).skip(k as int));
    }
    let has_comma = rest.len() > 0 && (match &rest[0] {
        Tok::Punct(c, _) => *c == ',',
        _ => false,
    });
    if has_comma {
        let _ = take_front(&mut rest);
        proof {
            assert(toks_view(rest@) =~= t.skip(2).skip(k + 1 as int));
            assert(t.skip(2).skip(k + 1 as int) =~= t.skip(2).skip(k as int).drop_first());
        }
    }
    proof {
        lemma_type_len_le(t.skip(2), 0, false);
    }
    match parse_params(rest) {
        Ok(mut more) => {
            let a = ArgumentSpec { name, ty, is_mut: m };
            proof {
                assert(a@ == (ArgumentSpecView {
                    name: t[0]->Word_0,
                    ty: t.skip(2).take(k as int),
                    is_mut: m,
                }));
            }
            more.insert(0, a);
            Ok(more)
        },
        Err(e) => Err(e),
    }
}

impl Function {
    /// One variant, read from the front of the remaining input; returns the
    /// variant and what follows it, exactly as the grammar says.
    pub fn parse(s: Vec<Tok>) -> (r: Result<(Function, Vec<Tok>), ParseError>)
        ensures
            (match r {
                Ok(p) => spec_parse_function(toks_view(s@)) == Ok::<_, ParseError>(
                    (p.0@, toks_view(p.1@)),
                ),
                Err(e) => spec_parse_function(toks_view(s@)) == Err::<
                    (FunctionView, Seq<TokView>),
                    _,
                >(e),
            }),
    {
        broadcast use group_toks_view, group_model_views;

        let ghost s0 = toks_view(s@);
        let mut s = s;
        if s.len() == 0 {
            return Err(ParseError::UnexpectedToken);
        }
        let t0 = take_front(&mut s);
        let ptoks: Vec<Tok> = match t0 {
            Tok::Group(Delim::Paren, p) => p,
            _ => {
                return Err(ParseError::UnexpectedToken);
            },
        };
        proof {
            crate::tokens::lemma_group_deep_view(Delim::Paren, ptoks);
            assert(s0[0] == TokView::Group(Delim::Paren, toks_view(ptoks@)));
        }
        let args = match parse_params(ptoks) {
            Ok(a) => a,
            Err(e) => {
                return Err(e);
            },
        };
        if s.len() == 0 {
            return Err(ParseError::ExpectedBlock);
        }
        let t1 = take_front(&mut s);
        let body: Vec<Tok> = match t1 {
            Tok::Group(Delim::Brace, b) => b,
            _ => {
                return Err(ParseError::ExpectedBlock);
            },
        };
        proof {
            crate::tokens::lemma_group_deep_view(Delim::Brace, body);
            assert(s0[1] == TokView::Group(Delim::Brace, toks_view(body@)));
            assert(toks_view(s@) =~= s0.skip(2));
        }
        let has_semi = s.len() > 0 && (match &s[0] {
            Tok::Punct(c, _) => *c == ';',
            _ => false,
        });
        if has_semi {
            let _ = take_front(&mut s);
            proof {
                assert(toks_view(s@) =~= s0.skip(3));
            }
        }
        let f = Function { args, body };
        Ok((f, s))
    }
}

/// Where the first colon that is not part of a `::` separator stands in `v`.
#[verifier::loop_isolation(false)]
fn scan_colon(v: &Vec<Tok>) -> (k: usize)
    ensures
        k == colon_split(toks_view(v@), false),
        k <= v@.len(),
{
    broadcast use group_toks_view;

    let ghost full = toks_view(v@);
    let mut k: usize = 0;
    let mut pjc: bool = false;
    proof {
        lemma_colon_split_le(full, false);
        assert(full.skip(0) =~= full);
    }
    while k < v.len()
        invariant
            k <= v.len(),
            colon_split(full, false) == k + colon_split(full.skip(k as int), pjc),
        decreases v.len() - k,
    {
        proof {
            assert(full.skip(k as int)[0] == tok_view(v@[k as int]));
        }
        let at_colon = !pjc && (match &v[k] {
            Tok::Punct(c, sp) => *c == ':' && *sp == Spacing::Alone,
            _ => false,
        });
        if at_colon {
            assert(colon_split(full.skip(k as int), pjc) == 0);
            return k;
        }
        proof {
            assert(full.skip(k as int).drop_first() =~= full.skip(k + 1));
            assert(colon_split(full.skip(k as int), pjc) == 1 + colon_split(
                full.skip(k + 1),
                is_joint_colon(full[k as int]),
            ));
        }
        pjc = match &v[k] {
            Tok::Punct(c, sp) => *c == ':' && *sp == Spacing::Joint,
            _ => false,
        };
        k = k + 1;
    }
    proof {
        assert(full.skip(k as int) =~= Seq::<TokView>::empty());
    }
    k
}

/// The receiver, from the tokens between its parentheses; returns the
/// mutability flag, the binding tokens and the owning type's tokens,
/// exactly as the grammar says.
pub fn parse_receiver(s: Vec<Tok>) -> (r: Result<(bool, Vec<Tok>, Vec<Tok>), ParseError>)
    ensures
        (match r {
            Ok(p) => spec_parse_receiver(toks_view(s@)) == Ok::<_, ParseError>(
                (p.0, toks_view(p.1@), toks_view(p.2@)),
            ),
            Err(e) => spec_parse_receiver(toks_view(s@)) == Err::<
                (bool, Seq<TokView>, Seq<TokView>),
                _,
            >(e),
        }),
{
    broadcast use group_toks_view;

    let ghost s0 = toks_view(s@);
    let mut s = s;
    let m = front_is_mut(&s);
    if m {
        let _ = take_front(&mut s);
        proof {
            assert(toks_view(s@) =~= s0.drop_first());
        }
    }
    let ghost t = toks_view(s@);
    let k = scan_colon(&s);
    if k >= s.len() {
        return Err(ParseError::MalformedReceiver);
    }
    if k == 0 {
        return Err(ParseError::MalformedReceiver);
    }
    if k + 1 == s.len() {
        return Err(ParseError::MalformedReceiver);
    }
    let mut tail = s.split_off(k);
    let binding = s;
    let _ = take_front(&mut tail);
    proof {
        assert(toks_view(binding@) =~= t.take(k as int));
        assert(toks_view(tail@) =~= t.skip(k + 1 as int));
    }
    Ok((m, binding, tail))
}

/// Where the brace group that opens the variant list stands in `v`.
#[verifier::loop_isolation(false)]
fn scan_output(v: &Vec<Tok>) -> (k: usize)
    ensures
        k == output_len(toks_view(v@)),
        k <= v@.len(),
{
    broadcast use group_toks_view;

    let ghost full = toks_view(v@);
    let mut k: usize = 0;
    proof {
        lemma_output_len_le(full);
        assert(full.skip(0) =~= full);
    }
    while k < v.len()
        invariant
            k <= v.len(),
            output_len(full) == k + output_len(full.skip(k as int)),
        decreases v.len() - k,
    {
        proof {
            assert(full.skip(k as int)[0] == tok_view(v@[k as int]));
        }
        let at_brace = match &v[k] {
            Tok::Group(Delim::Brace, _) => true,
            _ => false,
        };
        if at_brace {
            assert(output_len(full.skip(k as int)) == 0);
            return k;
        }
        proof {
            assert(full.skip(k as int).drop_first() =~= full.skip(k + 1));
            assert(output_len(full.skip(k as int)) == 1 + output_len(full.skip(k + 1)));
        }
        k = k + 1;
    }
    proof {
        assert(full.skip(k as int) =~= Seq::<TokView>::empty());
    }
    k
}

/// The exposure modifier, removed from the front of the remaining input.
fn parse_visibility(s: &mut Vec<Tok>) -> (v: Vis)
    ensures
        spec_parse_visibility(toks_view(old(s)@)).0 == v@,
        spec_parse_visibility(toks_view(old(s)@)).1 == toks_view(final(s)@),
{
    broadcast use group_toks_view;

    let ghost in0 = toks_view(s@);
    let is_pub = s.len() > 0 && (match &s[0] {
        Tok::KwPub => true,
        _ => false,
    });
    if !is_pub {
        return Vis::Private;
    }
    let _ = take_front(s);
    proof {
        assert(toks_view(s@) =~= in0.drop_first());
    }
    let is_restr = s.len() > 0 && (match &s[0] {
        Tok::Group(Delim::Paren, _) => true,
        _ => false,
    });
    if !is_restr {
        return Vis::Public;
    }
    let tg = take_front(s);
    proof {
        assert(toks_view(s@) =~= in0.skip(2));
    }
    match tg {
        Tok::Group(d, v) => {
            proof {
                crate::tokens::lemma_group_deep_view(d, v);
            }
            Vis::Restricted(v)
        },
        _ => Vis::Public,  // unreachable: the front token is a parenthesis group
    }
}

/// The variant list, from the tokens between the group's braces.
#[verifier::loop_isolation(false)]
pub fn parse_functions(vt: Vec<Tok>) -> (r: Result<Vec<Function>, ParseError>)
    ensures
        (match r {
            Ok(fs) => spec_parse_functions(toks_view(vt@)) == Ok::<_, ParseError>(fns_view(fs@)),
            Err(e) => spec_parse_functions(toks_view(vt@)) == Err::<Seq<FunctionView>, _>(e),
        }),
{
    broadcast use group_toks_view, group_model_views;

    let ghost v0 = toks_view(vt@);
    let mut vt = vt;
    let mut functions: Vec<Function> = Vec::new();
    while vt.len() > 0
        invariant
            (match spec_parse_functions(toks_view(vt@)) {
                Ok(more) => spec_parse_functions(v0) == Ok::<Seq<FunctionView>, ParseError>(
                    fns_view(functions@) + more,
                ),
                Err(e) => spec_parse_functions(v0) == Err::<Seq<FunctionView>, ParseError>(e),
            }),
        decreases vt@.len(),
    {
        let ghost vcur = toks_view(vt@);
        match Function::parse(vt) {
            Ok(p) => {
                let (f, rest) = p;
                let ghost fv = f@;
                let ghost prev = functions@;
                proof {
                    assert(spec_parse_functions(vcur) == (match spec_parse_functions(
                        toks_view(rest@),
                    ) {
                        Ok(more) => Ok::<Seq<FunctionView>, ParseError>(seq![fv] + more),
                        Err(e) => Err(e),
                    }));
                }
                functions.push(f);
                vt = rest;
                proof {
                    assert(fns_view(functions@) == fns_view(prev).push(fv));
                    assert forall|more: Seq<FunctionView>|
                        true implies fns_view(prev) + (seq![fv] + more) =~= fns_view(
                        functions@,
                    ) + more by {}
                }
            },
            Err(e) => {
                return Err(e);
            },
        }
    }
    proof {
        assert(toks_view(vt@) =~= Seq::<TokView>::empty());
        assert(spec_parse_functions(toks_view(vt@)) == Ok::<Seq<FunctionView>, ParseError>(
            Seq::empty(),
        ));
        assert(fns_view(functions@) + Seq::<FunctionView>::empty() =~= fns_view(functions@));
    }
    Ok(functions)
}

impl FunctionGroup {
    /// The whole invocation, parsed from its token stream; returns exactly
    /// what the grammar says, and on success a well-formed group.
    #[verifier::loop_isolation(false)]
    #[verifier::rlimit(50)]
    pub fn parse(input: Vec<Tok>) -> (r: Result<FunctionGroup, ParseError>)
        ensures
            (match r {
                Ok(g) => spec_parse_group(toks_view(input@)) == Ok::<_, ParseError>(g@)
                    && g@.wf(),
                Err(e) => spec_parse_group(toks_view(input@)) == Err::<FunctionGroupView, _>(e),
            }),
    {
        broadcast use group_toks_view, group_model_views;

        let ghost in0 = toks_view(input@);
        let mut s = input;
        // exposure
        let visibility: Vis = parse_visibility(&mut s);
        let ghost sv = toks_view(s@);
        // the fn keyword
        if s.len() == 0 {
            return Err(ParseError::ExpectedFn);
        }
        let tfn = take_front(&mut s);
        match tfn {
            Tok::KwFn => {},
            _ => {
                return Err(ParseError::ExpectedFn);
            },
        };
        // the group name
        if s.len() == 0 {
            return Err(ParseError::ExpectedName);
        }
        let tname = take_front(&mut s);
        let name: String = match tname {
            Tok::Word(n) => n,
            _ => {
                return Err(ParseError::ExpectedName);
            },
        };
        proof {
            assert(toks_view(s@) =~= sv.drop_first().drop_first());
        }
        // the optional receiver
        let mut self_mut = false;
        let mut self_input: Option<Vec<Tok>> = None;
        let mut self_type: Option<Vec<Tok>> = None;
        let ghost s3 = toks_view(s@);
        let has_recv = s.len() > 0 && (match &s[0] {
            Tok::Group(Delim::Paren, _) => true,
            _ => false,
        });
        if has_recv {
            let tg = take_front(&mut s);
            let rt: Vec<Tok> = match tg {
                Tok::Group(d, v) => {
                    proof {
                        crate::tokens::lemma_group_deep_view(d, v);
                    }
                    v
                },
                _ => Vec::new(),  // unreachable: the front token is a parenthesis group
            };
            match parse_receiver(rt) {
                Ok(p) => {
                    let (pm, pb, pt) = p;
                    self_mut = pm;
                    self_input = Some(pb);
                    self_type = Some(pt);
                },
                Err(e) => {
                    return Err(e);
                },
            }
        }
        proof {
            assert(spec_parse_group(in0) == spec_parse_tail(
                visibility@,
                name@,
                self_mut,
                crate::group::opt_toks_view(self_input),
                crate::group::opt_toks_view(self_type),
                toks_view(s@),
            ));
        }
        let ghost s4 = toks_view(s@);
        // the optional return type
        let mut output: Option<Vec<Tok>> = None;
        let has_minus = s.len() > 0 && (match &s[0] {
            Tok::Punct(c, _) => *c == '-',
            _ => false,
        });
        if has_minus {
            let _ = take_front(&mut s);
            let has_gt = s.len() > 0 && (match &s[0] {
                Tok::Punct(c, _) => *c == '>',
                _ => false,
            });
            if !has_gt {
                return Err(ParseError::ExpectedArrow);
            }
            let _ = take_front(&mut s);
            proof {
                assert(toks_view(s@) =~= s4.skip(2));
            }
            let k = scan_output(&s);
            if k == 0 {
                return Err(ParseError::ExpectedReturnType);
            }
            let ghost s5 = toks_view(s@);
            let rest2 = s.split_off(k);
            proof {
                assert(toks_view(s@) =~= s5.take(k as int));
                assert(toks_view(rest2@) =~= s5.skip(k as int));
            }
            output = Some(s);
            s = rest2;
        }
        proof {
            assert(spec_parse_group(in0) == spec_parse_body(
                visibility@,
                name@,
                self_mut,
                crate::group::opt_toks_view(self_input),
                crate::group::opt_toks_view(self_type),
                crate::group::opt_toks_view(output),
                toks_view(s@),
            ));
        }
        // the variant list
        if s.len() == 0 {
            return Err(ParseError::ExpectedBody);
        }
        let tb = take_front(&mut s);
        let mut vt: Vec<Tok> = match tb {
            Tok::Group(Delim::Brace, v) => {
                proof {
                    crate::tokens::lemma_group_deep_view(Delim::Brace, v);
                }
                v
            },
            _ => {
                return Err(ParseError::ExpectedBody);
            },
        };
        if s.len() > 0 {
            return Err(ParseError::UnexpectedToken);
        }
        let ghost v0 = toks_view(vt@);
        proof {
            assert(spec_parse_group(in0) == (match spec_parse_functions(v0) {
                Ok(fs) => Ok::<FunctionGroupView, ParseError>(
                    (FunctionGroupView {
                        visibility: visibility@,
                        name: name@,
                        output: crate::group::opt_toks_view(output),
                        self_input: crate::group::opt_toks_view(self_input),
                        self_type: crate::group::opt_toks_view(self_type),
                        self_mut: self_mut,
                        functions: fs,
                    }),
                ),
                Err(e) => Err(e),
            }));
        }
        let functions: Vec<Function> = match parse_functions(vt) {
            Ok(fs) => fs,
            Err(e) => {
                return Err(e);
            },
        };
        let g = FunctionGroup { visibility, name, output, self_input, self_type, self_mut, functions };
        proof {
            assert(spec_parse_group(in0) == Ok::<FunctionGroupView, ParseError>(g@));
        }
        Ok(g)
    }
}

} // verus!
