//! The code generator: from a parsed group to the tokens of the generated
//! items.
//!
//! Without a receiver it emits a capability trait whose one operation
//! consumes `self`, a dispatching free function generic over the trait, and
//! one implementation of the trait per variant, for the tuple of that
//! variant's parameter types. With a receiver it emits the trait generic
//! over an argument shape `Arg` and one implementation per variant for the
//! receiver's owning type, with `Arg` set to the variant's tuple type; no
//! dispatcher is emitted, calls go through the method itself.
//!
//! The functions named `*_tokens` and `spec_generate*` state the emitted
//! token sequence in full; the executable generator is proved to return
//! exactly that sequence.

use vstd::prelude::*;

use crate::group::{
    ArgumentSpec, ArgumentSpecView, Function, FunctionGroup, FunctionGroupView, FunctionView, Vis,
    VisView, args_view, fns_view, group_model_views,
};
use crate::tokens::{Delim, Spacing, Tok, TokView, clone_toks, group_toks_view, tok_view, toks_view};

verus! {

// ---------------------------------------------------------------------------
// The emitted tokens, stated
// ---------------------------------------------------------------------------

/// The unit type, substituted where a group declares no output.
pub open spec fn unit_type() -> Seq<TokView> {
    seq![TokView::Group(Delim::Paren, Seq::empty())]
}

/// The return type every generated operation carries.
pub open spec fn output_tokens(o: Option<Seq<TokView>>) -> Seq<TokView> {
    match o {
        Option::None => unit_type(),
        Option::Some(t) => t,
    }
}

/// The exposure modifier, as tokens.
pub open spec fn vis_tokens(v: VisView) -> Seq<TokView> {
    match v {
        VisView::Private => Seq::empty(),
        VisView::Public => seq![TokView::KwPub],
        VisView::Restricted(ts) => seq![
            TokView::KwPub,
            TokView::Group(Delim::Paren, ts),
        ],
    }
}

/// The `->` arrow.
pub open spec fn arrow_tokens() -> Seq<TokView> {
    seq![TokView::Punct('-', Spacing::Joint), TokView::Punct('>', Spacing::Alone)]
}

/// The attribute that silences the lowercase trait name the group shares
/// with its dispatcher.
pub open spec fn allow_attr_tokens() -> Seq<TokView> {
    seq![
        TokView::Punct('#', Spacing::Alone),
        TokView::Group(
            Delim::Bracket,
            seq![
                TokView::Word("allow"@),
                TokView::Group(Delim::Paren, seq![TokView::Word("non_camel_case_types"@)]),
            ],
        ),
    ]
}

/// The tuple of one variant's parameter types, each echoed verbatim and
/// followed by a comma.
pub open spec fn tuple_types(args: Seq<ArgumentSpecView>) -> Seq<TokView>
    decreases args.len(),
{
    if args.len() == 0 {
        Seq::empty()
    } else {
        args[0].ty + seq![TokView::Punct(',', Spacing::Alone)] + tuple_types(args.drop_first())
    }
}

/// One position of the destructuring pattern: `mut`, where the parameter
/// was declared mutable, then its name, then a comma.
pub open spec fn pattern_of(a: ArgumentSpecView) -> Seq<TokView> {
    if a.is_mut {
        seq![TokView::KwMut, TokView::Word(a.name), TokView::Punct(',', Spacing::Alone)]
    } else {
        seq![TokView::Word(a.name), TokView::Punct(',', Spacing::Alone)]
    }
}

/// The whole destructuring pattern of one variant's tuple.
pub open spec fn tuple_pattern(args: Seq<ArgumentSpecView>) -> Seq<TokView>
    decreases args.len(),
{
    if args.len() == 0 {
        Seq::empty()
    } else {
        pattern_of(args[0]) + tuple_pattern(args.drop_first())
    }
}

/// Free mode: the capability trait. Its one operation consumes `self` and
/// produces the output type.
pub open spec fn free_trait_tokens(vis: VisView, name: Seq<char>, out_ty: Seq<TokView>) -> Seq<
    TokView,
> {
    allow_attr_tokens() + vis_tokens(vis) + seq![
        TokView::Word("trait"@),
        TokView::Word(name),
        TokView::Group(
            Delim::Brace,
            seq![
                TokView::KwFn,
                TokView::Word(name),
                TokView::Group(Delim::Paren, seq![TokView::Word("self"@)]),
            ] + arrow_tokens() + out_ty + seq![TokView::Punct(';', Spacing::Alone)],
        ),
    ]
}

/// Free mode: the dispatcher, generic over any implementor of the trait.
pub open spec fn free_dispatcher_tokens(vis: VisView, name: Seq<char>, out_ty: Seq<TokView>) -> Seq<
    TokView,
> {
    vis_tokens(vis) + seq![
        TokView::KwFn,
        TokView::Word(name),
        TokView::Punct('<', Spacing::Alone),
        TokView::Word("T"@),
        TokView::Punct(':', Spacing::Alone),
        TokView::Word(name),
        TokView::Punct('>', Spacing::Alone),
        TokView::Group(
            Delim::Paren,
            seq![
                TokView::Word("a"@),
                TokView::Punct(':', Spacing::Alone),
                TokView::Word("T"@),
            ],
        ),
    ] + arrow_tokens() + out_ty + seq![
        TokView::Group(
            Delim::Brace,
            seq![
                TokView::Word("a"@),
                TokView::Punct('.', Spacing::Alone),
                TokView::Word(name),
                TokView::Group(Delim::Paren, Seq::empty()),
            ],
        ),
    ]
}

/// Free mode: one variant's implementation, for the tuple of its parameter
/// types. The operation destructures the tuple into the declared bindings
/// and splices the body in verbatim as a block.
pub open spec fn free_impl_tokens(name: Seq<char>, out_ty: Seq<TokView>, f: FunctionView) -> Seq<
    TokView,
> {
    seq![
        TokView::Word("impl"@),
        TokView::Word(name),
        TokView::Word("for"@),
        TokView::Group(Delim::Paren, tuple_types(f.args)),
        TokView::Group(
            Delim::Brace,
            seq![
                TokView::KwFn,
                TokView::Word(name),
                TokView::Group(Delim::Paren, seq![TokView::Word("self"@)]),
            ] + arrow_tokens() + out_ty + seq![
                TokView::Group(
                    Delim::Brace,
                    seq![
                        TokView::Word("let"@),
                        TokView::Group(Delim::Paren, tuple_pattern(f.args)),
                        TokView::Punct('=', Spacing::Alone),
                        TokView::Word("self"@),
                        TokView::Punct(';', Spacing::Alone),
                        TokView::Group(Delim::Brace, f.body),
                    ],
                ),
            ],
        ),
    ]
}

/// Free mode: the implementations of every variant, in declared order.
pub open spec fn free_impls(name: Seq<char>, out_ty: Seq<TokView>, fs: Seq<FunctionView>) -> Seq<
    TokView,
>
    decreases fs.len(),
{
    if fs.len() == 0 {
        Seq::empty()
    } else {
        free_impl_tokens(name, out_ty, fs[0]) + free_impls(name, out_ty, fs.drop_first())
    }
}

/// Free mode: everything the invocation expands to.
pub open spec fn spec_generate_fn(g: FunctionGroupView) -> Seq<TokView> {
    free_trait_tokens(g.visibility, g.name, output_tokens(g.output)) + free_dispatcher_tokens(
        g.visibility,
        g.name,
        output_tokens(g.output),
    ) + free_impls(g.name, output_tokens(g.output), g.functions)
}

/// Method mode: the receiver parameter, `mut` first where it was declared,
/// then the binding echoed verbatim.
pub open spec fn self_param_tokens(g: FunctionGroupView) -> Seq<TokView> {
    (if g.self_mut {
        seq![TokView::KwMut]
    } else {
        Seq::empty()
    }) + (match g.self_input {
        Option::Some(t) => t,
        Option::None => Seq::empty(),
    })
}

/// Method mode: the owning type, echoed verbatim.
pub open spec fn self_type_tokens(g: FunctionGroupView) -> Seq<TokView> {
    match g.self_type {
        Option::Some(t) => t,
        Option::None => Seq::empty(),
    }
}

/// Method mode: the capability trait, generic over the argument shape
/// `Arg`. Its one operation takes the receiver and one `Arg` value.
pub open spec fn method_trait_tokens(
    vis: VisView,
    name: Seq<char>,
    self_param: Seq<TokView>,
    out_ty: Seq<TokView>,
) -> Seq<TokView> {
    allow_attr_tokens() + vis_tokens(vis) + seq![
        TokView::Word("trait"@),
        TokView::Word(name),
        TokView::Punct('<', Spacing::Alone),
        TokView::Word("Arg"@),
        TokView::Punct('>', Spacing::Alone),
        TokView::Group(
            Delim::Brace,
            seq![TokView::KwFn, TokView::Word(name)] + seq![
                TokView::Group(
                    Delim::Paren,
                    self_param + seq![
                        TokView::Punct(',', Spacing::Alone),
                        TokView::Word("_args"@),
                        TokView::Punct(':', Spacing::Alone),
                        TokView::Word("Arg"@),
                    ],
                ),
            ] + arrow_tokens() + out_ty + seq![TokView::Punct(';', Spacing::Alone)],
        ),
    ]
}

/// Method mode: one variant's implementation, for the owning type with
/// `Arg` set to the variant's tuple type.
pub open spec fn method_impl_tokens(
    name: Seq<char>,
    self_param: Seq<TokView>,
    self_ty: Seq<TokView>,
    out_ty: Seq<TokView>,
    f: FunctionView,
) -> Seq<TokView> {
    seq![
        TokView::Word("impl"@),
        TokView::Word(name),
        TokView::Punct('<', Spacing::Alone),
        TokView::Group(Delim::Paren, tuple_types(f.args)),
        TokView::Punct('>', Spacing::Alone),
        TokView::Word("for"@),
    ] + self_ty + seq![
        TokView::Group(
            Delim::Brace,
            seq![TokView::KwFn, TokView::Word(name)] + seq![
                TokView::Group(
                    Delim::Paren,
                    self_param + seq![
                        TokView::Punct(',', Spacing::Alone),
                        TokView::Group(Delim::Paren, tuple_pattern(f.args)),
                        TokView::Punct(':', Spacing::Alone),
                        TokView::Group(Delim::Paren, tuple_types(f.args)),
                    ],
                ),
            ] + arrow_tokens() + out_ty + seq![
                TokView::Group(Delim::Brace, seq![TokView::Group(Delim::Brace, f.body)]),
            ],
        ),
    ]
}

/// Method mode: the implementations of every variant, in declared order.
pub open spec fn method_impls(
    name: Seq<char>,
    self_param: Seq<TokView>,
    self_ty: Seq<TokView>,
    out_ty: Seq<TokView>,
    fs: Seq<FunctionView>,
) -> Seq<TokView>
    decreases fs.len(),
{
    if fs.len() == 0 {
        Seq::empty()
    } else {
        method_impl_tokens(name, self_param, self_ty, out_ty, fs[0]) + method_impls(
            name,
            self_param,
            self_ty,
            out_ty,
            fs.drop_first(),
        )
    }
}

/// Method mode: everything the invocation expands to.
pub open spec fn spec_generate_method(g: FunctionGroupView) -> Seq<TokView> {
    method_trait_tokens(g.visibility, g.name, self_param_tokens(g), output_tokens(g.output))
        + method_impls(
        g.name,
        self_param_tokens(g),
        self_type_tokens(g),
        output_tokens(g.output),
        g.functions,
    )
}

/// What one invocation expands to: method mode when a receiver was
/// declared, free-function mode otherwise.
pub open spec fn spec_generate(g: FunctionGroupView) -> Seq<TokView> {
    if g.has_receiver() {
        spec_generate_method(g)
    } else {
        spec_generate_fn(g)
    }
}

// ---------------------------------------------------------------------------
// The executable generator
// ---------------------------------------------------------------------------

/// A word token with the given text.
fn word(s: &str) -> (t: Tok)
    ensures
        tok_view(t) == TokView::Word(s@),
{
    Tok::Word(s.to_owned())
}

/// An exact copy of an exposure, equal to the original in the model.
fn clone_vis(v: &Vis) -> (r: Vis)
    ensures
        r@ == v@,
{
    match v {
        Vis::Private => Vis::Private,
        Vis::Public => Vis::Public,
        Vis::Restricted(ts) => Vis::Restricted(clone_toks(ts)),
    }
}

/// The tokens of the unit type.
fn unit_toks() -> (r: Vec<Tok>)
    ensures
        toks_view(r@) == unit_type(),
{
    broadcast use group_toks_view;

    let inner: Vec<Tok> = Vec::new();
    let mut r: Vec<Tok> = Vec::new();
    proof {
        assert(toks_view(inner@) =~= Seq::<TokView>::empty());
    }
    r.push(Tok::Group(Delim::Paren, inner));
    proof {
        assert(toks_view(r@) =~= unit_type());
    }
    r
}

/// Appends the exposure modifier.
fn push_vis(out: &mut Vec<Tok>, v: Vis)
    ensures
        toks_view(final(out)@) == toks_view(old(out)@) + vis_tokens(v@),
{
    broadcast use group_toks_view;

    let ghost prev = toks_view(out@);
    match v {
        Vis::Private => {
            proof {
                assert(toks_view(out@) =~= prev + vis_tokens(VisView::Private));
            }
        },
        Vis::Public => {
            out.push(Tok::KwPub);
            proof {
                assert(toks_view(out@) =~= prev + vis_tokens(VisView::Public));
            }
        },
        Vis::Restricted(ts) => {
            let ghost tsv = toks_view(ts@);
            out.push(Tok::KwPub);
            out.push(Tok::Group(Delim::Paren, ts));
            proof {
                assert(toks_view(out@) =~= prev + vis_tokens(VisView::Restricted(tsv)));
            }
        },
    }
}

/// Appends the arrow.
fn push_arrow(out: &mut Vec<Tok>)
    ensures
        toks_view(final(out)@) == toks_view(old(out)@) + arrow_tokens(),
{
    broadcast use group_toks_view;

    let ghost prev = toks_view(out@);
    out.push(Tok::Punct('-', Spacing::Joint));
    out.push(Tok::Punct('>', Spacing::Alone));
    proof {
        assert(toks_view(out@) =~= prev + arrow_tokens());
    }
}

/// Appends the attribute that allows the lowercase trait name.
fn push_allow_attr(out: &mut Vec<Tok>)
    ensures
        toks_view(final(out)@) == toks_view(old(out)@) + allow_attr_tokens(),
{
    broadcast use group_toks_view;

    let ghost prev = toks_view(out@);
    out.push(Tok::Punct('#', Spacing::Alone));
    let mut inner: Vec<Tok> = Vec::new();
    inner.push(word("non_camel_case_types"));
    let mut br: Vec<Tok> = Vec::new();
    br.push(word("allow"));
    proof {
        assert(toks_view(inner@) =~= seq![TokView::Word("non_camel_case_types"@)]);
    }
    br.push(Tok::Group(Delim::Paren, inner));
    proof {
        assert(toks_view(br@) =~= seq![
            TokView::Word("allow"@),
            TokView::Group(Delim::Paren, seq![TokView::Word("non_camel_case_types"@)]),
        ]);
    }
    out.push(Tok::Group(Delim::Bracket, br));
    proof {
        assert(toks_view(out@) =~= prev + allow_attr_tokens());
    }
}

/// The tuple of one variant's parameter types, built by copying each type.
#[verifier::loop_isolation(false)]
fn build_tuple_types(args: &Vec<ArgumentSpec>) -> (r: Vec<Tok>)
    ensures
        toks_view(r@) == tuple_types(args_view(args@)),
{
    broadcast use group_toks_view, group_model_views;

    let ghost full = args_view(args@);
    let mut r: Vec<Tok> = Vec::new();
    let mut i: usize = 0;
    proof {
        assert(full.skip(0) =~= full);
        assert(toks_view(r@) =~= Seq::<TokView>::empty());
    }
    while i < args.len()
        invariant
            i <= args.len(),
            toks_view(r@) + tuple_types(full.skip(i as int)) == tuple_types(full),
        decreases args.len() - i,
    {
        let ghost prev = toks_view(r@);
        let mut c = clone_toks(&args[i].ty);
        r.append(&mut c);
        r.push(Tok::Punct(',', Spacing::Alone));
        proof {
            let av = full[i as int];
            assert(full.skip(i as int)[0] == av);
            assert(full.skip(i as int).drop_first() =~= full.skip(i + 1));
            assert(toks_view(r@) =~= prev + av.ty + seq![TokView::Punct(',', Spacing::Alone)]);
            assert(toks_view(r@) + tuple_types(full.skip(i + 1)) =~= prev + tuple_types(
                full.skip(i as int),
            ));
        }
        i = i + 1;
    }
    proof {
        assert(full.skip(args@.len() as int) =~= Seq::<ArgumentSpecView>::empty());
        assert(toks_view(r@) + Seq::<TokView>::empty() =~= toks_view(r@));
    }
    r
}

/// The destructuring pattern of one variant's tuple, with `mut` where a
/// parameter was declared mutable.
#[verifier::loop_isolation(false)]
fn build_tuple_pattern(args: &Vec<ArgumentSpec>) -> (r: Vec<Tok>)
    ensures
        toks_view(r@) == tuple_pattern(args_view(args@)),
{
    broadcast use group_toks_view, group_model_views;

    let ghost full = args_view(args@);
    let mut r: Vec<Tok> = Vec::new();
    let mut i: usize = 0;
    proof {
        assert(full.skip(0) =~= full);
        assert(toks_view(r@) =~= Seq::<TokView>::empty());
    }
    while i < args.len()
        invariant
            i <= args.len(),
            toks_view(r@) + tuple_pattern(full.skip(i as int)) == tuple_pattern(full),
        decreases args.len() - i,
    {
        let ghost prev = toks_view(r@);
        if args[i].is_mut {
            r.push(Tok::KwMut);
        }
        r.push(Tok::Word(args[i].name.clone()));
        r.push(Tok::Punct(',', Spacing::Alone));
        proof {
            let av = full[i as int];
            assert(full.skip(i as int)[0] == av);
            assert(full.skip(i as int).drop_first() =~= full.skip(i + 1));
            assert(toks_view(r@) =~= prev + pattern_of(av));
            assert(toks_view(r@) + tuple_pattern(full.skip(i + 1)) =~= prev + tuple_pattern(
                full.skip(i as int),
            ));
        }
        i = i + 1;
    }
    proof {
        assert(full.skip(args@.len() as int) =~= Seq::<ArgumentSpecView>::empty());
        assert(toks_view(r@) + Seq::<TokView>::empty() =~= toks_view(r@));
    }
    r
}

/// Emits the free-mode capability trait.
fn emit_free_trait(out: &mut Vec<Tok>, visibility: Vis, name: &String, out_ty: &Vec<Tok>)
    ensures
        toks_view(final(out)@) == toks_view(old(out)@) + free_trait_tokens(
            visibility@,
            name@,
            toks_view(out_ty@),
        ),
{
    broadcast use group_toks_view;

    let ghost prev = toks_view(out@);
    let ghost visv = visibility@;
    push_allow_attr(out);
    push_vis(out, visibility);
    out.push(word("trait"));
    out.push(Tok::Word(name.clone()));
    let mut tb: Vec<Tok> = Vec::new();
    tb.push(Tok::KwFn);
    tb.push(Tok::Word(name.clone()));
    let mut sp: Vec<Tok> = Vec::new();
    sp.push(word("self"));
    proof {
        assert(toks_view(sp@) =~= seq![TokView::Word("self"@)]);
    }
    tb.push(Tok::Group(Delim::Paren, sp));
    push_arrow(&mut tb);
    let mut oc = clone_toks(out_ty);
    tb.append(&mut oc);
    tb.push(Tok::Punct(';', Spacing::Alone));
    proof {
        assert(toks_view(tb@) =~= seq![
            TokView::KwFn,
            TokView::Word(name@),
            TokView::Group(Delim::Paren, seq![TokView::Word("self"@)]),
        ] + arrow_tokens() + toks_view(out_ty@) + seq![TokView::Punct(';', Spacing::Alone)]);
    }
    out.push(Tok::Group(Delim::Brace, tb));
    proof {
        assert(toks_view(out@) =~= prev + free_trait_tokens(visv, name@, toks_view(out_ty@)));
    }
}

/// Emits the free-mode dispatcher.
fn emit_free_dispatcher(out: &mut Vec<Tok>, visibility: Vis, name: &String, out_ty: &Vec<Tok>)
    ensures
        toks_view(final(out)@) == toks_view(old(out)@) + free_dispatcher_tokens(
            visibility@,
            name@,
            toks_view(out_ty@),
        ),
{
    broadcast use group_toks_view;

    let ghost prev = toks_view(out@);
    let ghost visv = visibility@;
    push_vis(out, visibility);
    out.push(Tok::KwFn);
    out.push(Tok::Word(name.clone()));
    out.push(Tok::Punct('<', Spacing::Alone));
    out.push(word("T"));
    out.push(Tok::Punct(':', Spacing::Alone));
    out.push(Tok::Word(name.clone()));
    out.push(Tok::Punct('>', Spacing::Alone));
    let mut ps: Vec<Tok> = Vec::new();
    ps.push(word("a"));
    ps.push(Tok::Punct(':', Spacing::Alone));
    ps.push(word("T"));
    proof {
        assert(toks_view(ps@) =~= seq![
            TokView::Word("a"@),
            TokView::Punct(':', Spacing::Alone),
            TokView::Word("T"@),
        ]);
    }
    out.push(Tok::Group(Delim::Paren, ps));
    push_arrow(out);
    let mut oc = clone_toks(out_ty);
    out.append(&mut oc);
    let mut body: Vec<Tok> = Vec::new();
    body.push(word("a"));
    body.push(Tok::Punct('.', Spacing::Alone));
    body.push(Tok::Word(name.clone()));
    let empty: Vec<Tok> = Vec::new();
    proof {
        assert(toks_view(empty@) =~= Seq::<TokView>::empty());
    }
    body.push(Tok::Group(Delim::Paren, empty));
    proof {
        assert(toks_view(body@) =~= seq![
            TokView::Word("a"@),
            TokView::Punct('.', Spacing::Alone),
            TokView::Word(name@),
            TokView::Group(Delim::Paren, Seq::<TokView>::empty()),
        ]);
    }
    out.push(Tok::Group(Delim::Brace, body));
    proof {
        assert(toks_view(out@) =~= prev + free_dispatcher_tokens(
            visv,
            name@,
            toks_view(out_ty@),
        ));
    }
}

/// Emits one free-mode implementation, for the variant's tuple type.
fn emit_free_impl(out: &mut Vec<Tok>, name: &String, out_ty: &Vec<Tok>, f: Function)
    ensures
        toks_view(final(out)@) == toks_view(old(out)@) + free_impl_tokens(
            name@,
            toks_view(out_ty@),
            f@,
        ),
{
    broadcast use group_toks_view, group_model_views;

    let ghost prev = toks_view(out@);
    let ghost fv = f@;
    let Function { args, body } = f;
    out.push(word("impl"));
    out.push(Tok::Word(name.clone()));
    out.push(word("for"));
    let tys = build_tuple_types(&args);
    out.push(Tok::Group(Delim::Paren, tys));
    let mut fnb: Vec<Tok> = Vec::new();
    fnb.push(Tok::KwFn);
    fnb.push(Tok::Word(name.clone()));
    let mut sp: Vec<Tok> = Vec::new();
    sp.push(word("self"));
    proof {
        assert(toks_view(sp@) =~= seq![TokView::Word("self"@)]);
    }
    fnb.push(Tok::Group(Delim::Paren, sp));
    push_arrow(&mut fnb);
    let mut oc = clone_toks(out_ty);
    fnb.append(&mut oc);
    let mut blk: Vec<Tok> = Vec::new();
    blk.push(word("let"));
    let pat = build_tuple_pattern(&args);
    blk.push(Tok::Group(Delim::Paren, pat));
    blk.push(Tok::Punct('=', Spacing::Alone));
    blk.push(word("self"));
    blk.push(Tok::Punct(';', Spacing::Alone));
    blk.push(Tok::Group(Delim::Brace, body));
    proof {
        assert(toks_view(blk@) =~= seq![
            TokView::Word("let"@),
            TokView::Group(Delim::Paren, tuple_pattern(fv.args)),
            TokView::Punct('=', Spacing::Alone),
            TokView::Word("self"@),
            TokView::Punct(';', Spacing::Alone),
            TokView::Group(Delim::Brace, fv.body),
        ]);
    }
    fnb.push(Tok::Group(Delim::Brace, blk));
    proof {
        assert(toks_view(fnb@) =~= seq![
            TokView::KwFn,
            TokView::Word(name@),
            TokView::Group(Delim::Paren, seq![TokView::Word("self"@)]),
        ] + arrow_tokens() + toks_view(out_ty@) + seq![
            TokView::Group(
                Delim::Brace,
                seq![
                    TokView::Word("let"@),
                    TokView::Group(Delim::Paren, tuple_pattern(fv.args)),
                    TokView::Punct('=', Spacing::Alone),
                    TokView::Word("self"@),
                    TokView::Punct(';', Spacing::Alone),
                    TokView::Group(Delim::Brace, fv.body),
                ],
            ),
        ]);
    }
    out.push(Tok::Group(Delim::Brace, fnb));
    proof {
        assert(toks_view(out@) =~= prev + free_impl_tokens(name@, toks_view(out_ty@), fv));
    }
}

/// Creates a function group for use outside of a type: the trait, the
/// dispatcher, and one implementation per variant.
#[verifier::loop_isolation(false)]
pub fn function_group_fn(group: FunctionGroup) -> (out: Vec<Tok>)
    ensures
        toks_view(out@) == spec_generate_fn(group@),
{
    broadcast use group_toks_view, group_model_views;

    let ghost gv = group@;
    let FunctionGroup {
        visibility,
        name,
        output,
        self_input: _,
        self_type: _,
        self_mut: _,
        functions,
    } = group;
    let out_ty: Vec<Tok> = match output {
        Option::Some(v) => v,
        Option::None => unit_toks(),
    };
    proof {
        assert(toks_view(out_ty@) == output_tokens(gv.output));
    }
    let vis2 = clone_vis(&visibility);
    let mut out: Vec<Tok> = Vec::new();
    proof {
        assert(toks_view(out@) =~= Seq::<TokView>::empty());
    }
    emit_free_trait(&mut out, visibility, &name, &out_ty);
    emit_free_dispatcher(&mut out, vis2, &name, &out_ty);
    let mut fs = functions;
    proof {
        assert(fns_view(fs@) == gv.functions);
        assert(toks_view(out@) + free_impls(name@, toks_view(out_ty@), fns_view(fs@))
            =~= spec_generate_fn(gv));
    }
    while fs.len() > 0
        invariant
            toks_view(out@) + free_impls(name@, toks_view(out_ty@), fns_view(fs@))
                == spec_generate_fn(gv),
        decreases fs@.len(),
    {
        let ghost fsv = fns_view(fs@);
        let ghost prev = toks_view(out@);
        let ghost fs_old = fs@;
        let f = fs.remove(0);
        proof {
            assert(fs@ =~= fs_old.drop_first());
            assert(fns_view(fs@) =~= fsv.drop_first());
            assert(fsv[0] == f@);
        }
        emit_free_impl(&mut out, &name, &out_ty, f);
        proof {
            assert(toks_view(out@) + free_impls(name@, toks_view(out_ty@), fns_view(fs@))
                =~= prev + free_impls(name@, toks_view(out_ty@), fsv));
        }
    }
    proof {
        assert(fns_view(fs@) =~= Seq::<FunctionView>::empty());
        assert(toks_view(out@) + Seq::<TokView>::empty() =~= toks_view(out@));
    }
    out
}

/// Emits the method-mode capability trait, generic over the argument shape.
fn emit_method_trait(
    out: &mut Vec<Tok>,
    visibility: Vis,
    name: &String,
    self_param: &Vec<Tok>,
    out_ty: &Vec<Tok>,
)
    ensures
        toks_view(final(out)@) == toks_view(old(out)@) + method_trait_tokens(
            visibility@,
            name@,
            toks_view(self_param@),
            toks_view(out_ty@),
        ),
{
    broadcast use group_toks_view;

    let ghost prev = toks_view(out@);
    let ghost visv = visibility@;
    push_allow_attr(out);
    push_vis(out, visibility);
    out.push(word("trait"));
    out.push(Tok::Word(name.clone()));
    out.push(Tok::Punct('<', Spacing::Alone));
    out.push(word("Arg"));
    out.push(Tok::Punct('>', Spacing::Alone));
    let mut tb: Vec<Tok> = Vec::new();
    tb.push(Tok::KwFn);
    tb.push(Tok::Word(name.clone()));
    let mut ps = clone_toks(self_param);
    ps.push(Tok::Punct(',', Spacing::Alone));
    ps.push(word("_args"));
    ps.push(Tok::Punct(':', Spacing::Alone));
    ps.push(word("Arg"));
    proof {
        assert(toks_view(ps@) =~= toks_view(self_param@) + seq![
            TokView::Punct(',', Spacing::Alone),
            TokView::Word("_args"@),
            TokView::Punct(':', Spacing::Alone),
            TokView::Word("Arg"@),
        ]);
    }
    tb.push(Tok::Group(Delim::Paren, ps));
    push_arrow(&mut tb);
    let mut oc = clone_toks(out_ty);
    tb.append(&mut oc);
    tb.push(Tok::Punct(';', Spacing::Alone));
    proof {
        assert(toks_view(tb@) =~= seq![TokView::KwFn, TokView::Word(name@)] + seq![
            TokView::Group(
                Delim::Paren,
                toks_view(self_param@) + seq![
                    TokView::Punct(',', Spacing::Alone),
                    TokView::Word("_args"@),
                    TokView::Punct(':', Spacing::Alone),
                    TokView::Word("Arg"@),
                ],
            ),
        ] + arrow_tokens() + toks_view(out_ty@) + seq![TokView::Punct(';', Spacing::Alone)]);
    }
    out.push(Tok::Group(Delim::Brace, tb));
    proof {
        assert(toks_view(out@) =~= prev + method_trait_tokens(
            visv,
            name@,
            toks_view(self_param@),
            toks_view(out_ty@),
        ));
    }
}

/// Emits one method-mode implementation, for the owning type with the
/// argument shape set to the variant's tuple type.
fn emit_method_impl(
    out: &mut Vec<Tok>,
    name: &String,
    self_param: &Vec<Tok>,
    self_ty: &Vec<Tok>,
    out_ty: &Vec<Tok>,
    f: Function,
)
    ensures
        toks_view(final(out)@) == toks_view(old(out)@) + method_impl_tokens(
            name@,
            toks_view(self_param@),
            toks_view(self_ty@),
            toks_view(out_ty@),
            f@,
        ),
{
    broadcast use group_toks_view, group_model_views;

    let ghost prev = toks_view(out@);
    let ghost fv = f@;
    let Function { args, body } = f;
    out.push(word("impl"));
    out.push(Tok::Word(name.clone()));
    out.push(Tok::Punct('<', Spacing::Alone));
    let tys = build_tuple_types(&args);
    out.push(Tok::Group(Delim::Paren, tys));
    out.push(Tok::Punct('>', Spacing::Alone));
    out.push(word("for"));
    let mut st = clone_toks(self_ty);
    out.append(&mut st);
    let mut fnb: Vec<Tok> = Vec::new();
    fnb.push(Tok::KwFn);
    fnb.push(Tok::Word(name.clone()));
    let mut ps = clone_toks(self_param);
    ps.push(Tok::Punct(',', Spacing::Alone));
    let pat = build_tuple_pattern(&args);
    ps.push(Tok::Group(Delim::Paren, pat));
    ps.push(Tok::Punct(':', Spacing::Alone));
    let tys2 = build_tuple_types(&args);
    ps.push(Tok::Group(Delim::Paren, tys2));
    proof {
        assert(toks_view(ps@) =~= toks_view(self_param@) + seq![
            TokView::Punct(',', Spacing::Alone),
            TokView::Group(Delim::Paren, tuple_pattern(fv.args)),
            TokView::Punct(':', Spacing::Alone),
            TokView::Group(Delim::Paren, tuple_types(fv.args)),
        ]);
    }
    fnb.push(Tok::Group(Delim::Paren, ps));
    push_arrow(&mut fnb);
    let mut oc = clone_toks(out_ty);
    fnb.append(&mut oc);
    let mut blk: Vec<Tok> = Vec::new();
    blk.push(Tok::Group(Delim::Brace, body));
    proof {
        assert(toks_view(blk@) =~= seq![TokView::Group(Delim::Brace, fv.body)]);
    }
    fnb.push(Tok::Group(Delim::Brace, blk));
    proof {
        assert(toks_view(fnb@) =~= seq![TokView::KwFn, TokView::Word(name@)] + seq![
            TokView::Group(
                Delim::Paren,
                toks_view(self_param@) + seq![
                    TokView::Punct(',', Spacing::Alone),
                    TokView::Group(Delim::Paren, tuple_pattern(fv.args)),
                    TokView::Punct(':', Spacing::Alone),
                    TokView::Group(Delim::Paren, tuple_types(fv.args)),
                ],
            ),
        ] + arrow_tokens() + toks_view(out_ty@) + seq![
            TokView::Group(Delim::Brace, seq![TokView::Group(Delim::Brace, fv.body)]),
        ]);
    }
    out.push(Tok::Group(Delim::Brace, fnb));
    proof {
        assert(toks_view(out@) =~= prev + method_impl_tokens(
            name@,
            toks_view(self_param@),
            toks_view(self_ty@),
            toks_view(out_ty@),
            fv,
        ));
    }
}

/// Creates a function group for use with a type: the trait generic over
/// the argument shape and one implementation per variant for the owning
/// type; calls go through the method itself, so no dispatcher is emitted.
#[verifier::loop_isolation(false)]
pub fn function_group_method(group: FunctionGroup) -> (out: Vec<Tok>)
    requires
        group@.has_receiver(),
    ensures
        toks_view(out@) == spec_generate_method(group@),
{
    broadcast use group_toks_view, group_model_views;

    let ghost gv = group@;
    let FunctionGroup { visibility, name, output, self_input, self_type, self_mut, functions } =
        group;
    let out_ty: Vec<Tok> = match output {
        Option::Some(v) => v,
        Option::None => unit_toks(),
    };
    proof {
        assert(toks_view(out_ty@) == output_tokens(gv.output));
    }
    let mut self_param: Vec<Tok> = Vec::new();
    if self_mut {
        self_param.push(Tok::KwMut);
    }
    let mut bi: Vec<Tok> = match self_input {
        Option::Some(v) => v,
        Option::None => Vec::new(),  // unreachable: the receiver is present
    };
    self_param.append(&mut bi);
    proof {
        assert(toks_view(self_param@) =~= self_param_tokens(gv));
    }
    let self_ty: Vec<Tok> = match self_type {
        Option::Some(v) => v,
        Option::None => Vec::new(),  // unreachable: the receiver is present
    };
    proof {
        assert(toks_view(self_ty@) == self_type_tokens(gv));
    }
    let mut out: Vec<Tok> = Vec::new();
    proof {
        assert(toks_view(out@) =~= Seq::<TokView>::empty());
    }
    emit_method_trait(&mut out, visibility, &name, &self_param, &out_ty);
    let mut fs = functions;
    proof {
        assert(fns_view(fs@) == gv.functions);
        assert(toks_view(out@) + method_impls(
            name@,
            toks_view(self_param@),
            toks_view(self_ty@),
            toks_view(out_ty@),
            fns_view(fs@),
        ) =~= spec_generate_method(gv));
    }
    while fs.len() > 0
        invariant
            toks_view(out@) + method_impls(
                name@,
                toks_view(self_param@),
                toks_view(self_ty@),
                toks_view(out_ty@),
                fns_view(fs@),
            ) == spec_generate_method(gv),
        decreases fs@.len(),
    {
        let ghost fsv = fns_view(fs@);
        let ghost prev = toks_view(out@);
        let ghost fs_old = fs@;
        let f = fs.remove(0);
        proof {
            assert(fs@ =~= fs_old.drop_first());
            assert(fns_view(fs@) =~= fsv.drop_first());
            assert(fsv[0] == f@);
        }
        emit_method_impl(&mut out, &name, &self_param, &self_ty, &out_ty, f);
        proof {
            assert(toks_view(out@) + method_impls(
                name@,
                toks_view(self_param@),
                toks_view(self_ty@),
                toks_view(out_ty@),
                fns_view(fs@),
            ) =~= prev + method_impls(
                name@,
                toks_view(self_param@),
                toks_view(self_ty@),
                toks_view(out_ty@),
                fsv,
            ));
        }
    }
    proof {
        assert(fns_view(fs@) =~= Seq::<FunctionView>::empty());
        assert(toks_view(out@) + Seq::<TokView>::empty() =~= toks_view(out@));
    }
    out
}

/// One invocation, parsed and expanded: the trait, the implementations
/// and, without a receiver, the dispatcher; or the syntax error the
/// grammar gives for the input.
pub fn function_group(input: Vec<Tok>) -> (r: Result<Vec<Tok>, crate::parse::ParseError>)
    ensures
        (match r {
            Ok(out) => (crate::parse::spec_parse_group(toks_view(input@)) matches Ok(gv)
                && toks_view(out@) == spec_generate(gv)),
            Err(e) => crate::parse::spec_parse_group(toks_view(input@)) == Err::<
                FunctionGroupView,
                _,
            >(e),
        }),
{
    let group = match FunctionGroup::parse(input) {
        Ok(g) => g,
        Err(e) => {
            return Err(e);
        },
    };
    if group.self_input.is_some() && group.self_type.is_some() {
        Ok(function_group_method(group))
    } else {
        Ok(function_group_fn(group))
    }
}

} // verus!
