//! What holds of every expansion: one implementation per variant keyed by
//! its tuple type, parameter types and bodies echoed verbatim, mutability
//! carried into the destructuring pattern, the declared exposure on every
//! generated item, and the unit type substituted for an absent output.
//! Which implementation a call finally executes is the host compiler's
//! overload resolution on the argument tuple's type; that behaviour is
//! exercised by this crate's tests on expanded code.

use vstd::prelude::*;

use crate::generate::{
    arrow_tokens, free_dispatcher_tokens, free_impl_tokens, free_impls, free_trait_tokens,
    method_impl_tokens, method_impls, method_trait_tokens, output_tokens, pattern_of,
    self_param_tokens, self_type_tokens, spec_generate, tuple_pattern, tuple_types, unit_type,
    vis_tokens,
};
use crate::group::{ArgumentSpecView, FunctionGroupView, FunctionView, VisView};
use crate::parse::{
    ParseError, colon_split, is_brace_group, is_comma, is_joint_colon, is_joint_minus,
    is_lone_colon, next_depth, output_len, spec_parse_functions, spec_parse_group,
    spec_parse_params, type_len,
};
use crate::tokens::{Delim, Spacing, TokView};

verus! {

// ---------------------------------------------------------------------------
// Offsets of the per-variant pieces inside the emitted sequences
// ---------------------------------------------------------------------------

/// Where the implementation of variant `i` begins inside the emitted run
/// of implementations.
pub open spec fn free_impls_len_upto(
    name: Seq<char>,
    out_ty: Seq<TokView>,
    fs: Seq<FunctionView>,
    i: int,
) -> int
    decreases fs.len(),
{
    if i <= 0 || fs.len() == 0 {
        0
    } else {
        free_impl_tokens(name, out_ty, fs[0]).len() + free_impls_len_upto(
            name,
            out_ty,
            fs.drop_first(),
            i - 1,
        )
    }
}

/// Where the implementation of variant `i` begins inside the emitted run
/// of method-mode implementations.
pub open spec fn method_impls_len_upto(
    name: Seq<char>,
    self_param: Seq<TokView>,
    self_ty: Seq<TokView>,
    out_ty: Seq<TokView>,
    fs: Seq<FunctionView>,
    i: int,
) -> int
    decreases fs.len(),
{
    if i <= 0 || fs.len() == 0 {
        0
    } else {
        method_impl_tokens(name, self_param, self_ty, out_ty, fs[0]).len()
            + method_impls_len_upto(name, self_param, self_ty, out_ty, fs.drop_first(), i - 1)
    }
}

/// Where the type of parameter `i` begins inside the emitted tuple type.
pub open spec fn tuple_types_len_upto(args: Seq<ArgumentSpecView>, i: int) -> int
    decreases args.len(),
{
    if i <= 0 || args.len() == 0 {
        0
    } else {
        args[0].ty.len() + 1 + tuple_types_len_upto(args.drop_first(), i - 1)
    }
}

/// Where the pattern of parameter `i` begins inside the emitted
/// destructuring pattern.
pub open spec fn tuple_pattern_len_upto(args: Seq<ArgumentSpecView>, i: int) -> int
    decreases args.len(),
{
    if i <= 0 || args.len() == 0 {
        0
    } else {
        pattern_of(args[0]).len() as int + tuple_pattern_len_upto(args.drop_first(), i - 1)
    }
}

/// The run of implementations holds the implementation of variant `i`,
/// whole and in declared order, at its computed offset.
pub proof fn lemma_free_impls_location(
    name: Seq<char>,
    out_ty: Seq<TokView>,
    fs: Seq<FunctionView>,
    i: int,
)
    requires
        0 <= i < fs.len(),
    ensures
        0 <= free_impls_len_upto(name, out_ty, fs, i),
        free_impls_len_upto(name, out_ty, fs, i) + free_impl_tokens(name, out_ty, fs[i]).len()
            <= free_impls(name, out_ty, fs).len(),
        free_impls(name, out_ty, fs).subrange(
            free_impls_len_upto(name, out_ty, fs, i),
            free_impls_len_upto(name, out_ty, fs, i) + free_impl_tokens(
                name,
                out_ty,
                fs[i],
            ).len() as int,
        ) == free_impl_tokens(name, out_ty, fs[i]),
    decreases i,
{
    let whole = free_impls(name, out_ty, fs);
    let first = free_impl_tokens(name, out_ty, fs[0]);
    if i == 0 {
        assert(whole.subrange(0, first.len() as int) =~= first);
    } else {
        lemma_free_impls_location(name, out_ty, fs.drop_first(), i - 1);
        let rest = free_impls(name, out_ty, fs.drop_first());
        let upto = free_impls_len_upto(name, out_ty, fs.drop_first(), i - 1);
        let cur = free_impl_tokens(name, out_ty, fs.drop_first()[i - 1]);
        assert(fs.drop_first()[i - 1] == fs[i]);
        assert(whole.subrange(
            first.len() + upto,
            first.len() + upto + cur.len(),
        ) =~= rest.subrange(upto, upto + cur.len()));
    }
}

/// The run of method-mode implementations holds the implementation of
/// variant `i`, whole and in declared order, at its computed offset.
pub proof fn lemma_method_impls_location(
    name: Seq<char>,
    self_param: Seq<TokView>,
    self_ty: Seq<TokView>,
    out_ty: Seq<TokView>,
    fs: Seq<FunctionView>,
    i: int,
)
    requires
        0 <= i < fs.len(),
    ensures
        0 <= method_impls_len_upto(name, self_param, self_ty, out_ty, fs, i),
        method_impls_len_upto(name, self_param, self_ty, out_ty, fs, i) + method_impl_tokens(
            name,
            self_param,
            self_ty,
            out_ty,
            fs[i],
        ).len() <= method_impls(name, self_param, self_ty, out_ty, fs).len(),
        method_impls(name, self_param, self_ty, out_ty, fs).subrange(
            method_impls_len_upto(name, self_param, self_ty, out_ty, fs, i),
            method_impls_len_upto(name, self_param, self_ty, out_ty, fs, i) + method_impl_tokens(
                name,
                self_param,
                self_ty,
                out_ty,
                fs[i],
            ).len() as int,
        ) == method_impl_tokens(name, self_param, self_ty, out_ty, fs[i]),
    decreases i,
{
    let whole = method_impls(name, self_param, self_ty, out_ty, fs);
    let first = method_impl_tokens(name, self_param, self_ty, out_ty, fs[0]);
    if i == 0 {
        assert(whole.subrange(0, first.len() as int) =~= first);
    } else {
        lemma_method_impls_location(name, self_param, self_ty, out_ty, fs.drop_first(), i - 1);
        let rest = method_impls(name, self_param, self_ty, out_ty, fs.drop_first());
        let upto = method_impls_len_upto(name, self_param, self_ty, out_ty, fs.drop_first(), i - 1);
        let cur = method_impl_tokens(name, self_param, self_ty, out_ty, fs.drop_first()[i - 1]);
        assert(fs.drop_first()[i - 1] == fs[i]);
        assert(whole.subrange(
            first.len() + upto,
            first.len() + upto + cur.len(),
        ) =~= rest.subrange(upto, upto + cur.len()));
    }
}

// ---------------------------------------------------------------------------
// Laws
// ---------------------------------------------------------------------------

/// Arity dispatch, the generated side: without a receiver the expansion is
/// the capability trait, the dispatcher, and exactly one implementation per
/// variant, in declared order; the implementation of variant `i` stands
/// whole at its computed offset, is keyed by the tuple of that variant's
/// parameter types, and splices that variant's body in verbatim as the
/// innermost block. A call therefore reaches variant `i`'s body exactly
/// when the host compiler resolves the argument tuple's type to that
/// implementation; a body may name the dispatcher itself with another
/// arity's tuple, which resolves the same way.
pub proof fn lemma_one_impl_per_variant(g: FunctionGroupView, i: int)
    requires
        !g.has_receiver(),
        0 <= i < g.functions.len(),
    ensures
        ({
            let out_ty = output_tokens(g.output);
            let base = free_trait_tokens(g.visibility, g.name, out_ty).len()
                + free_dispatcher_tokens(g.visibility, g.name, out_ty).len()
                + free_impls_len_upto(g.name, out_ty, g.functions, i);
            let impl_i = free_impl_tokens(g.name, out_ty, g.functions[i]);
            &&& spec_generate(g) == free_trait_tokens(g.visibility, g.name, out_ty)
                + free_dispatcher_tokens(g.visibility, g.name, out_ty) + free_impls(
                g.name,
                out_ty,
                g.functions,
            )
            &&& spec_generate(g).subrange(base, base + impl_i.len()) == impl_i
            &&& impl_i[3] == TokView::Group(
                Delim::Paren,
                tuple_types(g.functions[i].args),
            )
            &&& impl_i[4]->Group_1.last()->Group_1.last() == TokView::Group(
                Delim::Brace,
                g.functions[i].body,
            )
        }),
{
    let out_ty = output_tokens(g.output);
    let tr = free_trait_tokens(g.visibility, g.name, out_ty);
    let di = free_dispatcher_tokens(g.visibility, g.name, out_ty);
    let im = free_impls(g.name, out_ty, g.functions);
    let base = tr.len() + di.len() + free_impls_len_upto(g.name, out_ty, g.functions, i);
    let impl_i = free_impl_tokens(g.name, out_ty, g.functions[i]);
    lemma_free_impls_location(g.name, out_ty, g.functions, i);
    let upto = free_impls_len_upto(g.name, out_ty, g.functions, i);
    assert(spec_generate(g).subrange(base, base + impl_i.len()) =~= im.subrange(
        upto,
        upto + impl_i.len(),
    ));
}

/// Method-mode dispatch, the generated side: with a receiver the expansion
/// is the capability trait, generic over the argument shape, and exactly
/// one implementation per variant for the receiver's owning type — no
/// dispatcher is emitted. The implementation of variant `i` stands whole
/// at its computed offset, is keyed by the tuple of that variant's
/// parameter types, names the owning type verbatim after `for`, and takes
/// the declared receiver binding as its first parameter.
pub proof fn lemma_method_impl_per_variant(g: FunctionGroupView, i: int)
    requires
        g.has_receiver(),
        0 <= i < g.functions.len(),
    ensures
        ({
            let out_ty = output_tokens(g.output);
            let sp = self_param_tokens(g);
            let st = self_type_tokens(g);
            let base = method_trait_tokens(g.visibility, g.name, sp, out_ty).len()
                + method_impls_len_upto(g.name, sp, st, out_ty, g.functions, i);
            let impl_i = method_impl_tokens(g.name, sp, st, out_ty, g.functions[i]);
            &&& spec_generate(g) == method_trait_tokens(g.visibility, g.name, sp, out_ty)
                + method_impls(g.name, sp, st, out_ty, g.functions)
            &&& spec_generate(g).subrange(base, base + impl_i.len()) == impl_i
            &&& impl_i[3] == TokView::Group(
                Delim::Paren,
                tuple_types(g.functions[i].args),
            )
            &&& impl_i.subrange(6, 6 + st.len() as int) == st
            &&& impl_i[6 + st.len() as int]->Group_1[2]->Group_1.take(sp.len() as int) == sp
        }),
{
    let out_ty = output_tokens(g.output);
    let sp = self_param_tokens(g);
    let st = self_type_tokens(g);
    let tr = method_trait_tokens(g.visibility, g.name, sp, out_ty);
    let im = method_impls(g.name, sp, st, out_ty, g.functions);
    let base = tr.len() + method_impls_len_upto(g.name, sp, st, out_ty, g.functions, i);
    let impl_i = method_impl_tokens(g.name, sp, st, out_ty, g.functions[i]);
    lemma_method_impls_location(g.name, sp, st, out_ty, g.functions, i);
    let upto = method_impls_len_upto(g.name, sp, st, out_ty, g.functions, i);
    assert(spec_generate(g).subrange(base, base + impl_i.len()) =~= im.subrange(
        upto,
        upto + impl_i.len(),
    ));
    assert(impl_i.subrange(6, 6 + st.len() as int) =~= st);
    assert(impl_i[6 + st.len() as int]->Group_1[2]->Group_1.take(sp.len() as int) =~= sp);
}

/// Reference-argument variants and type echoing: inside the emitted tuple
/// type, the type of parameter `i` — reference or not — stands verbatim at
/// its computed offset, followed by its comma. What a call does through
/// such a reference is the echoed host-language code's doing, exercised by
/// tests.
pub proof fn lemma_types_echoed_verbatim(args: Seq<ArgumentSpecView>, i: int)
    requires
        0 <= i < args.len(),
    ensures
        0 <= tuple_types_len_upto(args, i),
        tuple_types_len_upto(args, i) + args[i].ty.len() + 1 <= tuple_types(args).len(),
        tuple_types(args).subrange(
            tuple_types_len_upto(args, i),
            tuple_types_len_upto(args, i) + args[i].ty.len() as int,
        ) == args[i].ty,
        tuple_types(args)[tuple_types_len_upto(args, i) + args[i].ty.len()] == TokView::Punct(
            ',',
            Spacing::Alone,
        ),
    decreases i,
{
    let whole = tuple_types(args);
    if i == 0 {
        assert(whole.subrange(0, args[0].ty.len() as int) =~= args[0].ty);
    } else {
        lemma_types_echoed_verbatim(args.drop_first(), i - 1);
        let rest = tuple_types(args.drop_first());
        let upto = tuple_types_len_upto(args.drop_first(), i - 1);
        let head = args[0].ty.len() + 1;
        assert(args.drop_first()[i - 1] == args[i]);
        assert(whole.subrange(
            head + upto,
            head + upto + args[i].ty.len(),
        ) =~= rest.subrange(upto, upto + args[i].ty.len()));
        assert(whole[head + upto + args[i].ty.len()] == rest[upto + args[i].ty.len()]);
    }
}

/// Mutability propagation, the generated side: inside the emitted
/// destructuring pattern, parameter `i` contributes exactly its declared
/// pattern — `mut` then its name when it was declared mutable, its name
/// alone otherwise. The binding therefore behaves as a local mutable
/// binding exactly when `mut` was declared; rejection of mutation through
/// a non-`mut` binding is the host compiler's doing, exercised by tests.
pub proof fn lemma_mutability_propagation(args: Seq<ArgumentSpecView>, i: int)
    requires
        0 <= i < args.len(),
    ensures
        0 <= tuple_pattern_len_upto(args, i),
        tuple_pattern_len_upto(args, i) + pattern_of(args[i]).len() <= tuple_pattern(args).len(),
        tuple_pattern(args).subrange(
            tuple_pattern_len_upto(args, i),
            tuple_pattern_len_upto(args, i) + pattern_of(args[i]).len() as int,
        ) == pattern_of(args[i]),
        args[i].is_mut ==> pattern_of(args[i]) == seq![
            TokView::KwMut,
            TokView::Word(args[i].name),
            TokView::Punct(',', Spacing::Alone),
        ],
        !args[i].is_mut ==> pattern_of(args[i]) == seq![
            TokView::Word(args[i].name),
            TokView::Punct(',', Spacing::Alone),
        ],
    decreases i,
{
    let whole = tuple_pattern(args);
    if i == 0 {
        assert(whole.subrange(0, pattern_of(args[0]).len() as int) =~= pattern_of(args[0]));
    } else {
        lemma_mutability_propagation(args.drop_first(), i - 1);
        let rest = tuple_pattern(args.drop_first());
        let upto = tuple_pattern_len_upto(args.drop_first(), i - 1);
        let head = pattern_of(args[0]).len() as int;
        let cur = pattern_of(args[i]);
        assert(args.drop_first()[i - 1] == args[i]);
        assert(whole.subrange(
            head + upto,
            head + upto + cur.len(),
        ) =~= rest.subrange(upto, upto + cur.len()));
    }
}

/// Absent output defaults to unit: a group declared without an output
/// expands to exactly what the same group with the unit type `()` declared
/// as its output expands to.
pub proof fn lemma_absent_output_defaults_to_unit(g: FunctionGroupView)
    requires
        g.output is None,
    ensures
        spec_generate(g) == spec_generate(
            (FunctionGroupView { output: Some(unit_type()), ..g }),
        ),
{
    let g2 = FunctionGroupView { output: Some(unit_type()), ..g };
    assert(output_tokens(g.output) == output_tokens(g2.output));
}

/// Visibility propagation: the exposure tokens on the invocation stand on
/// every generated item — on the trait right after its two attribute
/// tokens in both modes, and on the dispatcher at the start of its segment
/// in free-function mode. An invocation without a modifier contributes no
/// exposure tokens at all: the most restrictive default.
pub proof fn lemma_visibility_propagation(g: FunctionGroupView)
    ensures
        ({
            let vl = vis_tokens(g.visibility).len() as int;
            let out_ty = output_tokens(g.output);
            &&& spec_generate(g).subrange(2, 2 + vl) == vis_tokens(g.visibility)
            &&& !g.has_receiver() ==> spec_generate(g).subrange(
                free_trait_tokens(g.visibility, g.name, out_ty).len() as int,
                free_trait_tokens(g.visibility, g.name, out_ty).len() + vl,
            ) == vis_tokens(g.visibility)
            &&& (g.visibility is Private <==> vis_tokens(g.visibility) == Seq::<
                TokView,
            >::empty())
        }),
{
    let vl = vis_tokens(g.visibility).len() as int;
    let vt = vis_tokens(g.visibility);
    let out_ty = output_tokens(g.output);
    if g.has_receiver() {
        let tr = method_trait_tokens(g.visibility, g.name, self_param_tokens(g), out_ty);
        assert(spec_generate(g).subrange(2, 2 + vl) =~= vt);
    } else {
        let tr = free_trait_tokens(g.visibility, g.name, out_ty);
        assert(spec_generate(g).subrange(2, 2 + vl) =~= vt);
        assert(spec_generate(g).subrange(tr.len() as int, tr.len() + vl) =~= vt);
    }
    if vt == Seq::<TokView>::empty() {
        assert(g.visibility is Private) by {
            if g.visibility is Public {
                assert(vt.len() == 1);
            }
            if g.visibility is Restricted {
                assert(vt.len() == 2);
            }
        }
    }
}

// ---------------------------------------------------------------------------
// The canonical written form, and the round trip back through the parser
// ---------------------------------------------------------------------------

/// Whether the type scanner reads this whole run from the given state
/// without stopping, and leaves every opened angle bracket closed, so that
/// a comma written right after it is the one that ends the scan.
pub open spec fn ty_scans_whole(ty: Seq<TokView>, depth: nat, prev_jm: bool) -> bool
    decreases ty.len(),
{
    if ty.len() == 0 {
        depth == 0
    } else {
        !(depth == 0 && is_comma(ty[0])) && ty_scans_whole(
            ty.drop_first(),
            next_depth(depth, prev_jm, ty[0]),
            is_joint_minus(ty[0]),
        )
    }
}

proof fn lemma_type_scan_stops_at_comma(
    ty: Seq<TokView>,
    rest: Seq<TokView>,
    depth: nat,
    prev_jm: bool,
)
    requires
        ty_scans_whole(ty, depth, prev_jm),
        rest.len() > 0,
        is_comma(rest[0]),
    ensures
        type_len(ty + rest, depth, prev_jm) == ty.len(),
    decreases ty.len(),
{
    if ty.len() == 0 {
        assert(ty + rest =~= rest);
    } else {
        assert((ty + rest)[0] == ty[0]);
        assert((ty + rest).drop_first() =~= ty.drop_first() + rest);
        lemma_type_scan_stops_at_comma(
            ty.drop_first(),
            rest,
            next_depth(depth, prev_jm, ty[0]),
            is_joint_minus(ty[0]),
        );
    }
}

/// Whether the receiver scanner reads this whole binding from the given
/// state without stopping, so that a lone colon written right after it is
/// the one that ends the scan.
pub open spec fn binding_scans_whole(b: Seq<TokView>, prev_jc: bool) -> bool
    decreases b.len(),
{
    if b.len() == 0 {
        !prev_jc
    } else {
        !(!prev_jc && is_lone_colon(b[0])) && binding_scans_whole(
            b.drop_first(),
            is_joint_colon(b[0]),
        )
    }
}

proof fn lemma_colon_scan_stops(b: Seq<TokView>, rest: Seq<TokView>, prev_jc: bool)
    requires
        binding_scans_whole(b, prev_jc),
        rest.len() > 0,
        is_lone_colon(rest[0]),
    ensures
        colon_split(b + rest, prev_jc) == b.len(),
    decreases b.len(),
{
    if b.len() == 0 {
        assert(b + rest =~= rest);
    } else {
        assert((b + rest)[0] == b[0]);
        assert((b + rest).drop_first() =~= b.drop_first() + rest);
        lemma_colon_scan_stops(b.drop_first(), rest, is_joint_colon(b[0]));
    }
}

/// Whether the return-type scanner reads this whole run without stopping:
/// it holds no brace group at its top level.
pub open spec fn output_scans_whole(o: Seq<TokView>) -> bool {
    forall|i: int| 0 <= i < o.len() ==> !is_brace_group(#[trigger] o[i])
}

proof fn lemma_output_scan_stops(o: Seq<TokView>, rest: Seq<TokView>)
    requires
        output_scans_whole(o),
        rest.len() > 0,
        is_brace_group(rest[0]),
    ensures
        output_len(o + rest) == o.len(),
    decreases o.len(),
{
    if o.len() == 0 {
        assert(o + rest =~= rest);
    } else {
        assert((o + rest)[0] == o[0]);
        assert((o + rest).drop_first() =~= o.drop_first() + rest);
        assert(output_scans_whole(o.drop_first())) by {
            assert(forall|i: int|
                0 <= i < o.drop_first().len() ==> o.drop_first()[i] == o[i + 1]);
        }
        lemma_output_scan_stops(o.drop_first(), rest);
    }
}

/// One parameter, written out: `mut`?, name, colon, type, comma.
pub open spec fn print_param(a: ArgumentSpecView) -> Seq<TokView> {
    (if a.is_mut {
        seq![TokView::KwMut]
    } else {
        Seq::empty()
    }) + seq![TokView::Word(a.name), TokView::Punct(':', Spacing::Alone)] + a.ty + seq![
        TokView::Punct(',', Spacing::Alone),
    ]
}

/// A parameter list, written out in declared order.
pub open spec fn print_params(args: Seq<ArgumentSpecView>) -> Seq<TokView>
    decreases args.len(),
{
    if args.len() == 0 {
        Seq::empty()
    } else {
        print_param(args[0]) + print_params(args.drop_first())
    }
}

/// A variant list, written out: each variant's parentheses and block.
pub open spec fn print_functions(fs: Seq<FunctionView>) -> Seq<TokView>
    decreases fs.len(),
{
    if fs.len() == 0 {
        Seq::empty()
    } else {
        seq![
            TokView::Group(Delim::Paren, print_params(fs[0].args)),
            TokView::Group(Delim::Brace, fs[0].body),
        ] + print_functions(fs.drop_first())
    }
}

/// The receiver, written out between its parentheses.
pub open spec fn print_receiver(g: FunctionGroupView) -> Seq<TokView> {
    (if g.self_mut {
        seq![TokView::KwMut]
    } else {
        Seq::empty()
    }) + (match g.self_input {
        Some(b) => b,
        None => Seq::empty(),
    }) + seq![TokView::Punct(':', Spacing::Alone)] + (match g.self_type {
        Some(t) => t,
        None => Seq::empty(),
    })
}

/// A whole invocation, written back in the grammar's canonical form.
pub open spec fn print_group(g: FunctionGroupView) -> Seq<TokView> {
    vis_tokens(g.visibility) + seq![TokView::KwFn, TokView::Word(g.name)] + (if g.has_receiver() {
        seq![TokView::Group(Delim::Paren, print_receiver(g))]
    } else {
        Seq::empty()
    }) + (match g.output {
        Some(o) => arrow_tokens() + o,
        None => Seq::empty(),
    }) + seq![TokView::Group(Delim::Brace, print_functions(g.functions))]
}

/// Whether every parameter of this list can be written back: its type is
/// present and scans as one piece.
pub open spec fn params_printable(args: Seq<ArgumentSpecView>) -> bool {
    forall|j: int|
        0 <= j < args.len() ==> (#[trigger] args[j].ty).len() > 0 && ty_scans_whole(
            args[j].ty,
            0,
            false,
        )
}

/// Whether the group can be written back in the canonical form: it is
/// well-formed, a declared receiver has a binding that does not open with
/// `mut` and scans whole, plus an owning type; a declared output is
/// present and scans whole; and every parameter is printable.
pub open spec fn printable(g: FunctionGroupView) -> bool {
    &&& g.wf()
    &&& (g.self_input matches Some(b) ==> b.len() > 0 && !(b[0] is KwMut)
        && binding_scans_whole(b, false))
    &&& (g.self_type matches Some(t) ==> t.len() > 0)
    &&& (g.output matches Some(o) ==> o.len() > 0 && output_scans_whole(o))
    &&& (forall|i: int|
        0 <= i < g.functions.len() ==> params_printable(#[trigger] g.functions[i].args))
}

proof fn lemma_print_params_roundtrip(args: Seq<ArgumentSpecView>)
    requires
        params_printable(args),
    ensures
        spec_parse_params(print_params(args)) == Ok::<_, ParseError>(args),
    decreases args.len(),
{
    let s = print_params(args);
    if args.len() == 0 {
        assert(args =~= Seq::<ArgumentSpecView>::empty());
    } else {
        let a = args[0];
        let tail = print_params(args.drop_first());
        let comma = seq![TokView::Punct(',', Spacing::Alone)];
        let t = seq![TokView::Word(a.name), TokView::Punct(':', Spacing::Alone)] + a.ty + comma
            + tail;
        assert(s.len() > 0);
        if a.is_mut {
            assert(s[0] is KwMut);
            assert(s.drop_first() =~= t);
        } else {
            assert(s[0] == TokView::Word(a.name));
            assert(!(s[0] is KwMut));
            assert(s =~= t);
        }
        assert(t[0] == TokView::Word(a.name));
        assert(is_lone_colon(t[1]));
        let after = t.skip(2);
        assert(after =~= a.ty + (comma + tail));
        lemma_type_scan_stops_at_comma(a.ty, comma + tail, 0, false);
        let k = a.ty.len() as int;
        assert(type_len(after, 0, false) == k);
        assert(k > 0);
        assert(after.take(k) =~= a.ty);
        assert(is_comma(after[k]));
        assert(after.skip(k + 1) =~= tail);
        assert(params_printable(args.drop_first())) by {
            assert(forall|j: int|
                0 <= j < args.drop_first().len() ==> args.drop_first()[j] == args[j + 1]);
        }
        lemma_print_params_roundtrip(args.drop_first());
        assert((ArgumentSpecView { name: a.name, ty: a.ty, is_mut: a.is_mut }) == a);
        assert(seq![a] + args.drop_first() =~= args);
    }
}

proof fn lemma_print_functions_roundtrip(fs: Seq<FunctionView>)
    requires
        forall|i: int| 0 <= i < fs.len() ==> params_printable(#[trigger] fs[i].args),
    ensures
        spec_parse_functions(print_functions(fs)) == Ok::<_, ParseError>(fs),
    decreases fs.len(),
{
    let s = print_functions(fs);
    if fs.len() == 0 {
        assert(fs =~= Seq::<FunctionView>::empty());
    } else {
        let f = fs[0];
        let tail = print_functions(fs.drop_first());
        assert(s[0] == TokView::Group(Delim::Paren, print_params(f.args)));
        assert(s[1] == TokView::Group(Delim::Brace, f.body));
        lemma_print_params_roundtrip(f.args);
        if tail.len() > 0 {
            assert(s.len() >= 3);
            assert(s[2] == tail[0]);
            assert(!crate::parse::is_semi(s[2]));
        }
        assert(s.skip(2) =~= tail);
        assert(forall|i: int|
            0 <= i < fs.drop_first().len() ==> fs.drop_first()[i] == fs[i + 1]);
        lemma_print_functions_roundtrip(fs.drop_first());
        assert((FunctionView { args: f.args, body: f.body }) == f);
        assert(seq![f] + fs.drop_first() =~= fs);
    }
}

/// The parser inverts the canonical written form: a printable group,
/// written back as one invocation, parses to exactly itself.
#[verifier::spinoff_prover]
#[verifier::rlimit(50)]
pub proof fn lemma_print_parse_roundtrip(g: FunctionGroupView)
    requires
        printable(g),
    ensures
        spec_parse_group(print_group(g)) == Ok::<_, ParseError>(g),
{
    let s = print_group(g);
    let recv: Seq<TokView> = if g.has_receiver() {
        seq![TokView::Group(Delim::Paren, print_receiver(g))]
    } else {
        Seq::empty()
    };
    let out: Seq<TokView> = match g.output {
        Some(o) => arrow_tokens() + o,
        None => Seq::empty(),
    };
    let body = seq![TokView::Group(Delim::Brace, print_functions(g.functions))];
    let rest1 = seq![TokView::KwFn, TokView::Word(g.name)] + recv + out + body;
    // the exposure
    match g.visibility {
        VisView::Private => {
            assert(s =~= rest1);
            assert(crate::parse::spec_parse_visibility(s).0 == g.visibility);
            assert(crate::parse::spec_parse_visibility(s).1 =~= rest1);
        },
        VisView::Public => {
            assert(s[0] is KwPub);
            assert(s[1] is KwFn);
            assert(s.skip(1) =~= rest1);
            assert(crate::parse::spec_parse_visibility(s).0 == g.visibility);
            assert(crate::parse::spec_parse_visibility(s).1 =~= rest1);
        },
        VisView::Restricted(ts) => {
            assert(s[0] is KwPub);
            assert(s[1] == TokView::Group(Delim::Paren, ts));
            assert(s.skip(2) =~= rest1);
            assert(crate::parse::spec_parse_visibility(s).0 == g.visibility);
            assert(crate::parse::spec_parse_visibility(s).1 =~= rest1);
        },
    }
    let s1 = crate::parse::spec_parse_visibility(s).1;
    assert(s1 =~= rest1);
    assert(s1[0] is KwFn);
    let s2 = s1.drop_first();
    assert(s2 =~= seq![TokView::Word(g.name)] + recv + out + body);
    assert(s2[0] == TokView::Word(g.name));
    let s3 = s2.drop_first();
    assert(s3 =~= recv + out + body);
    // the receiver
    if g.has_receiver() {
        let b = g.self_input->0;
        let st = g.self_type->0;
        let pr = print_receiver(g);
        assert(s3[0] == TokView::Group(Delim::Paren, pr));
        let colon = seq![TokView::Punct(':', Spacing::Alone)];
        let t = b + colon + st;
        if g.self_mut {
            assert(pr[0] is KwMut);
            assert(pr.drop_first() =~= t);
        } else {
            assert(pr =~= t);
            assert(!(pr[0] is KwMut));
        }
        lemma_colon_scan_stops(b, colon + st, false);
        assert(t =~= b + (colon + st));
        let k = b.len() as int;
        assert(colon_split(t, false) == k);
        assert(k < t.len());
        assert(k > 0);
        assert(k + 1 < t.len());
        assert(t.take(k) =~= b);
        assert(t.skip(k + 1) =~= st);
        assert(crate::parse::spec_parse_receiver(pr) == Ok::<_, ParseError>((g.self_mut, b, st)));
        assert(s3.drop_first() =~= out + body);
    } else {
        assert(!(g.self_input is Some));
        assert(!(g.self_type is Some));
        assert(!g.self_mut);
        if g.output is Some {
            assert(s3[0] == TokView::Punct('-', Spacing::Joint));
        } else {
            assert(s3[0] == body[0]);
        }
        assert(!crate::parse::is_paren_group(s3[0]));
    }
    let s4: Seq<TokView> = if g.has_receiver() {
        s3.drop_first()
    } else {
        s3
    };
    assert(s4 =~= out + body);
    // the output
    match g.output {
        Some(o) => {
            assert(s4[0] == TokView::Punct('-', Spacing::Joint));
            assert(s4[1] == TokView::Punct('>', Spacing::Alone));
            let after = s4.skip(2);
            assert(after =~= o + body);
            lemma_output_scan_stops(o, body);
            let k = o.len() as int;
            assert(output_len(after) == k);
            assert(k > 0);
            assert(after.take(k) =~= o);
            assert(after.skip(k) =~= body);
        },
        None => {
            assert(s4 =~= body);
            assert(is_brace_group(s4[0]));
        },
    }
    let s5: Seq<TokView> = body;
    // the variant list
    assert(forall|i: int|
        0 <= i < g.functions.len() ==> params_printable(#[trigger] g.functions[i].args));
    lemma_print_functions_roundtrip(g.functions);
    assert(s5[0] == TokView::Group(Delim::Brace, print_functions(g.functions)));
    assert(s5.len() == 1);
    match spec_parse_group(s) {
        Ok(g2) => {
            assert(g2 =~~= g);
        },
        Err(_) => {
            assert(false);
        },
    }
}

} // verus!
