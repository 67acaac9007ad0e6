//! The parsed form of one macro invocation: a function group with its
//! exposure, name, optional return type, optional receiver and arity
//! variants. Instances are built by the parser and consumed by the
//! generator; nothing outlives one expansion.

use vstd::prelude::*;

use crate::tokens::{Tok, TokView, toks_view};

verus! {

/// Exposure of the generated items.
#[derive(PartialEq, Eq, Debug)]
pub enum Vis {
    /// No modifier: the most restrictive exposure.
    Private,
    /// `pub`.
    Public,
    /// `pub(...)`, with the tokens between the parentheses.
    Restricted(Vec<Tok>),
}

/// The model of an exposure.
#[verifier::ext_equal]
pub enum VisView {
    Private,
    Public,
    Restricted(Seq<TokView>),
}

impl View for Vis {
    type V = VisView;

    open spec fn view(&self) -> VisView {
        match self {
            Vis::Private => VisView::Private,
            Vis::Public => VisView::Public,
            Vis::Restricted(ts) => VisView::Restricted(toks_view(ts@)),
        }
    }
}

/// One formal parameter of one arity variant.
#[derive(PartialEq, Eq, Debug)]
pub struct ArgumentSpec {
    /// The binding's name.
    pub name: String,
    /// The type the parameter is declared with, echoed verbatim.
    pub ty: Vec<Tok>,
    /// Whether the binding is declared mutable.
    pub is_mut: bool,
}

/// The model of one formal parameter.
#[verifier::ext_equal]
pub struct ArgumentSpecView {
    pub name: Seq<char>,
    pub ty: Seq<TokView>,
    pub is_mut: bool,
}

impl View for ArgumentSpec {
    type V = ArgumentSpecView;

    open spec fn view(&self) -> ArgumentSpecView {
        (ArgumentSpecView { name: self.name@, ty: toks_view(self.ty@), is_mut: self.is_mut })
    }
}

/// The model of a parameter list.
pub open spec fn args_view(s: Seq<ArgumentSpec>) -> Seq<ArgumentSpecView> {
    Seq::new(s.len(), |i: int| s[i]@)
}

/// One arity overload of a group: an ordered parameter list and a body that
/// is carried verbatim, never inspected.
#[derive(PartialEq, Eq, Debug)]
pub struct Function {
    /// The formal parameters, in declared order; one tuple position each.
    pub args: Vec<ArgumentSpec>,
    /// The statements between the braces of the variant's block.
    pub body: Vec<Tok>,
}

/// The model of one arity overload.
#[verifier::ext_equal]
pub struct FunctionView {
    pub args: Seq<ArgumentSpecView>,
    pub body: Seq<TokView>,
}

impl View for Function {
    type V = FunctionView;

    open spec fn view(&self) -> FunctionView {
        (FunctionView { args: args_view(self.args@), body: toks_view(self.body@) })
    }
}

/// The model of a variant list.
pub open spec fn fns_view(s: Seq<Function>) -> Seq<FunctionView> {
    Seq::new(s.len(), |i: int| s[i]@)
}

/// The whole invocation: everything the generator needs to emit the trait,
/// the implementations and, without a receiver, the dispatcher.
#[derive(PartialEq, Eq, Debug)]
pub struct FunctionGroup {
    /// Exposure applied to every generated item.
    pub visibility: Vis,
    /// Name shared by the generated trait and the generated dispatcher.
    pub name: String,
    /// Return type; `None` means the unit type, substituted at generation.
    pub output: Option<Vec<Tok>>,
    /// The receiver binding (`self`, `&self`, `&mut self`), when declared.
    pub self_input: Option<Vec<Tok>>,
    /// The type the receiver belongs to, when declared.
    pub self_type: Option<Vec<Tok>>,
    /// Whether `mut` stood before the receiver binding.
    pub self_mut: bool,
    /// The arity variants, in declared order.
    pub functions: Vec<Function>,
}

/// The model of a whole invocation.
#[verifier::ext_equal]
pub struct FunctionGroupView {
    pub visibility: VisView,
    pub name: Seq<char>,
    pub output: Option<Seq<TokView>>,
    pub self_input: Option<Seq<TokView>>,
    pub self_type: Option<Seq<TokView>>,
    pub self_mut: bool,
    pub functions: Seq<FunctionView>,
}

/// The model of an optional token run.
pub open spec fn opt_toks_view(o: Option<Vec<Tok>>) -> Option<Seq<TokView>> {
    match o {
        Option::None => Option::None,
        Option::Some(v) => Option::Some(toks_view(v@)),
    }
}

impl View for FunctionGroup {
    type V = FunctionGroupView;

    open spec fn view(&self) -> FunctionGroupView {
        (FunctionGroupView {
            visibility: self.visibility@,
            name: self.name@,
            output: opt_toks_view(self.output),
            self_input: opt_toks_view(self.self_input),
            self_type: opt_toks_view(self.self_type),
            self_mut: self.self_mut,
            functions: fns_view(self.functions@),
        })
    }
}

impl FunctionGroupView {
    /// Whether generation runs in method mode.
    pub open spec fn has_receiver(self) -> bool {
        self.self_input is Some && self.self_type is Some
    }

    /// What every parsed group satisfies: the receiver is either absent
    /// altogether or present with both its binding and its owning type, and
    /// its mutability flag is only set when it is present.
    pub open spec fn wf(self) -> bool {
        &&& (self.self_input is Some <==> self.self_type is Some)
        &&& (self.self_input is None ==> !self.self_mut)
    }
}

pub broadcast proof fn lemma_args_view_len(s: Seq<ArgumentSpec>)
    ensures
        #[trigger] args_view(s).len() == s.len(),
{
}

pub broadcast proof fn lemma_args_view_index(s: Seq<ArgumentSpec>, i: int)
    requires
        0 <= i < s.len(),
    ensures
        #[trigger] args_view(s)[i] == s[i]@,
{
}

pub broadcast proof fn lemma_args_view_push(s: Seq<ArgumentSpec>, a: ArgumentSpec)
    ensures
        args_view(#[trigger] s.push(a)) == args_view(s).push(a@),
{
    assert(args_view(s.push(a)) =~= args_view(s).push(a@));
}

pub broadcast proof fn lemma_args_view_insert_front(s: Seq<ArgumentSpec>, a: ArgumentSpec)
    ensures
        args_view(#[trigger] s.insert(0, a)) == seq![a@] + args_view(s),
{
    assert(args_view(s.insert(0, a)) =~= seq![a@] + args_view(s));
}

pub broadcast proof fn lemma_fns_view_len(s: Seq<Function>)
    ensures
        #[trigger] fns_view(s).len() == s.len(),
{
}

pub broadcast proof fn lemma_fns_view_index(s: Seq<Function>, i: int)
    requires
        0 <= i < s.len(),
    ensures
        #[trigger] fns_view(s)[i] == s[i]@,
{
}

pub broadcast proof fn lemma_fns_view_push(s: Seq<Function>, f: Function)
    ensures
        fns_view(#[trigger] s.push(f)) == fns_view(s).push(f@),
{
    assert(fns_view(s.push(f)) =~= fns_view(s).push(f@));
}

pub broadcast proof fn lemma_fns_view_insert_front(s: Seq<Function>, f: Function)
    ensures
        fns_view(#[trigger] s.insert(0, f)) == seq![f@] + fns_view(s),
{
    assert(fns_view(s.insert(0, f)) =~= seq![f@] + fns_view(s));
}

/// The group of facts that connect parameter and variant vectors to their
/// models.
pub broadcast group group_model_views {
    lemma_args_view_len,
    lemma_args_view_index,
    lemma_args_view_push,
    lemma_args_view_insert_front,
    lemma_fns_view_len,
    lemma_fns_view_index,
    lemma_fns_view_push,
    lemma_fns_view_insert_front,
}

} // verus!
