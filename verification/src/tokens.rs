//! The token model that the parser reads and the generator writes.
//!
//! A macro invocation arrives as a tree of host-language tokens: words,
//! punctuation, literals and delimited groups. The grammar of a function
//! group dispatches on exactly three keywords (`mut`, `fn`, `pub`), so those
//! get variants of their own; every other word is carried verbatim.

use vstd::prelude::*;

verus! {

/// Delimiter of a bracketed token group.
#[derive(Clone, Copy, PartialEq, Eq, Structural, Debug)]
pub enum Delim {
    Paren,
    Brace,
    Bracket,
}

/// Whether a punctuation character joins the one after it into a compound
/// operator (as the `-` of `->` does) or stands alone.
#[derive(Clone, Copy, PartialEq, Eq, Structural, Debug)]
pub enum Spacing {
    Alone,
    Joint,
}

/// One host-language token.
#[derive(PartialEq, Eq, Debug)]
pub enum Tok {
    /// An identifier, or any keyword the grammar itself does not dispatch on.
    Word(String),
    /// The keyword `mut`.
    KwMut,
    /// The keyword `fn`.
    KwFn,
    /// The keyword `pub`.
    KwPub,
    /// A punctuation character with its spacing.
    Punct(char, Spacing),
    /// A literal, carried as its source text.
    Lit(String),
    /// A delimited group of tokens.
    Group(Delim, Vec<Tok>),
}

/// The mathematical model of a token: strings become sequences of
/// characters, groups become sequences of modelled tokens.
#[verifier::ext_equal]
pub enum TokView {
    Word(Seq<char>),
    KwMut,
    KwFn,
    KwPub,
    Punct(char, Spacing),
    Lit(Seq<char>),
    Group(Delim, Seq<TokView>),
}

/// The model of one token.
pub open spec fn tok_view(t: Tok) -> TokView
    decreases t,
{
    match t {
        Tok::Word(s) => TokView::Word(s@),
        Tok::KwMut => TokView::KwMut,
        Tok::KwFn => TokView::KwFn,
        Tok::KwPub => TokView::KwPub,
        Tok::Punct(c, sp) => TokView::Punct(c, sp),
        Tok::Lit(s) => TokView::Lit(s@),
        Tok::Group(d, ts) => TokView::Group(
            d,
            Seq::new(
                ts@.len(),
                |i: int|
                    if 0 <= i < ts@.len() {
                        tok_view(ts@[i])
                    } else {
                        TokView::KwMut
                    },
            ),
        ),
    }
}

impl DeepView for Tok {
    type V = TokView;

    open spec fn deep_view(&self) -> TokView {
        tok_view(*self)
    }
}

impl View for Tok {
    type V = TokView;

    open spec fn view(&self) -> TokView {
        tok_view(*self)
    }
}

/// The model of a token sequence.
pub open spec fn toks_view(s: Seq<Tok>) -> Seq<TokView> {
    Seq::new(s.len(), |i: int| tok_view(s[i]))
}

pub broadcast proof fn lemma_toks_view_len(s: Seq<Tok>)
    ensures
        #[trigger] toks_view(s).len() == s.len(),
{
}

pub broadcast proof fn lemma_toks_view_index(s: Seq<Tok>, i: int)
    requires
        0 <= i < s.len(),
    ensures
        #[trigger] toks_view(s)[i] == tok_view(s[i]),
{
}

pub broadcast proof fn lemma_toks_view_push(s: Seq<Tok>, t: Tok)
    ensures
        toks_view(#[trigger] s.push(t)) == toks_view(s).push(tok_view(t)),
{
    assert(toks_view(s.push(t)) =~= toks_view(s).push(tok_view(t)));
}

pub broadcast proof fn lemma_toks_view_add(a: Seq<Tok>, b: Seq<Tok>)
    ensures
        toks_view(#[trigger] (a + b)) == toks_view(a) + toks_view(b),
{
    assert(toks_view(a + b) =~= toks_view(a) + toks_view(b));
}

pub broadcast proof fn lemma_toks_view_subrange(s: Seq<Tok>, i: int, j: int)
    requires
        0 <= i <= j <= s.len(),
    ensures
        toks_view(#[trigger] s.subrange(i, j)) == toks_view(s).subrange(i, j),
{
    assert(toks_view(s.subrange(i, j)) =~= toks_view(s).subrange(i, j));
}

/// The model of a group token is the group of its elements' models.
pub broadcast proof fn lemma_group_deep_view(d: Delim, ts: Vec<Tok>)
    ensures
        #[trigger] tok_view(Tok::Group(d, ts)) == TokView::Group(d, toks_view(ts@)),
{
    let g = Tok::Group(d, ts);
    let s2 = tok_view(g)->Group_1;
    assert(s2.len() == ts@.len());
    assert forall|i: int| 0 <= i < ts@.len() implies s2[i] == toks_view(ts@)[i] by {
        assert(s2[i] == tok_view(ts@[i]));
    }
    assert(s2 =~= toks_view(ts@));
    assert(tok_view(g) =~= TokView::Group(d, toks_view(ts@)));
}

/// The group of facts that connect a token vector to its model; proofs in
/// this crate bring them all in at once.
pub broadcast group group_toks_view {
    lemma_toks_view_len,
    lemma_toks_view_index,
    lemma_toks_view_push,
    lemma_toks_view_add,
    lemma_toks_view_subrange,
    lemma_group_deep_view,
}

/// An exact copy of a token, equal to the original in the model.
#[verifier::loop_isolation(false)]
pub fn clone_tok(t: &Tok) -> (r: Tok)
    ensures
        r@ == t@,
    decreases t,
{
    broadcast use vstd::std_specs::vec::group_vec_axioms;

    match t {
        Tok::Word(s) => Tok::Word(s.clone()),
        Tok::KwMut => Tok::KwMut,
        Tok::KwFn => Tok::KwFn,
        Tok::KwPub => Tok::KwPub,
        Tok::Punct(c, sp) => Tok::Punct(*c, *sp),
        Tok::Lit(s) => Tok::Lit(s.clone()),
        Tok::Group(d, ts) => {
            let mut out: Vec<Tok> = Vec::new();
            let mut i: usize = 0;
            while i < ts.len()
                invariant
                    i <= ts.len(),
                    toks_view(out@) == toks_view(ts@).subrange(0, i as int),
                decreases ts.len() - i,
            {
                proof {
                    vstd::std_specs::vec::axiom_vec_index_decreases::<Tok>(*ts, i as int);
                    assert(decreases_to!(Tok::Group(*d, *ts) => *ts));
                    assert(*t == Tok::Group(*d, *ts));
                    assert(decreases_to!(*t => ts@[i as int]));
                }
                let c = clone_tok(&ts[i]);
                out.push(c);
                proof {
                    broadcast use group_toks_view;

                    assert(toks_view(out@) =~= toks_view(ts@).subrange(0, i + 1 as int));
                }
                i = i + 1;
            }
            proof {
                broadcast use group_toks_view;

                assert(toks_view(ts@).subrange(0, ts@.len() as int) =~= toks_view(ts@));
            }
            let r = Tok::Group(*d, out);
            proof {
                lemma_group_deep_view(*d, out);
                lemma_group_deep_view(*d, *ts);
            }
            r
        },
    }
}

/// An exact copy of a token vector, equal to the original in the model.
pub fn clone_toks(v: &Vec<Tok>) -> (r: Vec<Tok>)
    ensures
        toks_view(r@) == toks_view(v@),
{
    let mut out: Vec<Tok> = Vec::new();
    let mut i: usize = 0;
    while i < v.len()
        invariant
            i <= v.len(),
            toks_view(out@) == toks_view(v@).subrange(0, i as int),
        decreases v.len() - i,
    {
        let c = clone_tok(&v[i]);
        out.push(c);
        proof {
            broadcast use group_toks_view;

            assert(toks_view(out@) =~= toks_view(v@).subrange(0, i + 1 as int));
        }
        i = i + 1;
    }
    proof {
        broadcast use group_toks_view;

        assert(toks_view(v@).subrange(0, v@.len() as int) =~= toks_view(v@));
    }
    out
}

} // verus!
