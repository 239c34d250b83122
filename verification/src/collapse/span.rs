//! Spans: the categorical structure of lookup arguments.
//!
//! A span from `A` to `B` is a pair of morphisms with common domain:
//!
//! ```text
//!     A <--left-- S --right--> B
//! ```
//!
//! Spans compose via pullback: the composition of `(S: A -> B)`
//! and `(T: B -> C)` has apex = pullback of `S.right` and `T.left`.
use vstd::prelude::*;

use super::free_category::FreeCategoryError;
use super::limit::{Cospan, CospanView, HasPullbacks, Pullback, PullbackView};

verus! {

/// The mathematical model of a span: its apex and its two legs.
pub struct SpanView<Obj, Mor> {
    /// The common domain `S`.
    pub apex: Obj,
    /// The left leg `S -> A`.
    pub left: Mor,
    /// The right leg `S -> B`.
    pub right: Mor,
}

/// A span: two morphisms with a common domain.
///
/// ```text
///     A <--left-- S --right--> B
/// ```
pub struct Span<Obj, Mor> {
    apex: Obj,
    left: Mor,
    right: Mor,
}

impl<Obj, Mor> View for Span<Obj, Mor> {
    type V = SpanView<Obj, Mor>;

    closed spec fn view(&self) -> SpanView<Obj, Mor> {
        SpanView { apex: self.apex, left: self.left, right: self.right }
    }
}

impl<Obj, Mor> Span<Obj, Mor> {
    /// Construct a span from an apex and two legs.
    pub fn new(apex: Obj, left: Mor, right: Mor) -> (s: Self)
        ensures
            s@ == (SpanView { apex, left, right }),
    {
        Span { apex, left, right }
    }

    /// The apex (common domain) of the span.
    pub fn apex(&self) -> (o: &Obj)
        ensures
            *o == self@.apex,
    {
        &self.apex
    }

    /// The left leg: `S -> A`.
    pub fn left(&self) -> (m: &Mor)
        ensures
            *m == self@.left,
    {
        &self.left
    }

    /// The right leg: `S -> B`.
    pub fn right(&self) -> (m: &Mor)
        ensures
            *m == self@.right,
    {
        &self.right
    }

    /// A span is determined by its model.
    pub proof fn lemma_view_injective(a: Self, b: Self)
        ensures
            (a@ == b@) <==> (a == b),
    {
    }
}

/// The mathematical model of a span composition: the composed span and
/// the pullback that it was built on.
pub struct SpanCompositionView<Obj, Mor> {
    /// The composed span.
    pub span: SpanView<Obj, Mor>,
    /// The pullback of the inner legs (the shared witness).
    pub pullback: PullbackView<Obj, Mor>,
}

/// The result of composing two spans via pullback.
///
/// Given `Span(A <-f- S -g-> B)` and `Span(B <-h- T -k-> C)`,
/// the composition is `Span(A <-f∘p1- P -k∘p2-> C)` where
/// `P` is the pullback of `g` and `h`.
pub struct SpanComposition<Obj, Mor> {
    composed: Span<Obj, Mor>,
    pullback: Pullback<Obj, Mor>,
}

impl<Obj, Mor> View for SpanComposition<Obj, Mor> {
    type V = SpanCompositionView<Obj, Mor>;

    closed spec fn view(&self) -> SpanCompositionView<Obj, Mor> {
        SpanCompositionView { span: self.composed@, pullback: self.pullback@ }
    }
}

impl<Obj, Mor> SpanComposition<Obj, Mor> {
    /// The composed span.
    pub fn span(&self) -> (s: &Span<Obj, Mor>)
        ensures
            s@ == self@.span,
    {
        &self.composed
    }

    /// The pullback used in the composition (the shared witness).
    pub fn pullback(&self) -> (p: &Pullback<Obj, Mor>)
        ensures
            p@ == self@.pullback,
    {
        &self.pullback
    }
}

/// The span that composing `first` and `second` over the pullback `pb`
/// yields, up to the clones and the composition `comp_fn`: its apex is a
/// clone of the pullback object, its left leg is `comp_fn` applied to a
/// clone of the left projection and the left leg of `first`, and its right
/// leg is `comp_fn` applied to a clone of the right projection and the
/// right leg of `second`.
pub open spec fn composed_over<Obj: Clone, Mor: Clone, F: Fn(Mor, Mor) -> Mor>(
    first: SpanView<Obj, Mor>,
    second: SpanView<Obj, Mor>,
    pb: PullbackView<Obj, Mor>,
    comp_fn: F,
    composed: SpanView<Obj, Mor>,
) -> bool {
    &&& vstd::pervasive::strictly_cloned(pb.apex, composed.apex)
    &&& exists|pl: Mor| #[trigger]
        vstd::pervasive::strictly_cloned(pb.proj_left, pl) && call_ensures(comp_fn, (pl, first.left), composed.left)
    &&& exists|pr: Mor| #[trigger]
        vstd::pervasive::strictly_cloned(pb.proj_right, pr) && call_ensures(comp_fn, (pr, second.right), composed.right)
}

/// The composed span of a composition over a pullback: its apex is a
/// clone of the pullback object, its left leg composes a clone of the LEFT
/// projection with the left leg of `first`, and its right leg composes a
/// clone of the RIGHT projection with the right leg of `second`.
pub proof fn lemma_composed_over_legs<Obj: Clone, Mor: Clone, F: Fn(Mor, Mor) -> Mor>(
    first: SpanView<Obj, Mor>,
    second: SpanView<Obj, Mor>,
    pb: PullbackView<Obj, Mor>,
    comp_fn: F,
    composed: SpanView<Obj, Mor>,
)
    requires
        composed_over(first, second, pb, comp_fn, composed),
    ensures
        vstd::pervasive::strictly_cloned(pb.apex, composed.apex),
        exists|pl: Mor| #[trigger]
            vstd::pervasive::strictly_cloned(pb.proj_left, pl) && call_ensures(comp_fn, (pl, first.left), composed.left),
        exists|pr: Mor| #[trigger]
            vstd::pervasive::strictly_cloned(pb.proj_right, pr) && call_ensures(comp_fn, (pr, second.right), composed.right),
{
}

/// Compose two spans via pullback.
///
/// The right leg of `first` and the left leg of `second` form a
/// cospan over the shared object `B`.  The pullback of this cospan
/// produces the apex of the composed span.
///
/// ```text
///           first                second
///     A <--fl-- S --fr--> B <--sl-- T --sr--> C
///
///     Composed via pullback of (fr, sl):
///
///     A <--fl∘p1-- P --sr∘p2--> C
/// ```
///
/// Returns the category's error if the pullback cannot be computed
/// (e.g., the cospan formed by the inner legs is ill-formed).
pub fn compose_spans<C>(
    first: Span<C::Obj, C::Mor>,
    second: Span<C::Obj, C::Mor>,
    shared_apex: C::Obj,
    category: &C,
    comp_fn: impl Fn(C::Mor, C::Mor) -> C::Mor,
) -> (r: Result<SpanComposition<C::Obj, C::Mor>, FreeCategoryError>) where
    C: HasPullbacks,
    C::Obj: Clone,
    C::Mor: Clone,

    requires
        forall|a: C::Mor, b: C::Mor| call_requires(comp_fn, (a, b)),
    ensures
        ({
            let inner = CospanView { left: first@.right, right: second@.left, apex: shared_apex };
            match category.spec_pullback(inner) {
                Err(e) => r == Err::<SpanComposition<C::Obj, C::Mor>, FreeCategoryError>(e),
                Ok(pb) => r matches Ok(sc) && sc@.pullback == pb && pb.cospan == inner
                    && composed_over(first@, second@, pb, comp_fn, sc@.span),
            }
        }),
        r matches Ok(sc) ==> {
            &&& vstd::pervasive::strictly_cloned(sc@.pullback.apex, sc@.span.apex)
            &&& exists|pl: C::Mor| #[trigger]
                vstd::pervasive::strictly_cloned(sc@.pullback.proj_left, pl) && call_ensures(
                    comp_fn,
                    (pl, first@.left),
                    sc@.span.left,
                )
            &&& exists|pr: C::Mor| #[trigger]
                vstd::pervasive::strictly_cloned(sc@.pullback.proj_right, pr) && call_ensures(
                    comp_fn,
                    (pr, second@.right),
                    sc@.span.right,
                )
            &&& sc@.pullback.cospan == (CospanView { left: first@.right, right: second@.left, apex: shared_apex })
        },
{
    let Span { apex: _, left: first_left, right: first_right } = first;
    let Span { apex: _, left: second_left, right: second_right } = second;
    let cospan = Cospan::new(first_right, second_left, shared_apex);
    let pullback = match category.pullback(cospan) {
        Ok(p) => p,
        Err(e) => return Err(e),
    };
    let pl = pullback.proj_left().clone();
    let composed_left = comp_fn(pl, first_left);
    let pr = pullback.proj_right().clone();
    let composed_right = comp_fn(pr, second_right);
    let apex = pullback.apex().clone();
    let composed = Span::new(apex, composed_left, composed_right);
    let sc = SpanComposition { composed, pullback };
    proof {
        assert(vstd::pervasive::strictly_cloned(pullback@.proj_left, pl));
        assert(vstd::pervasive::strictly_cloned(pullback@.proj_right, pr));
    }
    Ok(sc)
}

} // verus!
