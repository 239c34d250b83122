//! Pullbacks: limits over the cospan diagram.
//!
//! A pullback of a cospan `A -f-> C <-g- B` is an object `P` with
//! projections `p1: P -> A` and `p2: P -> B` such that `f ∘ p1 = g ∘ p2`,
//! universal among all such cones.
//!
//! As a right Kan extension: the pullback is `Ran` along the
//! cospan inclusion into the arrow category.
use vstd::prelude::*;

use super::free_category::FreeCategoryError;

verus! {

/// The mathematical model of a cospan: its two legs and their codomain.
pub struct CospanView<Obj, Mor> {
    /// The left leg: `A -> C`.
    pub left: Mor,
    /// The right leg: `B -> C`.
    pub right: Mor,
    /// The common codomain.
    pub apex: Obj,
}

/// A cospan: two morphisms with a common codomain.
///
/// ```text
///     A --left--> C <--right-- B
/// ```
pub struct Cospan<Obj, Mor> {
    left: Mor,
    right: Mor,
    apex: Obj,
}

impl<Obj, Mor> View for Cospan<Obj, Mor> {
    type V = CospanView<Obj, Mor>;

    closed spec fn view(&self) -> CospanView<Obj, Mor> {
        CospanView { left: self.left, right: self.right, apex: self.apex }
    }
}

impl<Obj, Mor> Cospan<Obj, Mor> {
    /// Construct a cospan from two morphisms and their common codomain.
    pub fn new(left: Mor, right: Mor, apex: Obj) -> (c: Self)
        ensures
            c@ == (CospanView { left, right, apex }),
    {
        Cospan { left, right, apex }
    }

    /// The left leg of the cospan: `A -> C`.
    pub fn left(&self) -> (m: &Mor)
        ensures
            *m == self@.left,
    {
        &self.left
    }

    /// The right leg of the cospan: `B -> C`.
    pub fn right(&self) -> (m: &Mor)
        ensures
            *m == self@.right,
    {
        &self.right
    }

    /// The apex (common codomain) of the cospan.
    pub fn apex(&self) -> (o: &Obj)
        ensures
            *o == self@.apex,
    {
        &self.apex
    }

    /// A cospan is determined by its model.
    pub proof fn lemma_view_injective(a: Self, b: Self)
        ensures
            (a@ == b@) <==> (a == b),
    {
    }
}

/// The mathematical model of a pullback: its object, its two
/// projections and the cospan that it is a pullback of.
pub struct PullbackView<Obj, Mor> {
    /// The pullback object `P`.
    pub apex: Obj,
    /// The left projection `P -> A`.
    pub proj_left: Mor,
    /// The right projection `P -> B`.
    pub proj_right: Mor,
    /// The cospan `A -> C <- B`.
    pub cospan: CospanView<Obj, Mor>,
}

/// A pullback: the limit of a cospan.
///
/// ```text
///     P --proj_left--> A
///     |                |
///   proj_right       left
///     |                |
///     v                v
///     B ---right-----> C
/// ```
///
/// The square commutes: `left ∘ proj_left = right ∘ proj_right`.
pub struct Pullback<Obj, Mor> {
    apex: Obj,
    proj_left: Mor,
    proj_right: Mor,
    cospan: Cospan<Obj, Mor>,
}

impl<Obj, Mor> View for Pullback<Obj, Mor> {
    type V = PullbackView<Obj, Mor>;

    closed spec fn view(&self) -> PullbackView<Obj, Mor> {
        PullbackView {
            apex: self.apex,
            proj_left: self.proj_left,
            proj_right: self.proj_right,
            cospan: self.cospan@,
        }
    }
}

/// The model of a pullback result: the pullback's view, or the same error.
pub open spec fn pullback_result_view<Obj, Mor>(r: Result<Pullback<Obj, Mor>, FreeCategoryError>) -> Result<
    PullbackView<Obj, Mor>,
    FreeCategoryError,
> {
    match r {
        Ok(p) => Ok(p@),
        Err(e) => Err(e),
    }
}

impl<Obj, Mor> Pullback<Obj, Mor> {
    /// Construct a pullback from its components.
    ///
    /// The caller asserts the commutativity condition and
    /// universal property hold.
    pub fn new(apex: Obj, proj_left: Mor, proj_right: Mor, cospan: Cospan<Obj, Mor>) -> (p: Self)
        ensures
            p@ == (PullbackView { apex, proj_left, proj_right, cospan: cospan@ }),
    {
        Pullback { apex, proj_left, proj_right, cospan }
    }

    /// The pullback object.
    pub fn apex(&self) -> (o: &Obj)
        ensures
            *o == self@.apex,
    {
        &self.apex
    }

    /// The left projection: `P -> A`.
    pub fn proj_left(&self) -> (m: &Mor)
        ensures
            *m == self@.proj_left,
    {
        &self.proj_left
    }

    /// The right projection: `P -> B`.
    pub fn proj_right(&self) -> (m: &Mor)
        ensures
            *m == self@.proj_right,
    {
        &self.proj_right
    }

    /// The cospan that this is a pullback of.
    pub fn cospan(&self) -> (c: &Cospan<Obj, Mor>)
        ensures
            c@ == self@.cospan,
    {
        &self.cospan
    }

    /// A pullback is determined by its model.
    pub proof fn lemma_view_injective(a: Self, b: Self)
        ensures
            (a@ == b@) <==> (a == b),
    {
        if a@ == b@ {
            Cospan::lemma_view_injective(a.cospan, b.cospan);
        }
    }
}

/// A category that has all pullbacks.
///
/// The spec function names the pullback that the category computes: the
/// category is a fixed structure, so the result is a function of the cospan.
pub trait HasPullbacks {
    /// The object type in this category.
    type Obj;

    /// The morphism type in this category.
    type Mor;

    /// The pullback of a cospan, or the error for a cospan that has none.
    /// An implementation defines it; the default leaves it unspecified.
    open spec fn spec_pullback(&self, cospan: CospanView<Self::Obj, Self::Mor>) -> Result<
        PullbackView<Self::Obj, Self::Mor>,
        FreeCategoryError,
    > {
        vstd::pervasive::arbitrary()
    }

    /// Compute the pullback of a cospan.
    ///
    /// A pullback that is returned is a pullback of `cospan`.  Returns an
    /// error if the pullback cannot be constructed (e.g., the cospan is
    /// ill-formed).
    fn pullback(&self, cospan: Cospan<Self::Obj, Self::Mor>) -> (r: Result<
        Pullback<Self::Obj, Self::Mor>,
        FreeCategoryError,
    >)
        ensures
            pullback_result_view(r) == self.spec_pullback(cospan@),
            r matches Ok(p) ==> p@.cospan == cospan@,
    ;
}

} // verus!
