//! Isomorphisms in a category.
//!
//! An isomorphism between objects `A` and `B` in a category consists of a
//! morphism `forward: A -> B` and an inverse `backward: B -> A` such that
//! their compositions are identities.
//!
//! Needed for coherence isomorphisms in monoidal categories
//! (associator, left/right unitors, braiding) and for expressing
//! equivalences between circuit representations.  `Fwd` is the type of
//! morphisms `A -> B` and `Bwd` the type of morphisms `B -> A`.
use vstd::prelude::*;

verus! {

/// The mathematical model of an isomorphism: its two morphisms.
pub struct IsoView<Fwd, Bwd> {
    /// The morphism `A -> B`.
    pub forward: Fwd,
    /// The morphism `B -> A`.
    pub backward: Bwd,
}

/// An isomorphism between objects `A` and `B`, given by a morphism
/// `A -> B` of type `Fwd` and a morphism `B -> A` of type `Bwd`.
///
/// # Laws (asserted by whoever builds one)
///
/// - `comp(forward, backward) == id_A`
/// - `comp(backward, forward) == id_B`
pub struct Iso<Fwd, Bwd> {
    forward: Fwd,
    backward: Bwd,
}

impl<Fwd, Bwd> View for Iso<Fwd, Bwd> {
    type V = IsoView<Fwd, Bwd>;

    closed spec fn view(&self) -> IsoView<Fwd, Bwd> {
        IsoView { forward: self.forward, backward: self.backward }
    }
}

impl<Fwd, Bwd> Iso<Fwd, Bwd> {
    /// Construct an isomorphism from a forward and backward morphism.
    ///
    /// The caller asserts the round-trip laws hold.
    pub fn new(forward: Fwd, backward: Bwd) -> (i: Self)
        ensures
            i@ == (IsoView { forward, backward }),
    {
        Iso { forward, backward }
    }

    /// The forward morphism: `A -> B`.
    pub fn forward(&self) -> (f: &Fwd)
        ensures
            *f == self@.forward,
    {
        &self.forward
    }

    /// The backward morphism: `B -> A`.
    pub fn backward(&self) -> (b: &Bwd)
        ensures
            *b == self@.backward,
    {
        &self.backward
    }

    /// Consume this isomorphism, returning the forward morphism.
    pub fn into_forward(self) -> (f: Fwd)
        ensures
            f == self@.forward,
    {
        self.forward
    }

    /// Consume this isomorphism, returning the backward morphism.
    pub fn into_backward(self) -> (b: Bwd)
        ensures
            b == self@.backward,
    {
        self.backward
    }

    /// Flip the isomorphism: produces the isomorphism from `B` to `A`.
    pub fn flip(self) -> (i: Iso<Bwd, Fwd>)
        ensures
            i@ == (IsoView { forward: self@.backward, backward: self@.forward }),
    {
        Iso { forward: self.backward, backward: self.forward }
    }

    /// An isomorphism is determined by its model.
    pub proof fn lemma_view_injective(a: Self, b: Self)
        ensures
            (a@ == b@) <==> (a == b),
    {
    }
}

/// The flip of a flip is the isomorphism itself.
pub proof fn lemma_flip_involutive<Fwd, Bwd>(i: IsoView<Fwd, Bwd>)
    ensures
        ({
            let once = IsoView { forward: i.backward, backward: i.forward };
            let twice = IsoView { forward: once.backward, backward: once.forward };
            twice == i
        }),
{
}

} // verus!
