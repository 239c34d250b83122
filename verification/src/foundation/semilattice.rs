//! Join-semilattices: partial orders with least upper bounds.
//!
//! A join-semilattice is a partial order where every pair of elements
//! has a least upper bound (join).  Categorically, this is a thin
//! category (posetal category) with finite coproducts.
//!
//! The join is the binary coproduct: `join(a, b)` is the universal
//! object such that `a <= join(a, b)` and `b <= join(a, b)`, and
//! for any `c` with `a <= c` and `b <= c`, `join(a, b) <= c`.
//!
//! ## Laws
//!
//! An implementation asserts the algebraic laws collected in
//! [`semilattice_laws`]: the join is commutative, associative and
//! idempotent, and the `PartialOrd` order is the order that the join
//! induces (`a <= b` exactly when `join(a, b) == b`).  From these, the
//! lemmas below prove that the order is a partial order and that the
//! join is its least upper bound.
use vstd::prelude::*;
use vstd::std_specs::cmp::PartialOrdSpec;

verus! {

/// A join-semilattice: a partial order with binary least upper bounds.
///
/// Implementing this trait asserts that the type's [`PartialOrd`]
/// relation forms a partial order and that `join` computes the
/// least upper bound.
pub trait JoinSemilattice: PartialOrd + Eq + Sized {
    /// The least upper bound, as a mathematical function.  An
    /// implementation defines it; the default leaves it unspecified.
    open spec fn spec_join(self, other: Self) -> Self {
        vstd::pervasive::arbitrary()
    }

    /// The least upper bound of two elements.
    ///
    /// Categorically: the coproduct in the posetal category,
    /// which is a colimit, which is a left Kan extension.
    #[must_use]
    fn join(&self, other: &Self) -> (r: Self)
        ensures
            r == self.spec_join(*other),
    ;
}

/// `a <= b` in the `PartialOrd` order of the type.
pub open spec fn join_le<T: JoinSemilattice>(a: T, b: T) -> bool {
    vstd::std_specs::cmp::PartialOrdIs::is_le(&a, &b)
}

/// The laws that an implementation of [`JoinSemilattice`] asserts:
/// commutativity, associativity and idempotency of the join, and the
/// `PartialOrd` order being the join order.
pub open spec fn semilattice_laws<T: JoinSemilattice>() -> bool {
    &&& forall|a: T, b: T| #[trigger] a.spec_join(b) == b.spec_join(a)
    &&& forall|a: T, b: T, c: T| #[trigger] a.spec_join(b).spec_join(c) == a.spec_join(b.spec_join(c))
    &&& forall|a: T| #[trigger] a.spec_join(a) == a
    &&& T::obeys_partial_cmp_spec()
    &&& forall|a: T, b: T| #[trigger] join_le(a, b) <==> a.spec_join(b) == b
}

/// Upper bound: `a <= join(a, b)` and `b <= join(a, b)`.
pub proof fn lemma_join_upper_bound<T: JoinSemilattice>(a: T, b: T)
    requires
        semilattice_laws::<T>(),
    ensures
        join_le(a, a.spec_join(b)),
        join_le(b, a.spec_join(b)),
{
    let j = a.spec_join(b);
    assert(a.spec_join(a).spec_join(b) == a.spec_join(a.spec_join(b)));
    assert(a.spec_join(a) == a);
    assert(join_le(a, j));
    assert(b.spec_join(a) == j);
    assert(b.spec_join(b).spec_join(a) == b.spec_join(b.spec_join(a)));
    assert(b.spec_join(b) == b);
    assert(join_le(b, j));
}

/// Least: if `a <= c` and `b <= c`, then `join(a, b) <= c`.
pub proof fn lemma_join_least<T: JoinSemilattice>(a: T, b: T, c: T)
    requires
        semilattice_laws::<T>(),
        join_le(a, c),
        join_le(b, c),
    ensures
        join_le(a.spec_join(b), c),
{
    assert(a.spec_join(b).spec_join(c) == a.spec_join(b.spec_join(c)));
}

/// The order is reflexive: `a <= a`.
pub proof fn lemma_le_reflexive<T: JoinSemilattice>(a: T)
    requires
        semilattice_laws::<T>(),
    ensures
        join_le(a, a),
{
    assert(a.spec_join(a) == a);
}

/// The order is antisymmetric: `a <= b` and `b <= a` give `a == b`.
pub proof fn lemma_le_antisymmetric<T: JoinSemilattice>(a: T, b: T)
    requires
        semilattice_laws::<T>(),
        join_le(a, b),
        join_le(b, a),
    ensures
        a == b,
{
    assert(a.spec_join(b) == b.spec_join(a));
}

/// The order is transitive: `a <= b` and `b <= c` give `a <= c`.
pub proof fn lemma_le_transitive<T: JoinSemilattice>(a: T, b: T, c: T)
    requires
        semilattice_laws::<T>(),
        join_le(a, b),
        join_le(b, c),
    ensures
        join_le(a, c),
{
    assert(a.spec_join(b).spec_join(c) == a.spec_join(b.spec_join(c)));
}

} // verus!
