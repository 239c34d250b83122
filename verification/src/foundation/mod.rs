//! Foundation: isomorphisms and join-semilattices.

pub mod iso;
pub mod semilattice;
