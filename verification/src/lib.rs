//! Computational category theory: free categories over directed graphs,
//! pullbacks, spans, isomorphisms, join-semilattices and the outcome of a
//! resource bracket, each stated over a mathematical model and proved with
//! Verus.

pub mod collapse;
pub mod foundation;
pub mod effect;
