//! Effect: the decisions of the effect system that do not depend on the
//! closures it runs.

pub mod resource;
