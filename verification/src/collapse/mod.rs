//! Classical constructions: free categories over graphs, pullbacks and
//! spans composed through pullbacks.

pub mod free_category;
pub mod limit;
pub mod span;
