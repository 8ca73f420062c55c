//! A paginating layout engine: region sequences, memoized node layout and
//! page-run orchestration.

pub mod cache;
pub mod geom;
pub mod laws;
pub mod layout;
pub mod link;
pub mod regions;
