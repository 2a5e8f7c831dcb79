//! Path-relative filesystem access.
//!
//! A [`dir::Dir`] is a logical working directory: a base path under which
//! relative paths are resolved. The crate's verified core composes the base
//! with relative fragments, computes the parent chain a caller must create,
//! plans the cross-root move, and fixes the two existence-check policies.
//! The filesystem calls themselves are the caller's: every operation here is
//! a total function from paths and outcomes to paths and decisions.

pub mod dir;
pub mod laws;
pub mod outcome;
pub mod paths;
