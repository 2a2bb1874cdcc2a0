//! Rewrites an implementation-block template so that it carries the generic
//! parameters, bounds and where-clause predicates of a target type, and
//! substitutes bare occurrences of the target's name with its fully
//! parameterized form.
//!
//! The syntax trees are modelled by the types in [`model`]; the rewriting
//! rules live in [`rewrite`]; the laws the rewriter obeys are stated and
//! proved in [`laws`].

pub mod laws;
pub mod list;
pub mod model;
pub mod rewrite;

pub use list::List;
pub use rewrite::add_type_generics;
pub use rewrite::type_aware_impl;
