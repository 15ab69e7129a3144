//! An ordered, rooted tree of definition items.
//!
//! A definitions source is a list of top-level declarations. This crate holds
//! the data model that such a list is assembled into: the closed set of item
//! categories, the immutable tree node, the staged builder that produces
//! nodes, and the wrapper type whose values are always well-formed roots.

pub mod builder;
pub mod error;
pub mod item;
pub mod kind;
pub mod tree;
