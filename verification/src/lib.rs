//! Value-level type mapping and lazy-loading support for a GraphQL API surface
//! derived from relational table definitions.
//!
//! Two pieces make up this crate. The [`filter_value`] module carries the
//! compile-time mapping from a column's logical value type to the raw input
//! type accepted for it and to the extra filter operations it supports, along
//! with an explicit descriptor form of the same mapping whose laws are stated
//! and proved. The [`lazy_load`] module carries [`lazy_load::LazyLoad`], a
//! two-state container for values whose loading may have been deferred, and
//! the decision functions that adapt it to row decoding and to field
//! resolution.

pub mod filter_value;
pub mod lazy_load;
pub mod nameable;

pub use filter_value::FilterValue;
pub use lazy_load::LazyLoad;
pub use nameable::Nameable;
