//! Display names for the types the schema exposes.

use vstd::prelude::*;

verus! {

/// A display name used for schema naming. Types exposed through the schema
/// implement this; wrappers forward to the wrapped type's name.
pub trait Nameable {
    /// The display name, at the specification level.
    spec fn spec_name() -> Seq<char>;

    /// The display name of the type.
    fn name() -> (r: String)
        ensures
            r@ == Self::spec_name(),
    ;
}

} // verus!
