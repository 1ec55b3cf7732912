//! A two-state container for values whose loading may have been deferred.

use vstd::prelude::*;
use crate::filter_value::FilterValue;
use crate::nameable::Nameable;

verus! {

/// A value read from an association that may not have been fetched.
///
/// `Item` wraps a fully materialized value; `NotLoaded` records that the
/// value was absent or that loading was deferred. A `LazyLoad` value is
/// built once, during row decoding, and never changes state afterwards.
#[derive(Debug, Clone, Hash, PartialEq, Eq)]
pub enum LazyLoad<T> {
    NotLoaded,
    Item(T),
}

impl<T> Default for LazyLoad<T> {
    /// The default state is `NotLoaded`.
    fn default() -> (r: Self)
        ensures
            r is NotLoaded,
    {
        LazyLoad::NotLoaded
    }
}

/// The message carried by the field error reported when resolution reaches a
/// value that was never loaded.
pub open spec fn not_loaded_message() -> Seq<char> {
    "LazyLoad item not loaded"@
}

impl<T> LazyLoad<T> {
    /// True exactly when the value was fetched.
    pub fn is_loaded(&self) -> (r: bool)
        ensures
            r == (self is Item),
    {
        match self {
            LazyLoad::Item(_) => true,
            LazyLoad::NotLoaded => false,
        }
    }

    /// The loaded value. Asking for the item of a `NotLoaded` value is a
    /// contract violation: callers must check the load state first.
    pub fn expect_loaded(&self, _msg: &str) -> (r: &T)
        requires
            self is Item,
        ensures
            *r == self->Item_0,
    {
        match self {
            LazyLoad::Item(i) => i,
            LazyLoad::NotLoaded => vstd::pervasive::unreached(),
        }
    }

    /// Relabel the two outcomes of decoding a nullable column onto the two
    /// load states: an absent cell was not loaded, a present value was. A
    /// decode failure of the inner type never reaches this point — it
    /// propagates unchanged from the decoder itself.
    pub fn from_option(decoded: Option<T>) -> (r: LazyLoad<T>)
        ensures
            decoded is None ==> r is NotLoaded,
            decoded matches Some(v) ==> r == LazyLoad::Item(v),
    {
        match decoded {
            None => LazyLoad::NotLoaded,
            Some(v) => LazyLoad::Item(v),
        }
    }

    /// Decide field resolution: a loaded value forwards to its item, so that
    /// resolving through the wrapper is resolving the item itself; a value
    /// that was never loaded reports a field error with a descriptive,
    /// non-empty message — never a silent null.
    pub fn resolve_target(&self) -> (r: Result<&T, String>)
        ensures
            self is Item ==> (r matches Ok(i) && *i == self->Item_0),
            self is NotLoaded ==> (r matches Err(m) && m@ == not_loaded_message()
                && m@.len() > 0),
    {
        match self {
            LazyLoad::Item(i) => Ok(i),
            LazyLoad::NotLoaded => {
                proof {
                    reveal_strlit("LazyLoad item not loaded");
                }
                Err(String::from_str("LazyLoad item not loaded"))
            },
        }
    }

    /// Wrap the outcome of the inner type's input (or look-ahead) conversion:
    /// a conversion that succeeded always yields a loaded value — inputs are
    /// never deferred — and one that failed yields nothing.
    pub fn from_converted(converted: Option<T>) -> (r: Option<LazyLoad<T>>)
        ensures
            converted is None <==> r is None,
            converted matches Some(v) ==> r == Some(LazyLoad::Item(v)),
            r matches Some(l) ==> l is Item,
    {
        match converted {
            None => None,
            Some(v) => Some(LazyLoad::Item(v)),
        }
    }

    /// The target of output (wire) conversion. Serializing a value that was
    /// never loaded is a contract violation — the execution engine must go
    /// through the field-resolution error path first — so `NotLoaded` is
    /// excluded by precondition, and no placeholder value is ever produced.
    pub fn output_target(&self) -> (r: &T)
        requires
            self is Item,
        ensures
            *r == self->Item_0,
    {
        self.expect_loaded("LazyLoad item not loaded")
    }

    /// The target of concrete-type-name lookup during type narrowing. Schema
    /// type resolution is driven only by successfully loaded data, so asking
    /// for the concrete type of a `NotLoaded` value is a contract violation,
    /// excluded by precondition; no placeholder name is ever produced.
    pub fn concrete_type_target(&self) -> (r: &T)
        requires
            self is Item,
        ensures
            *r == self->Item_0,
    {
        self.expect_loaded("LazyLoad item not loaded")
    }
}

impl<T, C> FilterValue<C> for LazyLoad<T> where T: FilterValue<C> {
    type RawValue = <T as FilterValue<C>>::RawValue;

    type AdditionalFilter = <T as FilterValue<C>>::AdditionalFilter;
}

impl<T> Nameable for LazyLoad<T> where T: Nameable {
    /// The display name is exactly the inner type's, independent of the
    /// introspection-shape quirk of the surrounding schema generator.
    open spec fn spec_name() -> Seq<char> {
        T::spec_name()
    }

    fn name() -> String {
        T::name()
    }
}

} // verus!
