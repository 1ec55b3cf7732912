//! The filter-value mapping: which raw input type a column's logical value
//! type accepts, and which extra filter operations it supports.

use vstd::prelude::*;

verus! {

/// Marker for the string-specific extra filter operations (pattern and
/// substring predicates) available on a text-valued column `C`. The meaning
/// of the marker is given by the filter-expression builder that consumes it.
#[verifier::reject_recursive_types(C)]
pub struct StringFilter<C> {
    pub column: core::marker::PhantomData<C>,
}

/// Marker for the null-test extra filter operations (`is null` /
/// `is not null`) available on a nullable column `C` with inner value
/// type `V`. The meaning of the marker is given by the filter-expression
/// builder that consumes it.
#[verifier::reject_recursive_types(V)]
#[verifier::reject_recursive_types(C)]
pub struct NullableFilter<V, C> {
    pub value: core::marker::PhantomData<V>,
    pub column: core::marker::PhantomData<C>,
}

/// A fundamental trait marking that a filter could be constructed for a given
/// type.
///
/// The generic parameter `C` represents the type of the column; most
/// implementations are generic over all compatible columns and ignore it.
pub trait FilterValue<C> {
    /// The raw value type accepted as filter input.
    ///
    /// Normally this is the same as `Self`, but there are cases like
    /// `Option<T>` where something else (`T`) is wanted as input for the
    /// filter operations: nullability is handled by the schema layer itself.
    type RawValue;

    /// A type describing possible additional filter operations.
    ///
    /// Some types support more operations than the default comparison set
    /// (eq, neq, gt, lt, …). A type representing those additional operations
    /// is given here; `()` where none apply.
    type AdditionalFilter;
}

impl<C> FilterValue<C> for i16 {
    type RawValue = i16;

    type AdditionalFilter = ();
}

impl<C> FilterValue<C> for i32 {
    type RawValue = i32;

    type AdditionalFilter = ();
}

impl<C> FilterValue<C> for i64 {
    type RawValue = i64;

    type AdditionalFilter = ();
}

impl<C> FilterValue<C> for String {
    type RawValue = String;

    type AdditionalFilter = StringFilter<C>;
}

impl<C> FilterValue<C> for bool {
    type RawValue = bool;

    type AdditionalFilter = ();
}

impl<C, V> FilterValue<C> for Vec<V> where V: FilterValue<C> {
    type RawValue = Vec<V>;

    type AdditionalFilter = ();
}

impl<V, C> FilterValue<C> for Option<V> where V: FilterValue<C> {
    type RawValue = V;

    type AdditionalFilter = NullableFilter<V, C>;
}

/// The supported primitive scalar value types.
#[derive(Clone, Copy, Debug, PartialEq, Eq)]
pub enum Primitive {
    SmallInt,
    Integer,
    BigInt,
    Float,
    Double,
    Boolean,
    Text,
}

/// A logical value type as the filter mapping sees it: a primitive scalar,
/// or a container applied to an inner value type.
///
/// This is the descriptor form of the [`FilterValue`] relation: where the
/// trait states the mapping per Rust type, `ValueType` states it as a value,
/// so that its laws can be written down and proved.
#[derive(Debug, PartialEq, Eq)]
pub enum ValueType {
    Primitive(Primitive),
    Sequence(Box<ValueType>),
    Optional(Box<ValueType>),
    Lazy(Box<ValueType>),
}

/// The extra filter operations a value type carries beyond the default
/// comparison set.
#[derive(Debug, PartialEq, Eq)]
pub enum AdditionalFilterKind {
    /// Only the default comparison set applies.
    NoExtra,
    /// String pattern and substring operations.
    StringOperations,
    /// `is null` / `is not null` tests over the given inner value type.
    NullTest(Box<ValueType>),
}

/// The raw input type accepted for a value of type `t`.
///
/// Primitives and sequences accept themselves; an optional accepts its bare
/// inner type, nullability being the schema layer's business; a lazily loaded
/// value accepts whatever its inner type accepts.
pub open spec fn raw_value_of(t: ValueType) -> ValueType
    decreases t,
{
    match t {
        ValueType::Primitive(p) => ValueType::Primitive(p),
        ValueType::Sequence(v) => ValueType::Sequence(v),
        ValueType::Optional(v) => *v,
        ValueType::Lazy(v) => raw_value_of(*v),
    }
}

/// The extra filter operations for a value of type `t`.
///
/// Text carries the string operations; every other primitive, and every
/// sequence, carries none; an optional carries the null test over its inner
/// type; a lazily loaded value carries whatever its inner type carries.
pub open spec fn additional_filter_of(t: ValueType) -> AdditionalFilterKind
    decreases t,
{
    match t {
        ValueType::Primitive(Primitive::Text) => AdditionalFilterKind::StringOperations,
        ValueType::Primitive(_) => AdditionalFilterKind::NoExtra,
        ValueType::Sequence(_) => AdditionalFilterKind::NoExtra,
        ValueType::Optional(v) => AdditionalFilterKind::NullTest(v),
        ValueType::Lazy(v) => additional_filter_of(*v),
    }
}

impl ValueType {
    /// A structural copy of the descriptor.
    pub fn duplicate(&self) -> (r: ValueType)
        ensures
            r == *self,
        decreases self,
    {
        match self {
            ValueType::Primitive(p) => ValueType::Primitive(*p),
            ValueType::Sequence(v) => ValueType::Sequence(Box::new(v.duplicate())),
            ValueType::Optional(v) => ValueType::Optional(Box::new(v.duplicate())),
            ValueType::Lazy(v) => ValueType::Lazy(Box::new(v.duplicate())),
        }
    }

    /// The raw input type accepted for this value type.
    pub fn raw_value(&self) -> (r: ValueType)
        ensures
            r == raw_value_of(*self),
        decreases self,
    {
        match self {
            ValueType::Primitive(p) => ValueType::Primitive(*p),
            ValueType::Sequence(v) => ValueType::Sequence(Box::new(v.duplicate())),
            ValueType::Optional(v) => v.duplicate(),
            ValueType::Lazy(v) => v.raw_value(),
        }
    }

    /// The extra filter operations this value type carries.
    pub fn additional_filter(&self) -> (r: AdditionalFilterKind)
        ensures
            r == additional_filter_of(*self),
        decreases self,
    {
        match self {
            ValueType::Primitive(Primitive::Text) => AdditionalFilterKind::StringOperations,
            ValueType::Primitive(_) => AdditionalFilterKind::NoExtra,
            ValueType::Sequence(_) => AdditionalFilterKind::NoExtra,
            ValueType::Optional(v) => AdditionalFilterKind::NullTest(Box::new(v.duplicate())),
            ValueType::Lazy(v) => v.additional_filter(),
        }
    }
}

/// Law: every primitive accepts itself as raw input and carries no extra
/// filter — except text, which carries the string operations.
pub proof fn primitive_filter_mapping(p: Primitive)
    ensures
        raw_value_of(ValueType::Primitive(p)) == ValueType::Primitive(p),
        p is Text ==> additional_filter_of(ValueType::Primitive(p))
            == AdditionalFilterKind::StringOperations,
        !(p is Text) ==> additional_filter_of(ValueType::Primitive(p))
            == AdditionalFilterKind::NoExtra,
{
}

/// Law: an optional accepts its bare inner type as raw input, and carries the
/// null test over that inner type.
pub proof fn optional_filter_mapping(v: Box<ValueType>)
    ensures
        raw_value_of(ValueType::Optional(v)) == *v,
        additional_filter_of(ValueType::Optional(v)) == AdditionalFilterKind::NullTest(v),
{
}

/// Law: a sequence accepts itself as raw input and carries no extra filter.
pub proof fn sequence_filter_mapping(v: Box<ValueType>)
    ensures
        raw_value_of(ValueType::Sequence(v)) == ValueType::Sequence(v),
        additional_filter_of(ValueType::Sequence(v)) == AdditionalFilterKind::NoExtra,
{
}

/// Law: lazy loading is transparent to the filter mapping — a lazily loaded
/// value accepts the same raw input and carries the same extra filter as its
/// inner type.
pub proof fn lazy_filter_mapping(v: Box<ValueType>)
    ensures
        raw_value_of(ValueType::Lazy(v)) == raw_value_of(*v),
        additional_filter_of(ValueType::Lazy(v)) == additional_filter_of(*v),
{
}

} // verus!
