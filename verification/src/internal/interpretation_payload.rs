//! The payload of an interpretation: the fact field a value goes to and the transformations
//! applied to it on the way.
use vstd::prelude::*;

verus! {

/// A transformation of a value.
#[derive(Debug, Clone)]
pub enum CoreTransform<C> {
    /// Normalization of the value.
    Normalized,
    /// Inflection of the value to the given grammemes.
    Inflected(Vec<String>),
    /// A user transformation.
    Custom(C),
}

/// Where a value goes (a field of a fact), with a constant or the transformations to apply.
#[derive(Debug, Clone)]
pub struct CoreInterpretation<V, T> {
    /// Name of the fact.
    pub fact_name: String,
    /// Name of the field.
    pub field_name: String,
    /// A constant given to the field instead of the value.
    pub const_value: Option<V>,
    /// Transformations applied to the value, in order.
    pub transforms: Vec<T>,
    /// `true` when the field is repeatable.
    pub repeatable: bool,
}

} // verus!
