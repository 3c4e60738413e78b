//! Interpretation: attributes, normalizers, facts and interpretators.
pub mod attribute;
pub mod fact;
pub mod interpretator;
pub mod normalizer;
pub mod value;

pub use attribute::Attribute;
pub use fact::{
    field_to_value, set_field_value, Fact, FactAttribute, FactField, FactMeta, FieldType,
    InterpretatorFact, RuntimeAttributeValue,
};
pub use crate::internal::fact_schema::{
    fact, prepare_attribute, try_fact, ConstructedAttribute, FactAttributeInput, FactError,
    FactRecord, FactRecordRaw, FactScheme, PreparedAttributeScheme,
};
pub use interpretator::{
    prepare_attribute_interpretator, prepare_rule_interpretator, prepare_token_interpretator,
    AnyInterpretator, AttributeInterpretator, AttributeNormalizerInterpretator, ComposedFunction,
    CustomCall, FactInterpretator, Interpretation, InterpretatorError, InterpretatorInput,
    InterpretatorInputItem, KeepValue, NormalizerCallable, NormalizerInterpretator,
    PreparedAttributeItem, PreparedRuleItem, PreparedTokenItem, TextFunction, Transform,
    ValueFunction,
};
pub use normalizer::{
    AttributeResult, Chain, FactResult, InterpretationValue, NormalizedItem, NormalizerResult,
    NormalizerResultValue, RuntimeItem,
};
pub use value::FactValue;
