//! Types shared by the interpretation layer: fact schemes, records and interpretation payloads.
pub mod fact_schema;
pub mod interpretation_payload;

pub use fact_schema::{
    fact, prepare_attribute, try_fact, ConstructedAttribute, FactAttributeInput, FactError,
    FactRecord, FactRecordRaw, FactScheme, PreparedAttributeScheme,
};
pub use interpretation_payload::{CoreInterpretation, CoreTransform};
