//! Parser support: the chart of a parse, the fields of facts being extracted, and resolution
//! of overlapping matches.
pub mod chart;
pub mod engine;
pub mod fact_extract;
pub mod match_result;
