//! Morphology: grammemes, their codes and their projections, and forms of words.
pub mod form;
pub mod grammemes;
pub mod models;
