//! Rule-based extraction of structured facts from Russian texts.
pub mod error;
pub mod span;
pub mod text;

pub use span::Span;
pub mod internal;
pub mod interpretation;
pub mod morph;
pub mod parser;
pub mod token;
