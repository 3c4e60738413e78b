//! Errors of the public entry points: dictionary preparation, the morphological analyzer,
//! the tokenizer and rule validation. Paths and underlying causes are carried as text.
use vstd::prelude::*;

use crate::text::{nat_digits, string_of, usize_to_string};

verus! {

/// The error of the library's entry points.
#[derive(Debug, Clone, PartialEq, Eq)]
pub enum Error {
    /// A dictionary error.
    Dict(DictError),
    /// An error of the morphological analyzer.
    Morph(MorphError),
    /// An error of the tokenizer.
    Tokenizer(TokenizerError),
    /// An error of rule validation.
    RuleValidation(RuleValidationError),
}

/// Errors of finding or preparing the dictionary.
#[derive(Debug, Clone, PartialEq, Eq)]
pub enum DictError {
    /// The XML file does not exist.
    XmlFileDoesNotExist { path: String },
    /// The XML path is not a file.
    XmlPathIsNotFile { path: String },
    /// The cache directory could not be created.
    CreateCacheDir { path: String, source: String },
    /// The thread building the dictionary panicked.
    BuildThreadPanicked,
    /// The dictionary could not be built from the XML file.
    BuildDictionaryFailed { xml: String, source: String },
    /// `YARGY_DICT_DIR` names a directory without the dictionary files.
    InvalidEnvDictDir { value: String },
    /// A directory holds only one of the dictionary files.
    DictDirIncomplete { path: String },
    /// The dictionary files are in none of the expected places.
    DictFilesNotFound { primary: String, fallback: String },
}

/// Errors of the morphological analyzer.
#[derive(Debug, Clone, PartialEq, Eq)]
pub enum MorphError {
    /// A dictionary error.
    Dict(DictError),
    /// The dictionary could not be opened.
    OpenDictFailed { path: String, source: String },
    /// A grammeme code is not valid.
    InvalidGrammeme { grammem: String },
}

/// Errors of the morphological tokenizer.
#[derive(Debug, Clone, PartialEq, Eq)]
pub enum TokenizerError {
    /// An error of the morphological analyzer.
    Morph(MorphError),
    /// The dictionary was already initialized.
    AlreadyInitialized,
}

/// Errors of the structural validation of rules.
#[derive(Debug, Clone, PartialEq, Eq, Structural)]
pub enum RuleValidationError {
    /// A rule has no productions.
    RuleHasNoProductions { rule_id: usize },
    /// A production of a rule is empty.
    EmptyProduction { rule_id: usize, production_idx: usize },
    /// A forward declaration of a rule was never defined.
    UndefinedForward { rule_id: usize },
}

/// Text of a dictionary error.
pub open spec fn dict_message(e: DictError) -> Seq<char> {
    match e {
        DictError::XmlFileDoesNotExist { path } => "XML file does not exist: "@ + path@,
        DictError::XmlPathIsNotFile { path } => "XML path is not a file: "@ + path@,
        DictError::CreateCacheDir { path, source } => "Failed to create cache dir "@ + path@ + ": "@ + source@,
        DictError::BuildThreadPanicked => "Dictionary build thread panicked"@,
        DictError::BuildDictionaryFailed { xml, source } => "Failed to build dictionary from "@ + xml@ + ": "@ + source@,
        DictError::InvalidEnvDictDir { value } => "YARGY_DICT_DIR="@ + value@ + " is set but dict.json+dict.fst not found there"@,
        DictError::DictDirIncomplete { path } => "Directory "@ + path@ + " must contain both dict.json and dict.fst"@,
        DictError::DictFilesNotFound { primary, fallback } => "dict.json+dict.fst not found in expected locations:\n  - YARGY_DICT_DIR (not set)\n  - "@
            + primary@ + "\n  - "@ + fallback@
            + "\nHint: call renert::init(xml, cache_dir) or renert::load(dict_dir) before using the parser, or set the YARGY_DICT_DIR environment variable."@,
    }
}

/// Text of an error of the morphological analyzer.
pub open spec fn morph_message(e: MorphError) -> Seq<char> {
    match e {
        MorphError::Dict(d) => dict_message(d),
        MorphError::OpenDictFailed { path, source } => "Failed to open morph dict at "@ + path@ + ": "@ + source@,
        MorphError::InvalidGrammeme { grammem } => "Invalid grammeme: "@ + grammem@,
    }
}

/// Text of an error of the tokenizer.
pub open spec fn tokenizer_message(e: TokenizerError) -> Seq<char> {
    match e {
        TokenizerError::Morph(m) => morph_message(m),
        TokenizerError::AlreadyInitialized => "renert::init or load has already been called"@,
    }
}

/// Text of a rule validation error.
pub open spec fn rule_message(e: RuleValidationError) -> Seq<char> {
    match e {
        RuleValidationError::RuleHasNoProductions { rule_id } => "Rule "@ + nat_digits(rule_id as nat) + " has no productions"@,
        RuleValidationError::EmptyProduction { rule_id, production_idx } => "Rule "@ + nat_digits(rule_id as nat) + ", production "@
            + nat_digits(production_idx as nat) + " is empty"@,
        RuleValidationError::UndefinedForward { rule_id } => "Rule "@ + nat_digits(rule_id as nat) + " has undefined forward"@,
    }
}

/// Builds `a + b`.
fn concat2(a: &str, b: &str) -> (r: String)
    ensures
        r@ == a@ + b@,
{
    let mut out = string_of(a);
    out.append(b);
    out
}

/// Builds `a + b + c`.
fn concat3(a: &str, b: &str, c: &str) -> (r: String)
    ensures
        r@ == a@ + b@ + c@,
{
    let mut out = string_of(a);
    out.append(b);
    out.append(c);
    out
}

/// Builds `a + b + c + d`.
fn concat4(a: &str, b: &str, c: &str, d: &str) -> (r: String)
    ensures
        r@ == a@ + b@ + c@ + d@,
{
    let mut out = concat3(a, b, c);
    out.append(d);
    out
}

impl DictError {
    /// Text of the error.
    pub fn to_string(&self) -> (r: String)
        ensures
            r@ == dict_message(*self),
    {
        match self {
            DictError::XmlFileDoesNotExist { path } => concat2("XML file does not exist: ", path.as_str()),
            DictError::XmlPathIsNotFile { path } => concat2("XML path is not a file: ", path.as_str()),
            DictError::CreateCacheDir { path, source } => concat4("Failed to create cache dir ", path.as_str(), ": ", source.as_str()),
            DictError::BuildThreadPanicked => string_of("Dictionary build thread panicked"),
            DictError::BuildDictionaryFailed { xml, source } => concat4("Failed to build dictionary from ", xml.as_str(), ": ", source.as_str()),
            DictError::InvalidEnvDictDir { value } => concat3("YARGY_DICT_DIR=", value.as_str(), " is set but dict.json+dict.fst not found there"),
            DictError::DictDirIncomplete { path } => concat3("Directory ", path.as_str(), " must contain both dict.json and dict.fst"),
            DictError::DictFilesNotFound { primary, fallback } => {
                let mut out = concat4(
                    "dict.json+dict.fst not found in expected locations:\n  - YARGY_DICT_DIR (not set)\n  - ",
                    primary.as_str(),
                    "\n  - ",
                    fallback.as_str(),
                );
                out.append("\nHint: call renert::init(xml, cache_dir) or renert::load(dict_dir) before using the parser, or set the YARGY_DICT_DIR environment variable.");
                out
            },
        }
    }
}

impl MorphError {
    /// Text of the error.
    pub fn to_string(&self) -> (r: String)
        ensures
            r@ == morph_message(*self),
    {
        match self {
            MorphError::Dict(d) => d.to_string(),
            MorphError::OpenDictFailed { path, source } => concat4("Failed to open morph dict at ", path.as_str(), ": ", source.as_str()),
            MorphError::InvalidGrammeme { grammem } => concat2("Invalid grammeme: ", grammem.as_str()),
        }
    }
}

impl TokenizerError {
    /// Text of the error.
    pub fn to_string(&self) -> (r: String)
        ensures
            r@ == tokenizer_message(*self),
    {
        match self {
            TokenizerError::Morph(m) => m.to_string(),
            TokenizerError::AlreadyInitialized => string_of("renert::init or load has already been called"),
        }
    }
}

impl RuleValidationError {
    /// Text of the error.
    pub fn to_string(&self) -> (r: String)
        ensures
            r@ == rule_message(*self),
    {
        match self {
            RuleValidationError::RuleHasNoProductions { rule_id } => {
                let id = usize_to_string(*rule_id);
                concat3("Rule ", id.as_str(), " has no productions")
            },
            RuleValidationError::EmptyProduction { rule_id, production_idx } => {
                let id = usize_to_string(*rule_id);
                let idx = usize_to_string(*production_idx);
                let mut out = concat4("Rule ", id.as_str(), ", production ", idx.as_str());
                out.append(" is empty");
                out
            },
            RuleValidationError::UndefinedForward { rule_id } => {
                let id = usize_to_string(*rule_id);
                concat3("Rule ", id.as_str(), " has undefined forward")
            },
        }
    }
}

impl Error {
    /// Text of the error: that of the error it holds.
    pub fn to_string(&self) -> (r: String)
        ensures
            r@ == match self {
                Error::Dict(e) => dict_message(*e),
                Error::Morph(e) => morph_message(*e),
                Error::Tokenizer(e) => tokenizer_message(*e),
                Error::RuleValidation(e) => rule_message(*e),
            },
    {
        match self {
            Error::Dict(e) => e.to_string(),
            Error::Morph(e) => e.to_string(),
            Error::Tokenizer(e) => e.to_string(),
            Error::RuleValidation(e) => e.to_string(),
        }
    }
}

impl From<DictError> for Error {
    fn from(e: DictError) -> (r: Error)
        ensures
            r == Error::Dict(e),
    {
        Error::Dict(e)
    }
}

impl vstd::std_specs::convert::FromSpecImpl<DictError> for Error {
    open spec fn obeys_from_spec() -> bool {
        true
    }

    open spec fn from_spec(e: DictError) -> Error {
        Error::Dict(e)
    }
}

impl From<MorphError> for Error {
    fn from(e: MorphError) -> (r: Error)
        ensures
            r == Error::Morph(e),
    {
        Error::Morph(e)
    }
}

impl vstd::std_specs::convert::FromSpecImpl<MorphError> for Error {
    open spec fn obeys_from_spec() -> bool {
        true
    }

    open spec fn from_spec(e: MorphError) -> Error {
        Error::Morph(e)
    }
}

impl From<TokenizerError> for Error {
    fn from(e: TokenizerError) -> (r: Error)
        ensures
            r == Error::Tokenizer(e),
    {
        Error::Tokenizer(e)
    }
}

impl vstd::std_specs::convert::FromSpecImpl<TokenizerError> for Error {
    open spec fn obeys_from_spec() -> bool {
        true
    }

    open spec fn from_spec(e: TokenizerError) -> Error {
        Error::Tokenizer(e)
    }
}

impl From<RuleValidationError> for Error {
    fn from(e: RuleValidationError) -> (r: Error)
        ensures
            r == Error::RuleValidation(e),
    {
        Error::RuleValidation(e)
    }
}

impl vstd::std_specs::convert::FromSpecImpl<RuleValidationError> for Error {
    open spec fn obeys_from_spec() -> bool {
        true
    }

    open spec fn from_spec(e: RuleValidationError) -> Error {
        Error::RuleValidation(e)
    }
}

impl From<DictError> for MorphError {
    fn from(e: DictError) -> (r: MorphError)
        ensures
            r == MorphError::Dict(e),
    {
        MorphError::Dict(e)
    }
}

impl vstd::std_specs::convert::FromSpecImpl<DictError> for MorphError {
    open spec fn obeys_from_spec() -> bool {
        true
    }

    open spec fn from_spec(e: DictError) -> MorphError {
        MorphError::Dict(e)
    }
}

impl From<MorphError> for TokenizerError {
    fn from(e: MorphError) -> (r: TokenizerError)
        ensures
            r == TokenizerError::Morph(e),
    {
        TokenizerError::Morph(e)
    }
}

impl vstd::std_specs::convert::FromSpecImpl<MorphError> for TokenizerError {
    open spec fn obeys_from_spec() -> bool {
        true
    }

    open spec fn from_spec(e: MorphError) -> TokenizerError {
        TokenizerError::Morph(e)
    }
}

} // verus!
