//! Normalizers and the runtime values of interpretation.
//!
//! Morphological normalizers (`normalized()`, `inflected(...)`) work on a chain of tokens;
//! custom normalizers (`const(...)`, `custom(...)`) work on the normalized value of any
//! runtime item. Every runtime value projects to a normalized value, a JSON-like value and
//! the spans of the source text it came from.
use vstd::prelude::*;

use super::attribute::Attribute;
use super::fact::{InterpretatorFact, RuntimeAttributeValue};
use super::value::{display_chars, lemma_list_model, lemma_object_model, pairs_model, values_model, FactVal, FactValue};
use crate::internal::fact_schema::{present_pairs, ConstructedAttribute};
use crate::span::Span;
use crate::text::{callable_label, callable_name, join_seq, join_strings, string_of, string_views};
use crate::morph::form::{has_gender, inflection_target, opt_grammemes, spec_choose_inflection};
use crate::morph::grammemes::{parse_opencorpora_grammemes, parsed_grammems};
use crate::token::{
    get_tokens_span, join_normalized_tokens, join_tokens, spec_join_normalized, spec_join_tokens,
    spec_tokens_span, token_lemma, Token,
};

verus! {

broadcast use vstd::std_specs::vec::axiom_vec_index_decreases;

/// Marker trait of all normalizers.
pub trait Normalizer {}

/// Marker trait of normalizers built on the morphology of tokens.
pub trait MorphNormalizer: Normalizer {}

/// Marker trait of user normalizers and constants.
pub trait CustomNormalizer: Normalizer {}

/// The `Debug` text of a value, as `format!("{:?}")` writes it.
///
/// Trusted: nothing is claimed of the text; it is whatever the type's `Debug` writes.
#[verifier::external_body]
fn debug_text<T: std::fmt::Debug>(value: &T) -> (r: String) {
    format!("{:?}", value)
}

/// A chain of tokens, the input of morphological normalizers.
#[derive(Debug, Clone, PartialEq)]
pub struct Chain {
    /// The tokens of the chain.
    pub tokens: Vec<Token>,
    /// A key computed beforehand; it takes precedence over the tokens.
    pub key: Option<String>,
}

impl Chain {
    /// Creates a chain.
    pub fn new(tokens: Vec<Token>, key: Option<String>) -> (r: Chain)
        ensures
            r.tokens == tokens,
            r.key == key,
    {
        Chain { tokens, key }
    }

    /// The surface text of the chain: token values joined by single spaces.
    pub fn normalized(&self) -> (r: String)
        ensures
            r@ == spec_join_tokens(self.tokens@),
    {
        join_tokens(&self.tokens)
    }
}

/// A morphological normalization step over a token chain.
pub trait MorphCall {
    /// Text the step gives for a chain.
    spec fn morph_text(&self, item: Chain) -> Seq<char>;

    /// Label of the step.
    spec fn morph_label(&self) -> Seq<char>;

    /// Runs the step.
    fn call(&self, item: &Chain) -> (r: String)
        ensures
            r@ == self.morph_text(*item),
    ;

    /// Label of the step.
    fn label(&self) -> (r: String)
        ensures
            r@ == self.morph_label(),
    ;
}

/// Text of `normalized()` for a chain: its key when there is one, else the normal forms of
/// its tokens (see [`token_lemma`]) joined by single spaces.
pub open spec fn spec_normalized_text(item: Chain) -> Seq<char> {
    match item.key {
        Some(k) => k@,
        None => spec_join_normalized(item.tokens@),
    }
}

/// The morphological normalizer `normalized()`.
#[derive(Debug, Clone, Copy, PartialEq, Eq, Default)]
pub struct NormalizedNormalizer;

impl NormalizedNormalizer {
    /// `normalized().custom(function)`.
    pub fn custom<F>(self, function: F) -> (r: MorphFunctionNormalizer<NormalizedNormalizer, F>)
        ensures
            r.function == function,
    {
        MorphFunctionNormalizer::new(self, function)
    }

    /// The key of the chain, or the normal forms of its tokens joined by spaces.
    pub fn call(&self, item: &Chain) -> (r: String)
        ensures
            r@ == spec_normalized_text(*item),
    {
        match &item.key {
            Some(key) => key.clone(),
            None => join_normalized_tokens(&item.tokens),
        }
    }

    /// The label `normalized()`.
    pub fn label(&self) -> (r: &'static str)
        ensures
            r@ == "normalized()"@,
    {
        "normalized()"
    }
}

impl Normalizer for NormalizedNormalizer {}

impl MorphNormalizer for NormalizedNormalizer {}

impl MorphCall for NormalizedNormalizer {
    open spec fn morph_text(&self, item: Chain) -> Seq<char> {
        spec_normalized_text(item)
    }

    open spec fn morph_label(&self) -> Seq<char> {
        "normalized()"@
    }

    fn call(&self, item: &Chain) -> (r: String) {
        NormalizedNormalizer::call(self, item)
    }

    fn label(&self) -> (r: String) {
        string_of(NormalizedNormalizer::label(self))
    }
}

/// Label of `inflected(...)` for the given grammemes.
pub open spec fn spec_inflected_label(grams: Option<Seq<Seq<char>>>) -> Seq<char> {
    match grams {
        Some(g) => "inflected("@ + join_seq(g, seq![',', ' ']) + ")"@,
        None => "inflected()"@,
    }
}

/// Grammemes of an inflected normalizer, as text.
pub open spec fn grams_model(grams: Option<Vec<String>>) -> Option<Seq<Seq<char>>> {
    match grams {
        Some(g) => Some(string_views(g@)),
        None => None,
    }
}

/// The morphological normalizer `inflected(grams...)`.
///
/// Without an analyzer each token gives its normal form; with one (see
/// [`InflectedNormalizer::call_with`]) each token with parses is inflected through its first.
#[derive(Debug, Clone, PartialEq, Eq, Default)]
pub struct InflectedNormalizer {
    /// Grammemes of the wanted form, or `None` for the default form.
    pub grams: Option<Vec<String>>,
}

/// What a token can be inflected to for the target grammemes (`None` for the default): the
/// normal form for a token without parses or whose first parse has no morph-rs parse;
/// else what [`spec_choose_inflection`] gives for some answer of the analyzer.
pub open spec fn inflected_token_text(t: Token, target: Option<Seq<crate::morph::grammemes::Grammeme>>, text: Seq<char>) -> bool {
    if t.forms@.len() == 0 {
        text == token_lemma(t)
    } else if t.forms@[0].raw is None {
        text == t.forms@[0].normalized@
    } else {
        exists|p: Option<Seq<char>>, l: Option<Seq<char>>| text == #[trigger] spec_choose_inflection(
            t.forms@[0].normalized@,
            p,
            has_gender(inflection_target(target)),
            l,
        )
    }
}

/// What an inflected normalizer with an analyzer can give for a chain: the texts of its
/// tokens (see [`inflected_token_text`]) joined by single spaces.
pub open spec fn inflected_chain_text(n: InflectedNormalizer, c: Chain, text: Seq<char>) -> bool {
    exists|parts: Seq<Seq<char>>| {
        &&& parts.len() == c.tokens@.len()
        &&& text == join_seq(parts, seq![' '])
        &&& forall|i: int| 0 <= i < parts.len() ==> inflected_token_text(
            #[trigger] c.tokens@[i],
            parsed_grammems(grams_model(n.grams)),
            parts[i],
        )
    }
}

/// A copy of optional grammemes.
fn copy_grammemes(g: &Option<Vec<crate::morph::grammemes::Grammeme>>) -> (r: Option<Vec<crate::morph::grammemes::Grammeme>>)
    ensures
        opt_grammemes(r) == opt_grammemes(*g),
{
    match g {
        Some(v) => {
            let mut out: Vec<crate::morph::grammemes::Grammeme> = Vec::new();
            let mut i: usize = 0;
            while i < v.len()
                invariant
                    i <= v@.len(),
                    out@ == v@.take(i as int),
                decreases v@.len() - i,
            {
                out.push(v[i]);
                i += 1;
            }
            proof { assert(v@.take(v@.len() as int) =~= v@); }
            Some(out)
        },
        None => None,
    }
}

impl InflectedNormalizer {
    /// Creates the normalizer.
    pub fn new(grams: Option<Vec<String>>) -> (r: InflectedNormalizer)
        ensures
            r.grams == grams,
    {
        InflectedNormalizer { grams }
    }

    /// `inflected(...).custom(function)`.
    pub fn custom<F>(self, function: F) -> (r: MorphFunctionNormalizer<InflectedNormalizer, F>)
        ensures
            r.morph == self,
            r.function == function,
    {
        MorphFunctionNormalizer::new(self, function)
    }

    /// Without an analyzer, the normal forms of the tokens joined by single spaces.
    pub fn call(&self, item: &Chain) -> (r: String)
        ensures
            r@ == spec_join_normalized(item.tokens@),
    {
        join_normalized_tokens(&item.tokens)
    }

    /// The tokens inflected to the grammemes of the normalizer (the known codes among them;
    /// nominative singular when there are none), joined by single spaces: a token with parses
    /// is inflected through its first one (see [`Form::inflect`](crate::morph::form::Form::inflect)),
    /// a token without gives its normal form.
    pub fn call_with(&self, item: &Chain, analyzer: &crate::morph::form::CheckedAnalyzer) -> (r: String)
        ensures
            inflected_chain_text(*self, *item, r@),
    {
        let codes: Option<&[String]> = match &self.grams {
            Some(g) => Some(g.as_slice()),
            None => None,
        };
        let target = parse_opencorpora_grammemes(codes);
        let ghost target_model = opt_grammemes(target);
        proof {
            match &self.grams {
                Some(g) => assert(string_views(g@) == grams_model(self.grams)->0),
                None => {},
            }
            assert(target_model == parsed_grammems(grams_model(self.grams)));
        }
        let mut parts: Vec<String> = Vec::new();
        let mut i: usize = 0;
        while i < item.tokens.len()
            invariant
                i <= item.tokens@.len(),
                parts@.len() == i,
                target_model == parsed_grammems(grams_model(self.grams)),
                target_model == opt_grammemes(target),
                forall|j: int| 0 <= j < i ==> inflected_token_text(#[trigger] item.tokens@[j], target_model, parts@[j]@),
            decreases item.tokens@.len() - i,
        {
            let token = &item.tokens[i];
            let text = if token.forms.len() > 0 {
                let grams_copy = copy_grammemes(&target);
                let t = token.forms[0].inflect(analyzer, grams_copy);
                t
            } else {
                token.normalized()
            };
            parts.push(text);
            i += 1;
        }
        let r = join_strings(&parts, " ");
        proof {
            reveal_strlit(" ");
            assert(" "@ =~= seq![' ']);
            let ps = string_views(parts@);
            assert forall|j: int| 0 <= j < ps.len() implies inflected_token_text(
                #[trigger] item.tokens@[j],
                parsed_grammems(grams_model(self.grams)),
                ps[j],
            ) by {
                assert(ps[j] == parts@[j]@);
            }
        }
        r
    }

    /// The label `inflected(a, b)` or `inflected()`.
    pub fn label(&self) -> (r: String)
        ensures
            r@ == spec_inflected_label(grams_model(self.grams)),
    {
        match &self.grams {
            Some(grams) => {
                let mut out = string_of("inflected(");
                let joined = join_strings(grams, ", ");
                out.append(joined.as_str());
                out.append(")");
                proof {
                    reveal_strlit(", ");
                    assert(", "@ =~= seq![',', ' ']);
                }
                out
            },
            None => string_of("inflected()"),
        }
    }
}

impl Normalizer for InflectedNormalizer {}

impl MorphNormalizer for InflectedNormalizer {}

impl MorphCall for InflectedNormalizer {
    open spec fn morph_text(&self, item: Chain) -> Seq<char> {
        spec_join_normalized(item.tokens@)
    }

    open spec fn morph_label(&self) -> Seq<char> {
        spec_inflected_label(grams_model(self.grams))
    }

    fn call(&self, item: &Chain) -> (r: String) {
        InflectedNormalizer::call(self, item)
    }

    fn label(&self) -> (r: String) {
        InflectedNormalizer::label(self)
    }
}

/// The normalizer `const(value)`: the same value whatever the input.
#[derive(Debug, Clone, PartialEq)]
pub struct ConstNormalizer<T> {
    /// The constant.
    pub value: T,
}

impl<T> ConstNormalizer<T> {
    /// Creates the normalizer.
    pub fn new(value: T) -> (r: ConstNormalizer<T>)
        ensures
            r.value == value,
    {
        ConstNormalizer { value }
    }

    /// Ignores the input and returns a copy of the constant.
    pub fn call<I>(&self, item: I) -> (r: T) where T: Clone
        ensures
            cloned::<T>(self.value, r),
    {
        self.value.clone()
    }

    /// The label `const(...)` with the `Debug` text of the constant inside.
    pub fn label(&self) -> (r: String) where T: std::fmt::Debug
        ensures
            exists|text: Seq<char>| r@ == "const("@ + text + ")"@,
    {
        let mut out = string_of("const(");
        let text = debug_text(&self.value);
        out.append(text.as_str());
        out.append(")");
        proof {
            reveal_strlit("const(");
            reveal_strlit(")");
            assert(out@ =~= "const("@ + text@ + ")"@);
        }
        out
    }
}

impl<T> Normalizer for ConstNormalizer<T> {}

impl<T> CustomNormalizer for ConstNormalizer<T> {}

/// A user normalizer `custom(function)` applied to the normalized value of its input.
pub struct FunctionNormalizer<F> {
    /// The function, from a value to anything.
    pub function: F,
}

/// Label of the closure type or function named `full`.
pub open spec fn custom_label(full: Seq<char>) -> Seq<char> {
    "custom("@ + callable_label(full) + ")"@
}

impl<F> FunctionNormalizer<F> {
    /// Creates the normalizer.
    pub fn new(function: F) -> (r: FunctionNormalizer<F>)
        ensures
            r.function == function,
    {
        FunctionNormalizer { function }
    }

    /// `custom(first).custom(second)`.
    pub fn custom<G>(self, function: G) -> (r: FunctionFunctionNormalizer<F, G>)
        ensures
            r.first == self.function,
            r.second == function,
    {
        FunctionFunctionNormalizer::new(self.function, function)
    }

    /// The label `custom(name)` for the function whose type is named `function_type`; a
    /// closure is named `<lambda>`, a function by the last segment of its path.
    pub fn label(&self, function_type: &str) -> (r: String)
        ensures
            r@ == custom_label(function_type@),
    {
        let mut out = string_of("custom(");
        let name = callable_name(function_type);
        out.append(name.as_str());
        out.append(")");
        proof {
            reveal_strlit("custom(");
            reveal_strlit(")");
            assert(out@ =~= custom_label(function_type@));
        }
        out
    }

    /// Applies the function to the normalized value of `item`.
    pub fn call<I: NormalizedItem, O>(&self, item: &I) -> (r: O) where F: Fn(FactValue) -> O
        requires
            forall|v: FactValue| v@ == item.normalized_model() ==> call_requires(self.function, (v,)),
        ensures
            exists|v: FactValue| v@ == item.normalized_model() && call_ensures(self.function, (v,), r),
    {
        let v = item.normalized_value();
        (self.function)(v)
    }
}

impl<F> Normalizer for FunctionNormalizer<F> {}

impl<F> CustomNormalizer for FunctionNormalizer<F> {}

/// Two user functions, the second applied to the result of the first.
pub struct FunctionFunctionNormalizer<F, G> {
    /// The first function.
    pub first: F,
    /// The second function.
    pub second: G,
}

impl<F, G> FunctionFunctionNormalizer<F, G> {
    /// Creates the composition.
    pub fn new(first: F, second: G) -> (r: FunctionFunctionNormalizer<F, G>)
        ensures
            r.first == first,
            r.second == second,
    {
        FunctionFunctionNormalizer { first, second }
    }

    /// The label `custom(a).custom(b)` for functions whose types are named `first_type` and
    /// `second_type`.
    pub fn label(&self, first_type: &str, second_type: &str) -> (r: String)
        ensures
            r@ == custom_label(first_type@) + "."@ + custom_label(second_type@),
    {
        let mut out = string_of("custom(");
        let first = callable_name(first_type);
        out.append(first.as_str());
        out.append(").custom(");
        let second = callable_name(second_type);
        out.append(second.as_str());
        out.append(")");
        proof {
            reveal_strlit("custom(");
            reveal_strlit(").custom(");
            reveal_strlit(")");
            reveal_strlit(".");
            assert(out@ =~= custom_label(first_type@) + "."@ + custom_label(second_type@));
        }
        out
    }

    /// Applies both functions to the normalized value of `item`.
    pub fn call<I: NormalizedItem, O1, O2>(&self, item: &I) -> (r: O2) where
        F: Fn(FactValue) -> O1,
        G: Fn(O1) -> O2,
        requires
            forall|v: FactValue| v@ == item.normalized_model() ==> call_requires(self.first, (v,)),
            forall|x: O1| call_requires(self.second, (x,)),
        ensures
            exists|v: FactValue, x: O1|
                v@ == item.normalized_model() && call_ensures(self.first, (v,), x)
                    && call_ensures(self.second, (x,), r),
    {
        let v = item.normalized_value();
        let x = (self.first)(v);
        (self.second)(x)
    }
}

impl<F, G> Normalizer for FunctionFunctionNormalizer<F, G> {}

impl<F, G> CustomNormalizer for FunctionFunctionNormalizer<F, G> {}

/// A morphological step followed by a user function on its text.
pub struct MorphFunctionNormalizer<M, F> {
    /// The morphological step.
    pub morph: M,
    /// The function applied to the text of the step.
    pub function: F,
}

impl<M, F> MorphFunctionNormalizer<M, F> {
    /// Creates the composition.
    pub fn new(morph: M, function: F) -> (r: MorphFunctionNormalizer<M, F>)
        ensures
            r.morph == morph,
            r.function == function,
    {
        MorphFunctionNormalizer { morph, function }
    }

    /// The label `{morph}.{function}` for a function whose type is named `function_type`.
    pub fn label(&self, function_type: &str) -> (r: String) where M: MorphCall
        ensures
            r@ == self.morph.morph_label() + "."@ + callable_label(function_type@),
    {
        let mut out = self.morph.label();
        out.append(".");
        let name = callable_name(function_type);
        out.append(name.as_str());
        proof {
            reveal_strlit(".");
            assert(out@ =~= self.morph.morph_label() + "."@ + callable_label(function_type@));
        }
        out
    }

    /// Runs the morphological step, then the function on its text.
    pub fn call<O>(&self, item: &Chain) -> (r: O) where M: MorphCall, F: Fn(String) -> O
        requires
            forall|s: String| s@ == self.morph.morph_text(*item) ==> call_requires(self.function, (s,)),
        ensures
            exists|s: String| s@ == self.morph.morph_text(*item) && call_ensures(self.function, (s,), r),
    {
        let text = self.morph.call(item);
        (self.function)(text)
    }
}

impl<M, F> Normalizer for MorphFunctionNormalizer<M, F> {}

impl<M, F> MorphNormalizer for MorphFunctionNormalizer<M, F> {}

impl<M, F> CustomNormalizer for MorphFunctionNormalizer<M, F> {}



/// The result of interpreting a fact.
///
/// It holds a normalized text, a JSON-like value computed beforehand, spans, or the runtime
/// fact itself; the projections take the first of these that is present.
#[derive(Debug)]
pub struct FactResult {
    /// Normalized text.
    pub normalized: String,
    /// JSON-like value, when it was computed.
    pub as_json: Option<FactValue>,
    /// Spans of the source text.
    pub spans: Vec<Span>,
    /// The runtime fact, for projections computed on demand.
    pub runtime_fact: Option<Box<InterpretatorFact>>,
}

/// The result of interpreting an attribute.
#[derive(Debug)]
pub struct AttributeResult {
    /// The value of the attribute.
    pub value: Box<InterpretationValue>,
    /// The attribute, when it was kept.
    pub attribute: Option<Attribute>,
}

/// What a normalizer produced: a plain value or a nested runtime value.
#[derive(Debug)]
pub enum NormalizerResultValue {
    /// A plain value.
    Value(FactValue),
    /// A nested runtime value.
    Nested(Box<InterpretationValue>),
}

/// The result of a normalizer.
#[derive(Debug)]
pub struct NormalizerResult {
    /// What the normalizer produced.
    pub value: NormalizerResultValue,
    /// The input of the normalizer, kept for its spans.
    pub input: Option<Box<InterpretationValue>>,
}

/// A runtime value of interpretation.
#[derive(Debug)]
pub enum InterpretationValue {
    /// A chain of tokens.
    Chain(Chain),
    /// The result of a fact.
    FactResult(FactResult),
    /// The result of an attribute.
    AttributeResult(AttributeResult),
    /// The result of a normalizer.
    NormalizerResult(NormalizerResult),
}

/// The JSON-like projection of a runtime value; it is also its normalized value.
pub open spec fn value_json(v: InterpretationValue) -> FactVal
    decreases v,
{
    match v {
        InterpretationValue::Chain(c) => FactVal::Str(spec_join_tokens(c.tokens@)),
        InterpretationValue::FactResult(r) => match r.as_json {
            Some(j) => j@,
            None => match r.runtime_fact {
                Some(f) => FactVal::Object(fact_json(*f)),
                None => FactVal::Str(r.normalized@),
            },
        },
        InterpretationValue::AttributeResult(a) => value_json(*a.value),
        InterpretationValue::NormalizerResult(n) => match n.value {
            NormalizerResultValue::Value(x) => x@,
            NormalizerResultValue::Nested(b) => value_json(*b),
        },
    }
}

/// Projections of a sequence of runtime values.
pub open spec fn values_json(items: Seq<InterpretationValue>) -> Seq<FactVal>
    decreases items,
{
    if items.len() == 0 {
        Seq::empty()
    } else {
        values_json(items.subrange(0, items.len() - 1)).push(value_json(items[items.len() - 1]))
    }
}

/// Projection of a slot of a runtime fact, given the default of its attribute.
pub open spec fn slot_json(s: RuntimeAttributeValue, default: Option<FactVal>) -> Option<FactVal>
    decreases s,
{
    match s {
        RuntimeAttributeValue::Plain(Some(x)) => Some(x@),
        RuntimeAttributeValue::Plain(None) => default,
        RuntimeAttributeValue::Result(v) => Some(value_json(v)),
        RuntimeAttributeValue::Repeatable(items) => Some(FactVal::List(values_json(items@))),
    }
}

/// Name of the attribute at position `i`, or an empty name past the end.
pub open spec fn attr_name_at(attrs: Seq<ConstructedAttribute>, i: int) -> Seq<char> {
    if 0 <= i < attrs.len() { attrs[i].name_model() } else { Seq::empty() }
}

/// Stored default of the attribute at position `i`, or none past the end.
pub open spec fn attr_default_at(attrs: Seq<ConstructedAttribute>, i: int) -> Option<FactVal> {
    if 0 <= i < attrs.len() { attrs[i].default_ref_model() } else { None }
}

/// Name and projection of each slot.
pub open spec fn slots_entries(vals: Seq<RuntimeAttributeValue>, attrs: Seq<ConstructedAttribute>) -> Seq<(Seq<char>, Option<FactVal>)>
    decreases vals,
{
    if vals.len() == 0 {
        Seq::empty()
    } else {
        let i = vals.len() - 1;
        slots_entries(vals.subrange(0, i), attrs).push(
            (attr_name_at(attrs, i), slot_json(vals[i], attr_default_at(attrs, i))),
        )
    }
}

/// The JSON-like projection of a runtime fact: the attributes that have a value, in order.
pub open spec fn fact_json(f: InterpretatorFact) -> Seq<(Seq<char>, FactVal)>
    decreases f,
{
    present_pairs(slots_entries(f.values@, f.scheme.attributes@))
}

/// Spans of a runtime value.
pub open spec fn value_spans(v: InterpretationValue) -> Seq<Span>
    decreases v,
{
    match v {
        InterpretationValue::Chain(c) => match spec_tokens_span(c.tokens@) {
            Some(sp) => seq![sp],
            None => Seq::empty(),
        },
        InterpretationValue::FactResult(r) => if r.spans@.len() > 0 {
            r.spans@
        } else {
            match r.runtime_fact {
                Some(f) => fact_spans(*f),
                None => Seq::empty(),
            }
        },
        InterpretationValue::AttributeResult(a) => value_spans(*a.value),
        InterpretationValue::NormalizerResult(n) => match n.input {
            Some(i) => value_spans(*i),
            None => match n.value {
                NormalizerResultValue::Nested(b) => value_spans(*b),
                NormalizerResultValue::Value(_) => Seq::empty(),
            },
        },
    }
}

/// Spans of a sequence of runtime values, concatenated.
pub open spec fn items_spans(items: Seq<InterpretationValue>) -> Seq<Span>
    decreases items,
{
    if items.len() == 0 {
        Seq::empty()
    } else {
        items_spans(items.subrange(0, items.len() - 1)) + value_spans(items[items.len() - 1])
    }
}

/// Spans of a slot of a runtime fact.
pub open spec fn slot_spans(s: RuntimeAttributeValue) -> Seq<Span>
    decreases s,
{
    match s {
        RuntimeAttributeValue::Plain(_) => Seq::empty(),
        RuntimeAttributeValue::Result(v) => value_spans(v),
        RuntimeAttributeValue::Repeatable(items) => items_spans(items@),
    }
}

/// Spans of each slot.
pub open spec fn slots_spans(vals: Seq<RuntimeAttributeValue>) -> Seq<Seq<Span>>
    decreases vals,
{
    if vals.len() == 0 {
        Seq::empty()
    } else {
        slots_spans(vals.subrange(0, vals.len() - 1)).push(slot_spans(vals[vals.len() - 1]))
    }
}

/// Spans of the runtime fact: those of the attributes set so far, in the order they were
/// first set.
pub open spec fn fact_spans(f: InterpretatorFact) -> Seq<Span>
    decreases f,
{
    gather_spans(slots_spans(f.values@), f.modified@)
}

/// The spans at the given positions, concatenated.
pub open spec fn gather_spans(per: Seq<Seq<Span>>, idx: Seq<usize>) -> Seq<Span>
    decreases idx.len(),
{
    if idx.len() == 0 {
        Seq::empty()
    } else {
        let k = idx.last() as int;
        gather_spans(per, idx.drop_last()) + (if k < per.len() { per[k] } else { Seq::empty() })
    }
}

/// Model of an optional borrowed value.
pub open spec fn opt_ref_model(d: Option<&FactValue>) -> Option<FactVal> {
    match d {
        Some(v) => Some(v@),
        None => None,
    }
}

/// `slots_entries` holds one entry per slot, at its position.
pub proof fn lemma_slots_entries(vals: Seq<RuntimeAttributeValue>, attrs: Seq<ConstructedAttribute>)
    ensures
        slots_entries(vals, attrs).len() == vals.len(),
        forall|i: int| 0 <= i < vals.len() ==> #[trigger] slots_entries(vals, attrs)[i] == (
            attr_name_at(attrs, i),
            slot_json(vals[i], attr_default_at(attrs, i)),
        ),
    decreases vals.len(),
{
    if vals.len() > 0 {
        let n = vals.len() - 1;
        lemma_slots_entries(vals.subrange(0, n), attrs);
        assert forall|i: int| 0 <= i < n implies vals.subrange(0, n)[i] == vals[i] by {}
    }
}

/// `slots_spans` holds the spans of each slot, at its position.
pub proof fn lemma_slots_spans(vals: Seq<RuntimeAttributeValue>)
    ensures
        slots_spans(vals).len() == vals.len(),
        forall|i: int| 0 <= i < vals.len() ==> #[trigger] slots_spans(vals)[i] == slot_spans(vals[i]),
    decreases vals.len(),
{
    if vals.len() > 0 {
        let n = vals.len() - 1;
        lemma_slots_spans(vals.subrange(0, n));
        assert forall|i: int| 0 <= i < n implies vals.subrange(0, n)[i] == vals[i] by {}
    }
}

/// `values_json` holds the projection of each value, at its position.
pub proof fn lemma_values_json(items: Seq<InterpretationValue>)
    ensures
        values_json(items).len() == items.len(),
        forall|i: int| 0 <= i < items.len() ==> #[trigger] values_json(items)[i] == value_json(items[i]),
    decreases items.len(),
{
    if items.len() > 0 {
        let n = items.len() - 1;
        lemma_values_json(items.subrange(0, n));
        assert forall|i: int| 0 <= i < n implies items.subrange(0, n)[i] == items[i] by {}
    }
}

/// Projection of a runtime value.
fn project_value(v: &InterpretationValue) -> (r: FactValue)
    ensures
        r@ == value_json(*v),
    decreases v,
{
    match v {
        InterpretationValue::Chain(c) => FactValue::Str(join_tokens(&c.tokens)),
        InterpretationValue::FactResult(res) => match &res.as_json {
            Some(j) => j.clone_value(),
            None => match &res.runtime_fact {
                Some(f) => {
                    let pairs = project_fact(&**f);
                    proof { lemma_object_model(pairs); }
                    FactValue::Object(pairs)
                },
                None => FactValue::Str(res.normalized.clone()),
            },
        },
        InterpretationValue::AttributeResult(a) => project_value(&*a.value),
        InterpretationValue::NormalizerResult(n) => match &n.value {
            NormalizerResultValue::Value(x) => x.clone_value(),
            NormalizerResultValue::Nested(b) => project_value(&**b),
        },
    }
}

/// Projections of a vector of runtime values.
#[verifier::loop_isolation(false)]
fn project_values(items: &Vec<InterpretationValue>) -> (r: Vec<FactValue>)
    ensures
        values_model(r@) == values_json(items@),
    decreases items,
{
    let mut out: Vec<FactValue> = Vec::new();
    let mut i: usize = 0;
    while i < items.len()
        invariant
            i <= items@.len(),
            values_model(out@) == values_json(items@.take(i as int)),
        decreases items@.len() - i,
    {
        proof {
            assert(decreases_to!(*items => items[i as int]));
        }
        let x = project_value(&items[i]);
        let ghost before = out@;
        out.push(x);
        proof {
            assert(items@.take(i + 1).subrange(0, i as int) =~= items@.take(i as int));
            assert(values_model(out@) =~= values_model(before).push(x@));
        }
        i += 1;
    }
    assert(items@.take(items@.len() as int) =~= items@);
    out
}

/// Projection of a slot, given the stored default of its attribute.
pub(crate) fn project_slot(s: &RuntimeAttributeValue, default: Option<&FactValue>) -> (r: Option<FactValue>)
    ensures
        super::attribute::opt_model(r) == slot_json(*s, opt_ref_model(default)),
    decreases s,
{
    match s {
        RuntimeAttributeValue::Plain(Some(x)) => Some(x.clone_value()),
        RuntimeAttributeValue::Plain(None) => match default {
            Some(d) => Some(d.clone_value()),
            None => None,
        },
        RuntimeAttributeValue::Result(v) => Some(project_value(v)),
        RuntimeAttributeValue::Repeatable(items) => {
            let xs = project_values(items);
            proof { lemma_list_model(xs); }
            Some(FactValue::List(xs))
        },
    }
}

/// The JSON-like projection of a runtime fact.
#[verifier::loop_isolation(false)]
pub(crate) fn project_fact(f: &InterpretatorFact) -> (r: Vec<(String, FactValue)>)
    ensures
        pairs_model(r@) == fact_json(*f),
    decreases f,
{
    let ghost entries = slots_entries(f.values@, f.scheme.attributes@);
    proof { lemma_slots_entries(f.values@, f.scheme.attributes@); }
    let mut out: Vec<(String, FactValue)> = Vec::new();
    let mut i: usize = 0;
    while i < f.values.len()
        invariant
            i <= f.values@.len(),
            pairs_model(out@) == present_pairs(entries.take(i as int)),
        decreases f.values@.len() - i,
    {
        let default = if i < f.scheme.attributes.len() {
            f.scheme.attributes[i].default_value_ref()
        } else {
            None
        };
        proof {
            assert(decreases_to!(*f => f.values));
            assert(decreases_to!(f.values => f.values[i as int]));
            assert(opt_ref_model(default) == attr_default_at(f.scheme.attributes@, i as int));
        }
        let x = project_slot(&f.values[i], default);
        proof {
            assert(entries.take(i + 1).drop_last() =~= entries.take(i as int));
            assert(entries.take(i + 1).last() == entries[i as int]);
        }
        match x {
            Some(x) => {
                let name = if i < f.scheme.attributes.len() {
                    string_of(f.scheme.attributes[i].name())
                } else {
                    String::new()
                };
                let ghost before = out@;
                out.push((name, x));
                proof {
                    assert(pairs_model(out@) =~= pairs_model(before).push((entries[i as int].0, x@)));
                }
            },
            None => {},
        }
        i += 1;
    }
    proof { assert(entries.take(f.values@.len() as int) =~= entries); }
    out
}

/// Appends the spans of a runtime value.
pub(crate) fn append_value_spans(v: &InterpretationValue, out: &mut Vec<Span>)
    ensures
        final(out)@ == old(out)@ + value_spans(*v),
    decreases v,
{
    match v {
        InterpretationValue::Chain(c) => match get_tokens_span(&c.tokens) {
            Some(sp) => {
                out.push(sp);
                proof { assert(out@ =~= old(out)@ + seq![sp]); }
            },
            None => {
                proof { assert(out@ =~= old(out)@ + Seq::<Span>::empty()); }
            },
        },
        InterpretationValue::FactResult(res) => {
            if res.spans.len() > 0 {
                append_spans_of(&res.spans, out);
            } else {
                match &res.runtime_fact {
                    Some(f) => append_fact_spans(&**f, out),
                    None => {
                        proof { assert(out@ =~= old(out)@ + Seq::<Span>::empty()); }
                    },
                }
            }
        },
        InterpretationValue::AttributeResult(a) => append_value_spans(&*a.value, out),
        InterpretationValue::NormalizerResult(n) => match &n.input {
            Some(i) => append_value_spans(&**i, out),
            None => match &n.value {
                NormalizerResultValue::Nested(b) => append_value_spans(&**b, out),
                NormalizerResultValue::Value(_) => {
                    proof { assert(out@ =~= old(out)@ + Seq::<Span>::empty()); }
                },
            },
        },
    }
}

/// Appends spans one by one.
fn append_spans_of(spans: &Vec<Span>, out: &mut Vec<Span>)
    ensures
        final(out)@ == old(out)@ + spans@,
{
    let ghost start = out@;
    let mut i: usize = 0;
    while i < spans.len()
        invariant
            i <= spans@.len(),
            start == old(out)@,
            out@ == start + spans@.take(i as int),
        decreases spans@.len() - i,
    {
        out.push(spans[i]);
        proof { assert(out@ =~= start + spans@.take(i + 1)); }
        i += 1;
    }
    assert(spans@.take(spans@.len() as int) =~= spans@);
}

/// Appends the spans of a slot.
#[verifier::loop_isolation(false)]
pub(crate) fn append_slot_spans(s: &RuntimeAttributeValue, out: &mut Vec<Span>)
    ensures
        final(out)@ == old(out)@ + slot_spans(*s),
    decreases s,
{
    match s {
        RuntimeAttributeValue::Plain(_) => {
            proof { assert(out@ =~= old(out)@ + Seq::<Span>::empty()); }
        },
        RuntimeAttributeValue::Result(v) => append_value_spans(v, out),
        RuntimeAttributeValue::Repeatable(items) => {
            let ghost start = out@;
            let mut i: usize = 0;
            while i < items.len()
                invariant
                    i <= items@.len(),
                    start == old(out)@,
                    out@ == start + items_spans(items@.take(i as int)),
                decreases items@.len() - i,
            {
                proof {
                    assert(decreases_to!(*s => s->Repeatable_0));
                    assert(decreases_to!(s->Repeatable_0 => s->Repeatable_0[i as int]));
                    assert(items@.take(i + 1).subrange(0, i as int) =~= items@.take(i as int));
                }
                append_value_spans(&items[i], out);
                proof {
                    assert(out@ =~= start + items_spans(items@.take(i + 1)));
                }
                i += 1;
            }
            assert(items@.take(items@.len() as int) =~= items@);
        },
    }
}

/// Appends the spans of a runtime fact.
#[verifier::loop_isolation(false)]
pub(crate) fn append_fact_spans(f: &InterpretatorFact, out: &mut Vec<Span>)
    ensures
        final(out)@ == old(out)@ + fact_spans(*f),
    decreases f,
{
    let ghost start = out@;
    let ghost per = slots_spans(f.values@);
    proof { lemma_slots_spans(f.values@); }
    let mut k: usize = 0;
    while k < f.modified.len()
        invariant
            k <= f.modified@.len(),
            start == old(out)@,
            out@ == start + gather_spans(per, f.modified@.take(k as int)),
        decreases f.modified@.len() - k,
    {
        let m = f.modified[k];
        proof {
            assert(f.modified@.take(k + 1).drop_last() =~= f.modified@.take(k as int));
            assert(f.modified@.take(k + 1).last() == m);
        }
        if m < f.values.len() {
            proof {
                assert(decreases_to!(*f => f.values));
                assert(decreases_to!(f.values => f.values[m as int]));
            }
            append_slot_spans(&f.values[m], out);
            proof { assert(out@ =~= start + gather_spans(per, f.modified@.take(k + 1))); }
        } else {
            proof { assert(out@ =~= start + gather_spans(per, f.modified@.take(k + 1))); }
        }
        k += 1;
    }
    assert(f.modified@.take(f.modified@.len() as int) =~= f.modified@);
}

/// Copies tokens one by one.
fn copy_tokens(tokens: &Vec<Token>) -> (r: Vec<Token>)
    ensures
        r@.len() == tokens@.len(),
        forall|i: int| 0 <= i < tokens@.len() ==> (#[trigger] r@[i]).value@ == tokens@[i].value@
            && r@[i].span == tokens@[i].span && r@[i].token_type == tokens@[i].token_type,
        crate::token::token_values(r@) == crate::token::token_values(tokens@),
        spec_tokens_span(r@) == spec_tokens_span(tokens@),
{
    let mut out: Vec<Token> = Vec::new();
    let mut i: usize = 0;
    while i < tokens.len()
        invariant
            i <= tokens@.len(),
            out@.len() == i,
            forall|j: int| 0 <= j < i ==> (#[trigger] out@[j]).value@ == tokens@[j].value@
                && out@[j].span == tokens@[j].span && out@[j].token_type == tokens@[j].token_type,
        decreases tokens@.len() - i,
    {
        out.push(tokens[i].copy());
        i += 1;
    }
    assert(crate::token::token_values(out@) =~= crate::token::token_values(tokens@));
    out
}

/// Copies a vector of spans.
fn copy_spans(spans: &Vec<Span>) -> (r: Vec<Span>)
    ensures
        r@ == spans@,
{
    let mut out: Vec<Span> = Vec::new();
    append_spans_of(spans, &mut out);
    assert(out@ =~= spans@);
    out
}

/// Copies an optional string.
fn copy_opt_string(s: &Option<String>) -> (r: Option<String>)
    ensures
        match (r, *s) {
            (Some(a), Some(b)) => a@ == b@,
            (None, None) => true,
            _ => false,
        },
{
    match s {
        Some(x) => Some(x.clone()),
        None => None,
    }
}

/// Copies a chain: the same token values, spans and kinds, and the same key.
pub fn copy_chain(c: &Chain) -> (r: Chain)
    ensures
        crate::token::token_values(r.tokens@) == crate::token::token_values(c.tokens@),
        spec_tokens_span(r.tokens@) == spec_tokens_span(c.tokens@),
        r.tokens@.len() == c.tokens@.len(),
        forall|i: int| 0 <= i < c.tokens@.len() ==> (#[trigger] r.tokens@[i]).value@ == c.tokens@[i].value@
            && r.tokens@[i].span == c.tokens@[i].span && r.tokens@[i].token_type == c.tokens@[i].token_type,
        match (r.key, c.key) {
            (Some(a), Some(b)) => a@ == b@,
            (None, None) => true,
            _ => false,
        },
{
    Chain { tokens: copy_tokens(&c.tokens), key: copy_opt_string(&c.key) }
}

/// A copy of a runtime value with the same projections.
pub fn copy_value(v: &InterpretationValue) -> (r: InterpretationValue)
    ensures
        value_json(r) == value_json(*v),
        value_spans(r) == value_spans(*v),
    decreases v,
{
    match v {
        InterpretationValue::Chain(c) => InterpretationValue::Chain(copy_chain(c)),
        InterpretationValue::FactResult(res) => {
            let runtime_fact = match &res.runtime_fact {
                Some(f) => Some(Box::new(copy_fact(&**f))),
                None => None,
            };
            let as_json = match &res.as_json {
                Some(j) => Some(j.clone_value()),
                None => None,
            };
            InterpretationValue::FactResult(
                FactResult {
                    normalized: res.normalized.clone(),
                    as_json,
                    spans: copy_spans(&res.spans),
                    runtime_fact,
                },
            )
        },
        InterpretationValue::AttributeResult(a) => {
            let attribute = match &a.attribute {
                Some(x) => Some(x.copy()),
                None => None,
            };
            InterpretationValue::AttributeResult(
                AttributeResult { value: Box::new(copy_value(&*a.value)), attribute },
            )
        },
        InterpretationValue::NormalizerResult(n) => {
            let value = match &n.value {
                NormalizerResultValue::Value(x) => NormalizerResultValue::Value(x.clone_value()),
                NormalizerResultValue::Nested(b) => NormalizerResultValue::Nested(Box::new(copy_value(&**b))),
            };
            let input = match &n.input {
                Some(i) => Some(Box::new(copy_value(&**i))),
                None => None,
            };
            InterpretationValue::NormalizerResult(NormalizerResult { value, input })
        },
    }
}

/// A copy of a slot with the same projections and kind.
#[verifier::loop_isolation(false)]
pub fn copy_slot(s: &RuntimeAttributeValue) -> (r: RuntimeAttributeValue)
    ensures
        forall|d: Option<FactVal>| #[trigger] slot_json(r, d) == slot_json(*s, d),
        slot_spans(r) == slot_spans(*s),
        r is Repeatable <==> s is Repeatable,
        r is Plain <==> s is Plain,
    decreases s,
{
    match s {
        RuntimeAttributeValue::Plain(x) => {
            let y = match x {
                Some(v) => Some(v.clone_value()),
                None => None,
            };
            RuntimeAttributeValue::Plain(y)
        },
        RuntimeAttributeValue::Result(v) => RuntimeAttributeValue::Result(copy_value(v)),
        RuntimeAttributeValue::Repeatable(items) => {
            let mut out: Vec<InterpretationValue> = Vec::new();
            let mut i: usize = 0;
            while i < items.len()
                invariant
                    i <= items@.len(),
                    out@.len() == i,
                    values_json(out@) == values_json(items@.take(i as int)),
                    items_spans(out@) == items_spans(items@.take(i as int)),
                decreases items@.len() - i,
            {
                proof {
                    assert(decreases_to!(*s => s->Repeatable_0));
                    assert(decreases_to!(s->Repeatable_0 => s->Repeatable_0[i as int]));
                }
                let c = copy_value(&items[i]);
                let ghost before = out@;
                out.push(c);
                proof {
                    assert(out@.subrange(0, i as int) =~= before);
                    assert(items@.take(i + 1).subrange(0, i as int) =~= items@.take(i as int));
                }
                i += 1;
            }
            assert(items@.take(items@.len() as int) =~= items@);
            RuntimeAttributeValue::Repeatable(out)
        },
    }
}

/// A copy of a runtime fact with the same scheme, slots and projections.
#[verifier::loop_isolation(false)]
pub fn copy_fact(f: &InterpretatorFact) -> (r: InterpretatorFact)
    ensures
        fact_json(r) == fact_json(*f),
        fact_spans(r) == fact_spans(*f),
        crate::internal::fact_schema::same_scheme(r.scheme, f.scheme),
        r.modified@ == f.modified@,
        r.modified_mask@ == f.modified_mask@,
        r.values@.len() == f.values@.len(),
        forall|i: int| 0 <= i < f.values@.len() ==> same_slot(#[trigger] r.values@[i], f.values@[i]),
    decreases f,
{
    let mut values: Vec<RuntimeAttributeValue> = Vec::new();
    let mut i: usize = 0;
    while i < f.values.len()
        invariant
            i <= f.values@.len(),
            values@.len() == i,
            forall|j: int| 0 <= j < i ==> same_slot(#[trigger] values@[j], f.values@[j]),
        decreases f.values@.len() - i,
    {
        proof {
            assert(decreases_to!(*f => f.values));
            assert(decreases_to!(f.values => f.values[i as int]));
        }
        let c = copy_slot(&f.values[i]);
        values.push(c);
        i += 1;
    }
    let r = InterpretatorFact {
        scheme: f.scheme.copy(),
        values,
        modified: copy_indices(&f.modified),
        modified_mask: copy_flags(&f.modified_mask),
    };
    proof {
        lemma_same_slots_project(r, *f);
    }
    r
}

/// Two slots have the same projections and kind.
pub open spec fn same_slot(a: RuntimeAttributeValue, b: RuntimeAttributeValue) -> bool {
    &&& forall|d: Option<FactVal>| #[trigger] slot_json(a, d) == slot_json(b, d)
    &&& slot_spans(a) == slot_spans(b)
    &&& (a is Repeatable <==> b is Repeatable)
    &&& (a is Plain <==> b is Plain)
}

/// Facts with the same scheme, slots and set attributes have the same projections.
pub proof fn lemma_same_slots_project(a: InterpretatorFact, b: InterpretatorFact)
    requires
        crate::internal::fact_schema::same_scheme(a.scheme, b.scheme),
        a.modified@ == b.modified@,
        a.values@.len() == b.values@.len(),
        forall|i: int| 0 <= i < a.values@.len() ==> same_slot(#[trigger] a.values@[i], b.values@[i]),
    ensures
        fact_json(a) == fact_json(b),
        fact_spans(a) == fact_spans(b),
{
    crate::internal::fact_schema::lemma_same_scheme_names(a.scheme, b.scheme);
    lemma_slots_entries(a.values@, a.scheme.attributes@);
    lemma_slots_entries(b.values@, b.scheme.attributes@);
    assert forall|i: int| 0 <= i < a.values@.len() implies #[trigger] slots_entries(a.values@, a.scheme.attributes@)[i]
        == slots_entries(b.values@, b.scheme.attributes@)[i] by {
        assert(same_slot(a.values@[i], b.values@[i]));
        if i < a.scheme.attributes@.len() {
            assert(a.scheme.names()[i] == b.scheme.names()[i]);
        }
        assert(attr_name_at(a.scheme.attributes@, i) == attr_name_at(b.scheme.attributes@, i));
        assert(attr_default_at(a.scheme.attributes@, i) == attr_default_at(b.scheme.attributes@, i));
        assert(slot_json(a.values@[i], attr_default_at(a.scheme.attributes@, i))
            == slot_json(b.values@[i], attr_default_at(a.scheme.attributes@, i)));
    }
    assert(slots_entries(a.values@, a.scheme.attributes@) =~= slots_entries(b.values@, b.scheme.attributes@));
    lemma_slots_spans(a.values@);
    lemma_slots_spans(b.values@);
    assert forall|i: int| 0 <= i < a.values@.len() implies #[trigger] slots_spans(a.values@)[i] == slots_spans(b.values@)[i] by {
        assert(same_slot(a.values@[i], b.values@[i]));
    }
    assert(slots_spans(a.values@) =~= slots_spans(b.values@));
}

/// Copies a vector of indices.
fn copy_indices(v: &Vec<usize>) -> (r: Vec<usize>)
    ensures
        r@ == v@,
{
    let mut out: Vec<usize> = Vec::new();
    let mut i: usize = 0;
    while i < v.len()
        invariant
            i <= v@.len(),
            out@ == v@.take(i as int),
        decreases v@.len() - i,
    {
        out.push(v[i]);
        proof { assert(out@ =~= v@.take(i + 1)); }
        i += 1;
    }
    assert(v@.take(v@.len() as int) =~= v@);
    out
}

/// Copies a vector of flags.
fn copy_flags(v: &Vec<bool>) -> (r: Vec<bool>)
    ensures
        r@ == v@,
{
    let mut out: Vec<bool> = Vec::new();
    let mut i: usize = 0;
    while i < v.len()
        invariant
            i <= v@.len(),
            out@ == v@.take(i as int),
        decreases v@.len() - i,
    {
        out.push(v[i]);
        proof { assert(out@ =~= v@.take(i + 1)); }
        i += 1;
    }
    assert(v@.take(v@.len() as int) =~= v@);
    out
}

/// An input that has a normalized value.
pub trait NormalizedItem {
    /// Model of the normalized value.
    spec fn normalized_model(&self) -> FactVal;

    /// The normalized value.
    fn normalized_value(&self) -> (r: FactValue)
        ensures
            r@ == self.normalized_model(),
    ;

    /// The normalized value as text.
    fn normalized_text(&self) -> (r: String)
        ensures
            r@ == display_chars(self.normalized_model()),
    {
        self.normalized_value().to_string()
    }
}

/// An input with a JSON-like projection and spans of the source text.
pub trait RuntimeItem {
    /// Model of the JSON-like projection.
    spec fn json_model(&self) -> FactVal;

    /// Model of the spans.
    spec fn spans_model(&self) -> Seq<Span>;

    /// The JSON-like projection.
    fn as_json_value(&self) -> (r: FactValue)
        ensures
            r@ == self.json_model(),
    ;

    /// The spans of the source text.
    fn spans(&self) -> (r: Vec<Span>)
        ensures
            r@ == self.spans_model(),
    ;
}

impl NormalizedItem for Chain {
    open spec fn normalized_model(&self) -> FactVal {
        FactVal::Str(spec_join_tokens(self.tokens@))
    }

    fn normalized_value(&self) -> (r: FactValue) {
        FactValue::Str(join_tokens(&self.tokens))
    }
}

impl RuntimeItem for Chain {
    open spec fn json_model(&self) -> FactVal {
        FactVal::Str(spec_join_tokens(self.tokens@))
    }

    open spec fn spans_model(&self) -> Seq<Span> {
        value_spans(InterpretationValue::Chain(*self))
    }

    fn as_json_value(&self) -> (r: FactValue) {
        FactValue::Str(join_tokens(&self.tokens))
    }

    fn spans(&self) -> (r: Vec<Span>) {
        let mut out: Vec<Span> = Vec::new();
        match get_tokens_span(&self.tokens) {
            Some(sp) => out.push(sp),
            None => {},
        }
        proof { assert(out@ =~= value_spans(InterpretationValue::Chain(*self))); }
        out
    }
}

impl FactResult {
    /// A result holding only a normalized text.
    pub fn new(normalized: &str) -> (r: FactResult)
        ensures
            r.normalized@ == normalized@,
            r.as_json is None,
            r.spans@.len() == 0,
            r.runtime_fact is None,
    {
        FactResult { normalized: string_of(normalized), as_json: None, spans: Vec::new(), runtime_fact: None }
    }

    /// A result holding a JSON-like value; its normalized text is the value's text.
    pub fn from_json(value: FactValue) -> (r: FactResult)
        ensures
            r.normalized@ == display_chars(value@),
            r.as_json == Some(value),
            r.spans@.len() == 0,
            r.runtime_fact is None,
    {
        let normalized = value.to_string();
        FactResult { normalized, as_json: Some(value), spans: Vec::new(), runtime_fact: None }
    }

    /// The result with the given spans.
    pub fn with_spans(self, spans: Vec<Span>) -> (r: FactResult)
        ensures
            r.normalized == self.normalized,
            r.as_json == self.as_json,
            r.spans == spans,
            r.runtime_fact == self.runtime_fact,
    {
        FactResult { spans, ..self }
    }

    /// The result with the given JSON-like value, its normalized text following it.
    pub fn with_json(self, value: FactValue) -> (r: FactResult)
        ensures
            r.normalized@ == display_chars(value@),
            r.as_json == Some(value),
            r.spans == self.spans,
            r.runtime_fact == self.runtime_fact,
    {
        let normalized = value.to_string();
        FactResult { normalized, as_json: Some(value), ..self }
    }

    /// A result holding a runtime fact; its projections are those of the fact.
    pub fn from_runtime_fact(fact: InterpretatorFact) -> (r: FactResult)
        ensures
            r.normalized@.len() == 0,
            r.as_json is None,
            r.spans@.len() == 0,
            r.runtime_fact == Some(Box::new(fact)),
    {
        FactResult { normalized: String::new(), as_json: None, spans: Vec::new(), runtime_fact: Some(Box::new(fact)) }
    }

    /// The runtime fact, when the result holds one.
    pub fn runtime_fact(&self) -> (r: Option<&InterpretatorFact>)
        ensures
            match self.runtime_fact {
                Some(f) => r == Some(&*f),
                None => r is None,
            },
    {
        match &self.runtime_fact {
            Some(f) => Some(&**f),
            None => None,
        }
    }

    /// The runtime fact, when the result holds one, moved out.
    pub fn into_runtime_fact(self) -> (r: Option<InterpretatorFact>)
        ensures
            match self.runtime_fact {
                Some(f) => r == Some(*f),
                None => r is None,
            },
    {
        match self.runtime_fact {
            Some(f) => Some(*f),
            None => None,
        }
    }

    /// The projection of the result.
    fn projected(&self) -> (r: FactValue)
        ensures
            r@ == value_json(InterpretationValue::FactResult(*self)),
    {
        match &self.as_json {
            Some(j) => j.clone_value(),
            None => match &self.runtime_fact {
                Some(f) => {
                    let pairs = project_fact(&**f);
                    proof { lemma_object_model(pairs); }
                    FactValue::Object(pairs)
                },
                None => FactValue::Str(self.normalized.clone()),
            },
        }
    }
}

impl NormalizedItem for FactResult {
    open spec fn normalized_model(&self) -> FactVal {
        value_json(InterpretationValue::FactResult(*self))
    }

    fn normalized_value(&self) -> (r: FactValue) {
        self.projected()
    }
}

impl RuntimeItem for FactResult {
    open spec fn json_model(&self) -> FactVal {
        value_json(InterpretationValue::FactResult(*self))
    }

    open spec fn spans_model(&self) -> Seq<Span> {
        value_spans(InterpretationValue::FactResult(*self))
    }

    fn as_json_value(&self) -> (r: FactValue) {
        self.projected()
    }

    fn spans(&self) -> (r: Vec<Span>) {
        let mut out: Vec<Span> = Vec::new();
        if self.spans.len() > 0 {
            append_spans_of(&self.spans, &mut out);
        } else {
            match &self.runtime_fact {
                Some(f) => append_fact_spans(&**f, &mut out),
                None => {},
            }
        }
        proof { assert(out@ =~= value_spans(InterpretationValue::FactResult(*self))); }
        out
    }
}

impl AttributeResult {
    /// The result of an attribute, without the attribute.
    pub fn new(value: InterpretationValue) -> (r: AttributeResult)
        ensures
            *r.value == value,
            r.attribute is None,
    {
        AttributeResult { value: Box::new(value), attribute: None }
    }

    /// The result with the attribute kept.
    pub fn with_attribute(self, attribute: Attribute) -> (r: AttributeResult)
        ensures
            r.value == self.value,
            r.attribute == Some(attribute),
    {
        AttributeResult { value: self.value, attribute: Some(attribute) }
    }
}

impl NormalizedItem for AttributeResult {
    open spec fn normalized_model(&self) -> FactVal {
        value_json(*self.value)
    }

    fn normalized_value(&self) -> (r: FactValue) {
        project_value(&*self.value)
    }
}

impl RuntimeItem for AttributeResult {
    open spec fn json_model(&self) -> FactVal {
        value_json(*self.value)
    }

    open spec fn spans_model(&self) -> Seq<Span> {
        value_spans(*self.value)
    }

    fn as_json_value(&self) -> (r: FactValue) {
        project_value(&*self.value)
    }

    fn spans(&self) -> (r: Vec<Span>) {
        let mut out: Vec<Span> = Vec::new();
        append_value_spans(&*self.value, &mut out);
        proof { assert(out@ =~= value_spans(*self.value)); }
        out
    }
}

impl NormalizerResult {
    /// A result holding a plain value.
    pub fn from_value(value: FactValue) -> (r: NormalizerResult)
        ensures
            r.value == NormalizerResultValue::Value(value),
            r.input is None,
    {
        NormalizerResult { value: NormalizerResultValue::Value(value), input: None }
    }

    /// A result holding a text.
    pub fn from_text(value: &str) -> (r: NormalizerResult)
        ensures
            r.value is Value,
            r.value->Value_0@ == FactVal::Str(value@),
            r.input is None,
    {
        NormalizerResult::from_value(FactValue::Str(string_of(value)))
    }

    /// A result holding a nested runtime value.
    pub fn from_nested(value: InterpretationValue) -> (r: NormalizerResult)
        ensures
            r.value == NormalizerResultValue::Nested(Box::new(value)),
            r.input is None,
    {
        NormalizerResult { value: NormalizerResultValue::Nested(Box::new(value)), input: None }
    }

    /// The result with its input kept, for the input's spans.
    pub fn with_input(self, input: InterpretationValue) -> (r: NormalizerResult)
        ensures
            r.value == self.value,
            r.input == Some(Box::new(input)),
    {
        NormalizerResult { value: self.value, input: Some(Box::new(input)) }
    }
}

impl NormalizedItem for NormalizerResult {
    open spec fn normalized_model(&self) -> FactVal {
        value_json(InterpretationValue::NormalizerResult(*self))
    }

    fn normalized_value(&self) -> (r: FactValue) {
        match &self.value {
            NormalizerResultValue::Value(x) => x.clone_value(),
            NormalizerResultValue::Nested(b) => project_value(&**b),
        }
    }
}

impl RuntimeItem for NormalizerResult {
    open spec fn json_model(&self) -> FactVal {
        value_json(InterpretationValue::NormalizerResult(*self))
    }

    open spec fn spans_model(&self) -> Seq<Span> {
        value_spans(InterpretationValue::NormalizerResult(*self))
    }

    fn as_json_value(&self) -> (r: FactValue) {
        self.normalized_value()
    }

    fn spans(&self) -> (r: Vec<Span>) {
        let mut out: Vec<Span> = Vec::new();
        match &self.input {
            Some(i) => append_value_spans(&**i, &mut out),
            None => match &self.value {
                NormalizerResultValue::Nested(b) => append_value_spans(&**b, &mut out),
                NormalizerResultValue::Value(_) => {},
            },
        }
        proof { assert(out@ =~= value_spans(InterpretationValue::NormalizerResult(*self))); }
        out
    }
}

impl NormalizedItem for InterpretationValue {
    open spec fn normalized_model(&self) -> FactVal {
        value_json(*self)
    }

    fn normalized_value(&self) -> (r: FactValue) {
        project_value(self)
    }
}

impl RuntimeItem for InterpretationValue {
    open spec fn json_model(&self) -> FactVal {
        value_json(*self)
    }

    open spec fn spans_model(&self) -> Seq<Span> {
        value_spans(*self)
    }

    fn as_json_value(&self) -> (r: FactValue) {
        project_value(self)
    }

    fn spans(&self) -> (r: Vec<Span>) {
        let mut out: Vec<Span> = Vec::new();
        append_value_spans(self, &mut out);
        proof { assert(out@ =~= value_spans(*self)); }
        out
    }
}

impl InterpretationValue {
    /// Appends the spans of the value to `out`.
    pub fn append_spans(&self, out: &mut Vec<Span>)
        ensures
            final(out)@ == old(out)@ + value_spans(*self),
    {
        append_value_spans(self, out)
    }
}

impl Clone for InterpretationValue {
    fn clone(&self) -> (r: InterpretationValue)
        ensures
            value_json(r) == value_json(*self),
            value_spans(r) == value_spans(*self),
    {
        copy_value(self)
    }
}

impl Clone for RuntimeAttributeValue {
    fn clone(&self) -> (r: RuntimeAttributeValue)
        ensures
            same_slot(r, *self),
    {
        copy_slot(self)
    }
}

impl Clone for InterpretatorFact {
    fn clone(&self) -> (r: InterpretatorFact)
        ensures
            fact_json(r) == fact_json(*self),
            fact_spans(r) == fact_spans(*self),
    {
        copy_fact(self)
    }
}

impl From<Chain> for InterpretationValue {
    fn from(value: Chain) -> (r: InterpretationValue)
        ensures
            r == InterpretationValue::Chain(value),
    {
        InterpretationValue::Chain(value)
    }
}

impl vstd::std_specs::convert::FromSpecImpl<Chain> for InterpretationValue {
    open spec fn obeys_from_spec() -> bool {
        true
    }

    open spec fn from_spec(value: Chain) -> InterpretationValue {
        InterpretationValue::Chain(value)
    }
}

impl From<FactResult> for InterpretationValue {
    fn from(value: FactResult) -> (r: InterpretationValue)
        ensures
            r == InterpretationValue::FactResult(value),
    {
        InterpretationValue::FactResult(value)
    }
}

impl vstd::std_specs::convert::FromSpecImpl<FactResult> for InterpretationValue {
    open spec fn obeys_from_spec() -> bool {
        true
    }

    open spec fn from_spec(value: FactResult) -> InterpretationValue {
        InterpretationValue::FactResult(value)
    }
}

impl From<AttributeResult> for InterpretationValue {
    fn from(value: AttributeResult) -> (r: InterpretationValue)
        ensures
            r == InterpretationValue::AttributeResult(value),
    {
        InterpretationValue::AttributeResult(value)
    }
}

impl vstd::std_specs::convert::FromSpecImpl<AttributeResult> for InterpretationValue {
    open spec fn obeys_from_spec() -> bool {
        true
    }

    open spec fn from_spec(value: AttributeResult) -> InterpretationValue {
        InterpretationValue::AttributeResult(value)
    }
}

impl From<NormalizerResult> for InterpretationValue {
    fn from(value: NormalizerResult) -> (r: InterpretationValue)
        ensures
            r == InterpretationValue::NormalizerResult(value),
    {
        InterpretationValue::NormalizerResult(value)
    }
}

impl vstd::std_specs::convert::FromSpecImpl<NormalizerResult> for InterpretationValue {
    open spec fn obeys_from_spec() -> bool {
        true
    }

    open spec fn from_spec(value: NormalizerResult) -> InterpretationValue {
        InterpretationValue::NormalizerResult(value)
    }
}

} // verus!
