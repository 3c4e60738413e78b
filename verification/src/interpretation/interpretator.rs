//! Interpretators: callables that turn tokens and intermediate results into the values that
//! facts are built from, and the payload of interpretations for rules.
use vstd::prelude::*;

use super::attribute::{
    Attribute, ConstAttribute, FunctionAttribute, FunctionFunctionAttribute, InflectedAttribute,
    InflectedFunctionAttribute, NormalizedAttribute, NormalizedFunctionAttribute,
    RepeatableAttribute,
};
use super::fact::{merge_result, set_result, FactAttribute, FactField, FactMeta, InterpretatorFact, RuntimeAttributeValue};
use super::normalizer::{
    inflected_chain_text, spec_normalized_text, value_json, AttributeResult, Chain, ConstNormalizer, FactResult,
    FunctionFunctionNormalizer, FunctionNormalizer, InflectedNormalizer, InterpretationValue,
    MorphCall, MorphFunctionNormalizer, NormalizedItem, NormalizedNormalizer, NormalizerResult,
    NormalizerResultValue,
};
use super::value::{FactVal, FactValue};
use crate::internal::fact_schema::{same_scheme, FactError, FactScheme};
use crate::internal::interpretation_payload::{CoreInterpretation, CoreTransform};
use crate::text::{contains_string, nat_digits, string_of, string_views, usize_to_string};
use crate::token::{spec_join_normalized, Token};

verus! {

/// A user transformation that leaves every value unchanged.
#[derive(Debug, Clone, Copy, PartialEq, Eq, Default)]
pub struct KeepValue;

impl KeepValue {
    /// Leaves the value unchanged.
    pub fn apply(&self, value: &FactValue) -> (r: Option<FactValue>)
        ensures
            r is None,
    {
        None
    }
}

/// A transformation of the payload of interpretations.
pub type Transform<C = KeepValue> = CoreTransform<C>;

/// The payload of an interpretation of a rule.
pub type Interpretation<C = KeepValue> = CoreInterpretation<FactValue, CoreTransform<C>>;

/// `custom(function)` as a transformation of values.
pub struct ValueFunction<F> {
    /// The function.
    pub function: F,
}

impl<F> ValueFunction<F> {
    /// The function applied to a copy of the value, its result converted to a value.
    pub fn apply<O>(&self, value: &FactValue) -> (r: Option<FactValue>) where
        F: Fn(FactValue) -> O,
        FactValue: From<O>,
        requires
            forall|v: FactValue| call_requires(self.function, (v,)),
        ensures
            r is Some,
            exists|v: FactValue, o: O|
                v@ == value@ && call_ensures(self.function, (v,), o) && call_ensures(FactValue::from, (o,), r->0),
    {
        let o = (self.function)(value.clone_value());
        Some(FactValue::from(o))
    }
}

/// `custom(first).custom(second)` as a transformation of values.
pub struct ComposedFunction<F, G> {
    /// The first function.
    pub first: F,
    /// The second function, applied to the result of the first.
    pub second: G,
}

impl<F, G> ComposedFunction<F, G> {
    /// Both functions applied to a copy of the value, the result converted to a value.
    pub fn apply<O1, O2>(&self, value: &FactValue) -> (r: Option<FactValue>) where
        F: Fn(FactValue) -> O1,
        G: Fn(O1) -> O2,
        FactValue: From<O2>,
        requires
            forall|v: FactValue| call_requires(self.first, (v,)),
            forall|x: O1| call_requires(self.second, (x,)),
        ensures
            r is Some,
            exists|v: FactValue, x: O1, o: O2|
                v@ == value@ && call_ensures(self.first, (v,), x) && call_ensures(self.second, (x,), o)
                    && call_ensures(FactValue::from, (o,), r->0),
    {
        let x = (self.first)(value.clone_value());
        let o = (self.second)(x);
        Some(FactValue::from(o))
    }
}

/// A function of text as a transformation of values: it gets the text of a string value and
/// an empty text for any other value.
pub struct TextFunction<F> {
    /// The function.
    pub function: F,
}

/// Text a function of text gets from a value.
pub open spec fn text_of(value: FactVal) -> Seq<char> {
    match value {
        FactVal::Str(s) => s,
        _ => Seq::empty(),
    }
}

impl<F> TextFunction<F> {
    /// The function applied to the text of the value, its result converted to a value.
    pub fn apply<O>(&self, value: &FactValue) -> (r: Option<FactValue>) where
        F: Fn(String) -> O,
        FactValue: From<O>,
        requires
            forall|s: String| call_requires(self.function, (s,)),
        ensures
            r is Some,
            exists|s: String, o: O|
                s@ == text_of(value@) && call_ensures(self.function, (s,), o) && call_ensures(FactValue::from, (o,), r->0),
    {
        let text = match value.as_str() {
            Some(s) => string_of(s),
            None => String::new(),
        };
        let o = (self.function)(text);
        Some(FactValue::from(o))
    }
}

impl<C> CoreInterpretation<FactValue, CoreTransform<C>> {
    /// The interpretation of a fact attribute descriptor: its fact and field, and its constant
    /// as a string value.
    pub fn from_attr(attr: &FactAttribute) -> (r: Self)
        ensures
            r.fact_name@ == attr.fact_name_model(),
            r.field_name@ == attr.field_name_model(),
            match attr.const_model() {
                Some(c) => r.const_value is Some && r.const_value->0@ == FactVal::Str(c),
                None => r.const_value is None,
            },
            r.transforms@.len() == 0,
            !r.repeatable,
    {
        let const_value = match attr.get_const() {
            Some(value) => Some(FactValue::Str(string_of(value))),
            None => None,
        };
        CoreInterpretation {
            fact_name: string_of(attr.fact_name()),
            field_name: string_of(attr.field_name()),
            const_value,
            transforms: Vec::new(),
            repeatable: false,
        }
    }

    /// `true` when a constant is set.
    pub fn has_const(&self) -> (r: bool)
        ensures
            r == (self.const_value is Some),
    {
        self.const_value.is_some()
    }
}

/// The interpretation of a plain attribute: its fact and field, nothing else.
pub fn interpretation_of_attribute<C>(attribute: Attribute) -> (r: CoreInterpretation<FactValue, CoreTransform<C>>)
    ensures
        r.fact_name@ == attribute.base.fact.name@,
        r.field_name@ == attribute.base.name@,
        r.const_value is None,
        r.transforms@.len() == 0,
        !r.repeatable,
{
    CoreInterpretation {
        fact_name: attribute.base.fact.into_name(),
        field_name: attribute.base.name,
        const_value: None,
        transforms: Vec::new(),
        repeatable: false,
    }
}

impl<C> From<FactAttribute> for CoreInterpretation<FactValue, CoreTransform<C>> {
    fn from(attr: FactAttribute) -> (r: Self)
        ensures
            r.fact_name@ == attr.fact_name_model(),
            r.field_name@ == attr.field_name_model(),
            match attr.const_model() {
                Some(c) => r.const_value is Some && r.const_value->0@ == FactVal::Str(c),
                None => r.const_value is None,
            },
            r.transforms@.len() == 0,
            !r.repeatable,
    {
        CoreInterpretation::from_attr(&attr)
    }
}

impl<C> vstd::std_specs::convert::FromSpecImpl<FactAttribute> for CoreInterpretation<FactValue, CoreTransform<C>> {
    /// A spec function cannot build the strings and vectors of the result; the ensures of
    /// `from` state it.
    open spec fn obeys_from_spec() -> bool {
        false
    }

    open spec fn from_spec(v: FactAttribute) -> CoreInterpretation<FactValue, CoreTransform<C>> {
        arbitrary()
    }
}

impl<C> From<Attribute> for CoreInterpretation<FactValue, CoreTransform<C>> {
    fn from(attribute: Attribute) -> (r: Self)
        ensures
            r.fact_name@ == attribute.base.fact.name@,
            r.field_name@ == attribute.base.name@,
            r.const_value is None,
            r.transforms@.len() == 0,
            !r.repeatable,
    {
        interpretation_of_attribute(attribute)
    }
}

impl<C> vstd::std_specs::convert::FromSpecImpl<Attribute> for CoreInterpretation<FactValue, CoreTransform<C>> {
    /// A spec function cannot build the strings and vectors of the result; the ensures of
    /// `from` state it.
    open spec fn obeys_from_spec() -> bool {
        false
    }

    open spec fn from_spec(v: Attribute) -> CoreInterpretation<FactValue, CoreTransform<C>> {
        arbitrary()
    }
}

impl<C> From<RepeatableAttribute> for CoreInterpretation<FactValue, CoreTransform<C>> {
    fn from(attribute: RepeatableAttribute) -> (r: Self)
        ensures
            r.fact_name@ == attribute.base.fact.name@,
            r.field_name@ == attribute.base.name@,
            r.const_value is None,
            r.transforms@.len() == 0,
            r.repeatable,
    {
        CoreInterpretation {
            fact_name: attribute.base.fact.into_name(),
            field_name: attribute.base.name,
            const_value: None,
            transforms: Vec::new(),
            repeatable: true,
        }
    }
}

impl<C> vstd::std_specs::convert::FromSpecImpl<RepeatableAttribute> for CoreInterpretation<FactValue, CoreTransform<C>> {
    /// A spec function cannot build the strings and vectors of the result; the ensures of
    /// `from` state it.
    open spec fn obeys_from_spec() -> bool {
        false
    }

    open spec fn from_spec(v: RepeatableAttribute) -> CoreInterpretation<FactValue, CoreTransform<C>> {
        arbitrary()
    }
}

impl<C> From<NormalizedAttribute> for CoreInterpretation<FactValue, CoreTransform<C>> {
    fn from(attribute: NormalizedAttribute) -> (r: Self)
        ensures
            r.fact_name@ == attribute.attribute.base.fact.name@,
            r.field_name@ == attribute.attribute.base.name@,
            r.transforms@.len() == 1,
            r.transforms@[0] is Normalized,
            !r.repeatable,
    {
        let mut value = interpretation_of_attribute(attribute.attribute);
        value.transforms.push(CoreTransform::Normalized);
        value
    }
}

impl<C> vstd::std_specs::convert::FromSpecImpl<NormalizedAttribute> for CoreInterpretation<FactValue, CoreTransform<C>> {
    /// A spec function cannot build the strings and vectors of the result; the ensures of
    /// `from` state it.
    open spec fn obeys_from_spec() -> bool {
        false
    }

    open spec fn from_spec(v: NormalizedAttribute) -> CoreInterpretation<FactValue, CoreTransform<C>> {
        arbitrary()
    }
}

impl<C> From<InflectedAttribute> for CoreInterpretation<FactValue, CoreTransform<C>> {
    fn from(attribute: InflectedAttribute) -> (r: Self)
        ensures
            r.fact_name@ == attribute.attribute.base.fact.name@,
            r.field_name@ == attribute.attribute.base.name@,
            r.transforms@.len() == 1,
            r.transforms@[0] == CoreTransform::<C>::Inflected(attribute.grams),
            !r.repeatable,
    {
        let mut value = interpretation_of_attribute(attribute.attribute);
        value.transforms.push(CoreTransform::Inflected(attribute.grams));
        value
    }
}

impl<C> vstd::std_specs::convert::FromSpecImpl<InflectedAttribute> for CoreInterpretation<FactValue, CoreTransform<C>> {
    /// A spec function cannot build the strings and vectors of the result; the ensures of
    /// `from` state it.
    open spec fn obeys_from_spec() -> bool {
        false
    }

    open spec fn from_spec(v: InflectedAttribute) -> CoreInterpretation<FactValue, CoreTransform<C>> {
        arbitrary()
    }
}

impl<C, T> From<ConstAttribute<T>> for CoreInterpretation<FactValue, CoreTransform<C>> where FactValue: From<T> {
    fn from(attribute: ConstAttribute<T>) -> (r: Self)
        ensures
            r.fact_name@ == attribute.attribute.base.fact.name@,
            r.field_name@ == attribute.attribute.base.name@,
            r.const_value is Some,
            call_ensures(FactValue::from, (attribute.value,), r.const_value->0),
            r.transforms@.len() == 0,
            !r.repeatable,
    {
        let mut value = interpretation_of_attribute(attribute.attribute);
        value.const_value = Some(FactValue::from(attribute.value));
        value
    }
}

impl<C, T> vstd::std_specs::convert::FromSpecImpl<ConstAttribute<T>> for CoreInterpretation<FactValue, CoreTransform<C>> where FactValue: From<T> {
    /// A spec function cannot build the strings and vectors of the result; the ensures of
    /// `from` state it.
    open spec fn obeys_from_spec() -> bool {
        false
    }

    open spec fn from_spec(v: ConstAttribute<T>) -> CoreInterpretation<FactValue, CoreTransform<C>> {
        arbitrary()
    }
}

impl<F> From<FunctionAttribute<F>> for CoreInterpretation<FactValue, CoreTransform<ValueFunction<F>>> {
    fn from(attribute: FunctionAttribute<F>) -> (r: Self)
        ensures
            r.fact_name@ == attribute.attribute.base.fact.name@,
            r.field_name@ == attribute.attribute.base.name@,
            r.transforms@.len() == 1,
            r.transforms@[0] is Custom,
            r.transforms@[0]->Custom_0.function == attribute.function,
            !r.repeatable,
    {
        let mut value = interpretation_of_attribute(attribute.attribute);
        value.transforms.push(CoreTransform::Custom(ValueFunction { function: attribute.function }));
        value
    }
}

impl<F> vstd::std_specs::convert::FromSpecImpl<FunctionAttribute<F>> for CoreInterpretation<FactValue, CoreTransform<ValueFunction<F>>> {
    /// A spec function cannot build the strings and vectors of the result; the ensures of
    /// `from` state it.
    open spec fn obeys_from_spec() -> bool {
        false
    }

    open spec fn from_spec(v: FunctionAttribute<F>) -> CoreInterpretation<FactValue, CoreTransform<ValueFunction<F>>> {
        arbitrary()
    }
}

impl<F, G> From<FunctionFunctionAttribute<F, G>> for CoreInterpretation<FactValue, CoreTransform<ComposedFunction<F, G>>> {
    fn from(attribute: FunctionFunctionAttribute<F, G>) -> (r: Self)
        ensures
            r.fact_name@ == attribute.attribute.base.fact.name@,
            r.field_name@ == attribute.attribute.base.name@,
            r.transforms@.len() == 1,
            r.transforms@[0] is Custom,
            r.transforms@[0]->Custom_0.first == attribute.first,
            r.transforms@[0]->Custom_0.second == attribute.second,
            !r.repeatable,
    {
        let mut value = interpretation_of_attribute(attribute.attribute);
        value.transforms.push(
            CoreTransform::Custom(ComposedFunction { first: attribute.first, second: attribute.second }),
        );
        value
    }
}

impl<F, G> vstd::std_specs::convert::FromSpecImpl<FunctionFunctionAttribute<F, G>> for CoreInterpretation<FactValue, CoreTransform<ComposedFunction<F, G>>> {
    /// A spec function cannot build the strings and vectors of the result; the ensures of
    /// `from` state it.
    open spec fn obeys_from_spec() -> bool {
        false
    }

    open spec fn from_spec(v: FunctionFunctionAttribute<F, G>) -> CoreInterpretation<FactValue, CoreTransform<ComposedFunction<F, G>>> {
        arbitrary()
    }
}

impl<F> From<InflectedFunctionAttribute<F>> for CoreInterpretation<FactValue, CoreTransform<TextFunction<F>>> {
    fn from(attribute: InflectedFunctionAttribute<F>) -> (r: Self)
        ensures
            r.fact_name@ == attribute.attribute.base.fact.name@,
            r.field_name@ == attribute.attribute.base.name@,
            r.transforms@.len() == 2,
            r.transforms@[0] == CoreTransform::<TextFunction<F>>::Inflected(attribute.grams),
            r.transforms@[1] is Custom,
            r.transforms@[1]->Custom_0.function == attribute.function,
            !r.repeatable,
    {
        let mut value = interpretation_of_attribute(attribute.attribute);
        value.transforms.push(CoreTransform::Inflected(attribute.grams));
        value.transforms.push(CoreTransform::Custom(TextFunction { function: attribute.function }));
        value
    }
}

impl<F> vstd::std_specs::convert::FromSpecImpl<InflectedFunctionAttribute<F>> for CoreInterpretation<FactValue, CoreTransform<TextFunction<F>>> {
    /// A spec function cannot build the strings and vectors of the result; the ensures of
    /// `from` state it.
    open spec fn obeys_from_spec() -> bool {
        false
    }

    open spec fn from_spec(v: InflectedFunctionAttribute<F>) -> CoreInterpretation<FactValue, CoreTransform<TextFunction<F>>> {
        arbitrary()
    }
}

impl<F> From<NormalizedFunctionAttribute<F>> for CoreInterpretation<FactValue, CoreTransform<TextFunction<F>>> {
    fn from(attribute: NormalizedFunctionAttribute<F>) -> (r: Self)
        ensures
            r.fact_name@ == attribute.attribute.base.fact.name@,
            r.field_name@ == attribute.attribute.base.name@,
            r.transforms@.len() == 2,
            r.transforms@[0] is Normalized,
            r.transforms@[1] is Custom,
            r.transforms@[1]->Custom_0.function == attribute.function,
            !r.repeatable,
    {
        let mut value = interpretation_of_attribute(attribute.attribute);
        value.transforms.push(CoreTransform::Normalized);
        value.transforms.push(CoreTransform::Custom(TextFunction { function: attribute.function }));
        value
    }
}

impl<F> vstd::std_specs::convert::FromSpecImpl<NormalizedFunctionAttribute<F>> for CoreInterpretation<FactValue, CoreTransform<TextFunction<F>>> {
    /// A spec function cannot build the strings and vectors of the result; the ensures of
    /// `from` state it.
    open spec fn obeys_from_spec() -> bool {
        false
    }

    open spec fn from_spec(v: NormalizedFunctionAttribute<F>) -> CoreInterpretation<FactValue, CoreTransform<TextFunction<F>>> {
        arbitrary()
    }
}

impl<F: FactMeta, C> From<FactField<F>> for CoreInterpretation<FactValue, CoreTransform<C>> {
    fn from(field: FactField<F>) -> (r: Self)
        ensures
            r.field_name@ == field.name_model(),
            r.const_value is None,
            r.transforms@.len() == 0,
            !r.repeatable,
    {
        CoreInterpretation::from_attr(&field.attr())
    }
}

impl<F: FactMeta, C> vstd::std_specs::convert::FromSpecImpl<FactField<F>> for CoreInterpretation<FactValue, CoreTransform<C>> {
    /// A spec function cannot build the strings and vectors of the result; the ensures of
    /// `from` state it.
    open spec fn obeys_from_spec() -> bool {
        false
    }

    open spec fn from_spec(v: FactField<F>) -> CoreInterpretation<FactValue, CoreTransform<C>> {
        arbitrary()
    }
}

/// Errors of interpretators.
#[derive(Debug, Clone, PartialEq, Eq)]
pub enum InterpretatorError {
    /// Malformed input.
    InvalidInput(String),
    /// A value of an unexpected kind.
    TypeError(String),
    /// An error of a fact.
    FactError(FactError),
}

impl InterpretatorError {
    /// Text of the error.
    pub fn to_string(&self) -> (r: String)
        ensures
            r@ == match self {
                InterpretatorError::InvalidInput(m) => "invalid interpretator input: "@ + m@,
                InterpretatorError::TypeError(m) => "interpretator type error: "@ + m@,
                InterpretatorError::FactError(e) => "fact error: KeyError("@ + e->KeyError_0@ + ")"@,
            },
    {
        match self {
            InterpretatorError::InvalidInput(msg) => {
                let mut out = string_of("invalid interpretator input: ");
                out.append(msg.as_str());
                out
            },
            InterpretatorError::TypeError(msg) => {
                let mut out = string_of("interpretator type error: ");
                out.append(msg.as_str());
                out
            },
            InterpretatorError::FactError(err) => {
                let mut out = string_of("fact error: ");
                let text = err.to_string();
                out.append(text.as_str());
                proof {
                    reveal_strlit("fact error: ");
                    reveal_strlit("fact error: KeyError(");
                    reveal_strlit("KeyError(");
                    assert(out@ =~= "fact error: KeyError("@ + err->KeyError_0@ + ")"@);
                }
                out
            },
        }
    }
}

impl From<FactError> for InterpretatorError {
    fn from(value: FactError) -> (r: InterpretatorError)
        ensures
            r == InterpretatorError::FactError(value),
    {
        InterpretatorError::FactError(value)
    }
}

impl vstd::std_specs::convert::FromSpecImpl<FactError> for InterpretatorError {
    open spec fn obeys_from_spec() -> bool {
        true
    }

    open spec fn from_spec(v: FactError) -> InterpretatorError {
        InterpretatorError::FactError(v)
    }
}

/// An item of the input of an interpretator.
#[derive(Debug)]
pub enum InterpretatorInputItem {
    /// A token.
    Token(Token),
    /// The result of an earlier step.
    Result(InterpretationValue),
}

/// The input of an interpretator: tokens and results of earlier steps, and an optional key
/// that replaces the normalized value of a chain.
#[derive(Debug)]
pub struct InterpretatorInput {
    /// The items.
    pub items: Vec<InterpretatorInputItem>,
    /// The key of the chain built from tokens.
    pub key: Option<String>,
}

/// All items are tokens.
pub open spec fn all_tokens(items: Seq<InterpretatorInputItem>) -> bool {
    forall|i: int| 0 <= i < items.len() ==> #[trigger] items[i] is Token
}

/// The tokens of token items.
pub open spec fn item_tokens(items: Seq<InterpretatorInputItem>) -> Seq<Token> {
    items.map_values(|it: InterpretatorInputItem| it->Token_0)
}

/// The message of the error for an input mixing results with other items.
pub open spec fn mixed_input_message(n: nat) -> Seq<char> {
    "expected all tokens or a single interpretator item, got "@ + nat_digits(n) + " items"@
}

/// What an input prepares into: a single result as it is; tokens as one chain with the key
/// of the input; anything else is a `TypeError`.
pub open spec fn prepared_input(input: InterpretatorInput, r: Result<InterpretationValue, InterpretatorError>) -> bool {
    let items = input.items@;
    if items.len() == 1 && items[0] is Result {
        r == Ok::<InterpretationValue, InterpretatorError>(items[0]->Result_0)
    } else if all_tokens(items) {
        &&& r is Ok
        &&& r->Ok_0 is Chain
        &&& r->Ok_0->Chain_0.tokens@ == item_tokens(items)
        &&& r->Ok_0->Chain_0.key == input.key
    } else {
        &&& r is Err
        &&& r->Err_0 is TypeError
        &&& r->Err_0->TypeError_0@ == mixed_input_message(items.len())
    }
}

impl InterpretatorInput {
    /// An input of the given items.
    pub fn new(items: Vec<InterpretatorInputItem>, key: Option<String>) -> (r: InterpretatorInput)
        ensures
            r.items == items,
            r.key == key,
    {
        InterpretatorInput { items, key }
    }

    /// An input of tokens only.
    pub fn from_tokens(tokens: Vec<Token>, key: Option<String>) -> (r: InterpretatorInput)
        ensures
            all_tokens(r.items@),
            item_tokens(r.items@) == tokens@,
            r.key == key,
    {
        let mut items: Vec<InterpretatorInputItem> = Vec::new();
        let mut rest = tokens;
        let ghost all = rest@;
        while rest.len() > 0
            invariant
                all == items@.map_values(|it: InterpretatorInputItem| it->Token_0) + rest@,
                all_tokens(items@),
            decreases rest@.len(),
        {
            let t = rest.remove(0);
            let ghost before = items@;
            items.push(InterpretatorInputItem::Token(t));
            proof {
                assert(items@.map_values(|it: InterpretatorInputItem| it->Token_0) =~= before.map_values(|it: InterpretatorInputItem| it->Token_0).push(t));
                assert(all =~= items@.map_values(|it: InterpretatorInputItem| it->Token_0) + rest@);
            }
        }
        assert(all =~= item_tokens(items@));
        InterpretatorInput { items, key }
    }

    /// The value the input stands for: its single result, or a chain of its tokens with its
    /// key; a `TypeError` for results mixed with other items.
    #[verifier::loop_isolation(false)]
    pub fn single_result_or_chain(self) -> (r: Result<InterpretationValue, InterpretatorError>)
        ensures
            prepared_input(self, r),
    {
        let ghost input = self;
        let n = self.items.len();
        let mut items = self.items;
        if n == 1 {
            let item = items.remove(0);
            match item {
                InterpretatorInputItem::Result(result) => return Ok(result),
                InterpretatorInputItem::Token(token) => {
                    let mut tokens: Vec<Token> = Vec::new();
                    tokens.push(token);
                    proof {
                        assert(all_tokens(input.items@));
                        assert(tokens@ =~= item_tokens(input.items@));
                    }
                    return Ok(InterpretationValue::Chain(Chain::new(tokens, self.key)));
                },
            }
        }
        let mut tokens: Vec<Token> = Vec::new();
        let ghost all = input.items@;
        let mut consumed: usize = 0;
        while items.len() > 0
            invariant
                all == input.items@,
                consumed <= all.len(),
                items@ == all.skip(consumed as int),
                all_tokens(all.take(consumed as int)),
                tokens@ == item_tokens(all.take(consumed as int)),
                n == all.len(),
                n != 1,
            decreases items@.len(),
        {
            let item = items.remove(0);
            proof {
                assert(all.skip(consumed as int)[0] == item);
                assert(all.take(consumed + 1) =~= all.take(consumed as int).push(item));
                assert(items@ =~= all.skip(consumed + 1));
            }
            match item {
                InterpretatorInputItem::Token(token) => {
                    tokens.push(token);
                    proof {
                        assert(tokens@ =~= item_tokens(all.take(consumed + 1)));
                        assert(all_tokens(all.take(consumed + 1))) by {
                            assert forall|i: int| 0 <= i < consumed + 1 implies #[trigger] all.take(consumed + 1)[i] is Token by {
                                if i < consumed {
                                    assert(all.take(consumed as int)[i] is Token);
                                }
                            }
                        }
                    }
                    consumed += 1;
                },
                InterpretatorInputItem::Result(_) => {
                    let mut msg = string_of("expected all tokens or a single interpretator item, got ");
                    let count = usize_to_string(n);
                    msg.append(count.as_str());
                    msg.append(" items");
                    proof {
                        assert(!all_tokens(all)) by {
                            assert(all[consumed as int] == item);
                        }
                        reveal_strlit("expected all tokens or a single interpretator item, got ");
                        reveal_strlit(" items");
                        assert(msg@ =~= mixed_input_message(all.len()));
                        assert(!(all.len() == 1));
                    }
                    let e = InterpretatorError::TypeError(msg);
                    proof {
                        assert(e->TypeError_0@ == mixed_input_message(input.items@.len()));
                        assert(!all_tokens(input.items@));
                    }
                    return Err(e);
                },
            }
        }
        proof {
            assert(all.take(all.len() as int) =~= all);
            assert(all.skip(consumed as int).len() == 0);
        }
        Ok(InterpretationValue::Chain(Chain::new(tokens, self.key)))
    }
}

/// A user normalization step of the runtime pipeline.
pub trait CustomCall {
    /// The step accepts every input.
    spec fn total(&self) -> bool;

    /// What the step gives for an input.
    spec fn call_outcome(&self, input: InterpretationValue, r: Result<FactValue, InterpretatorError>) -> bool;

    /// Runs the step.
    fn call_value(&self, input: &InterpretationValue) -> (r: Result<FactValue, InterpretatorError>)
        requires
            self.total(),
        ensures
            self.call_outcome(*input, r),
    ;
}

impl CustomCall for KeepValue {
    open spec fn total(&self) -> bool {
        true
    }

    open spec fn call_outcome(&self, input: InterpretationValue, r: Result<FactValue, InterpretatorError>) -> bool {
        r is Ok && r->Ok_0@ == value_json(input)
    }

    fn call_value(&self, input: &InterpretationValue) -> (r: Result<FactValue, InterpretatorError>) {
        Ok(input.normalized_value())
    }
}

impl<F, O> CustomCall for FunctionNormalizer<F> where F: Fn(FactValue) -> O, FactValue: From<O> {
    open spec fn total(&self) -> bool {
        forall|v: FactValue| call_requires(self.function, (v,))
    }

    open spec fn call_outcome(&self, input: InterpretationValue, r: Result<FactValue, InterpretatorError>) -> bool {
        &&& r is Ok
        &&& exists|v: FactValue, o: O|
            v@ == value_json(input) && call_ensures(self.function, (v,), o) && call_ensures(FactValue::from, (o,), r->Ok_0)
    }

    fn call_value(&self, input: &InterpretationValue) -> (r: Result<FactValue, InterpretatorError>) {
        let v = input.normalized_value();
        let o = (self.function)(v);
        Ok(FactValue::from(o))
    }
}

impl<F, G, O1, O2> CustomCall for FunctionFunctionNormalizer<F, G> where
    F: Fn(FactValue) -> O1,
    G: Fn(O1) -> O2,
    FactValue: From<O2>,
 {
    open spec fn total(&self) -> bool {
        &&& forall|v: FactValue| call_requires(self.first, (v,))
        &&& forall|x: O1| call_requires(self.second, (x,))
    }

    open spec fn call_outcome(&self, input: InterpretationValue, r: Result<FactValue, InterpretatorError>) -> bool {
        &&& r is Ok
        &&& exists|v: FactValue, x: O1, o: O2|
            v@ == value_json(input) && call_ensures(self.first, (v,), x) && call_ensures(self.second, (x,), o)
                && call_ensures(FactValue::from, (o,), r->Ok_0)
    }

    fn call_value(&self, input: &InterpretationValue) -> (r: Result<FactValue, InterpretatorError>) {
        let v = input.normalized_value();
        let x = (self.first)(v);
        let o = (self.second)(x);
        Ok(FactValue::from(o))
    }
}

impl<M, F, O> CustomCall for MorphFunctionNormalizer<M, F> where
    M: MorphCall,
    F: Fn(String) -> O,
    FactValue: From<O>,
 {
    open spec fn total(&self) -> bool {
        forall|s: String| call_requires(self.function, (s,))
    }

    open spec fn call_outcome(&self, input: InterpretationValue, r: Result<FactValue, InterpretatorError>) -> bool {
        match input {
            InterpretationValue::Chain(c) => {
                &&& r is Ok
                &&& exists|s: String, o: O|
                    s@ == self.morph.morph_text(c) && call_ensures(self.function, (s,), o)
                        && call_ensures(FactValue::from, (o,), r->Ok_0)
            },
            _ => r is Err && r->Err_0 is TypeError && r->Err_0->TypeError_0@ == "morph normalizer expects token chain"@,
        }
    }

    fn call_value(&self, input: &InterpretationValue) -> (r: Result<FactValue, InterpretatorError>) {
        match input {
            InterpretationValue::Chain(chain) => {
                let text = self.morph.call(chain);
                let o = (self.function)(text);
                Ok(FactValue::from(o))
            },
            _ => Err(InterpretatorError::TypeError(string_of("morph normalizer expects token chain"))),
        }
    }
}

/// A normalizer of the runtime pipeline, with its label.
#[derive(Debug)]
pub enum NormalizerCallable<C = KeepValue> {
    /// A constant, whatever the input.
    Const {
        /// The constant.
        value: FactValue,
        /// The label.
        label: String,
    },
    /// `normalized()` of a token chain.
    Normalized {
        /// The label.
        label: String,
    },
    /// `inflected(...)` of a token chain.
    Inflected {
        /// The normalizer.
        normalizer: InflectedNormalizer,
        /// The label.
        label: String,
    },
    /// A user normalizer.
    Custom {
        /// The user step.
        call: C,
        /// The label.
        label: String,
    },
}

/// What a normalizer gives for an input value.
pub open spec fn callable_outcome<C: CustomCall>(
    n: NormalizerCallable<C>,
    input: InterpretationValue,
    r: Result<FactValue, InterpretatorError>,
) -> bool {
    match n {
        NormalizerCallable::Const { value, .. } => r is Ok && r->Ok_0@ == value@,
        NormalizerCallable::Normalized { .. } => match input {
            InterpretationValue::Chain(c) => r is Ok && r->Ok_0@ == FactVal::Str(spec_normalized_text(c)),
            _ => r is Err && r->Err_0 is TypeError && r->Err_0->TypeError_0@ == "normalized() expects token chain"@,
        },
        NormalizerCallable::Inflected { .. } => match input {
            InterpretationValue::Chain(c) => r is Ok && r->Ok_0@ == FactVal::Str(spec_join_normalized(c.tokens@)),
            _ => r is Err && r->Err_0 is TypeError && r->Err_0->TypeError_0@ == "inflected() expects token chain"@,
        },
        NormalizerCallable::Custom { call, .. } => call.call_outcome(input, r),
    }
}

/// What a normalizer gives for an input: a constant ignores it; the others normalize the
/// value it prepares into and keep that value for its spans.
pub open spec fn normalizer_outcome<C: CustomCall>(
    n: NormalizerCallable<C>,
    input: InterpretatorInput,
    r: Result<NormalizerResult, InterpretatorError>,
) -> bool {
    match n {
        NormalizerCallable::Const { value, .. } => {
            &&& r is Ok
            &&& r->Ok_0.value is Value
            &&& r->Ok_0.value->Value_0@ == value@
            &&& r->Ok_0.input is None
        },
        _ => exists|p: Result<InterpretationValue, InterpretatorError>| {
            &&& prepared_input(input, p)
            &&& p is Err ==> r == Err::<NormalizerResult, InterpretatorError>(p->Err_0)
            &&& p is Ok ==> exists|c: Result<FactValue, InterpretatorError>| {
                &&& callable_outcome(n, p->Ok_0, c)
                &&& c is Err ==> r == Err::<NormalizerResult, InterpretatorError>(c->Err_0)
                &&& c is Ok ==> {
                    &&& r is Ok
                    &&& r->Ok_0.value == NormalizerResultValue::Value(c->Ok_0)
                    &&& r->Ok_0.input == Some(Box::new(p->Ok_0))
                }
            }
        },
    }
}

/// What a normalizer gives for an input value when an analyzer is at hand: as
/// [`callable_outcome`], except that `inflected(...)` inflects the tokens of a chain (see
/// [`inflected_chain_text`]).
pub open spec fn callable_outcome_with<C: CustomCall>(
    n: NormalizerCallable<C>,
    input: InterpretationValue,
    r: Result<FactValue, InterpretatorError>,
) -> bool {
    match n {
        NormalizerCallable::Inflected { normalizer, .. } => match input {
            InterpretationValue::Chain(c) => r is Ok && r->Ok_0 is Str && inflected_chain_text(normalizer, c, r->Ok_0->Str_0@),
            _ => r is Err && r->Err_0 is TypeError && r->Err_0->TypeError_0@ == "inflected() expects token chain"@,
        },
        _ => callable_outcome(n, input, r),
    }
}

/// What a normalizer gives for an input when an analyzer is at hand: as
/// [`normalizer_outcome`], with [`callable_outcome_with`] for the value.
pub open spec fn normalizer_outcome_with<C: CustomCall>(
    n: NormalizerCallable<C>,
    input: InterpretatorInput,
    r: Result<NormalizerResult, InterpretatorError>,
) -> bool {
    match n {
        NormalizerCallable::Const { value, .. } => {
            &&& r is Ok
            &&& r->Ok_0.value is Value
            &&& r->Ok_0.value->Value_0@ == value@
            &&& r->Ok_0.input is None
        },
        _ => exists|p: Result<InterpretationValue, InterpretatorError>| {
            &&& prepared_input(input, p)
            &&& p is Err ==> r == Err::<NormalizerResult, InterpretatorError>(p->Err_0)
            &&& p is Ok ==> exists|c: Result<FactValue, InterpretatorError>| {
                &&& callable_outcome_with(n, p->Ok_0, c)
                &&& c is Err ==> r == Err::<NormalizerResult, InterpretatorError>(c->Err_0)
                &&& c is Ok ==> {
                    &&& r is Ok
                    &&& r->Ok_0.value == NormalizerResultValue::Value(c->Ok_0)
                    &&& r->Ok_0.input == Some(Box::new(p->Ok_0))
                }
            }
        },
    }
}

impl<C: CustomCall> NormalizerCallable<C> {
    /// The user step accepts every input.
    pub open spec fn total(&self) -> bool {
        match self {
            NormalizerCallable::Custom { call, .. } => call.total(),
            _ => true,
        }
    }

    /// The label of the normalizer.
    pub fn label(&self) -> (r: &str)
        ensures
            r@ == match self {
                NormalizerCallable::Const { label, .. } => label@,
                NormalizerCallable::Normalized { label } => label@,
                NormalizerCallable::Inflected { label, .. } => label@,
                NormalizerCallable::Custom { label, .. } => label@,
            },
    {
        match self {
            NormalizerCallable::Const { label, .. } => label.as_str(),
            NormalizerCallable::Normalized { label } => label.as_str(),
            NormalizerCallable::Inflected { label, .. } => label.as_str(),
            NormalizerCallable::Custom { label, .. } => label.as_str(),
        }
    }

    /// The normalized value of an input value: the constant; the normalized or inflected text
    /// of a token chain (a `TypeError` for another value); or what the user step gives.
    pub fn call(&self, input: &InterpretationValue) -> (r: Result<FactValue, InterpretatorError>)
        requires
            self.total(),
        ensures
            callable_outcome(*self, *input, r),
    {
        match self {
            NormalizerCallable::Const { value, .. } => Ok(value.clone_value()),
            NormalizerCallable::Normalized { .. } => match input {
                InterpretationValue::Chain(chain) => Ok(FactValue::Str(NormalizedNormalizer.call(chain))),
                _ => Err(InterpretatorError::TypeError(string_of("normalized() expects token chain"))),
            },
            NormalizerCallable::Inflected { normalizer, .. } => match input {
                InterpretationValue::Chain(chain) => Ok(FactValue::Str(normalizer.call(chain))),
                _ => Err(InterpretatorError::TypeError(string_of("inflected() expects token chain"))),
            },
            NormalizerCallable::Custom { call, .. } => call.call_value(input),
        }
    }

    /// The normalized value of an input value with the analyzer at hand: as
    /// [`NormalizerCallable::call`], except that `inflected(...)` inflects the tokens of a chain.
    pub fn call_with(&self, input: &InterpretationValue, analyzer: &crate::morph::form::CheckedAnalyzer) -> (r: Result<FactValue, InterpretatorError>)
        requires
            self.total(),
        ensures
            callable_outcome_with(*self, *input, r),
    {
        match self {
            NormalizerCallable::Inflected { normalizer, .. } => match input {
                InterpretationValue::Chain(chain) => Ok(FactValue::Str(normalizer.call_with(chain, analyzer))),
                _ => Err(InterpretatorError::TypeError(string_of("inflected() expects token chain"))),
            },
            _ => self.call(input),
        }
    }

    /// The result of the normalizer on an input with the analyzer at hand (see
    /// [`NormalizerCallable::call_with`]).
    pub fn call_result_with(&self, input: InterpretatorInput, analyzer: &crate::morph::form::CheckedAnalyzer) -> (r: Result<NormalizerResult, InterpretatorError>)
        requires
            self.total(),
        ensures
            normalizer_outcome_with(*self, input, r),
    {
        match self {
            NormalizerCallable::Const { value, .. } => Ok(NormalizerResult::from_value(value.clone_value())),
            _ => {
                let ghost g_input = input;
                let prepared = input.single_result_or_chain();
                match prepared {
                    Err(e) => {
                        proof {
                            assert(prepared_input(g_input, Err::<InterpretationValue, InterpretatorError>(e)));
                        }
                        Err(e)
                    },
                    Ok(value) => {
                        let ghost g_value = value;
                        let c = self.call_with(&value, analyzer);
                        proof {
                            assert(prepared_input(g_input, Ok::<InterpretationValue, InterpretatorError>(g_value)));
                            assert(callable_outcome_with(*self, g_value, c));
                        }
                        match c {
                            Err(e) => Err(e),
                            Ok(v) => Ok(NormalizerResult::from_value(v).with_input(value)),
                        }
                    },
                }
            },
        }
    }

    /// The result of the normalizer on an input.
    pub fn call_result(&self, input: InterpretatorInput) -> (r: Result<NormalizerResult, InterpretatorError>)
        requires
            self.total(),
        ensures
            normalizer_outcome(*self, input, r),
    {
        match self {
            NormalizerCallable::Const { value, .. } => Ok(NormalizerResult::from_value(value.clone_value())),
            _ => {
                let ghost g_input = input;
                let prepared = input.single_result_or_chain();
                match prepared {
                    Err(e) => {
                        proof {
                            assert(prepared_input(g_input, Err::<InterpretationValue, InterpretatorError>(e)));
                        }
                        Err(e)
                    },
                    Ok(value) => {
                        let ghost g_value = value;
                        let c = self.call(&value);
                        proof {
                            assert(prepared_input(g_input, Ok::<InterpretationValue, InterpretatorError>(g_value)));
                            assert(callable_outcome(*self, g_value, c));
                        }
                        match c {
                            Err(e) => Err(e),
                            Ok(v) => Ok(NormalizerResult::from_value(v).with_input(value)),
                        }
                    },
                }
            },
        }
    }
}

impl NormalizerCallable<KeepValue> {
    /// `const(value)` with its label.
    pub fn from_const<T: std::fmt::Debug>(normalizer: ConstNormalizer<T>) -> (r: NormalizerCallable<KeepValue>) where FactValue: From<T>
        ensures
            r is Const,
            call_ensures(FactValue::from, (normalizer.value,), r->Const_value),
            exists|text: Seq<char>| r->Const_label@ == "const("@ + text + ")"@,
    {
        let label = normalizer.label();
        NormalizerCallable::Const { value: FactValue::from(normalizer.value), label }
    }
}

impl<C> NormalizerCallable<C> {
    /// `normalized()` with its label.
    pub fn normalized() -> (r: NormalizerCallable<C>)
        ensures
            r is Normalized,
            r->Normalized_label@ == "normalized()"@,
    {
        NormalizerCallable::Normalized { label: string_of(NormalizedNormalizer.label()) }
    }

    /// `inflected(...)` with its label.
    pub fn inflected(normalizer: InflectedNormalizer) -> (r: NormalizerCallable<C>)
        ensures
            r is Inflected,
            r->Inflected_normalizer == normalizer,
            r->Inflected_label@ == super::normalizer::spec_inflected_label(super::normalizer::grams_model(normalizer.grams)),
    {
        let label = normalizer.label();
        NormalizerCallable::Inflected { normalizer, label }
    }

    /// A constant with the label `const(...)` of a constant normalizer.
    pub fn constant<T: std::fmt::Debug>(normalizer: ConstNormalizer<T>) -> (r: NormalizerCallable<C>) where FactValue: From<T>
        ensures
            r is Const,
            call_ensures(FactValue::from, (normalizer.value,), r->Const_value),
            exists|text: Seq<char>| r->Const_label@ == "const("@ + text + ")"@,
    {
        let label = normalizer.label();
        NormalizerCallable::Const { value: FactValue::from(normalizer.value), label }
    }
}

impl<F> NormalizerCallable<FunctionNormalizer<F>> {
    /// `custom(function)`, labelled for a function whose type is named `function_type`.
    pub fn from_function(normalizer: FunctionNormalizer<F>, function_type: &str) -> (r: NormalizerCallable<FunctionNormalizer<F>>)
        ensures
            r is Custom,
            r->Custom_call == normalizer,
            r->Custom_label@ == super::normalizer::custom_label(function_type@),
    {
        let label = normalizer.label(function_type);
        NormalizerCallable::Custom { call: normalizer, label }
    }
}

impl<F, G> NormalizerCallable<FunctionFunctionNormalizer<F, G>> {
    /// `custom(first).custom(second)`, labelled for functions whose types are named
    /// `first_type` and `second_type`.
    pub fn from_function_function(normalizer: FunctionFunctionNormalizer<F, G>, first_type: &str, second_type: &str) -> (r: NormalizerCallable<FunctionFunctionNormalizer<F, G>>)
        ensures
            r is Custom,
            r->Custom_call == normalizer,
            r->Custom_label@ == super::normalizer::custom_label(first_type@) + "."@ + super::normalizer::custom_label(second_type@),
    {
        let label = normalizer.label(first_type, second_type);
        NormalizerCallable::Custom { call: normalizer, label }
    }
}

impl<M: MorphCall, F> NormalizerCallable<MorphFunctionNormalizer<M, F>> {
    /// `{morph}.{function}`, labelled for a function whose type is named `function_type`.
    pub fn from_morph_function(normalizer: MorphFunctionNormalizer<M, F>, function_type: &str) -> (r: NormalizerCallable<MorphFunctionNormalizer<M, F>>)
        ensures
            r is Custom,
            r->Custom_call == normalizer,
            r->Custom_label@ == normalizer.morph.morph_label() + "."@ + crate::text::callable_label(function_type@),
    {
        let label = normalizer.label(function_type);
        NormalizerCallable::Custom { call: normalizer, label }
    }
}

impl<C> From<NormalizedNormalizer> for NormalizerCallable<C> {
    fn from(normalizer: NormalizedNormalizer) -> (r: NormalizerCallable<C>)
        ensures
            r is Normalized,
            r->Normalized_label@ == "normalized()"@,
    {
        NormalizerCallable::normalized()
    }
}

impl<C> vstd::std_specs::convert::FromSpecImpl<NormalizedNormalizer> for NormalizerCallable<C> {
    /// A spec function cannot build the strings and vectors of the result; the ensures of
    /// `from` state it.
    open spec fn obeys_from_spec() -> bool {
        false
    }

    open spec fn from_spec(v: NormalizedNormalizer) -> NormalizerCallable<C> {
        arbitrary()
    }
}

impl<C> From<InflectedNormalizer> for NormalizerCallable<C> {
    fn from(normalizer: InflectedNormalizer) -> (r: NormalizerCallable<C>)
        ensures
            r is Inflected,
            r->Inflected_label@ == super::normalizer::spec_inflected_label(super::normalizer::grams_model(normalizer.grams)),
    {
        NormalizerCallable::inflected(normalizer)
    }
}

impl<C> vstd::std_specs::convert::FromSpecImpl<InflectedNormalizer> for NormalizerCallable<C> {
    /// A spec function cannot build the strings and vectors of the result; the ensures of
    /// `from` state it.
    open spec fn obeys_from_spec() -> bool {
        false
    }

    open spec fn from_spec(v: InflectedNormalizer) -> NormalizerCallable<C> {
        arbitrary()
    }
}

impl<C, T: std::fmt::Debug> From<ConstNormalizer<T>> for NormalizerCallable<C> where FactValue: From<T> {
    fn from(normalizer: ConstNormalizer<T>) -> (r: NormalizerCallable<C>)
        ensures
            r is Const,
            call_ensures(FactValue::from, (normalizer.value,), r->Const_value),
            exists|text: Seq<char>| r->Const_label@ == "const("@ + text + ")"@,
    {
        NormalizerCallable::constant(normalizer)
    }
}

impl<C, T: std::fmt::Debug> vstd::std_specs::convert::FromSpecImpl<ConstNormalizer<T>> for NormalizerCallable<C> where FactValue: From<T> {
    /// A spec function cannot build the strings and vectors of the result; the ensures of
    /// `from` state it.
    open spec fn obeys_from_spec() -> bool {
        false
    }

    open spec fn from_spec(v: ConstNormalizer<T>) -> NormalizerCallable<C> {
        arbitrary()
    }
}

/// One step of a fact interpretator over an item: an attribute result of a fact in the
/// lineage sets its attribute; a runtime fact of a subclass is merged; anything else leaves
/// the fact unchanged.
pub open spec fn fact_step(
    scheme: FactScheme,
    before: InterpretatorFact,
    after: InterpretatorFact,
    item: InterpretatorInputItem,
) -> bool {
    match item {
        InterpretatorInputItem::Result(InterpretationValue::AttributeResult(a)) => match a.attribute {
            Some(attr) => if scheme.lineage_set().contains(attr.base.fact.name@) {
                set_result(before, after, attr.base.name@, *a.value, Ok(()))
            } else {
                after == before
            },
            None => after == before,
        },
        InterpretatorInputItem::Result(InterpretationValue::FactResult(res)) => match res.runtime_fact {
            Some(inner) => if inner.scheme.lineage_set().contains(scheme.name@) {
                merge_result(before, after, *inner)
            } else {
                after == before
            },
            None => after == before,
        },
        _ => after == before,
    }
}

/// A runtime fact of `scheme` with nothing set.
pub open spec fn fresh_fact(f: InterpretatorFact, scheme: FactScheme) -> bool {
    &&& f.wf()
    &&& same_scheme(f.scheme, scheme)
    &&& f.modified@.len() == 0
    &&& forall|i: int| 0 <= i < f.values@.len() ==> match #[trigger] f.values@[i] {
        RuntimeAttributeValue::Repeatable(items) => items@.len() == 0,
        RuntimeAttributeValue::Plain(x) => x is None,
        RuntimeAttributeValue::Result(_) => false,
    }
}

/// The runtime facts held by the items are well formed.
pub open spec fn nested_facts_wf(items: Seq<InterpretatorInputItem>) -> bool {
    forall|i: int| 0 <= i < items.len() ==> match #[trigger] items[i] {
        InterpretatorInputItem::Result(InterpretationValue::FactResult(res)) => match res.runtime_fact {
            Some(f) => f.wf(),
            None => true,
        },
        _ => true,
    }
}

/// What a fact interpretator gives for an input: when no item is refused (see
/// [`key_error_item`]), a runtime fact built from a fresh one by one [`fact_step`] per item;
/// otherwise the `KeyError` of the first refused item.
pub open spec fn fact_call_outcome(scheme: FactScheme, input: InterpretatorInput, r: Result<InterpretationValue, InterpretatorError>) -> bool {
    let items = input.items@;
    match r {
        Ok(v) => {
            &&& v is FactResult
            &&& v->FactResult_0.as_json is None
            &&& v->FactResult_0.spans@.len() == 0
            &&& v->FactResult_0.runtime_fact is Some
            &&& forall|k: int| 0 <= k < items.len() ==> !key_error_item(scheme, #[trigger] items[k])
            &&& exists|states: Seq<InterpretatorFact>| {
                &&& states.len() == items.len() + 1
                &&& fresh_fact(states[0], scheme)
                &&& forall|k: int| 0 <= k < items.len() ==> fact_step(scheme, #[trigger] states[k], states[k + 1], items[k])
                &&& *v->FactResult_0.runtime_fact->0 == states[items.len() as int]
            }
        },
        Err(e) => {
            &&& e is FactError
            &&& exists|k: int| {
                &&& 0 <= k < items.len()
                &&& #[trigger] key_error_item(scheme, items[k])
                &&& item_attribute_name(items[k]) == e->FactError_0->KeyError_0@
                &&& forall|j: int| 0 <= j < k ==> !key_error_item(scheme, #[trigger] items[j])
            }
        },
    }
}

/// The item is an attribute result of a fact in the lineage whose attribute name is no
/// attribute of the scheme: the item a fact interpretator refuses.
pub open spec fn key_error_item(scheme: FactScheme, item: InterpretatorInputItem) -> bool {
    &&& item matches InterpretatorInputItem::Result(InterpretationValue::AttributeResult(a))
    &&& a.attribute matches Some(attr)
    &&& scheme.lineage_set().contains(attr.base.fact.name@)
    &&& !scheme.names().contains(attr.base.name@)
}

/// The attribute name carried by an attribute result with an attribute.
pub open spec fn item_attribute_name(item: InterpretatorInputItem) -> Seq<char> {
    match item {
        InterpretatorInputItem::Result(InterpretationValue::AttributeResult(a)) => match a.attribute {
            Some(attr) => attr.base.name@,
            None => Seq::empty(),
        },
        _ => Seq::empty(),
    }
}

/// Applies one item to the fact being built; see [`fact_step`].
fn apply_item(scheme: &FactScheme, fact: &mut InterpretatorFact, item: InterpretatorInputItem) -> (r: Result<(), FactError>)
    requires
        old(fact).wf(),
        old(fact).scheme.names() == scheme.names(),
        match item {
            InterpretatorInputItem::Result(InterpretationValue::FactResult(res)) => match res.runtime_fact {
                Some(f) => f.wf(),
                None => true,
            },
            _ => true,
        },
    ensures
        final(fact).wf(),
        final(fact).scheme.names() == scheme.names(),
        r is Ok ==> fact_step(*scheme, *old(fact), *final(fact), item),
        r is Ok <==> !key_error_item(*scheme, item),
        r is Err ==> item_attribute_name(item) == r->Err_0->KeyError_0@,
{
    let ghost g_item = item;
    match item {
        InterpretatorInputItem::Result(InterpretationValue::AttributeResult(result)) => {
            let AttributeResult { value, attribute } = result;
            match attribute {
                Some(attribute) => {
                    let in_lineage = contains_string(&scheme.lineage, attribute.fact().name());
                    proof {
                        let sv = string_views(scheme.lineage@);
                        assert(sv.contains(attribute.base.fact.name@) == sv.to_set().contains(attribute.base.fact.name@));
                    }
                    if in_lineage {
                        let r = fact.set(attribute.name(), *value);
                        proof {
                            crate::internal::fact_schema::lemma_first_index(old(fact).scheme.names(), attribute.base.name@);
                        }
                        r
                    } else {
                        Ok(())
                    }
                },
                None => Ok(()),
            }
        },
        InterpretatorInputItem::Result(InterpretationValue::FactResult(result)) => {
            match result.into_runtime_fact() {
                Some(inner) => {
                    if inner.scheme().is_subclass_of(scheme) {
                        fact.merge(&inner);
                    }
                    Ok(())
                },
                None => Ok(()),
            }
        },
        _ => Ok(()),
    }
}

/// An interpretator that builds a fact from the results of its parts.
#[derive(Debug)]
pub struct FactInterpretator {
    /// The scheme of the fact.
    pub fact: FactScheme,
}

impl FactInterpretator {
    /// The interpretator of a fact scheme.
    pub fn new(fact: FactScheme) -> (r: FactInterpretator)
        ensures
            r.fact == fact,
    {
        FactInterpretator { fact }
    }

    /// Builds the runtime fact: attribute results of facts in the lineage set their
    /// attributes, runtime facts of subclasses are merged, other items are ignored.
    pub fn call(&self, input: InterpretatorInput) -> (r: Result<InterpretationValue, InterpretatorError>)
        requires
            self.fact.wf(),
            nested_facts_wf(input.items@),
        ensures
            fact_call_outcome(self.fact, input, r),
    {
        let ghost all = input.items@;
        proof { vstd::std_specs::vec::axiom_spec_len(&input.items); }
        let copy = self.fact.copy();
        proof { crate::internal::fact_schema::lemma_same_scheme_wf(copy, self.fact); }
        let mut fact = InterpretatorFact::new(copy);
        let ghost mut states: Seq<InterpretatorFact> = seq![fact];
        let mut items = input.items;
        let mut k: usize = 0;
        while items.len() > 0
            invariant
                all == input.items@,
                all.len() <= usize::MAX,
                k <= all.len(),
                items@ == all.skip(k as int),
                nested_facts_wf(all),
                self.fact.wf(),
                fact.wf(),
                fact.scheme.names() == self.fact.names(),
                states.len() == k + 1,
                fresh_fact(states[0], self.fact),
                forall|j: int| 0 <= j < k ==> fact_step(self.fact, #[trigger] states[j], states[j + 1], all[j]),
                forall|j: int| 0 <= j < k ==> !key_error_item(self.fact, #[trigger] all[j]),
                states[k as int] == fact,
            decreases items@.len(),
        {
            let item = items.remove(0);
            proof {
                assert(all.skip(k as int)[0] == item);
                assert(all[k as int] == item);
                assert(items@ =~= all.skip(k + 1));
            }
            match apply_item(&self.fact, &mut fact, item) {
                Ok(()) => {},
                Err(e) => {
                    return Err(InterpretatorError::FactError(e));
                },
            }
            proof {
                states = states.push(fact);
            }
            k += 1;
        }
        proof {
            assert(k == all.len()) by {
                assert(all.skip(k as int).len() == 0);
            }
        }
        Ok(InterpretationValue::FactResult(FactResult::from_runtime_fact(fact)))
    }

    /// The label: the name of the fact.
    pub fn label(&self) -> (r: String)
        ensures
            r@ == self.fact.name@,
    {
        self.fact.name.clone()
    }
}

/// `a` holds the same texts and values as `b`.
pub open spec fn same_attribute_texts(a: Attribute, b: Attribute) -> bool {
    &&& a.base.fact.name@ == b.base.fact.name@
    &&& string_views(a.base.fact.lineage@) == string_views(b.base.fact.lineage@)
    &&& a.base.name@ == b.base.name@
    &&& super::attribute::opt_model(a.default) == super::attribute::opt_model(b.default)
}

/// The value kept by an attribute: the value of an attribute result, any other value as it is.
pub open spec fn attribute_payload(v: InterpretationValue) -> InterpretationValue {
    match v {
        InterpretationValue::AttributeResult(a) => *a.value,
        _ => v,
    }
}

/// What an attribute interpretator gives for an input: the value the input prepares into,
/// as the result of the attribute.
pub open spec fn attribute_call_outcome(attribute: Attribute, input: InterpretatorInput, r: Result<InterpretationValue, InterpretatorError>) -> bool {
    exists|p: Result<InterpretationValue, InterpretatorError>| {
        &&& prepared_input(input, p)
        &&& p is Err ==> r == Err::<InterpretationValue, InterpretatorError>(p->Err_0)
        &&& p is Ok ==> {
            &&& r is Ok
            &&& r->Ok_0 is AttributeResult
            &&& *r->Ok_0->AttributeResult_0.value == attribute_payload(p->Ok_0)
            &&& r->Ok_0->AttributeResult_0.attribute is Some
            &&& same_attribute_texts(r->Ok_0->AttributeResult_0.attribute->0, attribute)
        }
    }
}

/// An interpretator that assigns a value to an attribute.
#[derive(Debug)]
pub struct AttributeInterpretator {
    /// The attribute.
    pub attribute: Attribute,
}

impl AttributeInterpretator {
    /// The interpretator of an attribute.
    pub fn new(attribute: Attribute) -> (r: AttributeInterpretator)
        ensures
            r.attribute == attribute,
    {
        AttributeInterpretator { attribute }
    }

    /// The value the input prepares into (the inner value of an attribute result), as the
    /// result of this attribute.
    pub fn call(&self, input: InterpretatorInput) -> (r: Result<InterpretationValue, InterpretatorError>)
        ensures
            attribute_call_outcome(self.attribute, input, r),
    {
        let ghost g_input = input;
        let prepared = input.single_result_or_chain();
        proof {
            assert(prepared_input(g_input, prepared));
        }
        match prepared {
            Err(e) => Err(e),
            Ok(value) => {
                let value = match value {
                    InterpretationValue::AttributeResult(result) => *result.value,
                    other => other,
                };
                Ok(InterpretationValue::AttributeResult(AttributeResult::new(value).with_attribute(self.attribute.copy())))
            },
        }
    }

    /// The label `Fact.field`.
    pub fn label(&self) -> (r: String)
        ensures
            r@ == super::attribute::spec_label(self.attribute.base.fact.name@, self.attribute.base.name@),
    {
        self.attribute.label()
    }
}

/// What a normalizer interpretator gives: the normalizer's result.
pub open spec fn normalizer_call_outcome<C: CustomCall>(
    n: NormalizerCallable<C>,
    input: InterpretatorInput,
    r: Result<InterpretationValue, InterpretatorError>,
) -> bool {
    match r {
        Ok(v) => v is NormalizerResult && normalizer_outcome(n, input, Ok(v->NormalizerResult_0)),
        Err(e) => normalizer_outcome(n, input, Err(e)),
    }
}

/// An interpretator that applies a normalizer.
#[derive(Debug)]
pub struct NormalizerInterpretator<C = KeepValue> {
    /// The normalizer.
    pub normalizer: NormalizerCallable<C>,
}

impl<C: CustomCall> NormalizerInterpretator<C> {
    /// The interpretator of a normalizer.
    pub fn new(normalizer: NormalizerCallable<C>) -> (r: NormalizerInterpretator<C>)
        ensures
            r.normalizer == normalizer,
    {
        NormalizerInterpretator { normalizer }
    }

    /// The result of the normalizer on the input.
    pub fn call(&self, input: InterpretatorInput) -> (r: Result<InterpretationValue, InterpretatorError>)
        requires
            self.normalizer.total(),
        ensures
            normalizer_call_outcome(self.normalizer, input, r),
    {
        match self.normalizer.call_result(input) {
            Ok(result) => Ok(InterpretationValue::NormalizerResult(result)),
            Err(e) => Err(e),
        }
    }

    /// The result of the normalizer on the input with the analyzer at hand (see
    /// [`NormalizerCallable::call_result_with`]).
    pub fn call_with(&self, input: InterpretatorInput, analyzer: &crate::morph::form::CheckedAnalyzer) -> (r: Result<InterpretationValue, InterpretatorError>)
        requires
            self.normalizer.total(),
        ensures
            match r {
                Ok(v) => v is NormalizerResult && normalizer_outcome_with(self.normalizer, input, Ok(v->NormalizerResult_0)),
                Err(e) => normalizer_outcome_with(self.normalizer, input, Err(e)),
            },
    {
        match self.normalizer.call_result_with(input, analyzer) {
            Ok(result) => Ok(InterpretationValue::NormalizerResult(result)),
            Err(e) => Err(e),
        }
    }

    /// The label of the normalizer.
    pub fn label(&self) -> (r: String)
        ensures
            r@ == self.normalizer.label_model(),
    {
        string_of(self.normalizer.label())
    }
}

impl<C> NormalizerCallable<C> {
    /// The label, as a model.
    pub open spec fn label_model(&self) -> Seq<char> {
        match self {
            NormalizerCallable::Const { label, .. } => label@,
            NormalizerCallable::Normalized { label } => label@,
            NormalizerCallable::Inflected { label, .. } => label@,
            NormalizerCallable::Custom { label, .. } => label@,
        }
    }
}

/// What an attribute-and-normalizer interpretator gives: the normalizer's result, as the
/// result of the attribute.
pub open spec fn attribute_normalizer_call_outcome<C: CustomCall>(
    attribute: Attribute,
    n: NormalizerCallable<C>,
    input: InterpretatorInput,
    r: Result<InterpretationValue, InterpretatorError>,
) -> bool {
    match r {
        Ok(v) => {
            &&& v is AttributeResult
            &&& *v->AttributeResult_0.value is NormalizerResult
            &&& normalizer_outcome(n, input, Ok((*v->AttributeResult_0.value)->NormalizerResult_0))
            &&& v->AttributeResult_0.attribute is Some
            &&& same_attribute_texts(v->AttributeResult_0.attribute->0, attribute)
        },
        Err(e) => normalizer_outcome(n, input, Err(e)),
    }
}

/// An interpretator that normalizes the value of an attribute.
#[derive(Debug)]
pub struct AttributeNormalizerInterpretator<C = KeepValue> {
    /// The attribute.
    pub attribute: Attribute,
    /// The normalizer.
    pub normalizer: NormalizerCallable<C>,
}

impl<C: CustomCall> AttributeNormalizerInterpretator<C> {
    /// The interpretator of an attribute with a normalizer.
    pub fn new(attribute: Attribute, normalizer: NormalizerCallable<C>) -> (r: AttributeNormalizerInterpretator<C>)
        ensures
            r.attribute == attribute,
            r.normalizer == normalizer,
    {
        AttributeNormalizerInterpretator { attribute, normalizer }
    }

    /// The normalizer's result, as the result of the attribute.
    pub fn call(&self, input: InterpretatorInput) -> (r: Result<InterpretationValue, InterpretatorError>)
        requires
            self.normalizer.total(),
        ensures
            attribute_normalizer_call_outcome(self.attribute, self.normalizer, input, r),
    {
        match self.normalizer.call_result(input) {
            Ok(result) => {
                let value = InterpretationValue::NormalizerResult(result);
                Ok(InterpretationValue::AttributeResult(AttributeResult::new(value).with_attribute(self.attribute.copy())))
            },
            Err(e) => Err(e),
        }
    }

    /// The normalizer's result with the analyzer at hand (see
    /// [`NormalizerCallable::call_result_with`]), as the result of the attribute.
    pub fn call_with(&self, input: InterpretatorInput, analyzer: &crate::morph::form::CheckedAnalyzer) -> (r: Result<InterpretationValue, InterpretatorError>)
        requires
            self.normalizer.total(),
        ensures
            match r {
                Ok(v) => {
                    &&& v is AttributeResult
                    &&& *v->AttributeResult_0.value is NormalizerResult
                    &&& normalizer_outcome_with(self.normalizer, input, Ok((*v->AttributeResult_0.value)->NormalizerResult_0))
                    &&& v->AttributeResult_0.attribute is Some
                    &&& same_attribute_texts(v->AttributeResult_0.attribute->0, self.attribute)
                },
                Err(e) => normalizer_outcome_with(self.normalizer, input, Err(e)),
            },
    {
        match self.normalizer.call_result_with(input, analyzer) {
            Ok(result) => {
                let value = InterpretationValue::NormalizerResult(result);
                Ok(InterpretationValue::AttributeResult(AttributeResult::new(value).with_attribute(self.attribute.copy())))
            },
            Err(e) => Err(e),
        }
    }

    /// The label `Fact.field.normalizer`.
    pub fn label(&self) -> (r: String)
        ensures
            r@ == super::attribute::spec_label(self.attribute.base.fact.name@, self.attribute.base.name@) + "."@
                + self.normalizer.label_model(),
    {
        let mut label = self.attribute.label();
        label.append(".");
        label.append(self.normalizer.label());
        proof {
            reveal_strlit(".");
        }
        label
    }
}

/// Any of the interpretators.
#[derive(Debug)]
pub enum AnyInterpretator<C = KeepValue> {
    /// A fact interpretator.
    Fact(FactInterpretator),
    /// An attribute interpretator.
    Attribute(AttributeInterpretator),
    /// A normalizer interpretator.
    Normalizer(NormalizerInterpretator<C>),
    /// An attribute-and-normalizer interpretator.
    AttributeNormalizer(AttributeNormalizerInterpretator<C>),
}

impl<C: CustomCall> AnyInterpretator<C> {
    /// The interpretator can run on any input: a well-formed scheme, user steps that accept
    /// every input.
    pub open spec fn ready(&self) -> bool {
        match self {
            AnyInterpretator::Fact(i) => i.fact.wf(),
            AnyInterpretator::Attribute(_) => true,
            AnyInterpretator::Normalizer(i) => i.normalizer.total(),
            AnyInterpretator::AttributeNormalizer(i) => i.normalizer.total(),
        }
    }

    /// What the interpretator gives for an input.
    pub open spec fn call_outcome(&self, input: InterpretatorInput, r: Result<InterpretationValue, InterpretatorError>) -> bool {
        match self {
            AnyInterpretator::Fact(i) => fact_call_outcome(i.fact, input, r),
            AnyInterpretator::Attribute(i) => attribute_call_outcome(i.attribute, input, r),
            AnyInterpretator::Normalizer(i) => normalizer_call_outcome(i.normalizer, input, r),
            AnyInterpretator::AttributeNormalizer(i) => attribute_normalizer_call_outcome(i.attribute, i.normalizer, input, r),
        }
    }

    /// Runs the interpretator.
    pub fn call(&self, input: InterpretatorInput) -> (r: Result<InterpretationValue, InterpretatorError>)
        requires
            self.ready(),
            nested_facts_wf(input.items@),
        ensures
            self.call_outcome(input, r),
    {
        match self {
            AnyInterpretator::Fact(interp) => interp.call(input),
            AnyInterpretator::Attribute(interp) => interp.call(input),
            AnyInterpretator::Normalizer(interp) => interp.call(input),
            AnyInterpretator::AttributeNormalizer(interp) => interp.call(input),
        }
    }

    /// Runs the interpretator with the analyzer at hand: normalizers inflect through it (see
    /// [`NormalizerCallable::call_result_with`]); the other interpretators run as
    /// [`AnyInterpretator::call`] does.
    pub fn call_with(&self, input: InterpretatorInput, analyzer: &crate::morph::form::CheckedAnalyzer) -> (r: Result<InterpretationValue, InterpretatorError>)
        requires
            self.ready(),
            nested_facts_wf(input.items@),
        ensures
            match self {
                AnyInterpretator::Normalizer(i) => match r {
                    Ok(v) => v is NormalizerResult && normalizer_outcome_with(i.normalizer, input, Ok(v->NormalizerResult_0)),
                    Err(e) => normalizer_outcome_with(i.normalizer, input, Err(e)),
                },
                AnyInterpretator::AttributeNormalizer(i) => match r {
                    Ok(v) => {
                        &&& v is AttributeResult
                        &&& *v->AttributeResult_0.value is NormalizerResult
                        &&& normalizer_outcome_with(i.normalizer, input, Ok((*v->AttributeResult_0.value)->NormalizerResult_0))
                        &&& v->AttributeResult_0.attribute is Some
                        &&& same_attribute_texts(v->AttributeResult_0.attribute->0, i.attribute)
                    },
                    Err(e) => normalizer_outcome_with(i.normalizer, input, Err(e)),
                },
                _ => self.call_outcome(input, r),
            },
    {
        match self {
            AnyInterpretator::Fact(interp) => interp.call(input),
            AnyInterpretator::Attribute(interp) => interp.call(input),
            AnyInterpretator::Normalizer(interp) => interp.call_with(input, analyzer),
            AnyInterpretator::AttributeNormalizer(interp) => interp.call_with(input, analyzer),
        }
    }

    /// The label of the interpretator.
    pub fn label(&self) -> (r: String)
        ensures
            r@ == match self {
                AnyInterpretator::Fact(i) => i.fact.name@,
                AnyInterpretator::Attribute(i) => super::attribute::spec_label(i.attribute.base.fact.name@, i.attribute.base.name@),
                AnyInterpretator::Normalizer(i) => i.normalizer.label_model(),
                AnyInterpretator::AttributeNormalizer(i) => super::attribute::spec_label(i.attribute.base.fact.name@, i.attribute.base.name@)
                    + "."@ + i.normalizer.label_model(),
            },
    {
        match self {
            AnyInterpretator::Fact(interp) => interp.label(),
            AnyInterpretator::Attribute(interp) => interp.label(),
            AnyInterpretator::Normalizer(interp) => interp.label(),
            AnyInterpretator::AttributeNormalizer(interp) => interp.label(),
        }
    }
}

/// An attribute, possibly with a normalizer, ready to become an interpretator.
#[derive(Debug)]
pub enum PreparedAttributeItem<C = KeepValue> {
    /// A plain attribute.
    Attribute(Attribute),
    /// An attribute with a morphological normalizer.
    MorphAttribute {
        /// The attribute.
        attribute: Attribute,
        /// The normalizer.
        normalizer: NormalizerCallable<C>,
    },
    /// An attribute with a user normalizer.
    CustomAttribute {
        /// The attribute.
        attribute: Attribute,
        /// The normalizer.
        normalizer: NormalizerCallable<C>,
    },
}

impl<C> PreparedAttributeItem<C> {
    /// The attribute and its normalizer, for an attribute that has one.
    pub fn into_attribute_normalizer(self) -> (r: Option<(Attribute, NormalizerCallable<C>)>)
        ensures
            match self {
                PreparedAttributeItem::Attribute(_) => r is None,
                PreparedAttributeItem::MorphAttribute { attribute, normalizer } => r == Some((attribute, normalizer)),
                PreparedAttributeItem::CustomAttribute { attribute, normalizer } => r == Some((attribute, normalizer)),
            },
    {
        match self {
            PreparedAttributeItem::Attribute(_) => None,
            PreparedAttributeItem::MorphAttribute { attribute, normalizer } => Some((attribute, normalizer)),
            PreparedAttributeItem::CustomAttribute { attribute, normalizer } => Some((attribute, normalizer)),
        }
    }
}

impl<F> PreparedAttributeItem<FunctionNormalizer<F>> {
    /// `attribute.custom(function)`, labelled for a function whose type is named
    /// `function_type`.
    pub fn from_function(item: FunctionAttribute<F>, function_type: &str) -> (r: PreparedAttributeItem<FunctionNormalizer<F>>)
        ensures
            r is CustomAttribute,
            r->CustomAttribute_attribute == item.attribute,
            r->CustomAttribute_normalizer is Custom,
            r->CustomAttribute_normalizer->Custom_call.function == item.function,
    {
        PreparedAttributeItem::CustomAttribute {
            attribute: item.attribute,
            normalizer: NormalizerCallable::from_function(FunctionNormalizer::new(item.function), function_type),
        }
    }
}

impl<F, G> PreparedAttributeItem<FunctionFunctionNormalizer<F, G>> {
    /// `attribute.custom(first).custom(second)`, labelled for the named function types.
    pub fn from_function_function(item: FunctionFunctionAttribute<F, G>, first_type: &str, second_type: &str) -> (r: PreparedAttributeItem<FunctionFunctionNormalizer<F, G>>)
        ensures
            r is CustomAttribute,
            r->CustomAttribute_attribute == item.attribute,
            r->CustomAttribute_normalizer is Custom,
            r->CustomAttribute_normalizer->Custom_call.first == item.first,
            r->CustomAttribute_normalizer->Custom_call.second == item.second,
    {
        PreparedAttributeItem::CustomAttribute {
            attribute: item.attribute,
            normalizer: NormalizerCallable::from_function_function(
                FunctionFunctionNormalizer::new(item.first, item.second),
                first_type,
                second_type,
            ),
        }
    }
}

impl<F> PreparedAttributeItem<MorphFunctionNormalizer<InflectedNormalizer, F>> {
    /// `attribute.inflected(grams).custom(function)`, labelled for the named function type.
    pub fn from_inflected_function(item: InflectedFunctionAttribute<F>, function_type: &str) -> (r: PreparedAttributeItem<MorphFunctionNormalizer<InflectedNormalizer, F>>)
        ensures
            r is CustomAttribute,
            r->CustomAttribute_attribute == item.attribute,
            r->CustomAttribute_normalizer is Custom,
            r->CustomAttribute_normalizer->Custom_call.morph.grams == Some(item.grams),
            r->CustomAttribute_normalizer->Custom_call.function == item.function,
    {
        PreparedAttributeItem::CustomAttribute {
            attribute: item.attribute,
            normalizer: NormalizerCallable::from_morph_function(
                MorphFunctionNormalizer::new(InflectedNormalizer::new(Some(item.grams)), item.function),
                function_type,
            ),
        }
    }
}

impl<F> PreparedAttributeItem<MorphFunctionNormalizer<NormalizedNormalizer, F>> {
    /// `attribute.normalized().custom(function)`, labelled for the named function type.
    pub fn from_normalized_function(item: NormalizedFunctionAttribute<F>, function_type: &str) -> (r: PreparedAttributeItem<MorphFunctionNormalizer<NormalizedNormalizer, F>>)
        ensures
            r is CustomAttribute,
            r->CustomAttribute_attribute == item.attribute,
            r->CustomAttribute_normalizer is Custom,
            r->CustomAttribute_normalizer->Custom_call.function == item.function,
    {
        PreparedAttributeItem::CustomAttribute {
            attribute: item.attribute,
            normalizer: NormalizerCallable::from_morph_function(
                MorphFunctionNormalizer::new(NormalizedNormalizer, item.function),
                function_type,
            ),
        }
    }
}

impl<C> From<Attribute> for PreparedAttributeItem<C> {
    fn from(value: Attribute) -> (r: PreparedAttributeItem<C>)
        ensures
            r == PreparedAttributeItem::<C>::Attribute(value),
    {
        PreparedAttributeItem::Attribute(value)
    }
}

impl<C> vstd::std_specs::convert::FromSpecImpl<Attribute> for PreparedAttributeItem<C> {
    /// A spec function cannot build the strings and vectors of the result; the ensures of
    /// `from` state it.
    open spec fn obeys_from_spec() -> bool {
        false
    }

    open spec fn from_spec(v: Attribute) -> PreparedAttributeItem<C> {
        arbitrary()
    }
}

impl<C> From<RepeatableAttribute> for PreparedAttributeItem<C> {
    fn from(value: RepeatableAttribute) -> (r: PreparedAttributeItem<C>)
        ensures
            r is Attribute,
            r->Attribute_0.base == value.base,
            r->Attribute_0.default is None,
    {
        PreparedAttributeItem::Attribute(Attribute { base: value.base, default: None })
    }
}

impl<C> vstd::std_specs::convert::FromSpecImpl<RepeatableAttribute> for PreparedAttributeItem<C> {
    /// A spec function cannot build the strings and vectors of the result; the ensures of
    /// `from` state it.
    open spec fn obeys_from_spec() -> bool {
        false
    }

    open spec fn from_spec(v: RepeatableAttribute) -> PreparedAttributeItem<C> {
        arbitrary()
    }
}

impl<C> From<InflectedAttribute> for PreparedAttributeItem<C> {
    fn from(value: InflectedAttribute) -> (r: PreparedAttributeItem<C>)
        ensures
            r is MorphAttribute,
            r->MorphAttribute_attribute == value.attribute,
            r->MorphAttribute_normalizer is Inflected,
            r->MorphAttribute_normalizer->Inflected_normalizer.grams == Some(value.grams),
    {
        PreparedAttributeItem::MorphAttribute {
            attribute: value.attribute,
            normalizer: NormalizerCallable::inflected(InflectedNormalizer::new(Some(value.grams))),
        }
    }
}

impl<C> vstd::std_specs::convert::FromSpecImpl<InflectedAttribute> for PreparedAttributeItem<C> {
    /// A spec function cannot build the strings and vectors of the result; the ensures of
    /// `from` state it.
    open spec fn obeys_from_spec() -> bool {
        false
    }

    open spec fn from_spec(v: InflectedAttribute) -> PreparedAttributeItem<C> {
        arbitrary()
    }
}

impl<C> From<NormalizedAttribute> for PreparedAttributeItem<C> {
    fn from(value: NormalizedAttribute) -> (r: PreparedAttributeItem<C>)
        ensures
            r is MorphAttribute,
            r->MorphAttribute_attribute == value.attribute,
            r->MorphAttribute_normalizer is Normalized,
    {
        PreparedAttributeItem::MorphAttribute { attribute: value.attribute, normalizer: NormalizerCallable::normalized() }
    }
}

impl<C> vstd::std_specs::convert::FromSpecImpl<NormalizedAttribute> for PreparedAttributeItem<C> {
    /// A spec function cannot build the strings and vectors of the result; the ensures of
    /// `from` state it.
    open spec fn obeys_from_spec() -> bool {
        false
    }

    open spec fn from_spec(v: NormalizedAttribute) -> PreparedAttributeItem<C> {
        arbitrary()
    }
}

impl<C, T: std::fmt::Debug> From<ConstAttribute<T>> for PreparedAttributeItem<C> where FactValue: From<T> {
    fn from(value: ConstAttribute<T>) -> (r: PreparedAttributeItem<C>)
        ensures
            r is CustomAttribute,
            r->CustomAttribute_attribute == value.attribute,
            r->CustomAttribute_normalizer is Const,
    {
        PreparedAttributeItem::CustomAttribute {
            attribute: value.attribute,
            normalizer: NormalizerCallable::constant(ConstNormalizer::new(value.value)),
        }
    }
}

impl<C, T: std::fmt::Debug> vstd::std_specs::convert::FromSpecImpl<ConstAttribute<T>> for PreparedAttributeItem<C> where FactValue: From<T> {
    /// A spec function cannot build the strings and vectors of the result; the ensures of
    /// `from` state it.
    open spec fn obeys_from_spec() -> bool {
        false
    }

    open spec fn from_spec(v: ConstAttribute<T>) -> PreparedAttributeItem<C> {
        arbitrary()
    }
}

/// An item ready to become a token-level interpretator.
#[derive(Debug)]
pub enum PreparedTokenItem<C = KeepValue> {
    /// An attribute, possibly with a normalizer.
    Attribute(PreparedAttributeItem<C>),
    /// A normalizer alone.
    Normalizer(NormalizerCallable<C>),
}

impl<C> From<PreparedAttributeItem<C>> for PreparedTokenItem<C> {
    fn from(value: PreparedAttributeItem<C>) -> (r: PreparedTokenItem<C>)
        ensures
            r == PreparedTokenItem::<C>::Attribute(value),
    {
        PreparedTokenItem::Attribute(value)
    }
}

impl<C> vstd::std_specs::convert::FromSpecImpl<PreparedAttributeItem<C>> for PreparedTokenItem<C> {
    /// A spec function cannot build the strings and vectors of the result; the ensures of
    /// `from` state it.
    open spec fn obeys_from_spec() -> bool {
        false
    }

    open spec fn from_spec(v: PreparedAttributeItem<C>) -> PreparedTokenItem<C> {
        arbitrary()
    }
}

impl<C> From<NormalizerCallable<C>> for PreparedTokenItem<C> {
    fn from(value: NormalizerCallable<C>) -> (r: PreparedTokenItem<C>)
        ensures
            r == PreparedTokenItem::<C>::Normalizer(value),
    {
        PreparedTokenItem::Normalizer(value)
    }
}

impl<C> vstd::std_specs::convert::FromSpecImpl<NormalizerCallable<C>> for PreparedTokenItem<C> {
    /// A spec function cannot build the strings and vectors of the result; the ensures of
    /// `from` state it.
    open spec fn obeys_from_spec() -> bool {
        false
    }

    open spec fn from_spec(v: NormalizerCallable<C>) -> PreparedTokenItem<C> {
        arbitrary()
    }
}

impl<C> From<NormalizedNormalizer> for PreparedTokenItem<C> {
    fn from(value: NormalizedNormalizer) -> (r: PreparedTokenItem<C>)
        ensures
            r is Normalizer,
            r->Normalizer_0 is Normalized,
    {
        PreparedTokenItem::Normalizer(NormalizerCallable::normalized())
    }
}

impl<C> vstd::std_specs::convert::FromSpecImpl<NormalizedNormalizer> for PreparedTokenItem<C> {
    /// A spec function cannot build the strings and vectors of the result; the ensures of
    /// `from` state it.
    open spec fn obeys_from_spec() -> bool {
        false
    }

    open spec fn from_spec(v: NormalizedNormalizer) -> PreparedTokenItem<C> {
        arbitrary()
    }
}

impl<C> From<InflectedNormalizer> for PreparedTokenItem<C> {
    fn from(value: InflectedNormalizer) -> (r: PreparedTokenItem<C>)
        ensures
            r is Normalizer,
            r->Normalizer_0 is Inflected,
    {
        PreparedTokenItem::Normalizer(NormalizerCallable::inflected(value))
    }
}

impl<C> vstd::std_specs::convert::FromSpecImpl<InflectedNormalizer> for PreparedTokenItem<C> {
    /// A spec function cannot build the strings and vectors of the result; the ensures of
    /// `from` state it.
    open spec fn obeys_from_spec() -> bool {
        false
    }

    open spec fn from_spec(v: InflectedNormalizer) -> PreparedTokenItem<C> {
        arbitrary()
    }
}

impl<C, T: std::fmt::Debug> From<ConstNormalizer<T>> for PreparedTokenItem<C> where FactValue: From<T> {
    fn from(value: ConstNormalizer<T>) -> (r: PreparedTokenItem<C>)
        ensures
            r is Normalizer,
            r->Normalizer_0 is Const,
    {
        PreparedTokenItem::Normalizer(NormalizerCallable::constant(value))
    }
}

impl<C, T: std::fmt::Debug> vstd::std_specs::convert::FromSpecImpl<ConstNormalizer<T>> for PreparedTokenItem<C> where FactValue: From<T> {
    /// A spec function cannot build the strings and vectors of the result; the ensures of
    /// `from` state it.
    open spec fn obeys_from_spec() -> bool {
        false
    }

    open spec fn from_spec(v: ConstNormalizer<T>) -> PreparedTokenItem<C> {
        arbitrary()
    }
}

impl<C> From<Attribute> for PreparedTokenItem<C> {
    fn from(value: Attribute) -> (r: PreparedTokenItem<C>)
        ensures
            r == PreparedTokenItem::<C>::Attribute(PreparedAttributeItem::Attribute(value)),
    {
        PreparedTokenItem::Attribute(PreparedAttributeItem::Attribute(value))
    }
}

impl<C> vstd::std_specs::convert::FromSpecImpl<Attribute> for PreparedTokenItem<C> {
    /// A spec function cannot build the strings and vectors of the result; the ensures of
    /// `from` state it.
    open spec fn obeys_from_spec() -> bool {
        false
    }

    open spec fn from_spec(v: Attribute) -> PreparedTokenItem<C> {
        arbitrary()
    }
}

impl<C> From<NormalizedAttribute> for PreparedTokenItem<C> {
    fn from(value: NormalizedAttribute) -> (r: PreparedTokenItem<C>)
        ensures
            r is Attribute,
            r->Attribute_0 is MorphAttribute,
    {
        PreparedTokenItem::Attribute(PreparedAttributeItem::from(value))
    }
}

impl<C> vstd::std_specs::convert::FromSpecImpl<NormalizedAttribute> for PreparedTokenItem<C> {
    /// A spec function cannot build the strings and vectors of the result; the ensures of
    /// `from` state it.
    open spec fn obeys_from_spec() -> bool {
        false
    }

    open spec fn from_spec(v: NormalizedAttribute) -> PreparedTokenItem<C> {
        arbitrary()
    }
}

impl<C, T: std::fmt::Debug> From<ConstAttribute<T>> for PreparedTokenItem<C> where FactValue: From<T> {
    fn from(value: ConstAttribute<T>) -> (r: PreparedTokenItem<C>)
        ensures
            r is Attribute,
            r->Attribute_0 is CustomAttribute,
    {
        PreparedTokenItem::Attribute(PreparedAttributeItem::from(value))
    }
}

impl<C, T: std::fmt::Debug> vstd::std_specs::convert::FromSpecImpl<ConstAttribute<T>> for PreparedTokenItem<C> where FactValue: From<T> {
    /// A spec function cannot build the strings and vectors of the result; the ensures of
    /// `from` state it.
    open spec fn obeys_from_spec() -> bool {
        false
    }

    open spec fn from_spec(v: ConstAttribute<T>) -> PreparedTokenItem<C> {
        arbitrary()
    }
}

/// An item ready to become a rule-level interpretator.
#[derive(Debug)]
pub enum PreparedRuleItem<C = KeepValue> {
    /// An interpretator.
    Interpretator(AnyInterpretator<C>),
    /// A fact scheme.
    Fact(FactScheme),
    /// An attribute, possibly with a normalizer.
    Attribute(PreparedAttributeItem<C>),
    /// A normalizer alone.
    Normalizer(NormalizerCallable<C>),
}

impl<C> From<AnyInterpretator<C>> for PreparedRuleItem<C> {
    fn from(value: AnyInterpretator<C>) -> (r: PreparedRuleItem<C>)
        ensures
            r == PreparedRuleItem::<C>::Interpretator(value),
    {
        PreparedRuleItem::Interpretator(value)
    }
}

impl<C> vstd::std_specs::convert::FromSpecImpl<AnyInterpretator<C>> for PreparedRuleItem<C> {
    /// A spec function cannot build the strings and vectors of the result; the ensures of
    /// `from` state it.
    open spec fn obeys_from_spec() -> bool {
        false
    }

    open spec fn from_spec(v: AnyInterpretator<C>) -> PreparedRuleItem<C> {
        arbitrary()
    }
}

impl<C> From<FactScheme> for PreparedRuleItem<C> {
    fn from(value: FactScheme) -> (r: PreparedRuleItem<C>)
        ensures
            r == PreparedRuleItem::<C>::Fact(value),
    {
        PreparedRuleItem::Fact(value)
    }
}

impl<C> vstd::std_specs::convert::FromSpecImpl<FactScheme> for PreparedRuleItem<C> {
    /// A spec function cannot build the strings and vectors of the result; the ensures of
    /// `from` state it.
    open spec fn obeys_from_spec() -> bool {
        false
    }

    open spec fn from_spec(v: FactScheme) -> PreparedRuleItem<C> {
        arbitrary()
    }
}

impl<C> From<PreparedAttributeItem<C>> for PreparedRuleItem<C> {
    fn from(value: PreparedAttributeItem<C>) -> (r: PreparedRuleItem<C>)
        ensures
            r == PreparedRuleItem::<C>::Attribute(value),
    {
        PreparedRuleItem::Attribute(value)
    }
}

impl<C> vstd::std_specs::convert::FromSpecImpl<PreparedAttributeItem<C>> for PreparedRuleItem<C> {
    /// A spec function cannot build the strings and vectors of the result; the ensures of
    /// `from` state it.
    open spec fn obeys_from_spec() -> bool {
        false
    }

    open spec fn from_spec(v: PreparedAttributeItem<C>) -> PreparedRuleItem<C> {
        arbitrary()
    }
}

impl<C> From<NormalizerCallable<C>> for PreparedRuleItem<C> {
    fn from(value: NormalizerCallable<C>) -> (r: PreparedRuleItem<C>)
        ensures
            r == PreparedRuleItem::<C>::Normalizer(value),
    {
        PreparedRuleItem::Normalizer(value)
    }
}

impl<C> vstd::std_specs::convert::FromSpecImpl<NormalizerCallable<C>> for PreparedRuleItem<C> {
    /// A spec function cannot build the strings and vectors of the result; the ensures of
    /// `from` state it.
    open spec fn obeys_from_spec() -> bool {
        false
    }

    open spec fn from_spec(v: NormalizerCallable<C>) -> PreparedRuleItem<C> {
        arbitrary()
    }
}

impl<C> From<NormalizedNormalizer> for PreparedRuleItem<C> {
    fn from(value: NormalizedNormalizer) -> (r: PreparedRuleItem<C>)
        ensures
            r is Normalizer,
            r->Normalizer_0 is Normalized,
    {
        PreparedRuleItem::Normalizer(NormalizerCallable::normalized())
    }
}

impl<C> vstd::std_specs::convert::FromSpecImpl<NormalizedNormalizer> for PreparedRuleItem<C> {
    /// A spec function cannot build the strings and vectors of the result; the ensures of
    /// `from` state it.
    open spec fn obeys_from_spec() -> bool {
        false
    }

    open spec fn from_spec(v: NormalizedNormalizer) -> PreparedRuleItem<C> {
        arbitrary()
    }
}

impl<C, T: std::fmt::Debug> From<ConstNormalizer<T>> for PreparedRuleItem<C> where FactValue: From<T> {
    fn from(value: ConstNormalizer<T>) -> (r: PreparedRuleItem<C>)
        ensures
            r is Normalizer,
            r->Normalizer_0 is Const,
    {
        PreparedRuleItem::Normalizer(NormalizerCallable::constant(value))
    }
}

impl<C, T: std::fmt::Debug> vstd::std_specs::convert::FromSpecImpl<ConstNormalizer<T>> for PreparedRuleItem<C> where FactValue: From<T> {
    /// A spec function cannot build the strings and vectors of the result; the ensures of
    /// `from` state it.
    open spec fn obeys_from_spec() -> bool {
        false
    }

    open spec fn from_spec(v: ConstNormalizer<T>) -> PreparedRuleItem<C> {
        arbitrary()
    }
}

impl<C> From<Attribute> for PreparedRuleItem<C> {
    fn from(value: Attribute) -> (r: PreparedRuleItem<C>)
        ensures
            r == PreparedRuleItem::<C>::Attribute(PreparedAttributeItem::Attribute(value)),
    {
        PreparedRuleItem::Attribute(PreparedAttributeItem::Attribute(value))
    }
}

impl<C> vstd::std_specs::convert::FromSpecImpl<Attribute> for PreparedRuleItem<C> {
    /// A spec function cannot build the strings and vectors of the result; the ensures of
    /// `from` state it.
    open spec fn obeys_from_spec() -> bool {
        false
    }

    open spec fn from_spec(v: Attribute) -> PreparedRuleItem<C> {
        arbitrary()
    }
}

/// The interpretator of an attribute: an attribute interpretator for a plain attribute, an
/// attribute-and-normalizer interpretator for one with a normalizer.
pub fn prepare_attribute_interpretator<C>(item: PreparedAttributeItem<C>) -> (r: AnyInterpretator<C>)
    ensures
        match item {
            PreparedAttributeItem::Attribute(a) => r == AnyInterpretator::<C>::Attribute(AttributeInterpretator { attribute: a }),
            PreparedAttributeItem::MorphAttribute { attribute, normalizer } => r == AnyInterpretator::<C>::AttributeNormalizer(
                AttributeNormalizerInterpretator { attribute, normalizer },
            ),
            PreparedAttributeItem::CustomAttribute { attribute, normalizer } => r == AnyInterpretator::<C>::AttributeNormalizer(
                AttributeNormalizerInterpretator { attribute, normalizer },
            ),
        },
{
    match item {
        PreparedAttributeItem::Attribute(attribute) => AnyInterpretator::Attribute(AttributeInterpretator { attribute }),
        PreparedAttributeItem::MorphAttribute { attribute, normalizer } => AnyInterpretator::AttributeNormalizer(
            AttributeNormalizerInterpretator { attribute, normalizer },
        ),
        PreparedAttributeItem::CustomAttribute { attribute, normalizer } => AnyInterpretator::AttributeNormalizer(
            AttributeNormalizerInterpretator { attribute, normalizer },
        ),
    }
}

/// The interpretator of a token-level item: that of an attribute, or a normalizer
/// interpretator.
pub fn prepare_token_interpretator<C>(item: PreparedTokenItem<C>) -> (r: AnyInterpretator<C>)
    ensures
        match item {
            PreparedTokenItem::Attribute(a) => match a {
                PreparedAttributeItem::Attribute(x) => r == AnyInterpretator::<C>::Attribute(AttributeInterpretator { attribute: x }),
                PreparedAttributeItem::MorphAttribute { attribute, normalizer } => r == AnyInterpretator::<C>::AttributeNormalizer(
                    AttributeNormalizerInterpretator { attribute, normalizer },
                ),
                PreparedAttributeItem::CustomAttribute { attribute, normalizer } => r == AnyInterpretator::<C>::AttributeNormalizer(
                    AttributeNormalizerInterpretator { attribute, normalizer },
                ),
            },
            PreparedTokenItem::Normalizer(n) => r == AnyInterpretator::<C>::Normalizer(NormalizerInterpretator { normalizer: n }),
        },
{
    match item {
        PreparedTokenItem::Attribute(attribute) => prepare_attribute_interpretator(attribute),
        PreparedTokenItem::Normalizer(normalizer) => AnyInterpretator::Normalizer(NormalizerInterpretator { normalizer }),
    }
}

/// The interpretator of a rule-level item: an interpretator as it is, a fact interpretator
/// for a scheme, that of an attribute, or a normalizer interpretator.
pub fn prepare_rule_interpretator<C>(item: PreparedRuleItem<C>) -> (r: AnyInterpretator<C>)
    ensures
        match item {
            PreparedRuleItem::Interpretator(i) => r == i,
            PreparedRuleItem::Fact(f) => r == AnyInterpretator::<C>::Fact(FactInterpretator { fact: f }),
            PreparedRuleItem::Attribute(a) => match a {
                PreparedAttributeItem::Attribute(x) => r == AnyInterpretator::<C>::Attribute(AttributeInterpretator { attribute: x }),
                PreparedAttributeItem::MorphAttribute { attribute, normalizer } => r == AnyInterpretator::<C>::AttributeNormalizer(
                    AttributeNormalizerInterpretator { attribute, normalizer },
                ),
                PreparedAttributeItem::CustomAttribute { attribute, normalizer } => r == AnyInterpretator::<C>::AttributeNormalizer(
                    AttributeNormalizerInterpretator { attribute, normalizer },
                ),
            },
            PreparedRuleItem::Normalizer(n) => r == AnyInterpretator::<C>::Normalizer(NormalizerInterpretator { normalizer: n }),
        },
{
    match item {
        PreparedRuleItem::Interpretator(interp) => interp,
        PreparedRuleItem::Fact(fact) => AnyInterpretator::Fact(FactInterpretator { fact }),
        PreparedRuleItem::Attribute(attribute) => prepare_attribute_interpretator(attribute),
        PreparedRuleItem::Normalizer(normalizer) => AnyInterpretator::Normalizer(NormalizerInterpretator { normalizer }),
    }
}

} // verus!
