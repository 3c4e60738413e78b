//! Facts: typed fact traits, field descriptors and the runtime accumulator of a fact.
use vstd::prelude::*;

use super::attribute::{
    Attribute, ConstAttribute, FunctionAttribute, InflectedAttribute, NormalizedAttribute,
    RepeatableAttribute,
};
use super::normalizer::{
    values_json, value_json,
    append_fact_spans, attr_default_at, attr_name_at, copy_slot, fact_json, fact_spans,
    lemma_slots_entries, project_fact, project_slot, same_slot, slot_json, slots_entries,
    InterpretationValue, NormalizerResultValue,
};
use super::value::{FactVal, FactValue};
use crate::internal::fact_schema::{
    entries_model, first_index, lemma_first_index, same_scheme, FactError, FactRecord,
    FactRecordRaw, FactScheme,
};
use crate::span::Span;
use crate::text::{string_of, string_views};

verus! {

broadcast use vstd::std_specs::vec::axiom_vec_index_decreases;

/// A typed fact, as the `fact!` declarations of users write them.
pub trait Fact: std::fmt::Debug {
    /// Name of the fact.
    fn fact_name(&self) -> &str;

    /// Names of the fields, in order.
    fn field_names(&self) -> &[&str];

    /// Value of a field.
    fn get_field(&self, name: &str) -> Option<FactValue>;

    /// Sets a field; `true` when the field exists and the value has its type.
    fn set_field(&mut self, name: &str, value: FactValue) -> bool;
}

/// Metadata of a typed fact known at compile time.
pub trait FactMeta {
    /// Name of the fact.
    const NAME: &'static str;

    /// The full scheme of the fact, when it is known.
    fn scheme() -> Option<FactScheme>;
}

/// Descriptor of an attribute of a fact, given to an interpretation.
#[derive(Debug, Clone, Copy, PartialEq, Eq)]
pub struct FactAttribute {
    fact_name: &'static str,
    field_name: &'static str,
    const_val: Option<&'static str>,
}

impl FactAttribute {
    /// Name of the fact, as a model.
    pub closed spec fn fact_name_model(&self) -> Seq<char> {
        self.fact_name@
    }

    /// Name of the field, as a model.
    pub closed spec fn field_name_model(&self) -> Seq<char> {
        self.field_name@
    }

    /// The constant, as a model.
    pub closed spec fn const_model(&self) -> Option<Seq<char>> {
        match self.const_val {
            Some(v) => Some(v@),
            None => None,
        }
    }

    /// The descriptor of `fact_name.field_name`, without constant.
    pub fn new(fact_name: &'static str, field_name: &'static str) -> (r: FactAttribute)
        ensures
            r.fact_name_model() == fact_name@,
            r.field_name_model() == field_name@,
            r.const_model() is None,
    {
        FactAttribute { fact_name, field_name, const_val: None }
    }

    /// Name of the fact.
    pub fn fact_name(&self) -> (r: &'static str)
        ensures
            r@ == self.fact_name_model(),
    {
        self.fact_name
    }

    /// Name of the field.
    pub fn field_name(&self) -> (r: &'static str)
        ensures
            r@ == self.field_name_model(),
    {
        self.field_name
    }

    /// The descriptor with a constant value for the field.
    pub fn with_const(self, value: &'static str) -> (r: FactAttribute)
        ensures
            r.fact_name_model() == self.fact_name_model(),
            r.field_name_model() == self.field_name_model(),
            r.const_model() == Some(value@),
    {
        FactAttribute { fact_name: self.fact_name, field_name: self.field_name, const_val: Some(value) }
    }

    /// The constant, when there is one.
    pub fn get_const(&self) -> (r: Option<&'static str>)
        ensures
            match r {
                Some(v) => self.const_model() == Some(v@),
                None => self.const_model() is None,
            },
    {
        self.const_val
    }

    /// `true` when a constant is set.
    pub fn has_const(&self) -> (r: bool)
        ensures
            r == (self.const_model() is Some),
    {
        self.const_val.is_some()
    }
}

/// Descriptor of a field of the typed fact `F`.
#[derive(Debug)]
pub struct FactField<F> {
    name: &'static str,
    marker: std::marker::PhantomData<F>,
}

impl<F> Clone for FactField<F> {
    fn clone(&self) -> (r: FactField<F>)
        ensures
            r.name_model() == self.name_model(),
    {
        FactField { name: self.name, marker: std::marker::PhantomData }
    }
}

impl<F> Copy for FactField<F> {}

impl<F> FactField<F> {
    /// Name of the field, as a model.
    pub closed spec fn name_model(&self) -> Seq<char> {
        self.name@
    }

    /// The descriptor of the field named `name`.
    pub fn new(name: &'static str) -> (r: FactField<F>)
        ensures
            r.name_model() == name@,
    {
        FactField { name, marker: std::marker::PhantomData }
    }

    /// Name of the field.
    pub fn name(&self) -> (r: &'static str)
        ensures
            r@ == self.name_model(),
    {
        self.name
    }

    /// The attribute descriptor `Fact.field`.
    pub fn attr(&self) -> (r: FactAttribute) where F: FactMeta
        ensures
            r.field_name_model() == self.name_model(),
            r.const_model() is None,
    {
        FactAttribute::new(F::NAME, self.name)
    }

    /// `Fact.field.normalized()`.
    pub fn normalized(&self) -> (r: NormalizedAttribute) where F: FactMeta
        ensures
            r.attribute.base.name@ == self.name_model(),
            r.attribute.default is None,
    {
        Attribute::new(F::NAME, self.name, None).normalized()
    }

    /// `Fact.field.inflected(forms)`.
    pub fn inflected(&self, forms: &[&str]) -> (r: InflectedAttribute) where F: FactMeta
        ensures
            r.attribute.base.name@ == self.name_model(),
            r.attribute.default is None,
            string_views(r.grams@).to_set() == forms@.map_values(|s: &str| s@).to_set(),
    {
        Attribute::new(F::NAME, self.name, None).inflected_with(forms)
    }

    /// `Fact.field.custom(function)`.
    pub fn custom<FN>(&self, function: FN) -> (r: FunctionAttribute<FN>) where F: FactMeta
        ensures
            r.attribute.base.name@ == self.name_model(),
            r.attribute.default is None,
            r.function == function,
    {
        Attribute::new(F::NAME, self.name, None).custom(function)
    }

    /// The field as a repeatable attribute.
    pub fn repeatable(&self) -> (r: RepeatableAttribute) where F: FactMeta
        ensures
            r.base.name@ == self.name_model(),
    {
        RepeatableAttribute::new(F::NAME, self.name)
    }

    /// `Fact.field.const(value)`.
    pub fn constant<T>(&self, value: T) -> (r: ConstAttribute<T>) where F: FactMeta
        ensures
            r.attribute.base.name@ == self.name_model(),
            r.attribute.default is None,
            r.value == value,
    {
        Attribute::new(F::NAME, self.name, None).constant(value)
    }

    /// The attribute descriptor with a constant value.
    pub fn with_const(&self, value: &'static str) -> (r: FactAttribute) where F: FactMeta
        ensures
            r.field_name_model() == self.name_model(),
            r.const_model() == Some(value@),
    {
        FactAttribute::new(F::NAME, self.name).with_const(value)
    }
}

/// Types a field of a typed fact can hold.
pub trait FieldType: Sized {
    /// The value a field holds, as a model.
    spec fn fact_model(&self) -> FactVal;

    /// `true` for the values of the field's type.
    spec fn accepts(value: FactVal) -> bool;

    /// The field as a value.
    fn to_fact_value(&self) -> (r: FactValue)
        ensures
            r@ == self.fact_model(),
    ;

    /// The field from a value of its type; `None` for a value of another type.
    fn from_fact_value(value: FactValue) -> (r: Option<Self>)
        ensures
            r is Some <==> Self::accepts(value@),
            r is Some ==> r->0.fact_model() == value@,
    ;
}

impl FieldType for String {
    open spec fn fact_model(&self) -> FactVal {
        FactVal::Str(self@)
    }

    open spec fn accepts(value: FactVal) -> bool {
        value is Str
    }

    fn to_fact_value(&self) -> (r: FactValue) {
        FactValue::Str(self.clone())
    }

    fn from_fact_value(value: FactValue) -> (r: Option<String>) {
        match value {
            FactValue::Str(s) => Some(s),
            _ => None,
        }
    }
}

impl FieldType for i64 {
    open spec fn fact_model(&self) -> FactVal {
        FactVal::Int(*self as int)
    }

    open spec fn accepts(value: FactVal) -> bool {
        value matches FactVal::Int(n) && i64::MIN <= n <= i64::MAX
    }

    fn to_fact_value(&self) -> (r: FactValue) {
        FactValue::Int(*self)
    }

    fn from_fact_value(value: FactValue) -> (r: Option<i64>) {
        match value {
            FactValue::Int(n) => Some(n),
            _ => None,
        }
    }
}

impl FieldType for bool {
    open spec fn fact_model(&self) -> FactVal {
        FactVal::Bool(*self)
    }

    open spec fn accepts(value: FactVal) -> bool {
        value is Bool
    }

    fn to_fact_value(&self) -> (r: FactValue) {
        FactValue::Bool(*self)
    }

    fn from_fact_value(value: FactValue) -> (r: Option<bool>) {
        match value {
            FactValue::Bool(b) => Some(b),
            _ => None,
        }
    }
}

/// The value of an optional field.
pub fn field_to_value<T: FieldType>(field: &Option<T>) -> (r: Option<FactValue>)
    ensures
        match field {
            Some(v) => r is Some && r->0@ == v.fact_model(),
            None => r is None,
        },
{
    match field {
        Some(v) => Some(v.to_fact_value()),
        None => None,
    }
}

/// Sets a typed field from a value; `true` when the value has the field's type, else the
/// field is left as it was.
pub fn set_field_value<T: FieldType>(field: &mut Option<T>, value: FactValue) -> (r: bool)
    ensures
        r == T::accepts(value@),
        r ==> (*final(field)) is Some && (*final(field))->0.fact_model() == value@,
        !r ==> *final(field) == *old(field),
{
    match T::from_fact_value(value) {
        Some(v) => {
            *field = Some(v);
            true
        },
        None => false,
    }
}

/// State of one attribute of a runtime fact.
#[derive(Debug)]
pub enum RuntimeAttributeValue {
    /// A plain value, or none yet.
    Plain(Option<FactValue>),
    /// One interpreted value.
    Result(InterpretationValue),
    /// The interpreted values of a repeatable attribute.
    Repeatable(Vec<InterpretationValue>),
}

/// The runtime accumulator of a fact: one slot per attribute of its scheme, and the
/// attributes set so far in the order they were first set.
#[derive(Debug)]
pub struct InterpretatorFact {
    /// The scheme of the fact.
    pub scheme: FactScheme,
    /// One slot per attribute.
    pub values: Vec<RuntimeAttributeValue>,
    /// Indices of the attributes set so far, in the order they were first set.
    pub modified: Vec<usize>,
    /// `true` at the indices of the attributes set so far.
    pub modified_mask: Vec<bool>,
}

/// In a sequence without duplicates, the first index of an element is its position.
pub proof fn lemma_first_index_unique(s: Seq<Seq<char>>, i: int)
    requires
        s.no_duplicates(),
        0 <= i < s.len(),
    ensures
        first_index(s, s[i]) == i,
{
    lemma_first_index(s, s[i]);
    let k = first_index(s, s[i]);
    assert(s.contains(s[i]));
    if k != i {
        assert(s[k] == s[i]);
    }
}

/// The new slot after a value is set: appended to a repeatable slot, else the value itself.
pub open spec fn set_slot(old_slot: RuntimeAttributeValue, new_slot: RuntimeAttributeValue, v: InterpretationValue) -> bool {
    match old_slot {
        RuntimeAttributeValue::Repeatable(items) => new_slot is Repeatable && new_slot->Repeatable_0@ == items@.push(v),
        _ => new_slot == RuntimeAttributeValue::Result(v),
    }
}

/// Index of the attribute of `src` whose slot is merged into slot `t` of `dst`, if any: the
/// attribute of the same name, when it was set in `src`.
pub open spec fn merge_source(dst: InterpretatorFact, src: InterpretatorFact, t: int) -> Option<int> {
    let i = first_index(src.scheme.names(), dst.scheme.names()[t]);
    if 0 <= i && src.modified@.contains(i as usize) { Some(i) } else { None }
}

/// Target slot in `dst` of the attribute `s` of `src`, or -1.
pub open spec fn merge_target(dst: InterpretatorFact, src: InterpretatorFact, s: usize) -> int {
    first_index(dst.scheme.names(), attr_name_at(src.scheme.attributes@, s as int))
}

/// Slots of `dst` newly marked as set by merging the first `n` set attributes of `src`, in
/// order.
pub open spec fn merge_added(dst: InterpretatorFact, src: InterpretatorFact, n: int) -> Seq<usize>
    decreases n,
{
    if n <= 0 {
        Seq::empty()
    } else {
        let prev = merge_added(dst, src, n - 1);
        let t = merge_target(dst, src, src.modified@[n - 1]);
        if t >= 0 && !dst.modified_mask@[t] && !prev.contains(t as usize) {
            prev.push(t as usize)
        } else {
            prev
        }
    }
}

/// Outcome of setting `key` to `value`: `KeyError` when no attribute has that name and the
/// fact unchanged; else the slot of the attribute updated as [`set_slot`] says, every other
/// slot unchanged, and the attribute marked as set.
pub open spec fn set_result(
    old: InterpretatorFact,
    new: InterpretatorFact,
    key: Seq<char>,
    value: InterpretationValue,
    r: Result<(), FactError>,
) -> bool {
    &&& new.wf()
    &&& old.key_index(key) == -1 ==> {
        &&& r is Err
        &&& r->Err_0->KeyError_0@ == key
        &&& new == old
    }
    &&& old.key_index(key) >= 0 ==> {
        let i = old.key_index(key);
        &&& r is Ok
        &&& new.scheme == old.scheme
        &&& new.values@.len() == old.values@.len()
        &&& forall|j: int| 0 <= j < old.values@.len() && j != i ==> #[trigger] new.values@[j] == old.values@[j]
        &&& set_slot(old.values@[i], new.values@[i], value)
        &&& new.modified@ == if old.modified_mask@[i] {
            old.modified@
        } else {
            old.modified@.push(i as usize)
        }
        &&& new.modified_mask@ == old.modified_mask@.update(i, true)
    }
}

/// Outcome of merging `src` into `old`: the slots of the attributes set in `src` replace
/// those of the same name (see [`merge_source`]), the others are unchanged, and the newly set
/// attributes are appended in the order `src` set them.
pub open spec fn merge_result(old: InterpretatorFact, new: InterpretatorFact, src: InterpretatorFact) -> bool {
    &&& new.wf()
    &&& new.scheme == old.scheme
    &&& new.values@.len() == old.values@.len()
    &&& forall|t: int| 0 <= t < old.values@.len() ==> match merge_source(old, src, t) {
        Some(i) => same_slot(#[trigger] new.values@[t], src.values@[i]),
        None => new.values@[t] == old.values@[t],
    }
    &&& new.modified@ == old.modified@ + merge_added(old, src, src.modified@.len() as int)
}

/// The runtime fact a value holds as its own projection: a fact result without a computed
/// projection, reached through attribute results and nested normalizer results.
pub open spec fn value_fact(v: InterpretationValue) -> Option<InterpretatorFact>
    decreases v,
{
    match v {
        InterpretationValue::FactResult(res) => match res.as_json {
            Some(_) => None,
            None => match res.runtime_fact {
                Some(f) => Some(*f),
                None => None,
            },
        },
        InterpretationValue::AttributeResult(a) => value_fact(*a.value),
        InterpretationValue::NormalizerResult(n) => match n.value {
            NormalizerResultValue::Nested(b) => value_fact(*b),
            NormalizerResultValue::Value(_) => None,
        },
        InterpretationValue::Chain(_) => None,
    }
}

/// The runtime fact held by a slot with one value, if it holds one.
pub open spec fn slot_fact(s: RuntimeAttributeValue) -> Option<InterpretatorFact> {
    match s {
        RuntimeAttributeValue::Result(v) => value_fact(v),
        _ => None,
    }
}

/// A runtime fact with one slot per attribute of its scheme.
pub open spec fn shaped(f: InterpretatorFact) -> bool {
    f.values@.len() == f.scheme.attributes@.len()
}

/// Names and facts of the first `n` slots that hold a runtime fact with one slot per
/// attribute, in order.
pub open spec fn nested_facts(f: InterpretatorFact, n: int) -> Seq<(Seq<char>, InterpretatorFact)>
    decreases n,
{
    if n <= 0 {
        Seq::empty()
    } else {
        let prev = nested_facts(f, n - 1);
        match slot_fact(f.values@[n - 1]) {
            Some(g) => if shaped(g) {
                prev.push((attr_name_at(f.scheme.attributes@, n - 1), g))
            } else {
                prev
            },
            None => prev,
        }
    }
}

/// `r` is the record of the runtime fact `f`: its scheme, the value of each attribute (the
/// set one, else its default), the JSON-like projection and spans of `f`, and for each slot
/// holding a runtime fact, in order, the record of that fact.
pub open spec fn record_of_fact(r: FactRecord, f: InterpretatorFact) -> bool
    decreases r,
{
    let nf = nested_facts(f, f.values@.len() as int);
    &&& same_scheme(r.scheme, f.scheme)
    &&& r.entries() == slots_entries(f.values@, f.scheme.attributes@)
    &&& r.raw is Some
    &&& crate::interpretation::value::pairs_model(r.raw->0.as_json@) == fact_json(f)
    &&& r.raw->0.spans@ == fact_spans(f)
    &&& r.nested@.len() == nf.len()
    &&& forall|j: int| 0 <= j < r.nested@.len() ==> {
        &&& #[trigger] r.nested@[j].0@ == nf[j].0
        &&& record_of_fact(r.nested@[j].1, nf[j].1)
    }
}

/// The record of a runtime fact has one key per attribute of the fact's scheme, in order.
pub proof fn law_fact_record_keys(r: FactRecord, f: InterpretatorFact)
    requires
        shaped(f),
        record_of_fact(r, f),
    ensures
        r.keys_match_scheme(),
{
    lemma_slots_entries(f.values@, f.scheme.attributes@);
    crate::internal::fact_schema::lemma_same_scheme_names(r.scheme, f.scheme);
    let en = crate::internal::fact_schema::entry_names(r.entries());
    assert forall|i: int| 0 <= i < en.len() implies en[i] == r.scheme.names()[i] by {
        assert(r.entries()[i] == slots_entries(f.values@, f.scheme.attributes@)[i]);
        assert(f.scheme.names()[i] == f.scheme.attributes@[i].name_model());
    }
    assert(en =~= r.scheme.names());
}

/// The runtime fact a value holds as its own projection, if any.
fn value_nested_fact(v: &InterpretationValue) -> (r: Option<&InterpretatorFact>)
    ensures
        match r {
            Some(g) => value_fact(*v) == Some(*g) && decreases_to!(*v => *g),
            None => value_fact(*v) is None,
        },
    decreases v,
{
    match v {
        InterpretationValue::FactResult(res) => match &res.as_json {
            Some(_) => None,
            None => match &res.runtime_fact {
                Some(f) => {
                    proof {
                        assert(decreases_to!(*v => v->FactResult_0));
                        assert(decreases_to!(v->FactResult_0 => v->FactResult_0.runtime_fact));
                        assert(decreases_to!(v->FactResult_0.runtime_fact => *v->FactResult_0.runtime_fact->0));
                    }
                    Some(&**f)
                },
                None => None,
            },
        },
        InterpretationValue::AttributeResult(a) => {
            proof {
                assert(decreases_to!(*v => v->AttributeResult_0));
                assert(decreases_to!(v->AttributeResult_0 => *v->AttributeResult_0.value));
            }
            value_nested_fact(&*a.value)
        },
        InterpretationValue::NormalizerResult(n) => match &n.value {
            NormalizerResultValue::Nested(b) => {
                proof {
                    assert(decreases_to!(*v => v->NormalizerResult_0));
                    assert(decreases_to!(v->NormalizerResult_0 => v->NormalizerResult_0.value));
                    assert(decreases_to!(v->NormalizerResult_0.value => *v->NormalizerResult_0.value->Nested_0));
                }
                value_nested_fact(&**b)
            },
            NormalizerResultValue::Value(_) => None,
        },
        InterpretationValue::Chain(_) => None,
    }
}

impl InterpretatorFact {
    /// One slot per attribute, repeatable slots for repeatable attributes, and the set
    /// attributes recorded once each both in order and in the mask.
    pub open spec fn wf(&self) -> bool {
        &&& self.scheme.wf()
        &&& self.values@.len() == self.scheme.attributes@.len()
        &&& self.modified_mask@.len() == self.values@.len()
        &&& self.modified@.no_duplicates()
        &&& forall|k: int| 0 <= k < self.modified@.len() ==> (#[trigger] self.modified@[k]) < self.values@.len()
        &&& forall|i: int| 0 <= i < self.values@.len() ==> (#[trigger] self.modified_mask@[i]
            <==> self.modified@.contains(i as usize))
    }

    /// Index of the attribute named `key`, as a model (-1 when there is none).
    pub open spec fn key_index(&self, key: Seq<char>) -> int {
        first_index(self.scheme.names(), key)
    }

    /// A runtime fact of `scheme` with nothing set yet: an empty list for each repeatable
    /// attribute, no value for the others.
    pub fn new(scheme: FactScheme) -> (r: InterpretatorFact)
        requires
            scheme.wf(),
        ensures
            r.wf(),
            r.scheme == scheme,
            r.modified@.len() == 0,
            forall|i: int| 0 <= i < r.values@.len() ==> match #[trigger] r.values@[i] {
                RuntimeAttributeValue::Repeatable(items) => items@.len() == 0 && r.scheme.attributes@[i] is Repeatable,
                RuntimeAttributeValue::Plain(x) => x is None && !(r.scheme.attributes@[i] is Repeatable),
                RuntimeAttributeValue::Result(_) => false,
            },
    {
        let mut values: Vec<RuntimeAttributeValue> = Vec::new();
        let mut modified_mask: Vec<bool> = Vec::new();
        let mut i: usize = 0;
        while i < scheme.attributes.len()
            invariant
                i <= scheme.attributes@.len(),
                values@.len() == i,
                modified_mask@.len() == i,
                forall|j: int| 0 <= j < i ==> !(#[trigger] modified_mask@[j]),
                forall|j: int| 0 <= j < i ==> match #[trigger] values@[j] {
                    RuntimeAttributeValue::Repeatable(items) => items@.len() == 0 && scheme.attributes@[j] is Repeatable,
                    RuntimeAttributeValue::Plain(x) => x is None && !(scheme.attributes@[j] is Repeatable),
                    RuntimeAttributeValue::Result(_) => false,
                },
            decreases scheme.attributes@.len() - i,
        {
            if scheme.attributes[i].is_repeatable() {
                values.push(RuntimeAttributeValue::Repeatable(Vec::new()));
            } else {
                values.push(RuntimeAttributeValue::Plain(None));
            }
            modified_mask.push(false);
            i += 1;
        }
        let r = InterpretatorFact { scheme, values, modified: Vec::new(), modified_mask };
        proof {
            assert forall|j: int| 0 <= j < r.values@.len() implies (#[trigger] r.modified_mask@[j]
                <==> r.modified@.contains(j as usize)) by {
                assert(!r.modified_mask@[j]);
            }
        }
        r
    }

    /// The scheme of the fact.
    pub fn scheme(&self) -> (r: &FactScheme)
        ensures
            *r == self.scheme,
    {
        &self.scheme
    }

    /// `true` when `key` names a repeatable attribute.
    pub fn is_repeatable(&self, key: &str) -> (r: bool)
        requires
            self.wf(),
        ensures
            r == (self.key_index(key@) >= 0 && self.scheme.attributes@[self.key_index(key@)] is Repeatable),
    {
        match self.scheme.index_of(key) {
            Some(i) => self.scheme.attributes[i].is_repeatable(),
            None => false,
        }
    }

    /// `true` when `key` names an attribute that was set.
    pub fn contains_modified(&self, key: &str) -> (r: bool)
        requires
            self.wf(),
        ensures
            r == (self.key_index(key@) >= 0 && self.modified_mask@[self.key_index(key@)]),
    {
        match self.scheme.index_of(key) {
            Some(i) => self.modified_mask[i],
            None => false,
        }
    }

    /// The slot of the attribute named `key`.
    pub fn get_runtime(&self, key: &str) -> (r: Option<&RuntimeAttributeValue>)
        requires
            self.wf(),
        ensures
            match r {
                Some(v) => self.key_index(key@) >= 0 && *v == self.values@[self.key_index(key@)],
                None => self.key_index(key@) == -1,
            },
    {
        match self.scheme.index_of(key) {
            Some(i) => Some(&self.values[i]),
            None => None,
        }
    }

    /// Marks slot `i` as set, once.
    fn mark_modified(&mut self, i: usize)
        requires
            i < old(self).values@.len(),
            old(self).modified_mask@.len() == old(self).values@.len(),
            forall|j: int| 0 <= j < old(self).values@.len() ==> (#[trigger] old(self).modified_mask@[j]
                <==> old(self).modified@.contains(j as usize)),
            old(self).modified@.no_duplicates(),
            forall|k: int| 0 <= k < old(self).modified@.len() ==> (#[trigger] old(self).modified@[k]) < old(self).values@.len(),
        ensures
            final(self).scheme == old(self).scheme,
            final(self).values == old(self).values,
            final(self).modified@ == if old(self).modified_mask@[i as int] {
                old(self).modified@
            } else {
                old(self).modified@.push(i)
            },
            final(self).modified_mask@ == old(self).modified_mask@.update(i as int, true),
            final(self).modified@.no_duplicates(),
            forall|k: int| 0 <= k < final(self).modified@.len() ==> (#[trigger] final(self).modified@[k]) < final(self).values@.len(),
            forall|j: int| 0 <= j < final(self).values@.len() ==> (#[trigger] final(self).modified_mask@[j]
                <==> final(self).modified@.contains(j as usize)),
    {
        if !self.modified_mask[i] {
            self.modified_mask.set(i, true);
            let ghost before = self.modified@;
            self.modified.push(i);
            proof {
                assert(!before.contains(i));
                assert forall|a: int, b: int| 0 <= a < b < self.modified@.len() implies self.modified@[a] != self.modified@[b] by {
                    if b == before.len() {
                        assert(before.contains(before[a]));
                    }
                }
                assert(self.modified@[before.len() as int] == i);
                assert forall|j: int| 0 <= j < self.values@.len() implies (#[trigger] self.modified_mask@[j]
                    <==> self.modified@.contains(j as usize)) by {
                    if self.modified@.contains(j as usize) && j != i {
                        let k = choose|k: int| 0 <= k < self.modified@.len() && self.modified@[k] == j as usize;
                        vstd::std_specs::vec::axiom_spec_len(&self.values);
                        assert(j as usize as int == j);
                        assert(k < before.len());
                        assert(before[k] == j as usize);
                    }
                    if j != i && before.contains(j as usize) {
                        let k = choose|k: int| 0 <= k < before.len() && before[k] == j as usize;
                        assert(self.modified@[k] == j as usize);
                    }
                    if j == i {
                        assert(self.modified@[before.len() as int] == i);
                    }
                }
            }
        } else {
            proof {
                assert(self.modified_mask@ =~= old(self).modified_mask@.update(i as int, true));
            }
        }
    }

    /// Sets the attribute named `key`: the value is appended to a repeatable attribute and
    /// replaces the slot of another; the attribute is then marked as set. `KeyError` when no
    /// attribute has that name.
    pub fn set(&mut self, key: &str, value: InterpretationValue) -> (r: Result<(), FactError>)
        requires
            old(self).wf(),
        ensures
            set_result(*old(self), *final(self), key@, value, r),
    {
        match self.scheme.index_of(key) {
            None => Err(FactError::KeyError(string_of(key))),
            Some(i) => {
                let ghost before = self.values@;
                let slot = self.values.remove(i);
                let new_slot = match slot {
                    RuntimeAttributeValue::Repeatable(mut items) => {
                        items.push(value);
                        RuntimeAttributeValue::Repeatable(items)
                    },
                    _ => RuntimeAttributeValue::Result(value),
                };
                self.values.insert(i, new_slot);
                proof {
                    assert forall|j: int| 0 <= j < before.len() && j != i implies #[trigger] self.values@[j] == before[j] by {
                        if j < i {
                        } else {
                        }
                    }
                }
                self.mark_modified(i);
                Ok(())
            },
        }
    }

    /// Merges the attributes set in `fact` into this fact: each one replaces the slot of the
    /// attribute of the same name here, if there is one, and marks it as set.
    pub fn merge(&mut self, fact: &InterpretatorFact)
        requires
            old(self).wf(),
            fact.wf(),
        ensures
            merge_result(*old(self), *final(self), *fact),
    {
        let ghost start = *self;
        let mut k: usize = 0;
        while k < fact.modified.len()
            invariant
                k <= fact.modified@.len(),
                fact.wf(),
                start.wf(),
                self.wf(),
                self.scheme == start.scheme,
                self.values@.len() == start.values@.len(),
                self.modified@ == start.modified@ + merge_added(start, *fact, k as int),
                forall|t: int| 0 <= t < start.values@.len() ==> {
                    let i = first_index(fact.scheme.names(), start.scheme.names()[t]);
                    if 0 <= i && fact.modified@.take(k as int).contains(i as usize) {
                        same_slot(#[trigger] self.values@[t], fact.values@[i])
                    } else {
                        self.values@[t] == start.values@[t]
                    }
                },
                forall|t: int| 0 <= t < start.values@.len() ==> (#[trigger] self.modified_mask@[t]
                    <==> (start.modified_mask@[t] || merge_added(start, *fact, k as int).contains(t as usize))),
            decreases fact.modified@.len() - k,
        {
            let s = fact.modified[k];
            let key = fact.scheme.attributes[s].name();
            proof {
                lemma_first_index(self.scheme.names(), key@);
                lemma_first_index_unique(fact.scheme.names(), s as int);
                assert(key@ == fact.scheme.names()[s as int]);
                assert(attr_name_at(fact.scheme.attributes@, s as int) == key@);
                assert(fact.modified@.take(k + 1) =~= fact.modified@.take(k as int).push(s));
            }
            match self.scheme.index_of(key) {
                Some(t) => {
                    let ghost before = *self;
                    let slot = copy_slot(&fact.values[s]);
                    self.values.set(t, slot);
                    self.mark_modified(t);
                    proof {
                        lemma_merge_step(start, *fact, before, *self, k as int, t as int, s);
                    }
                },
                None => {
                    proof {
                        lemma_merge_skip(start, *fact, *self, k as int, s);
                    }
                },
            }
            k += 1;
        }
        proof {
            assert(fact.modified@.take(fact.modified@.len() as int) =~= fact.modified@);
        }
    }

    /// The record of the fact (see [`record_of_fact`]): each attribute with its value (the
    /// set one, else its default), the JSON-like projection and the spans, and the record of
    /// each fact held by an attribute, so that its text shows that fact as a block.
    pub fn normalized(&self) -> (r: FactRecord)
        requires
            shaped(*self),
        ensures
            record_of_fact(r, *self),
        decreases self,
    {
        let ghost entries = slots_entries(self.values@, self.scheme.attributes@);
        proof { lemma_slots_entries(self.values@, self.scheme.attributes@); }
        let mut attributes: Vec<(String, Option<FactValue>)> = Vec::new();
        let mut i: usize = 0;
        while i < self.values.len()
            invariant
                i <= self.values@.len(),
                shaped(*self),
                entries == slots_entries(self.values@, self.scheme.attributes@),
                entries.len() == self.values@.len(),
                attributes@.len() == i,
                forall|j: int| 0 <= j < i ==> #[trigger] entries_model(attributes@)[j] == entries[j],
            decreases self.values@.len() - i,
        {
            let attribute = &self.scheme.attributes[i];
            let value = project_slot(&self.values[i], attribute.default_value_ref());
            let ghost before = attributes@;
            attributes.push((string_of(attribute.name()), value));
            proof {
                lemma_slots_entries(self.values@, self.scheme.attributes@);
                assert(entries[i as int] == (attr_name_at(self.scheme.attributes@, i as int),
                    slot_json(self.values@[i as int], attr_default_at(self.scheme.attributes@, i as int))));
                assert forall|j: int| 0 <= j < i + 1 implies #[trigger] entries_model(attributes@)[j] == entries[j] by {
                    if j < i {
                        assert(attributes@[j] == before[j]);
                        assert(entries_model(before)[j] == entries[j]);
                    }
                }
            }
            i += 1;
        }
        let ghost nf_all = nested_facts(*self, self.values@.len() as int);
        let mut nested: Vec<(String, FactRecord)> = Vec::new();
        let mut i: usize = 0;
        while i < self.values.len()
            invariant
                i <= self.values@.len(),
                shaped(*self),
                nested@.len() == nested_facts(*self, i as int).len(),
                forall|j: int| 0 <= j < nested@.len() ==> {
                    &&& #[trigger] nested@[j].0@ == nested_facts(*self, i as int)[j].0
                    &&& record_of_fact(nested@[j].1, nested_facts(*self, i as int)[j].1)
                },
            decreases self.values@.len() - i,
        {
            let ghost before = nested@;
            let ghost prev = nested_facts(*self, i as int);
            let ghost next = nested_facts(*self, i + 1);
            match &self.values[i] {
                RuntimeAttributeValue::Result(v) => match value_nested_fact(v) {
                    Some(g) => {
                        if g.values.len() == g.scheme.attributes.len() {
                            proof {
                                assert(decreases_to!(*self => self.values));
                                assert(decreases_to!(self.values => self.values@[i as int]));
                                assert(decreases_to!(self.values@[i as int] => self.values@[i as int]->Result_0));
                            }
                            let record = g.normalized();
                            let name = string_of(self.scheme.attributes[i].name());
                            nested.push((name, record));
                            proof {
                                assert(slot_fact(self.values@[i as int]) == Some(*g));
                                assert(next == prev.push((attr_name_at(self.scheme.attributes@, i as int), *g)));
                                assert(nested@ == before.push((name, record)));
                                assert(name@ == attr_name_at(self.scheme.attributes@, i as int));
                                assert(record_of_fact(record, *g));
                                assert(nested@[before.len() as int].0@ == next[before.len() as int].0);
                                assert(record_of_fact(nested@[before.len() as int].1, next[before.len() as int].1));
                            }
                        } else {
                            proof { assert(next == prev); }
                        }
                    },
                    None => {
                        proof { assert(next == prev); }
                    },
                },
                _ => {
                    proof { assert(next == prev); }
                },
            }
            proof {
                assert forall|j: int| 0 <= j < nested@.len() implies {
                    &&& #[trigger] nested@[j].0@ == next[j].0
                    &&& record_of_fact(nested@[j].1, next[j].1)
                } by {
                    if j < before.len() {
                        assert(nested@[j] == before[j]);
                        assert(next[j] == prev[j]);
                        assert(before[j].0@ == prev[j].0);
                        assert(record_of_fact(before[j].1, prev[j].1));
                    } else {
                        assert(j == before.len());
                        assert(nested@.len() == before.len() + 1);
                        assert(next.len() == prev.len() + 1);
                    }
                }
            }
            i += 1;
        }
        let as_json = project_fact(self);
        let spans = self.spans();
        let r = FactRecord { scheme: self.scheme.copy(), attributes, raw: Some(FactRecordRaw { as_json, spans }), nested };
        proof {
            assert(r.entries() =~= entries);
            let nf = nested_facts(*self, self.values@.len() as int);
            assert(r.nested@ == nested@);
            assert(r.nested@.len() == nf.len());
            assert forall|j: int| 0 <= j < r.nested@.len() implies {
                &&& #[trigger] r.nested@[j].0@ == nf[j].0
                &&& record_of_fact(r.nested@[j].1, nf[j].1)
            } by {
                assert(r.nested@[j] == nested@[j]);
            }
            assert(record_of_fact(r, *self));
        }
        r
    }

    /// The spans of the attributes set so far, in the order they were first set.
    pub fn spans(&self) -> (r: Vec<Span>)
        ensures
            r@ == fact_spans(*self),
    {
        let mut out: Vec<Span> = Vec::new();
        append_fact_spans(self, &mut out);
        proof { assert(out@ =~= fact_spans(*self)); }
        out
    }

    /// The JSON-like projection: the attributes that have a value, in order.
    pub fn as_json(&self) -> (r: Vec<(String, FactValue)>)
        ensures
            crate::interpretation::value::pairs_model(r@) == fact_json(*self),
    {
        project_fact(self)
    }
}

impl RuntimeAttributeValue {
    /// `true` for the slot of a repeatable attribute.
    pub fn is_repeatable_slot(&self) -> (r: bool)
        ensures
            r == (self is Repeatable),
    {
        match self {
            RuntimeAttributeValue::Repeatable(_) => true,
            _ => false,
        }
    }
}

/// One more step of the merge loop, when the source attribute has a target slot.
proof fn lemma_merge_step(
    start: InterpretatorFact,
    src: InterpretatorFact,
    before: InterpretatorFact,
    after: InterpretatorFact,
    k: int,
    t: int,
    s: usize,
)
    requires
        start.wf(),
        src.wf(),
        0 <= k < src.modified@.len(),
        s == src.modified@[k],
        before.scheme == start.scheme,
        after.scheme == start.scheme,
        before.values@.len() == start.values@.len(),
        before.modified_mask@.len() == start.values@.len(),
        0 <= t < start.values@.len(),
        t == merge_target(start, src, s),
        start.scheme.names()[t] == src.scheme.names()[s as int],
        before.modified@ == start.modified@ + merge_added(start, src, k),
        forall|u: int| 0 <= u < start.values@.len() ==> (#[trigger] before.modified_mask@[u]
            <==> (start.modified_mask@[u] || merge_added(start, src, k).contains(u as usize))),
        forall|u: int| 0 <= u < start.values@.len() ==> {
            let i = first_index(src.scheme.names(), start.scheme.names()[u]);
            if 0 <= i && src.modified@.take(k).contains(i as usize) {
                same_slot(#[trigger] before.values@[u], src.values@[i])
            } else {
                before.values@[u] == start.values@[u]
            }
        },
        after.values@ == before.values@.update(t, after.values@[t]),
        same_slot(after.values@[t], src.values@[s as int]),
        after.modified@ == if before.modified_mask@[t] { before.modified@ } else { before.modified@.push(t as usize) },
        after.modified_mask@ == before.modified_mask@.update(t, true),
    ensures
        after.modified@ == start.modified@ + merge_added(start, src, k + 1),
        forall|u: int| 0 <= u < start.values@.len() ==> (#[trigger] after.modified_mask@[u]
            <==> (start.modified_mask@[u] || merge_added(start, src, k + 1).contains(u as usize))),
        forall|u: int| 0 <= u < start.values@.len() ==> {
            let i = first_index(src.scheme.names(), start.scheme.names()[u]);
            if 0 <= i && src.modified@.take(k + 1).contains(i as usize) {
                same_slot(#[trigger] after.values@[u], src.values@[i])
            } else {
                after.values@[u] == start.values@[u]
            }
        },
{
    let prev = merge_added(start, src, k);
    assert(src.modified@[k] == s);
    lemma_first_index_unique(src.scheme.names(), s as int);
    assert(src.modified@.take(k + 1) =~= src.modified@.take(k).push(s));
    assert forall|u: int| 0 <= u < start.values@.len() implies {
        let i = first_index(src.scheme.names(), start.scheme.names()[u]);
        if 0 <= i && src.modified@.take(k + 1).contains(i as usize) {
            same_slot(#[trigger] after.values@[u], src.values@[i])
        } else {
            after.values@[u] == start.values@[u]
        }
    } by {
        let i = first_index(src.scheme.names(), start.scheme.names()[u]);
        if u == t {
            assert(i == s as int);
            assert(src.modified@.take(k + 1)[k] == s);
            assert(src.modified@.take(k + 1).contains(s));
            assert(same_slot(after.values@[u], src.values@[i]));
        } else {
            assert(after.values@[u] == before.values@[u]);
            lemma_first_index(src.scheme.names(), start.scheme.names()[u]);
            if 0 <= i && i == s as int {
                lemma_first_index_unique(start.scheme.names(), t);
                lemma_first_index_unique(start.scheme.names(), u);
                assert(start.scheme.names()[u] == src.scheme.names()[s as int]);
            }
            if 0 <= i && src.modified@.take(k + 1).contains(i as usize) && i != s as int {
                let w = choose|w: int| 0 <= w < k + 1 && #[trigger] src.modified@.take(k + 1)[w] == i as usize;
                assert(src.modified@.take(k + 1)[k] == s);
                vstd::std_specs::vec::axiom_spec_len(&src.scheme.attributes);
                assert(i as usize as int == i);
                assert(w < k);
                assert(src.modified@.take(k)[w] == i as usize);
            }
            if 0 <= i && src.modified@.take(k).contains(i as usize) {
                let w = choose|w: int| 0 <= w < k && #[trigger] src.modified@.take(k)[w] == i as usize;
                assert(src.modified@.take(k + 1)[w] == i as usize);
            }
        }
    }
    if before.modified_mask@[t] {
        if !start.modified_mask@[t] {
            assert(prev.contains(t as usize));
        }
        assert(merge_added(start, src, k + 1) == prev);
    } else {
        assert(!prev.contains(t as usize));
        assert(merge_added(start, src, k + 1) == prev.push(t as usize));
        assert(after.modified@ =~= start.modified@ + merge_added(start, src, k + 1));
    }
    assert forall|u: int| 0 <= u < start.values@.len() implies (#[trigger] after.modified_mask@[u]
        <==> (start.modified_mask@[u] || merge_added(start, src, k + 1).contains(u as usize))) by {
        let next = merge_added(start, src, k + 1);
        vstd::std_specs::vec::axiom_spec_len(&start.values);
        assert(u as usize as int == u);
        assert(t as usize as int == t);
        if u != t {
            assert(after.modified_mask@[u] == before.modified_mask@[u]);
            if before.modified_mask@[t] {
                assert(next == prev);
            } else {
                assert(next == prev.push(t as usize));
                if next.contains(u as usize) {
                    let w = choose|w: int| 0 <= w < next.len() && #[trigger] next[w] == u as usize;
                    assert(w < prev.len());
                    assert(prev[w] == u as usize);
                }
                if prev.contains(u as usize) {
                    let w = choose|w: int| 0 <= w < prev.len() && #[trigger] prev[w] == u as usize;
                    assert(next[w] == u as usize);
                }
            }
        } else {
            assert(after.modified_mask@[u]);
            if !before.modified_mask@[t] {
                assert(next == prev.push(t as usize));
                assert(next[prev.len() as int] == t as usize);
            } else {
                assert(start.modified_mask@[t] || prev.contains(t as usize));
                assert(next == prev);
            }
        }
    }
}

/// One more step of the merge loop, when the source attribute has no target slot.
proof fn lemma_merge_skip(start: InterpretatorFact, src: InterpretatorFact, cur: InterpretatorFact, k: int, s: usize)
    requires
        start.wf(),
        src.wf(),
        0 <= k < src.modified@.len(),
        s == src.modified@[k],
        merge_target(start, src, s) == -1,
        attr_name_at(src.scheme.attributes@, s as int) == src.scheme.names()[s as int],
        cur.values@.len() == start.values@.len(),
        cur.modified@ == start.modified@ + merge_added(start, src, k),
        forall|u: int| 0 <= u < start.values@.len() ==> (#[trigger] cur.modified_mask@[u]
            <==> (start.modified_mask@[u] || merge_added(start, src, k).contains(u as usize))),
        forall|u: int| 0 <= u < start.values@.len() ==> {
            let i = first_index(src.scheme.names(), start.scheme.names()[u]);
            if 0 <= i && src.modified@.take(k).contains(i as usize) {
                same_slot(#[trigger] cur.values@[u], src.values@[i])
            } else {
                cur.values@[u] == start.values@[u]
            }
        },
    ensures
        cur.modified@ == start.modified@ + merge_added(start, src, k + 1),
        forall|u: int| 0 <= u < start.values@.len() ==> (#[trigger] cur.modified_mask@[u]
            <==> (start.modified_mask@[u] || merge_added(start, src, k + 1).contains(u as usize))),
        forall|u: int| 0 <= u < start.values@.len() ==> {
            let i = first_index(src.scheme.names(), start.scheme.names()[u]);
            if 0 <= i && src.modified@.take(k + 1).contains(i as usize) {
                same_slot(#[trigger] cur.values@[u], src.values@[i])
            } else {
                cur.values@[u] == start.values@[u]
            }
        },
{
    assert(merge_added(start, src, k + 1) == merge_added(start, src, k));
    assert(src.modified@.take(k + 1) =~= src.modified@.take(k).push(s));
    lemma_first_index(start.scheme.names(), src.scheme.names()[s as int]);
    assert forall|u: int| 0 <= u < start.values@.len() implies {
        let i = first_index(src.scheme.names(), start.scheme.names()[u]);
        if 0 <= i && src.modified@.take(k + 1).contains(i as usize) {
            same_slot(#[trigger] cur.values@[u], src.values@[i])
        } else {
            cur.values@[u] == start.values@[u]
        }
    } by {
        let i = first_index(src.scheme.names(), start.scheme.names()[u]);
        lemma_first_index(src.scheme.names(), start.scheme.names()[u]);
        if 0 <= i && i == s as int {
            assert(start.scheme.names()[u] == src.scheme.names()[s as int]);
            assert(start.scheme.names().contains(src.scheme.names()[s as int]));
        }
        if 0 <= i && src.modified@.take(k + 1).contains(i as usize) && i != s as int {
            let w = choose|w: int| 0 <= w < k + 1 && #[trigger] src.modified@.take(k + 1)[w] == i as usize;
            assert(src.modified@.take(k + 1)[k] == s);
            vstd::std_specs::vec::axiom_spec_len(&src.scheme.attributes);
            assert(i as usize as int == i);
            assert(w < k);
            assert(src.modified@.take(k)[w] == i as usize);
        }
        if 0 <= i && src.modified@.take(k).contains(i as usize) {
            let w = choose|w: int| 0 <= w < k && #[trigger] src.modified@.take(k)[w] == i as usize;
            assert(src.modified@.take(k + 1)[w] == i as usize);
        }
    }
}

/// The entries of the set values hold their pair in the projection.
pub proof fn lemma_present_pairs_contains(entries: Seq<(Seq<char>, Option<FactVal>)>, i: int)
    requires
        0 <= i < entries.len(),
        entries[i].1 is Some,
    ensures
        crate::internal::fact_schema::present_pairs(entries).contains((entries[i].0, entries[i].1->0)),
    decreases entries.len(),
{
    let n = entries.len();
    let rest = crate::internal::fact_schema::present_pairs(entries.drop_last());
    if i == n - 1 {
        assert(crate::internal::fact_schema::present_pairs(entries) == rest.push((entries[i].0, entries[i].1->0)));
        assert(crate::internal::fact_schema::present_pairs(entries)[rest.len() as int] == (entries[i].0, entries[i].1->0));
    } else {
        lemma_present_pairs_contains(entries.drop_last(), i);
        assert(entries.drop_last()[i] == entries[i]);
        let w = choose|w: int| 0 <= w < rest.len() && #[trigger] rest[w] == (entries[i].0, entries[i].1->0);
        match entries.last().1 {
            Some(v) => {
                assert(crate::internal::fact_schema::present_pairs(entries)[w] == rest[w]);
            },
            None => {},
        }
    }
}

/// What a read gives back of a write: after a value is set for an attribute, the projection
/// of the fact holds, for that attribute, the value's projection (appended to the earlier
/// values of a repeatable slot).
pub proof fn law_set_reads_back(
    old: InterpretatorFact,
    new: InterpretatorFact,
    key: Seq<char>,
    value: InterpretationValue,
    r: Result<(), FactError>,
)
    requires
        old.wf(),
        set_result(old, new, key, value, r),
        old.key_index(key) >= 0,
    ensures
        r is Ok,
        fact_json(new).contains(
            (
                key,
                match old.values@[old.key_index(key)] {
                    RuntimeAttributeValue::Repeatable(items) => FactVal::List(values_json(items@).push(value_json(value))),
                    _ => value_json(value),
                },
            ),
        ),
{
    let i = old.key_index(key);
    lemma_first_index(old.scheme.names(), key);
    lemma_slots_entries(new.values@, new.scheme.attributes@);
    let entries = slots_entries(new.values@, new.scheme.attributes@);
    assert(entries[i] == (attr_name_at(new.scheme.attributes@, i), slot_json(new.values@[i], attr_default_at(new.scheme.attributes@, i))));
    assert(attr_name_at(new.scheme.attributes@, i) == key) by {
        assert(old.scheme.names()[i] == old.scheme.attributes@[i].name_model());
    }
    match old.values@[i] {
        RuntimeAttributeValue::Repeatable(items) => {
            let items2 = new.values@[i]->Repeatable_0@;
            assert(items2.subrange(0, items2.len() - 1) =~= items@);
            assert(values_json(items2) == values_json(items@).push(value_json(value)));
        },
        _ => {},
    }
    lemma_present_pairs_contains(entries, i);
}

/// The slots newly marked by a merge: each is the target of an attribute set in `src`, not
/// marked before; and the target of every attribute set in `src` that was not marked before
/// is among them.
proof fn lemma_merge_added(dst: InterpretatorFact, src: InterpretatorFact, n: int)
    requires
        0 <= n <= src.modified@.len(),
        dst.scheme.names().len() <= usize::MAX,
    ensures
        forall|t: usize| #[trigger] merge_added(dst, src, n).contains(t) ==> {
            &&& !dst.modified_mask@[t as int]
            &&& exists|k: int| 0 <= k < n && merge_target(dst, src, #[trigger] src.modified@[k]) == t
        },
        forall|k: int| 0 <= k < n && merge_target(dst, src, #[trigger] src.modified@[k]) >= 0
            && !dst.modified_mask@[merge_target(dst, src, src.modified@[k])]
            ==> merge_added(dst, src, n).contains(merge_target(dst, src, src.modified@[k]) as usize),
    decreases n,
{
    if n > 0 {
        lemma_merge_added(dst, src, n - 1);
        let prev = merge_added(dst, src, n - 1);
        let t = merge_target(dst, src, src.modified@[n - 1]);
        assert forall|u: usize| #[trigger] merge_added(dst, src, n).contains(u) implies {
            &&& !dst.modified_mask@[u as int]
            &&& exists|k: int| 0 <= k < n && merge_target(dst, src, #[trigger] src.modified@[k]) == u
        } by {
            if prev.contains(u) {
                let k = choose|k: int| 0 <= k < n - 1 && merge_target(dst, src, #[trigger] src.modified@[k]) == u;
                assert(0 <= k < n && merge_target(dst, src, src.modified@[k]) == u);
            } else {
                assert(t >= 0 && !dst.modified_mask@[t] && !prev.contains(t as usize));
                lemma_first_index(dst.scheme.names(), attr_name_at(src.scheme.attributes@, src.modified@[n - 1] as int));
                assert(merge_added(dst, src, n) == prev.push(t as usize));
                assert(u == t as usize);
                assert(merge_target(dst, src, src.modified@[n - 1]) == u);
            }
        }
        assert forall|k: int| 0 <= k < n && merge_target(dst, src, #[trigger] src.modified@[k]) >= 0
            && !dst.modified_mask@[merge_target(dst, src, src.modified@[k])]
            implies merge_added(dst, src, n).contains(merge_target(dst, src, src.modified@[k]) as usize) by {
            let u = merge_target(dst, src, src.modified@[k]) as usize;
            if k < n - 1 {
                assert(prev.contains(u));
                if !(t >= 0 && !dst.modified_mask@[t] && !prev.contains(t as usize)) {
                    assert(merge_added(dst, src, n) == prev);
                } else {
                    assert(merge_added(dst, src, n) == prev.push(t as usize));
                    assert(prev.push(t as usize)[prev.index_of(u)] == u);
                }
            } else {
                if prev.contains(u) {
                    assert(merge_added(dst, src, n) == prev || merge_added(dst, src, n) == prev.push(t as usize));
                    if merge_added(dst, src, n) == prev.push(t as usize) {
                        assert(prev.push(t as usize)[prev.index_of(u)] == u);
                    }
                } else {
                    assert(merge_added(dst, src, n) == prev.push(t as usize));
                    assert(prev.push(t as usize)[prev.len() as int] == u);
                }
            }
        }
    }
}

/// Merging, per key of the target: a key set in the source reads back the source's slot
/// (the same projections, spans and kind) and is marked as set; every other key keeps its
/// slot and its mark.
pub proof fn law_merge_keys(old: InterpretatorFact, new: InterpretatorFact, src: InterpretatorFact, key: Seq<char>)
    requires
        old.wf(),
        src.wf(),
        merge_result(old, new, src),
        old.key_index(key) >= 0,
    ensures
        new.key_index(key) == old.key_index(key),
        src.key_index(key) >= 0 && src.modified_mask@[src.key_index(key)] ==> {
            &&& same_slot(new.values@[old.key_index(key)], src.values@[src.key_index(key)])
            &&& new.modified_mask@[old.key_index(key)]
        },
        !(src.key_index(key) >= 0 && src.modified_mask@[src.key_index(key)]) ==> {
            &&& new.values@[old.key_index(key)] == old.values@[old.key_index(key)]
            &&& new.modified_mask@[old.key_index(key)] == old.modified_mask@[old.key_index(key)]
        },
{
    let t = old.key_index(key);
    let n = src.modified@.len() as int;
    vstd::std_specs::vec::axiom_spec_len(&old.modified_mask);
    assert(old.scheme.names().len() == old.modified_mask@.len());
    lemma_first_index(old.scheme.names(), key);
    lemma_first_index(src.scheme.names(), key);
    lemma_merge_added(old, src, n);
    assert(old.scheme.names()[t] == key);
    let added = merge_added(old, src, n);
    assert(new.modified_mask@[t] <==> new.modified@.contains(t as usize));
    assert(old.modified_mask@[t] <==> old.modified@.contains(t as usize));
    assert(new.modified@.contains(t as usize) <==> (old.modified@.contains(t as usize) || added.contains(t as usize))) by {
        if new.modified@.contains(t as usize) {
            let p = new.modified@.index_of(t as usize);
            if p >= old.modified@.len() {
                assert(added[p - old.modified@.len()] == t as usize);
            }
        }
        if added.contains(t as usize) {
            let p = added.index_of(t as usize);
            assert(new.modified@[old.modified@.len() + p] == t as usize);
        }
        if old.modified@.contains(t as usize) {
            let p = old.modified@.index_of(t as usize);
            assert(new.modified@[p] == t as usize);
        }
    }
    let si = src.key_index(key);
    if si >= 0 && src.modified_mask@[si] {
        assert(src.modified@.contains(si as usize));
        assert(merge_source(old, src, t) == Some(si));
        if !old.modified_mask@[t] {
            let k = choose|k: int| 0 <= k < n && src.modified@[k] == si as usize;
            vstd::std_specs::vec::axiom_spec_len(&src.modified_mask);
            assert(src.scheme.names().len() == src.modified_mask@.len());
            assert(src.modified@[k] as int == si);
            assert(src.scheme.names()[si] == key);
            assert(attr_name_at(src.scheme.attributes@, si) == key);
            assert(merge_target(old, src, src.modified@[k]) == t);
            assert(added.contains(t as usize));
        }
    } else {
        assert(merge_source(old, src, t) is None);
        if added.contains(t as usize) {
            let k = choose|k: int| 0 <= k < n && merge_target(old, src, #[trigger] src.modified@[k]) == t as usize;
            let s0 = src.modified@[k];
            assert(s0 < src.values@.len());
            assert(merge_target(old, src, s0) == t);
            lemma_first_index(old.scheme.names(), attr_name_at(src.scheme.attributes@, s0 as int));
            assert(attr_name_at(src.scheme.attributes@, s0 as int) == key);
            assert(src.scheme.names()[s0 as int] == key);
            lemma_first_index_unique(src.scheme.names(), s0 as int);
            assert(si == s0);
            assert(src.modified_mask@[si]);
        }
    }
}

/// Merging reads back the source: the projection of each merged slot is that of the slot of
/// the same name in the merged fact.
pub proof fn law_merge_reads_source(old: InterpretatorFact, new: InterpretatorFact, src: InterpretatorFact, t: int)
    requires
        old.wf(),
        merge_result(old, new, src),
        0 <= t < old.values@.len(),
    ensures
        match merge_source(old, src, t) {
            Some(i) => slots_entries(new.values@, new.scheme.attributes@)[t] == (
                old.scheme.names()[t],
                slot_json(src.values@[i], attr_default_at(old.scheme.attributes@, t)),
            ),
            None => slots_entries(new.values@, new.scheme.attributes@)[t] == slots_entries(old.values@, old.scheme.attributes@)[t],
        },
{
    lemma_slots_entries(new.values@, new.scheme.attributes@);
    lemma_slots_entries(old.values@, old.scheme.attributes@);
    assert(old.scheme.names()[t] == old.scheme.attributes@[t].name_model());
}

} // verus!
