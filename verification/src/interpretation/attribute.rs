//! Attributes of facts: fact references, attribute schemes, attributes and their
//! combinations with normalizers.
use vstd::prelude::*;

use super::normalizer::{
    ConstNormalizer, FunctionFunctionNormalizer, FunctionNormalizer, InflectedNormalizer,
    MorphFunctionNormalizer, NormalizedNormalizer,
};
use super::value::{FactVal, FactValue};
use crate::text::{
    contains_string, insert_sorted_unique, sorted_unique_strings, string_of, string_views,
    strictly_sorted,
};

verus! {

/// Model of an optional value.
pub open spec fn opt_model(o: Option<FactValue>) -> Option<FactVal> {
    match o {
        Some(v) => Some(v@),
        None => None,
    }
}

/// Copies an optional value.
pub fn clone_opt_value(o: &Option<FactValue>) -> (r: Option<FactValue>)
    ensures
        opt_model(r) == opt_model(*o),
{
    match o {
        Some(v) => Some(v.clone_value()),
        None => None,
    }
}

/// Copies a vector of strings.
pub fn clone_strings(v: &Vec<String>) -> (r: Vec<String>)
    ensures
        string_views(r@) == string_views(v@),
        r@.len() == v@.len(),
{
    let mut out: Vec<String> = Vec::new();
    let mut i: usize = 0;
    while i < v.len()
        invariant
            i <= v@.len(),
            out@.len() == i,
            forall|j: int| 0 <= j < i ==> #[trigger] out@[j]@ == v@[j]@,
        decreases v@.len() - i,
    {
        out.push(v[i].clone());
        i += 1;
    }
    assert(string_views(out@) =~= string_views(v@));
    out
}

/// The default grammemes of `inflected()`: nominative, singular.
pub open spec fn default_inflected_grams() -> Seq<Seq<char>> {
    seq!["nomn"@, "sing"@]
}

/// A fact type together with the names of its ancestors (itself included).
#[derive(Debug, Clone, PartialEq, Eq, Hash)]
pub struct FactRef {
    /// Name of the fact.
    pub name: String,
    /// Names of the fact and of its ancestors.
    pub lineage: Vec<String>,
}

impl FactRef {
    /// Names in the lineage, as a set.
    pub open spec fn lineage_set(&self) -> Set<Seq<char>> {
        string_views(self.lineage@).to_set()
    }

    /// A fact reference with no ancestors but itself.
    pub fn new(name: &str) -> (r: FactRef)
        ensures
            r.name@ == name@,
            r.lineage_set() == set![name@],
    {
        let mut lineage: Vec<String> = Vec::new();
        lineage.push(string_of(name));
        proof {
            assert(string_views(lineage@) =~= seq![name@]);
            assert(seq![name@].to_set() =~= set![name@]) by {
                assert(seq![name@][0] == name@);
            }
        }
        FactRef { name: string_of(name), lineage }
    }

    /// A fact reference with the given ancestors.
    pub fn with_parents(name: &str, parents: &[&str]) -> (r: FactRef)
        ensures
            r.name@ == name@,
            r.lineage_set() == set![name@].union(parents@.map_values(|p: &str| p@).to_set()),
    {
        let mut lineage: Vec<String> = Vec::new();
        lineage.push(string_of(name));
        let ghost ps = parents@.map_values(|p: &str| p@);
        let mut i: usize = 0;
        proof {
            assert(string_views(lineage@) =~= seq![name@]);
        }
        while i < parents.len()
            invariant
                i <= parents@.len(),
                ps == parents@.map_values(|p: &str| p@),
                string_views(lineage@) == seq![name@] + ps.take(i as int),
            decreases parents@.len() - i,
        {
            let ghost before = lineage@;
            lineage.push(string_of(parents[i]));
            proof {
                assert(string_views(lineage@) =~= string_views(before).push(parents@[i as int]@));
                assert(ps[i as int] == parents@[i as int]@);
                assert(ps.take(i + 1) =~= ps.take(i as int).push(ps[i as int]));
                assert(string_views(lineage@) =~= seq![name@] + ps.take(i + 1));
            }
            i += 1;
        }
        proof {
            assert(ps.take(parents@.len() as int) =~= ps);
            vstd::seq_lib::seq_to_set_distributes_over_add(seq![name@], ps);
            assert(seq![name@].to_set() =~= set![name@]) by {
                assert(seq![name@][0] == name@);
            }
        }
        FactRef { name: string_of(name), lineage }
    }

    /// Name of the fact.
    pub fn name(&self) -> (r: &str)
        ensures
            r@ == self.name@,
    {
        self.name.as_str()
    }

    /// Name of the fact, consuming the reference.
    pub fn into_name(self) -> (r: String)
        ensures
            r == self.name,
    {
        self.name
    }

    /// `true` when `other` is this fact or one of its ancestors.
    pub fn is_subclass_of(&self, other: &FactRef) -> (r: bool)
        ensures
            r == self.lineage_set().contains(other.name@),
    {
        let r = contains_string(&self.lineage, other.name.as_str());
        proof {
            let sv = string_views(self.lineage@);
            assert(sv.contains(other.name@) == sv.to_set().contains(other.name@));
        }
        r
    }

    /// Field-by-field copy.
    pub fn copy(&self) -> (r: FactRef)
        ensures
            r.name@ == self.name@,
            string_views(r.lineage@) == string_views(self.lineage@),
    {
        FactRef { name: self.name.clone(), lineage: clone_strings(&self.lineage) }
    }
}

impl<'a> From<&'a str> for FactRef {
    fn from(value: &'a str) -> FactRef {
        FactRef::new(value)
    }
}

impl<'a> vstd::std_specs::convert::FromSpecImpl<&'a str> for FactRef {
    /// A spec function cannot build the strings; `FactRef::new` states the result.
    open spec fn obeys_from_spec() -> bool {
        false
    }

    open spec fn from_spec(value: &'a str) -> FactRef {
        FactRef { name: arbitrary(), lineage: arbitrary() }
    }
}

impl From<String> for FactRef {
    fn from(value: String) -> FactRef {
        FactRef::new(value.as_str())
    }
}

impl vstd::std_specs::convert::FromSpecImpl<String> for FactRef {
    /// A spec function cannot build the lineage; `FactRef::new` states the result.
    open spec fn obeys_from_spec() -> bool {
        false
    }

    open spec fn from_spec(value: String) -> FactRef {
        FactRef { name: value, lineage: arbitrary() }
    }
}

/// Scheme of an attribute: plain or repeatable.
#[derive(Debug, Clone, PartialEq)]
pub enum AttributeSchemeBase {
    /// A plain attribute.
    Single(AttributeScheme),
    /// A repeatable attribute.
    Repeatable(RepeatableAttributeScheme),
}

impl AttributeSchemeBase {
    /// Name of the attribute, whatever its kind.
    pub fn name(&self) -> (r: &str)
        ensures
            r@ == match self {
                AttributeSchemeBase::Single(s) => s.name@,
                AttributeSchemeBase::Repeatable(s) => s.name@,
            },
    {
        match self {
            AttributeSchemeBase::Single(scheme) => scheme.name.as_str(),
            AttributeSchemeBase::Repeatable(scheme) => scheme.name.as_str(),
        }
    }
}

/// Scheme of a plain attribute with an optional default value.
#[derive(Debug, Clone, PartialEq)]
pub struct AttributeScheme {
    /// Name of the attribute.
    pub name: String,
    /// Default value.
    pub default: Option<FactValue>,
}

impl AttributeScheme {
    /// Creates a scheme.
    pub fn new(name: &str, default: Option<FactValue>) -> (r: AttributeScheme)
        ensures
            r.name@ == name@,
            r.default == default,
    {
        AttributeScheme { name: string_of(name), default }
    }

    /// Field-by-field copy.
    pub fn copy(&self) -> (r: AttributeScheme)
        ensures
            r.name@ == self.name@,
            opt_model(r.default) == opt_model(self.default),
    {
        AttributeScheme { name: self.name.clone(), default: clone_opt_value(&self.default) }
    }

    /// The repeatable variant of this scheme, or `None` for a scheme with a default value,
    /// which cannot be repeatable.
    pub fn try_repeatable(&self) -> (r: Option<RepeatableAttributeScheme>)
        ensures
            r is Some <==> self.default is None,
            r is Some ==> r->0.name@ == self.name@,
    {
        match self.default {
            None => Some(RepeatableAttributeScheme::new(self)),
            Some(_) => None,
        }
    }

    /// The repeatable variant of this scheme; a scheme with a default has none.
    pub fn repeatable(&self) -> (r: RepeatableAttributeScheme)
        requires
            self.default is None,
        ensures
            r.name@ == self.name@,
    {
        RepeatableAttributeScheme::new(self)
    }

    /// The attribute of this scheme on the fact named `fact`.
    pub fn construct(&self, fact: &str) -> (r: Attribute)
        ensures
            r.base.fact.name@ == fact@,
            r.base.fact.lineage_set() == set![fact@],
            r.base.name@ == self.name@,
            opt_model(r.default) == opt_model(self.default),
    {
        Attribute {
            base: AttributeBase { fact: FactRef::new(fact), name: self.name.clone() },
            default: clone_opt_value(&self.default),
        }
    }

    /// The scheme as a plain [`AttributeSchemeBase`].
    pub fn as_base(&self) -> (r: AttributeSchemeBase)
        ensures
            r is Single,
            r->Single_0.name@ == self.name@,
            opt_model(r->Single_0.default) == opt_model(self.default),
    {
        AttributeSchemeBase::Single(self.copy())
    }
}

/// Scheme of a repeatable attribute; it has no default value.
#[derive(Debug, Clone, PartialEq, Eq)]
pub struct RepeatableAttributeScheme {
    /// Name of the attribute.
    pub name: String,
}

impl RepeatableAttributeScheme {
    /// The repeatable scheme of a plain scheme without default.
    pub fn new(attribute: &AttributeScheme) -> (r: RepeatableAttributeScheme)
        requires
            attribute.default is None,
        ensures
            r.name@ == attribute.name@,
    {
        RepeatableAttributeScheme { name: attribute.name.clone() }
    }

    /// The repeatable attribute of this scheme on the fact named `fact`.
    pub fn construct(&self, fact: &str) -> (r: RepeatableAttribute)
        ensures
            r.base.fact.name@ == fact@,
            r.base.fact.lineage_set() == set![fact@],
            r.base.name@ == self.name@,
    {
        RepeatableAttribute { base: AttributeBase { fact: FactRef::new(fact), name: self.name.clone() } }
    }

    /// The scheme as a repeatable [`AttributeSchemeBase`].
    pub fn as_base(&self) -> (r: AttributeSchemeBase)
        ensures
            r is Repeatable,
            r->Repeatable_0.name@ == self.name@,
    {
        AttributeSchemeBase::Repeatable(RepeatableAttributeScheme { name: self.name.clone() })
    }
}

/// The label `Fact.field`.
pub open spec fn spec_label(fact: Seq<char>, name: Seq<char>) -> Seq<char> {
    fact + seq!['.'] + name
}

/// Fact and field name of an attribute.
#[derive(Debug, Clone, PartialEq, Eq)]
pub struct AttributeBase {
    /// Fact that owns the attribute.
    pub fact: FactRef,
    /// Name of the field.
    pub name: String,
}

impl AttributeBase {
    /// Creates the base of an attribute of the fact named `fact`.
    pub fn new(fact: &str, name: &str) -> (r: AttributeBase)
        ensures
            r.fact.name@ == fact@,
            r.fact.lineage_set() == set![fact@],
            r.name@ == name@,
    {
        AttributeBase { fact: FactRef::new(fact), name: string_of(name) }
    }

    /// The label `Fact.field`.
    pub fn label(&self) -> (r: String)
        ensures
            r@ == spec_label(self.fact.name@, self.name@),
    {
        let mut label = self.fact.name.clone();
        label.append(".");
        label.append(self.name.as_str());
        proof {
            reveal_strlit(".");
            assert(label@ =~= spec_label(self.fact.name@, self.name@));
        }
        label
    }

    /// Field-by-field copy.
    pub fn copy(&self) -> (r: AttributeBase)
        ensures
            r.fact.name@ == self.fact.name@,
            string_views(r.fact.lineage@) == string_views(self.fact.lineage@),
            r.name@ == self.name@,
    {
        AttributeBase { fact: self.fact.copy(), name: self.name.clone() }
    }
}

/// A plain attribute of a fact.
#[derive(Debug, Clone, PartialEq)]
pub struct Attribute {
    /// Fact and field name.
    pub base: AttributeBase,
    /// Default value.
    pub default: Option<FactValue>,
}

impl Attribute {
    /// Creates an attribute of the fact named `fact`.
    pub fn new(fact: &str, name: &str, default: Option<FactValue>) -> (r: Attribute)
        ensures
            r.base.fact.name@ == fact@,
            r.base.fact.lineage_set() == set![fact@],
            r.base.name@ == name@,
            r.default == default,
    {
        Attribute { base: AttributeBase::new(fact, name), default }
    }

    /// Field-by-field copy.
    pub fn copy(&self) -> (r: Attribute)
        ensures
            r.base.fact.name@ == self.base.fact.name@,
            string_views(r.base.fact.lineage@) == string_views(self.base.fact.lineage@),
            r.base.name@ == self.base.name@,
            opt_model(r.default) == opt_model(self.default),
    {
        Attribute { base: self.base.copy(), default: clone_opt_value(&self.default) }
    }

    /// Fact and field name.
    pub fn base(&self) -> (r: &AttributeBase)
        ensures
            *r == self.base,
    {
        &self.base
    }

    /// Fact of the attribute.
    pub fn fact(&self) -> (r: &FactRef)
        ensures
            *r == self.base.fact,
    {
        &self.base.fact
    }

    /// Name of the attribute.
    pub fn name(&self) -> (r: &str)
        ensures
            r@ == self.base.name@,
    {
        self.base.name.as_str()
    }

    /// The label `Fact.field`.
    pub fn label(&self) -> (r: String)
        ensures
            r@ == spec_label(self.base.fact.name@, self.base.name@),
    {
        self.base.label()
    }

    /// Copy of the default value.
    pub fn default_value(&self) -> (r: Option<FactValue>)
        ensures
            opt_model(r) == opt_model(self.default),
    {
        clone_opt_value(&self.default)
    }

    /// The default value.
    pub fn default_value_ref(&self) -> (r: Option<&FactValue>)
        ensures
            r == match self.default {
                Some(v) => Some(&v),
                None => None::<&FactValue>,
            },
    {
        self.default.as_ref()
    }

    /// `inflected()` with the default grammemes `nomn`, `sing`.
    pub fn inflected(self) -> (r: InflectedAttribute)
        ensures
            r.attribute == self,
            string_views(r.grams@) == default_inflected_grams(),
    {
        let mut grams: Vec<String> = Vec::new();
        grams.push(string_of("nomn"));
        grams.push(string_of("sing"));
        proof {
            assert(string_views(grams@) =~= default_inflected_grams());
        }
        InflectedAttribute { attribute: self, grams }
    }

    /// `inflected(grams)`: the grammemes, sorted and without duplicates.
    pub fn inflected_with(self, grams: &[&str]) -> (r: InflectedAttribute)
        ensures
            r.attribute == self,
            strictly_sorted(string_views(r.grams@)),
            string_views(r.grams@).to_set() == grams@.map_values(|s: &str| s@).to_set(),
    {
        InflectedAttribute { attribute: self, grams: sorted_unique_strings(grams) }
    }

    /// `normalized()`.
    pub fn normalized(self) -> (r: NormalizedAttribute)
        ensures
            r.attribute == self,
    {
        NormalizedAttribute { attribute: self }
    }

    /// `const(value)`.
    pub fn constant<T>(self, value: T) -> (r: ConstAttribute<T>)
        ensures
            r.attribute == self,
            r.value == value,
    {
        ConstAttribute { attribute: self, value }
    }

    /// `custom(function)`.
    pub fn custom<F>(self, function: F) -> (r: FunctionAttribute<F>)
        ensures
            r.attribute == self,
            r.function == function,
    {
        FunctionAttribute { attribute: self, function }
    }
}

/// A repeatable attribute of a fact.
#[derive(Debug, Clone, PartialEq, Eq)]
pub struct RepeatableAttribute {
    /// Fact and field name.
    pub base: AttributeBase,
}

impl RepeatableAttribute {
    /// Creates a repeatable attribute of the fact named `fact`.
    pub fn new(fact: &str, name: &str) -> (r: RepeatableAttribute)
        ensures
            r.base.fact.name@ == fact@,
            r.base.fact.lineage_set() == set![fact@],
            r.base.name@ == name@,
    {
        RepeatableAttribute { base: AttributeBase::new(fact, name) }
    }

    /// Fact and field name.
    pub fn base(&self) -> (r: &AttributeBase)
        ensures
            *r == self.base,
    {
        &self.base
    }

    /// Fact of the attribute.
    pub fn fact(&self) -> (r: &FactRef)
        ensures
            *r == self.base.fact,
    {
        &self.base.fact
    }

    /// Name of the attribute.
    pub fn name(&self) -> (r: &str)
        ensures
            r@ == self.base.name@,
    {
        self.base.name.as_str()
    }

    /// The label `Fact.field`.
    pub fn label(&self) -> (r: String)
        ensures
            r@ == spec_label(self.base.fact.name@, self.base.name@),
    {
        self.base.label()
    }
}

/// Kind of interpretator an attribute needs.
#[derive(Debug, Clone, Copy, PartialEq, Eq, Structural)]
pub enum AttributeInterpretatorKind {
    /// The value is assigned as it is.
    AttributeOnly,
    /// The value goes through a normalizer first.
    AttributeAndNormalizer,
}

/// Which interpretator an attribute needs.
pub trait InterpretatorDispatch {
    /// Kind of interpretator for this attribute.
    fn interpretator_kind(&self) -> AttributeInterpretatorKind;
}

/// An attribute with a morphological normalization step.
pub trait MorphAttribute: InterpretatorDispatch {
    /// Model of the underlying attribute.
    spec fn morph_attribute_model(&self) -> Attribute;

    /// The underlying attribute.
    fn attribute(&self) -> (r: &Attribute)
        ensures
            *r == self.morph_attribute_model(),
    ;

    /// The label `Fact.field`.
    fn label(&self) -> (r: String)
        ensures
            r@ == spec_label(
                self.morph_attribute_model().base.fact.name@,
                self.morph_attribute_model().base.name@,
            ),
    {
        self.attribute().label()
    }
}

/// An attribute with a custom normalization step.
pub trait CustomAttribute: InterpretatorDispatch {
    /// Model of the underlying attribute.
    spec fn custom_attribute_model(&self) -> Attribute;

    /// The underlying attribute.
    fn attribute(&self) -> (r: &Attribute)
        ensures
            *r == self.custom_attribute_model(),
    ;

    /// The label `Fact.field`.
    fn label(&self) -> (r: String)
        ensures
            r@ == spec_label(
                self.custom_attribute_model().base.fact.name@,
                self.custom_attribute_model().base.name@,
            ),
    {
        self.attribute().label()
    }
}

impl InterpretatorDispatch for Attribute {
    fn interpretator_kind(&self) -> (r: AttributeInterpretatorKind)
        ensures
            r == AttributeInterpretatorKind::AttributeOnly,
    {
        AttributeInterpretatorKind::AttributeOnly
    }
}

impl InterpretatorDispatch for RepeatableAttribute {
    fn interpretator_kind(&self) -> (r: AttributeInterpretatorKind)
        ensures
            r == AttributeInterpretatorKind::AttributeOnly,
    {
        AttributeInterpretatorKind::AttributeOnly
    }
}

/// `attribute.inflected(grams)`.
#[derive(Debug, Clone, PartialEq)]
pub struct InflectedAttribute {
    /// The attribute.
    pub attribute: Attribute,
    /// Grammemes of the inflection, sorted.
    pub grams: Vec<String>,
}

impl InflectedAttribute {
    /// Creates the inflected attribute; the grammemes are kept sorted and unique.
    pub fn new(attribute: Attribute, grams: Vec<String>) -> (r: InflectedAttribute)
        ensures
            r.attribute == attribute,
            strictly_sorted(string_views(r.grams@)),
            string_views(r.grams@).to_set() == string_views(grams@).to_set(),
    {
        let mut sorted: Vec<String> = Vec::new();
        let ghost src = string_views(grams@);
        let mut i: usize = 0;
        proof { assert(string_views(sorted@).to_set() =~= src.take(0).to_set()); }
        while i < grams.len()
            invariant
                i <= grams@.len(),
                src == string_views(grams@),
                strictly_sorted(string_views(sorted@)),
                string_views(sorted@).to_set() == src.take(i as int).to_set(),
            decreases grams@.len() - i,
        {
            insert_sorted_unique(&mut sorted, grams[i].clone());
            proof {
                assert(src.take(i + 1) =~= src.take(i as int).push(src[i as int]));
                src.take(i as int).lemma_push_to_set_commute(src[i as int]);
            }
            i += 1;
        }
        assert(src.take(grams@.len() as int) =~= src);
        InflectedAttribute { attribute, grams: sorted }
    }

    /// Adds a custom function after the inflection.
    pub fn custom<F>(self, function: F) -> (r: InflectedFunctionAttribute<F>)
        ensures
            r.attribute == self.attribute,
            r.grams == self.grams,
            r.function == function,
    {
        InflectedFunctionAttribute { attribute: self.attribute, grams: self.grams, function }
    }

    /// The matching normalizer.
    pub fn normalizer(self) -> (r: InflectedNormalizer)
        ensures
            r.grams == Some(self.grams),
    {
        InflectedNormalizer { grams: Some(self.grams) }
    }
}

impl InterpretatorDispatch for InflectedAttribute {
    fn interpretator_kind(&self) -> (r: AttributeInterpretatorKind)
        ensures
            r == AttributeInterpretatorKind::AttributeAndNormalizer,
    {
        AttributeInterpretatorKind::AttributeAndNormalizer
    }
}

impl MorphAttribute for InflectedAttribute {
    open spec fn morph_attribute_model(&self) -> Attribute {
        self.attribute
    }

    fn attribute(&self) -> (r: &Attribute)
    {
        &self.attribute
    }
}

/// `attribute.normalized()`.
#[derive(Debug, Clone, PartialEq)]
pub struct NormalizedAttribute {
    /// The attribute.
    pub attribute: Attribute,
}

impl NormalizedAttribute {
    /// Creates the normalized attribute.
    pub fn new(attribute: Attribute) -> (r: NormalizedAttribute)
        ensures
            r.attribute == attribute,
    {
        NormalizedAttribute { attribute }
    }

    /// Adds a custom function after `normalized()`.
    pub fn custom<F>(self, function: F) -> (r: NormalizedFunctionAttribute<F>)
        ensures
            r.attribute == self.attribute,
            r.function == function,
    {
        NormalizedFunctionAttribute { attribute: self.attribute, function }
    }

    /// The matching normalizer.
    pub fn normalizer(self) -> (r: NormalizedNormalizer) {
        NormalizedNormalizer
    }
}

impl InterpretatorDispatch for NormalizedAttribute {
    fn interpretator_kind(&self) -> (r: AttributeInterpretatorKind)
        ensures
            r == AttributeInterpretatorKind::AttributeAndNormalizer,
    {
        AttributeInterpretatorKind::AttributeAndNormalizer
    }
}

impl MorphAttribute for NormalizedAttribute {
    open spec fn morph_attribute_model(&self) -> Attribute {
        self.attribute
    }

    fn attribute(&self) -> (r: &Attribute)
    {
        &self.attribute
    }
}

/// `attribute.const(value)`.
pub struct ConstAttribute<T> {
    /// The attribute.
    pub attribute: Attribute,
    /// The constant.
    pub value: T,
}

impl<T> ConstAttribute<T> {
    /// Creates the constant attribute.
    pub fn new(attribute: Attribute, value: T) -> (r: ConstAttribute<T>)
        ensures
            r.attribute == attribute,
            r.value == value,
    {
        ConstAttribute { attribute, value }
    }

    /// The matching normalizer.
    pub fn normalizer(self) -> (r: ConstNormalizer<T>)
        ensures
            r.value == self.value,
    {
        ConstNormalizer { value: self.value }
    }
}

impl<T> InterpretatorDispatch for ConstAttribute<T> {
    fn interpretator_kind(&self) -> (r: AttributeInterpretatorKind)
        ensures
            r == AttributeInterpretatorKind::AttributeAndNormalizer,
    {
        AttributeInterpretatorKind::AttributeAndNormalizer
    }
}

impl<T> CustomAttribute for ConstAttribute<T> {
    open spec fn custom_attribute_model(&self) -> Attribute {
        self.attribute
    }

    fn attribute(&self) -> (r: &Attribute)
    {
        &self.attribute
    }
}

/// `attribute.custom(function)`.
pub struct FunctionAttribute<F> {
    /// The attribute.
    pub attribute: Attribute,
    /// The function.
    pub function: F,
}

impl<F> FunctionAttribute<F> {
    /// Creates the custom attribute.
    pub fn new(attribute: Attribute, function: F) -> (r: FunctionAttribute<F>)
        ensures
            r.attribute == attribute,
            r.function == function,
    {
        FunctionAttribute { attribute, function }
    }

    /// `custom(first).custom(second)`.
    pub fn custom<G>(self, function: G) -> (r: FunctionFunctionAttribute<F, G>)
        ensures
            r.attribute == self.attribute,
            r.first == self.function,
            r.second == function,
    {
        FunctionFunctionAttribute { attribute: self.attribute, first: self.function, second: function }
    }

    /// The matching normalizer.
    pub fn normalizer(self) -> (r: FunctionNormalizer<F>)
        ensures
            r.function == self.function,
    {
        FunctionNormalizer { function: self.function }
    }
}

impl<F> InterpretatorDispatch for FunctionAttribute<F> {
    fn interpretator_kind(&self) -> (r: AttributeInterpretatorKind)
        ensures
            r == AttributeInterpretatorKind::AttributeAndNormalizer,
    {
        AttributeInterpretatorKind::AttributeAndNormalizer
    }
}

impl<F> CustomAttribute for FunctionAttribute<F> {
    open spec fn custom_attribute_model(&self) -> Attribute {
        self.attribute
    }

    fn attribute(&self) -> (r: &Attribute)
    {
        &self.attribute
    }
}

/// `attribute.custom(first).custom(second)`.
pub struct FunctionFunctionAttribute<F, G> {
    /// The attribute.
    pub attribute: Attribute,
    /// The first function.
    pub first: F,
    /// The second function, applied to the first one's result.
    pub second: G,
}

impl<F, G> FunctionFunctionAttribute<F, G> {
    /// Creates the chained attribute.
    pub fn new(attribute: Attribute, first: F, second: G) -> (r: FunctionFunctionAttribute<F, G>)
        ensures
            r.attribute == attribute,
            r.first == first,
            r.second == second,
    {
        FunctionFunctionAttribute { attribute, first, second }
    }

    /// The matching normalizer.
    pub fn normalizer(self) -> (r: FunctionFunctionNormalizer<F, G>)
        ensures
            r.first == self.first,
            r.second == self.second,
    {
        FunctionFunctionNormalizer { first: self.first, second: self.second }
    }
}

impl<F, G> InterpretatorDispatch for FunctionFunctionAttribute<F, G> {
    fn interpretator_kind(&self) -> (r: AttributeInterpretatorKind)
        ensures
            r == AttributeInterpretatorKind::AttributeAndNormalizer,
    {
        AttributeInterpretatorKind::AttributeAndNormalizer
    }
}

impl<F, G> CustomAttribute for FunctionFunctionAttribute<F, G> {
    open spec fn custom_attribute_model(&self) -> Attribute {
        self.attribute
    }

    fn attribute(&self) -> (r: &Attribute)
    {
        &self.attribute
    }
}

/// `attribute.inflected(grams).custom(function)`.
pub struct InflectedFunctionAttribute<F> {
    /// The attribute.
    pub attribute: Attribute,
    /// Grammemes of the inflection.
    pub grams: Vec<String>,
    /// The function applied after the inflection.
    pub function: F,
}

impl<F> InflectedFunctionAttribute<F> {
    /// Creates the attribute.
    pub fn new(attribute: Attribute, grams: Vec<String>, function: F) -> (r: InflectedFunctionAttribute<F>)
        ensures
            r.attribute == attribute,
            r.grams == grams,
            r.function == function,
    {
        InflectedFunctionAttribute { attribute, grams, function }
    }

    /// The matching normalizer.
    pub fn normalizer(self) -> (r: MorphFunctionNormalizer<InflectedNormalizer, F>)
        ensures
            r.morph.grams == Some(self.grams),
            r.function == self.function,
    {
        MorphFunctionNormalizer { morph: InflectedNormalizer { grams: Some(self.grams) }, function: self.function }
    }
}

impl<F> InterpretatorDispatch for InflectedFunctionAttribute<F> {
    fn interpretator_kind(&self) -> (r: AttributeInterpretatorKind)
        ensures
            r == AttributeInterpretatorKind::AttributeAndNormalizer,
    {
        AttributeInterpretatorKind::AttributeAndNormalizer
    }
}

impl<F> MorphAttribute for InflectedFunctionAttribute<F> {
    open spec fn morph_attribute_model(&self) -> Attribute {
        self.attribute
    }

    fn attribute(&self) -> (r: &Attribute)
    {
        &self.attribute
    }
}

impl<F> CustomAttribute for InflectedFunctionAttribute<F> {
    open spec fn custom_attribute_model(&self) -> Attribute {
        self.attribute
    }

    fn attribute(&self) -> (r: &Attribute)
    {
        &self.attribute
    }
}

/// `attribute.normalized().custom(function)`.
pub struct NormalizedFunctionAttribute<F> {
    /// The attribute.
    pub attribute: Attribute,
    /// The function applied after `normalized()`.
    pub function: F,
}

impl<F> NormalizedFunctionAttribute<F> {
    /// Creates the attribute.
    pub fn new(attribute: Attribute, function: F) -> (r: NormalizedFunctionAttribute<F>)
        ensures
            r.attribute == attribute,
            r.function == function,
    {
        NormalizedFunctionAttribute { attribute, function }
    }

    /// The matching normalizer.
    pub fn normalizer(self) -> (r: MorphFunctionNormalizer<NormalizedNormalizer, F>)
        ensures
            r.function == self.function,
    {
        MorphFunctionNormalizer { morph: NormalizedNormalizer, function: self.function }
    }
}

impl<F> InterpretatorDispatch for NormalizedFunctionAttribute<F> {
    fn interpretator_kind(&self) -> (r: AttributeInterpretatorKind)
        ensures
            r == AttributeInterpretatorKind::AttributeAndNormalizer,
    {
        AttributeInterpretatorKind::AttributeAndNormalizer
    }
}

impl<F> MorphAttribute for NormalizedFunctionAttribute<F> {
    open spec fn morph_attribute_model(&self) -> Attribute {
        self.attribute
    }

    fn attribute(&self) -> (r: &Attribute)
    {
        &self.attribute
    }
}

impl<F> CustomAttribute for NormalizedFunctionAttribute<F> {
    open spec fn custom_attribute_model(&self) -> Attribute {
        self.attribute
    }

    fn attribute(&self) -> (r: &Attribute)
    {
        &self.attribute
    }
}

/// `attribute(name)`: a plain scheme without default.
pub fn attribute(name: &str) -> (r: AttributeScheme)
    ensures
        r.name@ == name@,
        r.default is None,
{
    AttributeScheme::new(name, None)
}

/// A plain scheme with a default value.
pub fn attribute_with_default(name: &str, default: FactValue) -> (r: AttributeScheme)
    ensures
        r.name@ == name@,
        r.default == Some(default),
{
    AttributeScheme::new(name, Some(default))
}

} // verus!
