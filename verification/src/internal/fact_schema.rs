//! Fact schemes and fact records.
//!
//! A scheme names a fact, its ancestors and its attributes in order; a record holds the
//! value of each attribute and, when it comes from an interpretation, the JSON-like
//! projection and spans computed there.
use vstd::prelude::*;

use crate::interpretation::attribute::{
    opt_model, Attribute, AttributeScheme, AttributeSchemeBase, RepeatableAttribute,
    RepeatableAttributeScheme,
};
use crate::interpretation::value::{pairs_model, repr_chars, FactVal, FactValue};
use crate::span::{spans_sorted_by_start, Span};
use crate::text::{insert_sorted_unique, str_eq, string_of, string_views, strictly_sorted};

verus! {

broadcast use vstd::std_specs::vec::axiom_vec_index_decreases;

/// Errors of operations on facts.
#[derive(Debug, Clone, PartialEq, Eq)]
pub enum FactError {
    /// No attribute has this name.
    KeyError(String),
}

impl FactError {
    /// Text of the error, `KeyError(name)`.
    pub fn to_string(&self) -> (r: String)
        ensures
            r@ == "KeyError("@ + self->KeyError_0@ + ")"@,
    {
        match self {
            FactError::KeyError(key) => {
                let mut out = string_of("KeyError(");
                out.append(key.as_str());
                out.append(")");
                out
            },
        }
    }
}

/// What `prepare_attribute` accepts.
#[derive(Debug, Clone, PartialEq)]
pub enum FactAttributeInput {
    /// The name of a plain attribute without default.
    Name(String),
    /// The scheme of a plain attribute.
    Scheme(AttributeScheme),
    /// The scheme of a repeatable attribute.
    RepeatableScheme(RepeatableAttributeScheme),
    /// A scheme of either kind.
    Base(AttributeSchemeBase),
}

impl<'a> From<&'a str> for FactAttributeInput {
    fn from(value: &'a str) -> FactAttributeInput {
        FactAttributeInput::Name(string_of(value))
    }
}

impl<'a> vstd::std_specs::convert::FromSpecImpl<&'a str> for FactAttributeInput {
    /// A spec function cannot build the string; `Name` of the same text is returned.
    open spec fn obeys_from_spec() -> bool {
        false
    }

    open spec fn from_spec(value: &'a str) -> FactAttributeInput {
        FactAttributeInput::Name(arbitrary())
    }
}

impl From<String> for FactAttributeInput {
    fn from(value: String) -> (r: FactAttributeInput)
        ensures
            r == FactAttributeInput::Name(value),
    {
        FactAttributeInput::Name(value)
    }
}

impl vstd::std_specs::convert::FromSpecImpl<String> for FactAttributeInput {
    open spec fn obeys_from_spec() -> bool {
        true
    }

    open spec fn from_spec(value: String) -> FactAttributeInput {
        FactAttributeInput::Name(value)
    }
}

impl From<AttributeScheme> for FactAttributeInput {
    fn from(value: AttributeScheme) -> (r: FactAttributeInput)
        ensures
            r == FactAttributeInput::Scheme(value),
    {
        FactAttributeInput::Scheme(value)
    }
}

impl vstd::std_specs::convert::FromSpecImpl<AttributeScheme> for FactAttributeInput {
    open spec fn obeys_from_spec() -> bool {
        true
    }

    open spec fn from_spec(value: AttributeScheme) -> FactAttributeInput {
        FactAttributeInput::Scheme(value)
    }
}

impl From<RepeatableAttributeScheme> for FactAttributeInput {
    fn from(value: RepeatableAttributeScheme) -> (r: FactAttributeInput)
        ensures
            r == FactAttributeInput::RepeatableScheme(value),
    {
        FactAttributeInput::RepeatableScheme(value)
    }
}

impl vstd::std_specs::convert::FromSpecImpl<RepeatableAttributeScheme> for FactAttributeInput {
    open spec fn obeys_from_spec() -> bool {
        true
    }

    open spec fn from_spec(value: RepeatableAttributeScheme) -> FactAttributeInput {
        FactAttributeInput::RepeatableScheme(value)
    }
}

impl From<AttributeSchemeBase> for FactAttributeInput {
    fn from(value: AttributeSchemeBase) -> (r: FactAttributeInput)
        ensures
            r == FactAttributeInput::Base(value),
    {
        FactAttributeInput::Base(value)
    }
}

impl vstd::std_specs::convert::FromSpecImpl<AttributeSchemeBase> for FactAttributeInput {
    open spec fn obeys_from_spec() -> bool {
        true
    }

    open spec fn from_spec(value: AttributeSchemeBase) -> FactAttributeInput {
        FactAttributeInput::Base(value)
    }
}

/// A prepared attribute scheme, the result of `prepare_attribute`.
#[derive(Debug, Clone, PartialEq)]
pub enum PreparedAttributeScheme {
    /// A plain attribute.
    Single(AttributeScheme),
    /// A repeatable attribute.
    Repeatable(RepeatableAttributeScheme),
}

/// The prepared scheme of an input.
pub open spec fn spec_prepare(item: FactAttributeInput) -> PreparedAttributeScheme {
    match item {
        FactAttributeInput::Name(name) => PreparedAttributeScheme::Single(
            AttributeScheme { name, default: None },
        ),
        FactAttributeInput::Scheme(s) => PreparedAttributeScheme::Single(s),
        FactAttributeInput::RepeatableScheme(s) => PreparedAttributeScheme::Repeatable(s),
        FactAttributeInput::Base(AttributeSchemeBase::Single(s)) => PreparedAttributeScheme::Single(s),
        FactAttributeInput::Base(AttributeSchemeBase::Repeatable(s)) => PreparedAttributeScheme::Repeatable(
            s,
        ),
    }
}

/// `c` is the attribute that the prepared scheme `p` constructs on the fact named `fact`.
pub open spec fn constructed_from(c: ConstructedAttribute, p: PreparedAttributeScheme, fact: Seq<char>) -> bool {
    match (c, p) {
        (ConstructedAttribute::Single(a), PreparedAttributeScheme::Single(s)) => {
            &&& a.base.fact.name@ == fact
            &&& a.base.fact.lineage_set() == set![fact]
            &&& a.base.name@ == s.name@
            &&& opt_model(a.default) == opt_model(s.default)
        },
        (ConstructedAttribute::Repeatable(a), PreparedAttributeScheme::Repeatable(s)) => {
            &&& a.base.fact.name@ == fact
            &&& a.base.fact.lineage_set() == set![fact]
            &&& a.base.name@ == s.name@
        },
        _ => false,
    }
}

impl PreparedAttributeScheme {
    /// Name of the attribute, as a model.
    pub open spec fn name_model(&self) -> Seq<char> {
        match self {
            PreparedAttributeScheme::Single(s) => s.name@,
            PreparedAttributeScheme::Repeatable(s) => s.name@,
        }
    }

    /// Name of the attribute.
    pub fn name(&self) -> (r: &str)
        ensures
            r@ == self.name_model(),
    {
        match self {
            PreparedAttributeScheme::Single(scheme) => scheme.name.as_str(),
            PreparedAttributeScheme::Repeatable(scheme) => scheme.name.as_str(),
        }
    }

    /// The attribute of this scheme on the fact named `fact_name`.
    pub fn construct(&self, fact_name: &str) -> (r: ConstructedAttribute)
        ensures
            constructed_from(r, *self, fact_name@),
    {
        match self {
            PreparedAttributeScheme::Single(scheme) => ConstructedAttribute::Single(scheme.construct(fact_name)),
            PreparedAttributeScheme::Repeatable(scheme) => ConstructedAttribute::Repeatable(
                scheme.construct(fact_name),
            ),
        }
    }
}

/// An attribute of a fact scheme.
#[derive(Debug, Clone, PartialEq)]
pub enum ConstructedAttribute {
    /// A plain attribute.
    Single(Attribute),
    /// A repeatable attribute.
    Repeatable(RepeatableAttribute),
}

/// Two constructed attributes hold the same texts and values.
pub open spec fn same_attribute(a: ConstructedAttribute, b: ConstructedAttribute) -> bool {
    match (a, b) {
        (ConstructedAttribute::Single(x), ConstructedAttribute::Single(y)) => {
            &&& x.base.fact.name@ == y.base.fact.name@
            &&& string_views(x.base.fact.lineage@) == string_views(y.base.fact.lineage@)
            &&& x.base.name@ == y.base.name@
            &&& opt_model(x.default) == opt_model(y.default)
        },
        (ConstructedAttribute::Repeatable(x), ConstructedAttribute::Repeatable(y)) => {
            &&& x.base.fact.name@ == y.base.fact.name@
            &&& string_views(x.base.fact.lineage@) == string_views(y.base.fact.lineage@)
            &&& x.base.name@ == y.base.name@
        },
        _ => false,
    }
}

impl ConstructedAttribute {
    /// Name of the attribute, as a model.
    pub open spec fn name_model(&self) -> Seq<char> {
        match self {
            ConstructedAttribute::Single(a) => a.base.name@,
            ConstructedAttribute::Repeatable(a) => a.base.name@,
        }
    }

    /// Value of the attribute when nothing was given: the default of a plain attribute, an
    /// empty list for a repeatable one.
    pub open spec fn default_model(&self) -> Option<FactVal> {
        match self {
            ConstructedAttribute::Single(a) => opt_model(a.default),
            ConstructedAttribute::Repeatable(_) => Some(FactVal::List(Seq::empty())),
        }
    }

    /// The stored default: that of a plain attribute, none for a repeatable one.
    pub open spec fn default_ref_model(&self) -> Option<FactVal> {
        match self {
            ConstructedAttribute::Single(a) => opt_model(a.default),
            ConstructedAttribute::Repeatable(_) => None,
        }
    }

    /// Name of the attribute.
    pub fn name(&self) -> (r: &str)
        ensures
            r@ == self.name_model(),
    {
        match self {
            ConstructedAttribute::Single(attribute) => attribute.name(),
            ConstructedAttribute::Repeatable(attribute) => attribute.name(),
        }
    }

    /// `true` for a repeatable attribute.
    pub fn is_repeatable(&self) -> (r: bool)
        ensures
            r == (self is Repeatable),
    {
        match self {
            ConstructedAttribute::Single(_) => false,
            ConstructedAttribute::Repeatable(_) => true,
        }
    }

    /// Value when nothing was given: the default, or an empty list for a repeatable attribute.
    pub fn default_value(&self) -> (r: Option<FactValue>)
        ensures
            opt_model(r) == self.default_model(),
    {
        match self {
            ConstructedAttribute::Single(attribute) => attribute.default_value(),
            ConstructedAttribute::Repeatable(_) => {
                let empty: Vec<FactValue> = Vec::new();
                proof {
                    crate::interpretation::value::lemma_list_model(empty);
                    assert(crate::interpretation::value::values_model(empty@) =~= Seq::<FactVal>::empty());
                }
                let r = FactValue::List(empty);
                Some(r)
            },
        }
    }

    /// The stored default: that of a plain attribute, none for a repeatable one.
    pub fn default_value_ref(&self) -> (r: Option<&FactValue>)
        ensures
            match r {
                Some(v) => self.default_ref_model() == Some(v@),
                None => self.default_ref_model() is None,
            },
    {
        match self {
            ConstructedAttribute::Single(attribute) => attribute.default_value_ref(),
            ConstructedAttribute::Repeatable(_) => None,
        }
    }

    /// Field-by-field copy.
    pub fn copy(&self) -> (r: ConstructedAttribute)
        ensures
            same_attribute(r, *self),
    {
        match self {
            ConstructedAttribute::Single(attribute) => ConstructedAttribute::Single(attribute.copy()),
            ConstructedAttribute::Repeatable(attribute) => ConstructedAttribute::Repeatable(
                RepeatableAttribute { base: attribute.base.copy() },
            ),
        }
    }
}

/// Names of a sequence of attributes.
pub open spec fn attribute_names(attrs: Seq<ConstructedAttribute>) -> Seq<Seq<char>> {
    attrs.map_values(|a: ConstructedAttribute| a.name_model())
}

/// Index of the first occurrence of `key` in `s`, or -1.
pub open spec fn first_index(s: Seq<Seq<char>>, key: Seq<char>) -> int
    decreases s.len(),
{
    if s.len() == 0 {
        -1
    } else if s[0] == key {
        0
    } else {
        let r = first_index(s.drop_first(), key);
        if r < 0 { -1 } else { r + 1 }
    }
}

/// `first_index` finds the first occurrence and nothing else.
pub proof fn lemma_first_index(s: Seq<Seq<char>>, key: Seq<char>)
    ensures
        -1 <= first_index(s, key) < s.len(),
        first_index(s, key) == -1 <==> !s.contains(key),
        first_index(s, key) >= 0 ==> s[first_index(s, key)] == key,
        forall|j: int| 0 <= j < first_index(s, key) ==> s[j] != key,
        first_index(s, key) == -1 ==> forall|j: int| 0 <= j < s.len() ==> s[j] != key,
    decreases s.len(),
{
    if s.len() > 0 {
        lemma_first_index(s.drop_first(), key);
        if s[0] != key {
            assert forall|j: int| 0 < j < s.len() implies s[j] == s.drop_first()[j - 1] by {}
            if s.drop_first().contains(key) {
                let k = choose|k: int| 0 <= k < s.drop_first().len() && s.drop_first()[k] == key;
                assert(s[k + 1] == key);
            }
            if s.contains(key) {
                let k = choose|k: int| 0 <= k < s.len() && s[k] == key;
                assert(s.drop_first()[k - 1] == key);
            }
        }
    }
}

/// A fact scheme: a name, the names of its ancestors (itself included) and its attributes
/// in order.
#[derive(Debug, Clone, PartialEq)]
pub struct FactScheme {
    /// Name of the fact.
    pub name: String,
    /// Names of the fact and of its ancestors, sorted.
    pub lineage: Vec<String>,
    /// Attributes in the order of projections.
    pub attributes: Vec<ConstructedAttribute>,
}

/// Two schemes hold the same texts and attributes.
pub open spec fn same_scheme(a: FactScheme, b: FactScheme) -> bool {
    &&& a.name@ == b.name@
    &&& string_views(a.lineage@) == string_views(b.lineage@)
    &&& a.attributes@.len() == b.attributes@.len()
    &&& forall|i: int| 0 <= i < a.attributes@.len() ==> #[trigger] same_attribute(a.attributes@[i], b.attributes@[i])
}

/// Same names and defaults follow from same attributes.
pub proof fn lemma_same_scheme_names(a: FactScheme, b: FactScheme)
    requires
        same_scheme(a, b),
    ensures
        a.names() == b.names(),
        forall|i: int| 0 <= i < a.attributes@.len() ==> (#[trigger] a.attributes@[i]).default_model() == b.attributes@[i].default_model()
            && a.attributes@[i].default_ref_model() == b.attributes@[i].default_ref_model()
            && (a.attributes@[i] is Repeatable <==> b.attributes@[i] is Repeatable),
{
    assert forall|i: int| 0 <= i < a.attributes@.len() implies a.names()[i] == b.names()[i] by {
        assert(same_attribute(a.attributes@[i], b.attributes@[i]));
    }
    assert(a.names() =~= b.names());
    assert forall|i: int| 0 <= i < a.attributes@.len() implies (#[trigger] a.attributes@[i]).default_model() == b.attributes@[i].default_model()
        && a.attributes@[i].default_ref_model() == b.attributes@[i].default_ref_model()
        && (a.attributes@[i] is Repeatable <==> b.attributes@[i] is Repeatable) by {
        assert(same_attribute(a.attributes@[i], b.attributes@[i]));
    }
}

/// `same_attribute` is symmetric and transitive.
pub proof fn lemma_same_attribute_trans(a: ConstructedAttribute, b: ConstructedAttribute, c: ConstructedAttribute)
    requires
        same_attribute(a, b),
        same_attribute(b, c),
    ensures
        same_attribute(a, c),
        same_attribute(b, a),
{
}

/// `same_scheme` is symmetric and transitive.
pub proof fn lemma_same_scheme_trans(a: FactScheme, b: FactScheme, c: FactScheme)
    requires
        same_scheme(a, b),
        same_scheme(b, c),
    ensures
        same_scheme(a, c),
        same_scheme(b, a),
{
    assert forall|i: int| 0 <= i < a.attributes@.len() implies #[trigger] same_attribute(a.attributes@[i], c.attributes@[i]) by {
        lemma_same_attribute_trans(a.attributes@[i], b.attributes@[i], c.attributes@[i]);
    }
    assert forall|i: int| 0 <= i < b.attributes@.len() implies #[trigger] same_attribute(b.attributes@[i], a.attributes@[i]) by {
        lemma_same_attribute_trans(a.attributes@[i], b.attributes@[i], c.attributes@[i]);
    }
}

/// A copy of a well-formed scheme is well formed.
pub proof fn lemma_same_scheme_wf(a: FactScheme, b: FactScheme)
    requires
        same_scheme(a, b),
        b.wf(),
    ensures
        a.wf(),
        a.names() == b.names(),
        a.lineage_set() == b.lineage_set(),
{
    lemma_same_scheme_names(a, b);
}

/// Record entries depend on the attributes only through their names and defaults.
pub proof fn lemma_record_entries_same(a: FactScheme, b: FactScheme, kw: Seq<(Seq<char>, FactVal)>)
    requires
        same_scheme(a, b),
    ensures
        record_entries(a.attributes@, kw) == record_entries(b.attributes@, kw),
        a.names() == b.names(),
{
    lemma_same_scheme_names(a, b);
    assert forall|i: int| 0 <= i < a.attributes@.len() implies #[trigger] a.attributes@[i].name_model() == b.attributes@[i].name_model() by {
        assert(a.names()[i] == b.names()[i]);
    }
    assert(record_entries(a.attributes@, kw) =~= record_entries(b.attributes@, kw));
}

impl FactScheme {
    /// Names of the attributes in order.
    pub open spec fn names(&self) -> Seq<Seq<char>> {
        attribute_names(self.attributes@)
    }

    /// Names of the fact and its ancestors, as a set.
    pub open spec fn lineage_set(&self) -> Set<Seq<char>> {
        string_views(self.lineage@).to_set()
    }

    /// No two attributes share a name, and the lineage is sorted.
    pub open spec fn wf(&self) -> bool {
        &&& self.names().no_duplicates()
        &&& strictly_sorted(string_views(self.lineage@))
    }

    /// An empty scheme named `name`, its own only ancestor.
    pub fn new(name: &str) -> (r: FactScheme)
        ensures
            r.name@ == name@,
            string_views(r.lineage@) == seq![name@],
            r.attributes@.len() == 0,
            r.wf(),
    {
        let mut lineage: Vec<String> = Vec::new();
        lineage.push(string_of(name));
        let attributes: Vec<ConstructedAttribute> = Vec::new();
        let r = FactScheme { name: string_of(name), lineage, attributes };
        proof {
            assert(string_views(r.lineage@) =~= seq![name@]);
            assert(r.names() =~= Seq::<Seq<char>>::empty());
        }
        r
    }

    /// The scheme with `parents` added to its ancestors.
    pub fn with_parents(self, parents: &[&str]) -> (r: FactScheme)
        requires
            self.wf(),
        ensures
            r.wf(),
            r.name == self.name,
            r.attributes == self.attributes,
            r.lineage_set() == self.lineage_set().union(parents@.map_values(|p: &str| p@).to_set()),
    {
        let mut scheme = self;
        let ghost src = parents@.map_values(|p: &str| p@);
        let ghost start = self.lineage_set();
        let mut i: usize = 0;
        proof {
            assert(start.union(src.take(0).to_set()) =~= start);
        }
        while i < parents.len()
            invariant
                i <= parents@.len(),
                src == parents@.map_values(|p: &str| p@),
                scheme.name == self.name,
                scheme.attributes == self.attributes,
                strictly_sorted(string_views(scheme.lineage@)),
                scheme.lineage_set() == start.union(src.take(i as int).to_set()),
            decreases parents@.len() - i,
        {
            insert_sorted_unique(&mut scheme.lineage, string_of(parents[i]));
            proof {
                assert(src.take(i + 1) =~= src.take(i as int).push(src[i as int]));
                src.take(i as int).lemma_push_to_set_commute(src[i as int]);
                assert(scheme.lineage_set() =~= start.union(src.take(i + 1).to_set()));
            }
            i += 1;
        }
        assert(src.take(parents@.len() as int) =~= src);
        scheme
    }

    /// `true` when `other` is this fact or one of its ancestors.
    pub fn is_subclass_of(&self, other: &FactScheme) -> (r: bool)
        ensures
            r == self.lineage_set().contains(other.name@),
    {
        let r = crate::text::contains_string(&self.lineage, other.name.as_str());
        proof {
            let sv = string_views(self.lineage@);
            assert(sv.contains(other.name@) == sv.to_set().contains(other.name@));
        }
        r
    }

    /// Index of the first attribute named `key`.
    pub(crate) fn index_of(&self, key: &str) -> (r: Option<usize>)
        ensures
            match r {
                Some(i) => i == first_index(self.names(), key@) && i < self.attributes@.len(),
                None => first_index(self.names(), key@) == -1,
            },
    {
        let ghost names = self.names();
        proof { lemma_first_index(names, key@); }
        let mut i: usize = 0;
        while i < self.attributes.len()
            invariant
                i <= self.attributes@.len(),
                names == self.names(),
                forall|j: int| 0 <= j < i ==> names[j] != key@,
                -1 <= first_index(names, key@) < names.len(),
                first_index(names, key@) >= 0 ==> names[first_index(names, key@)] == key@,
                forall|j: int| 0 <= j < first_index(names, key@) ==> names[j] != key@,
                first_index(names, key@) == -1 <==> !names.contains(key@),
            decreases self.attributes@.len() - i,
        {
            if str_eq(self.attributes[i].name(), key) {
                proof {
                    assert(names[i as int] == self.attributes@[i as int].name_model());
                    assert(names.contains(key@));
                }
                return Some(i);
            }
            assert(names[i as int] == self.attributes@[i as int].name_model());
            i += 1;
        }
        proof {
            if names.contains(key@) {
                let k = choose|k: int| 0 <= k < names.len() && names[k] == key@;
                assert(names[k] != key@);
            }
        }
        None
    }

    /// The first attribute named `key`.
    pub fn attribute(&self, key: &str) -> (r: Option<&ConstructedAttribute>)
        ensures
            match r {
                Some(a) => {
                    &&& 0 <= first_index(self.names(), key@)
                    &&& *a == self.attributes@[first_index(self.names(), key@)]
                },
                None => !self.names().contains(key@),
            },
    {
        proof { lemma_first_index(self.names(), key@); }
        match self.index_of(key) {
            Some(i) => Some(&self.attributes[i]),
            None => None,
        }
    }

    /// Field-by-field copy.
    pub fn copy(&self) -> (r: FactScheme)
        ensures
            same_scheme(r, *self),
    {
        let mut lineage: Vec<String> = Vec::new();
        let mut i: usize = 0;
        while i < self.lineage.len()
            invariant
                i <= self.lineage@.len(),
                lineage@.len() == i,
                forall|j: int| 0 <= j < i ==> #[trigger] lineage@[j]@ == self.lineage@[j]@,
            decreases self.lineage@.len() - i,
        {
            lineage.push(self.lineage[i].clone());
            i += 1;
        }
        let mut attributes: Vec<ConstructedAttribute> = Vec::new();
        let mut k: usize = 0;
        while k < self.attributes.len()
            invariant
                k <= self.attributes@.len(),
                attributes@.len() == k,
                forall|j: int| 0 <= j < k ==> #[trigger] same_attribute(attributes@[j], self.attributes@[j]),
            decreases self.attributes@.len() - k,
        {
            attributes.push(self.attributes[k].copy());
            k += 1;
        }
        assert(string_views(lineage@) =~= string_views(self.lineage@));
        FactScheme { name: self.name.clone(), lineage, attributes }
    }

    /// A record of this scheme built from named values; see [`FactRecord::try_new`].
    pub fn try_new_record(&self, kwargs: Vec<(String, FactValue)>) -> (r: Result<FactRecord, FactError>)
        ensures
            try_new_result(r, *self, pairs_model(kwargs@)),
    {
        let copy = self.copy();
        let r = FactRecord::try_new(copy, kwargs);
        proof {
            lemma_record_entries_same(copy, *self, pairs_model(kwargs@));
            if r is Ok {
                lemma_same_scheme_trans(r->Ok_0.scheme, copy, *self);
            }
        }
        r
    }

    /// Calls the fact class with named values: the same as [`FactScheme::try_new_record`].
    pub fn call(&self, kwargs: Vec<(String, FactValue)>) -> (r: Result<FactRecord, FactError>)
        ensures
            try_new_result(r, *self, pairs_model(kwargs@)),
    {
        self.try_new_record(kwargs)
    }
}

/// The first key of `kw` that is not among `names`.
pub open spec fn first_unknown(kw: Seq<(Seq<char>, FactVal)>, names: Seq<Seq<char>>) -> Option<Seq<char>>
    decreases kw.len(),
{
    if kw.len() == 0 {
        None
    } else if !names.contains(kw[0].0) {
        Some(kw[0].0)
    } else {
        first_unknown(kw.drop_first(), names)
    }
}

/// The value given for `key`: that of its first pair.
pub open spec fn kw_lookup(kw: Seq<(Seq<char>, FactVal)>, key: Seq<char>) -> Option<FactVal>
    decreases kw.len(),
{
    if kw.len() == 0 {
        None
    } else if kw[0].0 == key {
        Some(kw[0].1)
    } else {
        kw_lookup(kw.drop_first(), key)
    }
}

/// The value of each attribute: the one given, else its default.
pub open spec fn record_entries(attrs: Seq<ConstructedAttribute>, kw: Seq<(Seq<char>, FactVal)>) -> Seq<(Seq<char>, Option<FactVal>)> {
    Seq::new(
        attrs.len(),
        |i: int|
            (
                attrs[i].name_model(),
                match kw_lookup(kw, attrs[i].name_model()) {
                    Some(v) => Some(v),
                    None => attrs[i].default_model(),
                },
            ),
    )
}

/// What `FactRecord::try_new(scheme, kwargs)` returns: a `KeyError` for the first unknown key,
/// else a record of the scheme with the value of each attribute.
pub open spec fn try_new_result(r: Result<FactRecord, FactError>, scheme: FactScheme, kw: Seq<(Seq<char>, FactVal)>) -> bool {
    match first_unknown(kw, scheme.names()) {
        Some(k) => r is Err && r->Err_0->KeyError_0@ == k,
        None => {
            &&& r is Ok
            &&& same_scheme(r->Ok_0.scheme, scheme)
            &&& r->Ok_0.raw is None
            &&& r->Ok_0.nested@.len() == 0
            &&& r->Ok_0.keys_match_scheme()
            &&& r->Ok_0.entries() == record_entries(scheme.attributes@, kw)
        },
    }
}

/// Models of the entries of a record.
pub open spec fn entries_model(s: Seq<(String, Option<FactValue>)>) -> Seq<(Seq<char>, Option<FactVal>)> {
    s.map_values(|p: (String, Option<FactValue>)| (p.0@, opt_model(p.1)))
}

/// The entries that hold a value, in order.
pub open spec fn present_pairs(entries: Seq<(Seq<char>, Option<FactVal>)>) -> Seq<(Seq<char>, FactVal)>
    decreases entries.len(),
{
    if entries.len() == 0 {
        Seq::empty()
    } else {
        let rest = present_pairs(entries.drop_last());
        match entries.last().1 {
            Some(v) => rest.push((entries.last().0, v)),
            None => rest,
        }
    }
}

/// The first entry named `key`.
pub open spec fn entry_lookup(entries: Seq<(Seq<char>, Option<FactVal>)>, key: Seq<char>) -> Option<Option<FactVal>>
    decreases entries.len(),
{
    if entries.len() == 0 {
        None
    } else if entries[0].0 == key {
        Some(entries[0].1)
    } else {
        entry_lookup(entries.drop_first(), key)
    }
}

/// Position at which `start` enters a sequence sorted by start, after the spans that start
/// no later.
pub open spec fn le_prefix(s: Seq<Span>, start: usize) -> nat
    decreases s.len(),
{
    if s.len() == 0 || s[0].start > start {
        0
    } else {
        1 + le_prefix(s.drop_first(), start)
    }
}

/// Spans sorted by start, spans with the same start kept in their order.
pub open spec fn sort_spans(s: Seq<Span>) -> Seq<Span>
    decreases s.len(),
{
    if s.len() == 0 {
        Seq::empty()
    } else {
        let t = sort_spans(s.drop_last());
        t.insert(le_prefix(t, s.last().start) as int, s.last())
    }
}

/// The values of a fact's attributes, with the projections computed by an interpretation.
#[derive(Debug, Clone, PartialEq)]
pub struct FactRecordRaw {
    /// The JSON-like projection.
    pub as_json: Vec<(String, FactValue)>,
    /// The spans of the source text.
    pub spans: Vec<Span>,
}

/// An instance of a fact: a value, or none, for each attribute of its scheme, in order.
#[derive(Debug, PartialEq)]
pub struct FactRecord {
    /// The scheme of the fact.
    pub scheme: FactScheme,
    /// Name and value of each attribute.
    pub attributes: Vec<(String, Option<FactValue>)>,
    /// Projections computed by the interpretation that built the record.
    pub raw: Option<FactRecordRaw>,
    /// The attributes whose value is a fact of its own, each with the record of that fact;
    /// the text of the record writes them as blocks.
    pub nested: Vec<(String, FactRecord)>,
}

/// A copy of the entries of a record.
fn copy_entries(v: &Vec<(String, Option<FactValue>)>) -> (r: Vec<(String, Option<FactValue>)>)
    ensures
        entries_model(r@) == entries_model(v@),
{
    let mut out: Vec<(String, Option<FactValue>)> = Vec::new();
    let mut i: usize = 0;
    while i < v.len()
        invariant
            i <= v@.len(),
            entries_model(out@) == entries_model(v@).take(i as int),
        decreases v@.len() - i,
    {
        let value = match &v[i].1 {
            Some(x) => Some(x.clone_value()),
            None => None,
        };
        let key = v[i].0.clone();
        let ghost before = out@;
        out.push((key, value));
        proof {
            assert(entries_model(out@) =~= entries_model(before).push((key@, opt_model(value))));
            assert(entries_model(v@).take(i + 1) =~= entries_model(v@).take(i as int).push(entries_model(v@)[i as int]));
        }
        i += 1;
    }
    proof {
        assert(entries_model(v@).take(v@.len() as int) =~= entries_model(v@));
    }
    out
}

impl Clone for FactRecord {
    /// A copy of the record, its nested records copied in turn.
    fn clone(&self) -> (r: FactRecord)
        ensures
            same_scheme(r.scheme, self.scheme),
            r.entries() == self.entries(),
            nested_names(r.nested@) == nested_names(self.nested@),
        decreases self,
    {
        let mut nested: Vec<(String, FactRecord)> = Vec::new();
        let mut i: usize = 0;
        while i < self.nested.len()
            invariant
                i <= self.nested@.len(),
                nested@.len() == i,
                forall|j: int| 0 <= j < i ==> #[trigger] nested@[j].0@ == self.nested@[j].0@,
            decreases self.nested@.len() - i,
        {
            proof {
                assert(decreases_to!(*self => self.nested));
                assert(decreases_to!(self.nested => self.nested@[i as int]));
                assert(decreases_to!(self.nested@[i as int] => self.nested@[i as int].1));
            }
            let inner = self.nested[i].1.clone();
            nested.push((self.nested[i].0.clone(), inner));
            i += 1;
        }
        proof {
            assert(nested_names(nested@) =~= nested_names(self.nested@));
        }
        FactRecord {
            scheme: self.scheme.copy(),
            attributes: copy_entries(&self.attributes),
            raw: self.raw.clone(),
            nested,
        }
    }
}

impl FactRecord {
    /// The keys of the record are the attribute names of its scheme, in order: one per
    /// attribute, so no key appears twice when the scheme is well formed.
    pub open spec fn keys_match_scheme(&self) -> bool {
        entry_names(self.entries()) == self.scheme.names()
    }

    /// Names and values of the attributes, as models.
    pub open spec fn entries(&self) -> Seq<(Seq<char>, Option<FactVal>)> {
        entries_model(self.attributes@)
    }

    /// Each attribute name of the scheme, in order, with the value the record holds for it.
    pub open spec fn scheme_entries(&self) -> Seq<(Seq<char>, Option<FactVal>)> {
        self.scheme.names().map_values(|n: Seq<char>| (n, lookup_value(self.entries(), n)))
    }

    /// The JSON-like projection as a model: the one computed by the interpretation, else the
    /// attributes of the scheme, in order, that the record holds a value for.
    pub open spec fn json_model(&self) -> Seq<(Seq<char>, FactVal)> {
        match self.raw {
            Some(raw) => pairs_model(raw.as_json@),
            None => present_pairs(self.scheme_entries()),
        }
    }

    /// A record of `scheme` from named values: `KeyError` for the first key that names no
    /// attribute; else each attribute takes its given value, or its default (an empty list
    /// for a repeatable attribute).
    pub fn try_new(scheme: FactScheme, kwargs: Vec<(String, FactValue)>) -> (r: Result<FactRecord, FactError>)
        ensures
            try_new_result(r, scheme, pairs_model(kwargs@)),
    {
        let ghost kw = pairs_model(kwargs@);
        let ghost names = scheme.names();
        let mut i: usize = 0;
        proof { assert(kw.skip(0) =~= kw); }
        while i < kwargs.len()
            invariant
                i <= kwargs@.len(),
                kw == pairs_model(kwargs@),
                names == scheme.names(),
                first_unknown(kw, names) == first_unknown(kw.skip(i as int), names),
            decreases kwargs@.len() - i,
        {
            proof {
                assert(kw.skip(i as int).drop_first() =~= kw.skip(i + 1));
                assert(kw.skip(i as int)[0] == kw[i as int]);
            }
            match scheme.index_of(kwargs[i].0.as_str()) {
                None => {
                    proof { lemma_first_index(names, kwargs@[i as int].0@); }
                    return Err(FactError::KeyError(kwargs[i].0.clone()));
                },
                Some(_) => {
                    proof { lemma_first_index(names, kwargs@[i as int].0@); }
                },
            }
            i += 1;
        }
        proof {
            assert(kw.skip(kwargs@.len() as int) =~= Seq::<(Seq<char>, FactVal)>::empty());
        }
        let mut attributes: Vec<(String, Option<FactValue>)> = Vec::new();
        let mut k: usize = 0;
        while k < scheme.attributes.len()
            invariant
                k <= scheme.attributes@.len(),
                kw == pairs_model(kwargs@),
                attributes@.len() == k,
                forall|j: int| 0 <= j < k ==> #[trigger] entries_model(attributes@)[j] == record_entries(scheme.attributes@, kw)[j],
            decreases scheme.attributes@.len() - k,
        {
            let name = scheme.attributes[k].name();
            let value = match kw_find(&kwargs, name) {
                Some(v) => Some(v.clone_value()),
                None => scheme.attributes[k].default_value(),
            };
            let ghost before = attributes@;
            assert(opt_model(value) == match kw_lookup(kw, name@) {
                Some(v) => Some(v),
                None => scheme.attributes@[k as int].default_model(),
            });
            attributes.push((string_of(name), value));
            proof {
                assert(entries_model(attributes@)[k as int] == (attributes@[k as int].0@, opt_model(attributes@[k as int].1)));
                assert(record_entries(scheme.attributes@, kw)[k as int] == (scheme.attributes@[k as int].name_model(),
                    match kw_lookup(kw, scheme.attributes@[k as int].name_model()) {
                        Some(v) => Some(v),
                        None => scheme.attributes@[k as int].default_model(),
                    }));
                assert forall|j: int| 0 <= j < k + 1 implies #[trigger] entries_model(attributes@)[j] == record_entries(scheme.attributes@, kw)[j] by {
                    if j < k {
                        assert(attributes@[j] == before[j]);
                        assert(entries_model(before)[j] == record_entries(scheme.attributes@, kw)[j]);
                        assert(entries_model(attributes@)[j] == entries_model(before)[j]);
                    }
                }
            }
            k += 1;
        }
        let r = FactRecord { scheme, attributes, raw: None, nested: Vec::new() };
        proof {
            assert(r.entries() =~= record_entries(r.scheme.attributes@, kw));
            assert(entry_names(r.entries()) =~= r.scheme.names());
            assert forall|j: int| 0 <= j < r.scheme.attributes@.len() implies #[trigger] same_attribute(r.scheme.attributes@[j], r.scheme.attributes@[j]) by {
                let a = r.scheme.attributes@[j];
                match a {
                    ConstructedAttribute::Single(x) => {},
                    ConstructedAttribute::Repeatable(x) => {},
                }
            }
        }
        Ok(r)
    }

    /// A record of `scheme` from named values, each of which names an attribute.
    pub fn new(scheme: FactScheme, kwargs: Vec<(String, FactValue)>) -> (r: FactRecord)
        requires
            first_unknown(pairs_model(kwargs@), scheme.names()) is None,
        ensures
            same_scheme(r.scheme, scheme),
            r.raw is None,
            r.nested@.len() == 0,
            r.keys_match_scheme(),
            r.entries() == record_entries(scheme.attributes@, pairs_model(kwargs@)),
    {
        match FactRecord::try_new(scheme, kwargs) {
            Ok(r) => r,
            Err(_) => {
                proof { assert(false); }
                FactRecord { scheme: FactScheme::new(""), attributes: Vec::new(), raw: None, nested: Vec::new() }
            },
        }
    }

    /// Name of the fact.
    pub fn name(&self) -> (r: &str)
        ensures
            r@ == self.scheme.name@,
    {
        self.scheme.name.as_str()
    }

    /// Value of the first attribute named `key`, when it has one.
    pub fn get(&self, key: &str) -> (r: Option<&FactValue>)
        ensures
            match r {
                Some(v) => entry_lookup(self.entries(), key@) == Some(Some(v@)),
                None => entry_lookup(self.entries(), key@) is None
                    || entry_lookup(self.entries(), key@) == Some(None::<FactVal>),
            },
    {
        let ghost entries = self.entries();
        let mut i: usize = 0;
        proof { assert(entries.skip(0) =~= entries); }
        while i < self.attributes.len()
            invariant
                i <= self.attributes@.len(),
                entries == self.entries(),
                entry_lookup(entries, key@) == entry_lookup(entries.skip(i as int), key@),
            decreases self.attributes@.len() - i,
        {
            proof {
                assert(entries.skip(i as int).drop_first() =~= entries.skip(i + 1));
                assert(entries.skip(i as int)[0] == entries[i as int]);
            }
            if str_eq(self.attributes[i].0.as_str(), key) {
                return self.attributes[i].1.as_ref();
            }
            i += 1;
        }
        proof {
            assert(entries.skip(self.attributes@.len() as int) =~= Seq::<(Seq<char>, Option<FactVal>)>::empty());
        }
        None
    }

    /// The JSON-like projection: the one computed by the interpretation when there is one,
    /// else, for each attribute of the scheme in order, its value when the record holds one.
    pub fn as_json(&self) -> (r: Vec<(String, FactValue)>)
        ensures
            pairs_model(r@) == self.json_model(),
    {
        match &self.raw {
            Some(raw) => crate::interpretation::value::clone_pairs(&raw.as_json),
            None => {
                let ghost se = self.scheme_entries();
                let n = self.scheme.attributes.len();
                let mut out: Vec<(String, FactValue)> = Vec::new();
                let mut i: usize = 0;
                while i < n
                    invariant
                        n == self.scheme.attributes@.len(),
                        i <= n,
                        se == self.scheme_entries(),
                        se.len() == n,
                        pairs_model(out@) == present_pairs(se.take(i as int)),
                    decreases n - i,
                {
                    let key = self.scheme.attributes[i].name();
                    proof {
                        assert(se.take(i + 1).drop_last() =~= se.take(i as int));
                        assert(se.take(i + 1).last() == se[i as int]);
                        assert(self.scheme.names()[i as int] == key@);
                        assert(se[i as int] == (key@, lookup_value(self.entries(), key@)));
                    }
                    match self.get(key) {
                        Some(v) => {
                            let ghost before = out@;
                            out.push((string_of(key), v.clone_value()));
                            proof {
                                assert(pairs_model(out@) =~= pairs_model(before).push((key@, v@)));
                            }
                        },
                        None => {},
                    }
                    i += 1;
                }
                proof {
                    assert(se.take(n as int) =~= se);
                }
                out
            },
        }
    }

    /// The spans computed by the interpretation, sorted by start; spans with the same start
    /// keep their order. A record without them has none.
    pub fn spans(&self) -> (r: Vec<Span>)
        ensures
            r@ == match self.raw {
                Some(raw) => sort_spans(raw.spans@),
                None => Seq::empty(),
            },
            spans_sorted_by_start(r@),
    {
        match &self.raw {
            Some(raw) => sorted_spans(&raw.spans),
            None => Vec::new(),
        }
    }
}

/// The value of an attribute found by name, if it has one.
pub open spec fn lookup_value(entries: Seq<(Seq<char>, Option<FactVal>)>, key: Seq<char>) -> Option<FactVal> {
    match entry_lookup(entries, key) {
        Some(Some(v)) => Some(v),
        _ => None,
    }
}

/// Names of the nested records of a record.
pub open spec fn nested_names(nested: Seq<(String, FactRecord)>) -> Seq<Seq<char>> {
    nested.map_values(|p: (String, FactRecord)| p.0@)
}

/// Text of a record indented by `ind`: `Name(`, then a line `ind    key=value` for each
/// attribute of its scheme, then `ind)`.
pub open spec fn record_block(r: FactRecord, ind: Seq<char>) -> Seq<char>
    decreases r, r.scheme.names().len() + 1,
{
    r.scheme.name@ + "(\n"@ + record_block_lines(r, ind, r.scheme.names().len() as int) + ind + ")"@
}

/// The lines of the first `n` attributes of a record indented by `ind`.
pub open spec fn record_block_lines(r: FactRecord, ind: Seq<char>, n: int) -> Seq<char>
    decreases r, n,
{
    if n <= 0 || n > r.scheme.names().len() {
        Seq::empty()
    } else {
        let names = r.scheme.names();
        record_block_lines(r, ind, n - 1) + ind + "    "@ + names[n - 1] + "="@
            + record_value_text(r, names[n - 1], ind + "    "@)
            + if names[n - 1] == names.last() { "\n"@ } else { ",\n"@ }
    }
}

/// Text of the value of `key` in a record whose lines are indented by `ind`: the block of
/// its nested record when it has one, else the value (`None` when there is none).
pub open spec fn record_value_text(r: FactRecord, key: Seq<char>, ind: Seq<char>) -> Seq<char>
    decreases r, 0int,
{
    let i = first_index(nested_names(r.nested@), key);
    if 0 <= i < r.nested@.len() {
        record_block(r.nested@[i].1, ind)
    } else {
        match lookup_value(r.entries(), key) {
            Some(v) => repr_chars(v),
            None => "None"@,
        }
    }
}

/// Text of a record: `Name(`, one line `    key=value` per attribute of its scheme, `)`; the
/// value of an attribute with a nested record is that record's block, indented one level
/// further.
pub open spec fn record_text(r: FactRecord) -> Seq<char> {
    record_block(r, Seq::empty())
}

impl FactRecord {
    /// Text of the record (see [`record_text`]): its name, then one line `    key=value` per
    /// attribute of its scheme (`None` for an attribute without value, strings quoted, a
    /// nested fact as an indented block of its own), then `)`.
    pub fn to_string(&self) -> (r: String)
        ensures
            r@ == record_text(*self),
    {
        let ind = String::new();
        proof { assert(ind@ =~= Seq::<char>::empty()); }
        self.block_text(&ind)
    }

    /// Index of the nested record of `key`, if any.
    fn nested_index(&self, key: &str) -> (r: Option<usize>)
        ensures
            match r {
                Some(i) => i == first_index(nested_names(self.nested@), key@) && i < self.nested@.len(),
                None => first_index(nested_names(self.nested@), key@) == -1,
            },
    {
        let ghost ns = nested_names(self.nested@);
        let mut i: usize = 0;
        while i < self.nested.len()
            invariant
                i <= self.nested@.len(),
                ns == nested_names(self.nested@),
                forall|j: int| 0 <= j < i ==> ns[j] != key@,
            decreases self.nested@.len() - i,
        {
            if str_eq(self.nested[i].0.as_str(), key) {
                proof {
                    lemma_first_index(ns, key@);
                    assert(ns[i as int] == key@);
                }
                return Some(i);
            }
            i += 1;
        }
        proof {
            lemma_first_index(ns, key@);
            if ns.contains(key@) {
                let k = choose|k: int| 0 <= k < ns.len() && ns[k] == key@;
                assert(ns[k] != key@);
            }
        }
        None
    }

    /// Text of the value of `key`, for lines indented by `ind` (see [`record_value_text`]).
    fn value_text(&self, key: &str, ind: &String) -> (r: String)
        ensures
            r@ == record_value_text(*self, key@, ind@),
        decreases self, 0int,
    {
        match self.nested_index(key) {
            Some(j) => {
                proof {
                    assert(decreases_to!(*self => self.nested));
                    assert(decreases_to!(self.nested => self.nested@[j as int]));
                    assert(decreases_to!(self.nested@[j as int] => self.nested@[j as int].1));
                }
                self.nested[j].1.block_text(ind)
            },
            None => match self.get(key) {
                Some(v) => v.repr(),
                None => string_of("None"),
            },
        }
    }

    /// Text of the record indented by `ind` (see [`record_block`]).
    pub fn block_text(&self, ind: &String) -> (r: String)
        ensures
            r@ == record_block(*self, ind@),
        decreases self, 1int,
    {
        let ghost names = self.scheme.names();
        let mut out = self.scheme.name.clone();
        out.append("(\n");
        let mut inner = ind.clone();
        inner.append("    ");
        let n = self.scheme.attributes.len();
        let mut i: usize = 0;
        while i < n
            invariant
                n == self.scheme.attributes@.len(),
                names == self.scheme.names(),
                names.len() == n,
                inner@ == ind@ + "    "@,
                i <= n,
                out@ == self.scheme.name@ + "(\n"@ + record_block_lines(*self, ind@, i as int),
            decreases n - i,
        {
            let key = self.scheme.attributes[i].name();
            let last = str_eq(key, self.scheme.attributes[n - 1].name());
            let text = self.value_text(key, &inner);
            let ghost before = out@;
            out.append(ind.as_str());
            out.append("    ");
            out.append(key);
            out.append("=");
            out.append(text.as_str());
            if last {
                out.append("\n");
            } else {
                out.append(",\n");
            }
            proof {
                assert(names[i as int] == key@);
                assert(names.last() == self.scheme.attributes@[n - 1].name_model());
                let suffix = if last { "\n"@ } else { ",\n"@ };
                assert(out@ =~= before + (ind@ + "    "@ + key@ + "="@ + text@ + suffix));
                assert(record_block_lines(*self, ind@, i + 1) =~= record_block_lines(*self, ind@, i as int)
                    + ind@ + "    "@ + names[i as int] + "="@ + record_value_text(*self, names[i as int], ind@ + "    "@)
                    + suffix);
            }
            i += 1;
        }
        out.append(ind.as_str());
        out.append(")");
        out
    }
}

/// Names of a sequence of entries.
pub open spec fn entry_names(entries: Seq<(Seq<char>, Option<FactVal>)>) -> Seq<Seq<char>> {
    entries.map_values(|e: (Seq<char>, Option<FactVal>)| e.0)
}

/// Looking up an entry finds the first entry of that name.
pub proof fn lemma_entry_lookup_first(entries: Seq<(Seq<char>, Option<FactVal>)>, key: Seq<char>)
    ensures
        first_index(entry_names(entries), key) >= 0 ==> entry_lookup(entries, key)
            == Some(entries[first_index(entry_names(entries), key)].1),
        first_index(entry_names(entries), key) == -1 ==> entry_lookup(entries, key) is None,
    decreases entries.len(),
{
    if entries.len() > 0 {
        lemma_entry_lookup_first(entries.drop_first(), key);
        assert(entry_names(entries.drop_first()) =~= entry_names(entries).drop_first());
        assert(entry_names(entries)[0] == entries[0].0);
        if entries[0].0 != key {
            let fi = first_index(entry_names(entries.drop_first()), key);
            lemma_first_index(entry_names(entries.drop_first()), key);
            if fi >= 0 {
                assert(entries[fi + 1] == entries.drop_first()[fi]);
            }
        }
    }
}

/// A record built from named values reads back, for each attribute, the value given for it,
/// or its default when none was given.
pub proof fn law_record_reads_given_or_default(
    scheme: FactScheme,
    kw: Seq<(Seq<char>, FactVal)>,
    r: Result<FactRecord, FactError>,
    key: Seq<char>,
)
    requires
        scheme.wf(),
        try_new_result(r, scheme, kw),
        scheme.names().contains(key),
    ensures
        r is Ok ==> entry_lookup(r->Ok_0.entries(), key) == Some(
            match kw_lookup(kw, key) {
                Some(v) => Some(v),
                None => scheme.attributes@[first_index(scheme.names(), key)].default_model(),
            },
        ),
{
    if r is Ok {
        let entries = r->Ok_0.entries();
        assert(entry_names(entries) =~= scheme.names());
        lemma_entry_lookup_first(entries, key);
        lemma_first_index(scheme.names(), key);
    }
}

/// A record is refused exactly when a key names no attribute, and the error names the first
/// such key.
pub proof fn law_record_refuses_unknown_keys(scheme: FactScheme, kw: Seq<(Seq<char>, FactVal)>, r: Result<FactRecord, FactError>)
    requires
        try_new_result(r, scheme, kw),
    ensures
        r is Err <==> exists|i: int| 0 <= i < kw.len() && !scheme.names().contains(#[trigger] kw[i].0),
        r is Err ==> !scheme.names().contains(r->Err_0->KeyError_0@),
{
    lemma_first_unknown(kw, scheme.names());
}

/// `first_unknown` finds a key that names no attribute, and finds one whenever there is one.
pub proof fn lemma_first_unknown(kw: Seq<(Seq<char>, FactVal)>, names: Seq<Seq<char>>)
    ensures
        first_unknown(kw, names) is Some <==> exists|i: int| 0 <= i < kw.len() && !names.contains(#[trigger] kw[i].0),
        first_unknown(kw, names) is Some ==> !names.contains(first_unknown(kw, names)->0),
    decreases kw.len(),
{
    if kw.len() > 0 {
        lemma_first_unknown(kw.drop_first(), names);
        if names.contains(kw[0].0) {
            if exists|i: int| 0 <= i < kw.len() && !names.contains(#[trigger] kw[i].0) {
                let i = choose|i: int| 0 <= i < kw.len() && !names.contains(#[trigger] kw[i].0);
                assert(kw.drop_first()[i - 1] == kw[i]);
            }
            if exists|i: int| 0 <= i < kw.drop_first().len() && !names.contains(#[trigger] kw.drop_first()[i].0) {
                let i = choose|i: int| 0 <= i < kw.drop_first().len() && !names.contains(#[trigger] kw.drop_first()[i].0);
                assert(kw[i + 1] == kw.drop_first()[i]);
            }
        } else {
            assert(!names.contains(kw[0].0));
        }
    }
}

/// The first unknown key stands at an index before which every key is known.
proof fn lemma_first_unknown_index(kw: Seq<(Seq<char>, FactVal)>, names: Seq<Seq<char>>)
    requires
        first_unknown(kw, names) is Some,
    ensures
        exists|m: int| {
            &&& 0 <= m < kw.len()
            &&& #[trigger] kw[m].0 == first_unknown(kw, names)->0
            &&& forall|j: int| 0 <= j < m ==> names.contains(#[trigger] kw[j].0)
        },
    decreases kw.len(),
{
    if names.contains(kw[0].0) {
        lemma_first_unknown_index(kw.drop_first(), names);
        let m = choose|m: int| {
            &&& 0 <= m < kw.drop_first().len()
            &&& #[trigger] kw.drop_first()[m].0 == first_unknown(kw.drop_first(), names)->0
            &&& forall|j: int| 0 <= j < m ==> names.contains(#[trigger] kw.drop_first()[j].0)
        };
        assert(kw[m + 1] == kw.drop_first()[m]);
        assert forall|j: int| 0 <= j < m + 1 implies names.contains(#[trigger] kw[j].0) by {
            if j > 0 {
                assert(kw[j] == kw.drop_first()[j - 1]);
            }
        }
    } else {
        assert(kw[0].0 == first_unknown(kw, names)->0);
    }
}

/// Named values whose keys are sorted and distinct, as a map holds them: a refused record
/// names the least of the unknown keys.
pub proof fn law_sorted_kwargs_report_least_unknown_key(
    scheme: FactScheme,
    kw: Seq<(Seq<char>, FactVal)>,
    r: Result<FactRecord, FactError>,
)
    requires
        try_new_result(r, scheme, kw),
        strictly_sorted(kw.map_values(|p: (Seq<char>, FactVal)| p.0)),
    ensures
        r is Err ==> forall|i: int| 0 <= i < kw.len() && !scheme.names().contains(#[trigger] kw[i].0) ==> (
            kw[i].0 == r->Err_0->KeyError_0@ || crate::text::seq_lt(r->Err_0->KeyError_0@, kw[i].0)),
{
    let names = scheme.names();
    if first_unknown(kw, names) is Some {
        lemma_first_unknown_index(kw, names);
        let m = choose|m: int| {
            &&& 0 <= m < kw.len()
            &&& #[trigger] kw[m].0 == first_unknown(kw, names)->0
            &&& forall|j: int| 0 <= j < m ==> names.contains(#[trigger] kw[j].0)
        };
        let keys = kw.map_values(|p: (Seq<char>, FactVal)| p.0);
        assert forall|i: int| 0 <= i < kw.len() && !names.contains(#[trigger] kw[i].0) implies (
            kw[i].0 == kw[m].0 || crate::text::seq_lt(kw[m].0, kw[i].0)) by {
            if i > m {
                assert(keys[m] == kw[m].0 && keys[i] == kw[i].0);
            }
        }
    }
}

/// In a record whose keys are the attribute names of its well-formed scheme, in order, each
/// attribute reads the record's entry at its own position.
pub proof fn law_matching_record_entries(r: FactRecord)
    requires
        r.scheme.wf(),
        r.keys_match_scheme(),
    ensures
        r.scheme_entries() == r.entries(),
{
    let entries = r.entries();
    let names = r.scheme.names();
    assert forall|i: int| 0 <= i < entries.len() implies #[trigger] r.scheme_entries()[i] == entries[i] by {
        assert(entry_names(entries)[i] == entries[i].0);
        assert(names[i] == entries[i].0);
        lemma_entry_lookup_first(entries, names[i]);
        crate::interpretation::fact::lemma_first_index_unique(names, i);
    }
    assert(r.scheme_entries() =~= entries);
}

/// The first value given for `key`.
fn kw_find<'a>(kwargs: &'a Vec<(String, FactValue)>, key: &str) -> (r: Option<&'a FactValue>)
    ensures
        match r {
            Some(v) => kw_lookup(pairs_model(kwargs@), key@) == Some(v@),
            None => kw_lookup(pairs_model(kwargs@), key@) is None,
        },
{
    let ghost kw = pairs_model(kwargs@);
    let mut i: usize = 0;
    proof { assert(kw.skip(0) =~= kw); }
    while i < kwargs.len()
        invariant
            i <= kwargs@.len(),
            kw == pairs_model(kwargs@),
            kw_lookup(kw, key@) == kw_lookup(kw.skip(i as int), key@),
        decreases kwargs@.len() - i,
    {
        proof {
            assert(kw.skip(i as int).drop_first() =~= kw.skip(i + 1));
            assert(kw.skip(i as int)[0] == kw[i as int]);
        }
        if str_eq(kwargs[i].0.as_str(), key) {
            return Some(&kwargs[i].1);
        }
        i += 1;
    }
    proof {
        assert(kw.skip(kwargs@.len() as int) =~= Seq::<(Seq<char>, FactVal)>::empty());
    }
    None
}

/// `le_prefix` is a position of the sequence, and in a sorted sequence it splits the spans
/// that start no later from those that start later.
proof fn lemma_le_prefix(s: Seq<Span>, start: usize)
    ensures
        le_prefix(s, start) <= s.len(),
        forall|j: int| 0 <= j < le_prefix(s, start) ==> s[j].start <= start,
        le_prefix(s, start) < s.len() ==> s[le_prefix(s, start) as int].start > start,
    decreases s.len(),
{
    if s.len() > 0 && s[0].start <= start {
        lemma_le_prefix(s.drop_first(), start);
        assert forall|j: int| 0 < j < le_prefix(s, start) implies s[j].start <= start by {
            assert(s[j] == s.drop_first()[j - 1]);
        }
    }
}

/// Sorts spans by start with a stable insertion sort.
fn sorted_spans(spans: &Vec<Span>) -> (r: Vec<Span>)
    ensures
        r@ == sort_spans(spans@),
        spans_sorted_by_start(r@),
{
    let mut out: Vec<Span> = Vec::new();
    let mut i: usize = 0;
    while i < spans.len()
        invariant
            i <= spans@.len(),
            out@ == sort_spans(spans@.take(i as int)),
            spans_sorted_by_start(out@),
        decreases spans@.len() - i,
    {
        let x = spans[i];
        let mut p: usize = 0;
        proof { lemma_le_prefix(out@, x.start); }
        while p < out.len() && out[p].start <= x.start
            invariant
                p <= out@.len(),
                p <= le_prefix(out@, x.start),
                forall|j: int| 0 <= j < p ==> out@[j].start <= x.start,
                le_prefix(out@, x.start) <= out@.len(),
                forall|j: int| 0 <= j < le_prefix(out@, x.start) ==> out@[j].start <= x.start,
                le_prefix(out@, x.start) < out@.len() ==> out@[le_prefix(out@, x.start) as int].start > x.start,
            decreases out@.len() - p,
        {
            p += 1;
        }
        proof {
            assert(p == le_prefix(out@, x.start));
            assert(spans@.take(i + 1).drop_last() =~= spans@.take(i as int));
            assert(spans@.take(i + 1).last() == x);
        }
        let ghost before = out@;
        out.insert(p, x);
        proof {
            assert(out@ == before.insert(p as int, x));
            assert forall|a: int, b: int| 0 <= a <= b < out@.len() implies out@[a].start <= out@[b].start by {
                if b < p {
                } else if a < p && b == p {
                } else if a < p && b > p {
                    assert(before[a].start <= x.start);
                } else if a == p && b > p {
                    assert(before[p as int].start > x.start);
                    assert(before[p as int].start <= before[b - 1].start);
                } else {
                }
            }
        }
        i += 1;
    }
    assert(spans@.take(spans@.len() as int) =~= spans@);
    out
}

/// The prepared scheme of an attribute input: a name is a plain attribute without default,
/// a scheme is kept as it is.
pub fn prepare_attribute(item: FactAttributeInput) -> (r: PreparedAttributeScheme)
    ensures
        r == spec_prepare(item),
{
    match item {
        FactAttributeInput::Name(name) => PreparedAttributeScheme::Single(AttributeScheme { name, default: None }),
        FactAttributeInput::Base(base) => match base {
            AttributeSchemeBase::Single(scheme) => PreparedAttributeScheme::Single(scheme),
            AttributeSchemeBase::Repeatable(scheme) => PreparedAttributeScheme::Repeatable(scheme),
        },
        FactAttributeInput::Scheme(scheme) => PreparedAttributeScheme::Single(scheme),
        FactAttributeInput::RepeatableScheme(scheme) => PreparedAttributeScheme::Repeatable(scheme),
    }
}

/// Names of the attributes that a list of inputs declares.
pub open spec fn input_names(items: Seq<FactAttributeInput>) -> Seq<Seq<char>> {
    items.map_values(|i: FactAttributeInput| spec_prepare(i).name_model())
}

/// Outcome of [`fact`] on given inputs.
pub open spec fn fact_built(r: FactScheme, name: Seq<char>, items: Seq<FactAttributeInput>) -> bool {
    &&& r.wf()
    &&& r.name@ == name
    &&& string_views(r.lineage@) == seq![name]
    &&& r.attributes@.len() == items.len()
    &&& forall|i: int| 0 <= i < items.len() ==> constructed_from(#[trigger] r.attributes@[i], spec_prepare(items[i]), name)
}

/// The scheme of a fact named `name` with the given attributes, in order; no two
/// attributes may share a name.
pub fn fact(name: &str, attributes: Vec<FactAttributeInput>) -> (r: FactScheme)
    requires
        input_names(attributes@).no_duplicates(),
    ensures
        fact_built(r, name@, attributes@),
{
    match try_fact(name, attributes) {
        Ok(r) => r,
        Err(_) => {
            proof { assert(false); }
            FactScheme::new(name)
        },
    }
}

/// Name of the attribute an input declares.
fn input_name(item: &FactAttributeInput) -> (r: &str)
    ensures
        r@ == spec_prepare(*item).name_model(),
{
    match item {
        FactAttributeInput::Name(name) => name.as_str(),
        FactAttributeInput::Scheme(scheme) => scheme.name.as_str(),
        FactAttributeInput::RepeatableScheme(scheme) => scheme.name.as_str(),
        FactAttributeInput::Base(AttributeSchemeBase::Single(scheme)) => scheme.name.as_str(),
        FactAttributeInput::Base(AttributeSchemeBase::Repeatable(scheme)) => scheme.name.as_str(),
    }
}

/// The attribute an input declares, on the fact named `fact_name`.
fn construct_input(item: &FactAttributeInput, fact_name: &str) -> (r: ConstructedAttribute)
    ensures
        constructed_from(r, spec_prepare(*item), fact_name@),
{
    match item {
        FactAttributeInput::Name(name) => ConstructedAttribute::Single(
            Attribute::new(fact_name, name.as_str(), None),
        ),
        FactAttributeInput::Scheme(scheme) => ConstructedAttribute::Single(scheme.construct(fact_name)),
        FactAttributeInput::RepeatableScheme(scheme) => ConstructedAttribute::Repeatable(
            scheme.construct(fact_name),
        ),
        FactAttributeInput::Base(AttributeSchemeBase::Single(scheme)) => ConstructedAttribute::Single(
            scheme.construct(fact_name),
        ),
        FactAttributeInput::Base(AttributeSchemeBase::Repeatable(scheme)) => ConstructedAttribute::Repeatable(
            scheme.construct(fact_name),
        ),
    }
}

/// The scheme of a fact named `name` with the given attributes, or the name of the first
/// attribute that repeats an earlier one.
pub fn try_fact(name: &str, attributes: Vec<FactAttributeInput>) -> (r: Result<FactScheme, String>)
    ensures
        match r {
            Ok(s) => input_names(attributes@).no_duplicates() && fact_built(s, name@, attributes@),
            Err(key) => !input_names(attributes@).no_duplicates() && exists|i: int| {
                &&& 0 <= i < attributes@.len()
                &&& #[trigger] input_names(attributes@)[i] == key@
                &&& input_names(attributes@).take(i).contains(key@)
                &&& input_names(attributes@).take(i).no_duplicates()
            },
        },
{
    let ghost items = attributes@;
    let ghost all_names = input_names(items);
    let mut scheme = FactScheme::new(name);
    let mut i: usize = 0;
    while i < attributes.len()
        invariant
            i <= attributes@.len(),
            items == attributes@,
            all_names == input_names(items),
            scheme.wf(),
            scheme.name@ == name@,
            string_views(scheme.lineage@) == seq![name@],
            scheme.attributes@.len() == i,
            scheme.names() == all_names.take(i as int),
            forall|j: int| 0 <= j < i ==> constructed_from(#[trigger] scheme.attributes@[j], spec_prepare(items[j]), name@),
        decreases attributes@.len() - i,
    {
        let key = input_name(&attributes[i]);
        match scheme.index_of(key) {
            Some(j) => {
                proof {
                    lemma_first_index(scheme.names(), key@);
                    assert(all_names[j as int] == all_names[i as int]);
                    assert(all_names.contains(key@)) by {
                        assert(all_names[i as int] == key@);
                    }
                    assert(all_names.take(i as int)[j as int] == key@);
                    assert(all_names.take(i as int).contains(key@));
                    assert(all_names[i as int] == key@);
                }
                return Err(string_of(key));
            },
            None => {},
        }
        proof { lemma_first_index(scheme.names(), key@); }
        let attribute = construct_input(&attributes[i], name);
        let ghost before = scheme.attributes@;
        scheme.attributes.push(attribute);
        proof {
            assert(scheme.names() =~= all_names.take(i + 1));
            assert forall|j: int| 0 <= j < i + 1 implies constructed_from(#[trigger] scheme.attributes@[j], spec_prepare(items[j]), name@) by {
                if j < i {
                    assert(scheme.attributes@[j] == before[j]);
                }
            }
            assert forall|a: int, b: int| 0 <= a < b < scheme.names().len() implies scheme.names()[a] != scheme.names()[b] by {
                if b == i {
                    assert(scheme.names()[a] == all_names.take(i as int)[a]);
                }
            }
        }
        i += 1;
    }
    proof {
        assert(all_names.take(attributes@.len() as int) =~= all_names);
    }
    Ok(scheme)
}

} // verus!
