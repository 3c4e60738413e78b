//! Values of fact fields.
use vstd::prelude::*;

use crate::text::{bool_to_string, i64_to_string, int_decimal, join_seq, join_strings, string_views};

verus! {

broadcast use vstd::std_specs::vec::axiom_vec_index_decreases;

/// A value of any type, held by a fact and never looked into by the library. Two opaque
/// values are equal when they share the same payload.
#[verifier::external_body]
pub struct OpaqueValue {
    inner: std::sync::Arc<dyn std::any::Any>,
}

impl OpaqueValue {
    /// Wraps `value` (with `Arc::new`).
    ///
    /// Trusted: nothing is claimed; the payload is out of the library's sight.
    #[verifier::external_body]
    pub fn new<T: std::any::Any + Send + Sync>(value: T) -> (r: OpaqueValue) {
        OpaqueValue { inner: std::sync::Arc::new(value) }
    }

    /// The payload as a `T`, if it is one (`<dyn Any>::downcast_ref`).
    ///
    /// Trusted: nothing is claimed; the answer depends on the payload's type.
    #[verifier::external_body]
    pub fn downcast_ref<T: std::any::Any>(&self) -> (r: Option<&T>) {
        self.inner.as_ref().downcast_ref::<T>()
    }
}

/// The formatter that `Debug` writes to.
#[verifier::external_type_specification]
#[verifier::external_body]
pub struct ExFormatter<'a>(std::fmt::Formatter<'a>);

/// The error of a formatter.
#[verifier::external_type_specification]
#[verifier::external_body]
pub struct ExFmtError(std::fmt::Error);

impl std::fmt::Debug for OpaqueValue {
    /// Writes `<opaque>`.
    ///
    /// Trusted: nothing is claimed of what is written.
    #[verifier::external_body]
    fn fmt(&self, f: &mut std::fmt::Formatter<'_>) -> (r: std::fmt::Result) {
        f.write_str("<opaque>")
    }
}

impl Clone for OpaqueValue {
    /// Shares the payload (`Arc::clone`).
    ///
    /// Trusted: nothing is claimed of the copy.
    #[verifier::external_body]
    fn clone(&self) -> (r: OpaqueValue) {
        OpaqueValue { inner: std::sync::Arc::clone(&self.inner) }
    }
}

impl PartialEq for OpaqueValue {
    /// `true` when both share the same payload (`Arc::ptr_eq`).
    ///
    /// Trusted: nothing is claimed of the answer.
    #[verifier::external_body]
    fn eq(&self, other: &Self) -> (r: bool) {
        std::sync::Arc::ptr_eq(&self.inner, &other.inner)
    }
}

/// Value of a fact field.
#[derive(Debug, PartialEq)]
pub enum FactValue {
    /// A string.
    Str(String),
    /// An integer.
    Int(i64),
    /// A boolean.
    Bool(bool),
    /// A list of values (used by repeatable attributes).
    List(Vec<FactValue>),
    /// An object as ordered key/value pairs.
    Object(Vec<(String, FactValue)>),
    /// A value the library does not look into.
    Opaque(OpaqueValue),
}

/// Mathematical model of a [`FactValue`].
pub enum FactVal {
    Str(Seq<char>),
    Int(int),
    Bool(bool),
    List(Seq<FactVal>),
    Object(Seq<(Seq<char>, FactVal)>),
    /// An opaque value: its payload is not modelled.
    Opaque,
}

/// The model of a value, defined by structural recursion.
pub open spec fn fact_value_model(v: FactValue) -> FactVal
    decreases v,
{
    match v {
        FactValue::Str(s) => FactVal::Str(s@),
        FactValue::Int(n) => FactVal::Int(n as int),
        FactValue::Bool(b) => FactVal::Bool(b),
        FactValue::List(items) => FactVal::List(
            Seq::new(
                items@.len(),
                |i: int|
                    if 0 <= i < items@.len() {
                        fact_value_model(items@[i])
                    } else {
                        FactVal::Bool(false)
                    },
            ),
        ),
        FactValue::Object(items) => FactVal::Object(
            Seq::new(
                items@.len(),
                |i: int|
                    if 0 <= i < items@.len() {
                        (items@[i].0@, fact_value_model(items@[i].1))
                    } else {
                        (Seq::empty(), FactVal::Bool(false))
                    },
            ),
        ),
        FactValue::Opaque(_) => FactVal::Opaque,
    }
}

impl View for FactValue {
    type V = FactVal;

    open spec fn view(&self) -> FactVal {
        fact_value_model(*self)
    }
}

/// Models of a sequence of values.
pub open spec fn values_model(s: Seq<FactValue>) -> Seq<FactVal> {
    s.map_values(|v: FactValue| v@)
}

/// Models of a sequence of key/value pairs.
pub open spec fn pairs_model(s: Seq<(String, FactValue)>) -> Seq<(Seq<char>, FactVal)> {
    s.map_values(|p: (String, FactValue)| (p.0@, p.1@))
}

/// The items a value contributes to a list: the items of a list, or the value itself.
pub open spec fn list_items(v: FactVal) -> Seq<FactVal> {
    match v {
        FactVal::List(xs) => xs,
        _ => seq![v],
    }
}

/// Model of [`FactValue::push_into_list`].
pub open spec fn spec_push_into_list(a: FactVal, b: FactVal) -> FactVal {
    FactVal::List(list_items(a) + list_items(b))
}

/// Text of a value as the `Display` of the library writes it.
pub open spec fn display_chars(v: FactVal) -> Seq<char>
    decreases v,
{
    match v {
        FactVal::Str(s) => s,
        FactVal::Int(n) => int_decimal(n),
        FactVal::Bool(b) => if b { "true"@ } else { "false"@ },
        FactVal::List(xs) => seq!['['] + join_seq(display_list_parts(xs), seq![',', ' ']) + seq![']'],
        FactVal::Object(ps) => seq!['{'] + join_seq(display_object_parts(ps), seq![',', ' ']) + seq!['}'],
        FactVal::Opaque => "<opaque>"@,
    }
}

/// Texts of the items of a list.
pub open spec fn display_list_parts(xs: Seq<FactVal>) -> Seq<Seq<char>>
    decreases xs,
{
    Seq::new(xs.len(), |i: int| if 0 <= i < xs.len() { display_chars(xs[i]) } else { Seq::empty() })
}

/// Texts `key: value` of the pairs of an object.
pub open spec fn display_object_parts(ps: Seq<(Seq<char>, FactVal)>) -> Seq<Seq<char>>
    decreases ps,
{
    Seq::new(
        ps.len(),
        |i: int|
            if 0 <= i < ps.len() {
                ps[i].0 + seq![':', ' '] + display_chars(ps[i].1)
            } else {
                Seq::empty()
            },
    )
}

/// Text of a value inside a record: strings quoted with `'`, integers in decimal,
/// `true`/`false`, lists as `[a, b]`, objects as `{key: value, ...}` and an opaque value as
/// `<opaque>`.
pub open spec fn repr_chars(v: FactVal) -> Seq<char>
    decreases v,
{
    match v {
        FactVal::Str(s) => seq!['\''] + s + seq!['\''],
        FactVal::Int(n) => int_decimal(n),
        FactVal::Bool(b) => if b { "true"@ } else { "false"@ },
        FactVal::List(xs) => seq!['['] + join_seq(repr_list_parts(xs), seq![',', ' ']) + seq![']'],
        FactVal::Object(ps) => seq!['{'] + join_seq(repr_object_parts(ps), seq![',', ' ']) + seq!['}'],
        FactVal::Opaque => "<opaque>"@,
    }
}

/// Texts of the items of a list inside a record.
pub open spec fn repr_list_parts(xs: Seq<FactVal>) -> Seq<Seq<char>>
    decreases xs,
{
    Seq::new(xs.len(), |i: int| if 0 <= i < xs.len() { repr_chars(xs[i]) } else { Seq::empty() })
}

/// Texts `key: value` of the pairs of an object inside a record.
pub open spec fn repr_object_parts(ps: Seq<(Seq<char>, FactVal)>) -> Seq<Seq<char>>
    decreases ps,
{
    Seq::new(
        ps.len(),
        |i: int|
            if 0 <= i < ps.len() {
                ps[i].0 + seq![':', ' '] + repr_chars(ps[i].1)
            } else {
                Seq::empty()
            },
    )
}

/// Copies a vector of values element by element.
pub fn clone_values(items: &Vec<FactValue>) -> (r: Vec<FactValue>)
    ensures
        values_model(r@) == values_model(items@),
        r@.len() == items@.len(),
{
    let mut out: Vec<FactValue> = Vec::new();
    let mut i: usize = 0;
    while i < items.len()
        invariant
            i <= items@.len(),
            out@.len() == i,
            forall|j: int| 0 <= j < i ==> #[trigger] out@[j]@ == items@[j]@,
        decreases items@.len() - i,
    {
        out.push(items[i].clone_value());
        i += 1;
    }
    assert(values_model(out@) =~= values_model(items@));
    out
}

/// Copies a vector of key/value pairs element by element.
pub fn clone_pairs(items: &Vec<(String, FactValue)>) -> (r: Vec<(String, FactValue)>)
    ensures
        pairs_model(r@) == pairs_model(items@),
        r@.len() == items@.len(),
{
    let mut out: Vec<(String, FactValue)> = Vec::new();
    let mut i: usize = 0;
    while i < items.len()
        invariant
            i <= items@.len(),
            out@.len() == i,
            forall|j: int|
                #![trigger out@[j]]
                0 <= j < i ==> out@[j].0@ == items@[j].0@ && out@[j].1@ == items@[j].1@,
        decreases items@.len() - i,
    {
        let k = items[i].0.clone();
        let v = items[i].1.clone_value();
        out.push((k, v));
        i += 1;
    }
    assert(pairs_model(out@) =~= pairs_model(items@));
    out
}

/// The model of a list value is the models of its items.
pub proof fn lemma_list_model(items: Vec<FactValue>)
    ensures
        FactValue::List(items)@ == FactVal::List(values_model(items@)),
{
    let m = FactValue::List(items)@;
    assert(m->List_0 =~= values_model(items@));
}

/// The model of an object value is the models of its pairs.
pub proof fn lemma_object_model(items: Vec<(String, FactValue)>)
    ensures
        FactValue::Object(items)@ == FactVal::Object(pairs_model(items@)),
{
    let m = FactValue::Object(items)@;
    assert(m->Object_0 =~= pairs_model(items@));
}

impl Clone for FactValue {
    fn clone(&self) -> (r: Self)
        ensures
            r@ == self@,
    {
        self.clone_value()
    }
}

impl FactValue {
    /// Deep copy of the value.
    #[verifier::loop_isolation(false)]
    pub fn clone_value(&self) -> (r: FactValue)
        ensures
            r@ == self@,
        decreases self,
    {
        match self {
            FactValue::Str(s) => FactValue::Str(s.clone()),
            FactValue::Int(n) => FactValue::Int(*n),
            FactValue::Bool(b) => FactValue::Bool(*b),
            FactValue::List(items) => {
                let mut out: Vec<FactValue> = Vec::new();
                let mut i: usize = 0;
                while i < items.len()
                    invariant
                        i <= items@.len(),
                        out@.len() == i,
                        forall|j: int| 0 <= j < i ==> #[trigger] out@[j]@ == items@[j]@,
                    decreases items@.len() - i,
                {
                    proof {
                        assert(decreases_to!(*items => items[i as int]));
                        assert(decreases_to!(*self => self->List_0));
                    }
                    let c = items[i].clone_value();
                    out.push(c);
                    i += 1;
                }
                proof {
                    lemma_list_model(out);
                    lemma_list_model(*items);
                    assert(values_model(out@) =~= values_model(items@));
                }
                FactValue::List(out)
            },
            FactValue::Object(items) => {
                let mut out: Vec<(String, FactValue)> = Vec::new();
                let mut i: usize = 0;
                while i < items.len()
                    invariant
                        i <= items@.len(),
                        out@.len() == i,
                        forall|j: int|
                            #![trigger out@[j]]
                            0 <= j < i ==> out@[j].0@ == items@[j].0@ && out@[j].1@ == items@[j].1@,
                    decreases items@.len() - i,
                {
                    let k = items[i].0.clone();
                    proof {
                        assert(decreases_to!(*items => items[i as int]));
                        assert(decreases_to!(*self => self->Object_0));
                        assert(decreases_to!(items[i as int] => items[i as int].1));
                    }
                    let c = items[i].1.clone_value();
                    out.push((k, c));
                    i += 1;
                }
                proof {
                    lemma_object_model(out);
                    lemma_object_model(*items);
                    assert(pairs_model(out@) =~= pairs_model(items@));
                }
                FactValue::Object(out)
            },
            FactValue::Opaque(o) => FactValue::Opaque(o.clone()),
        }
    }

    /// A value that holds `value` without looking into it.
    pub fn opaque<T: std::any::Any + Send + Sync>(value: T) -> (r: FactValue)
        ensures
            r@ == FactVal::Opaque,
    {
        FactValue::Opaque(OpaqueValue::new(value))
    }

    /// The payload of an opaque value as a `T`, if it is one; `None` for any other value.
    pub fn as_opaque<T: std::any::Any>(&self) -> (r: Option<&T>)
        ensures
            !(self is Opaque) ==> r is None,
    {
        match self {
            FactValue::Opaque(o) => o.downcast_ref::<T>(),
            _ => None,
        }
    }

    /// `true` for a string value.
    pub fn is_str(&self) -> (r: bool)
        ensures
            r == (self is Str),
    {
        matches!(self, FactValue::Str(_))
    }

    /// `true` for an integer value.
    pub fn is_int(&self) -> (r: bool)
        ensures
            r == (self is Int),
    {
        matches!(self, FactValue::Int(_))
    }

    /// `true` for a boolean value.
    pub fn is_bool(&self) -> (r: bool)
        ensures
            r == (self is Bool),
    {
        matches!(self, FactValue::Bool(_))
    }

    /// The string, for a string value.
    pub fn as_str(&self) -> (r: Option<&str>)
        ensures
            self is Str <==> r is Some,
            r matches Some(s) ==> s@ == self->Str_0@,
    {
        match self {
            FactValue::Str(s) => Some(s.as_str()),
            _ => None,
        }
    }

    /// The integer, for an integer value.
    pub fn as_int(&self) -> (r: Option<i64>)
        ensures
            r == (if self is Int { Some(self->Int_0) } else { None::<i64> }),
    {
        match self {
            FactValue::Int(n) => Some(*n),
            _ => None,
        }
    }

    /// The boolean, for a boolean value.
    pub fn as_bool(&self) -> (r: Option<bool>)
        ensures
            r == (if self is Bool { Some(self->Bool_0) } else { None::<bool> }),
    {
        match self {
            FactValue::Bool(b) => Some(*b),
            _ => None,
        }
    }

    /// The string, consuming the value, for a string value.
    pub fn into_string(self) -> (r: Option<String>)
        ensures
            self is Str <==> r is Some,
            r matches Some(s) ==> s == self->Str_0,
    {
        match self {
            FactValue::Str(s) => Some(s),
            _ => None,
        }
    }

    /// Appends `other` to this value as a list: the items of a list are spliced in, a scalar
    /// becomes one item, so the result never holds the inputs' lists nested.
    pub fn push_into_list(self, other: FactValue) -> (r: FactValue)
        ensures
            r@ == spec_push_into_list(self@, other@),
            r is List,
    {
        let ghost a = self@;
        let ghost b = other@;
        let mut out: Vec<FactValue> = match self {
            FactValue::List(v) => {
                proof { lemma_list_model(v); }
                v
            },
            prev => {
                let mut v: Vec<FactValue> = Vec::new();
                v.push(prev);
                proof { lemma_list_model(v); assert(values_model(v@) =~= seq![a]); }
                v
            },
        };
        assert(values_model(out@) == list_items(a));
        match other {
            FactValue::List(items) => {
                proof { lemma_list_model(items); }
                let ghost start = out@;
                let mut i: usize = 0;
                while i < items.len()
                    invariant
                        i <= items@.len(),
                        out@.len() == start.len() + i,
                        forall|j: int| 0 <= j < start.len() ==> #[trigger] out@[j] == start[j],
                        forall|j: int| 0 <= j < i ==> #[trigger] out@[start.len() + j]@ == items@[j]@,
                    decreases items@.len() - i,
                {
                    out.push(items[i].clone_value());
                    i += 1;
                }
                proof {
                    lemma_list_model(out);
                    assert forall|j: int| 0 <= j < out@.len() implies #[trigger] values_model(out@)[j]
                        == (values_model(start) + values_model(items@))[j] by {
                        if j >= start.len() {
                            assert(out@[start.len() + (j - start.len())]@ == items@[j - start.len()]@);
                        }
                    }
                    assert(values_model(out@) =~= values_model(start) + values_model(items@));
                }
                FactValue::List(out)
            },
            scalar => {
                let ghost start = out@;
                out.push(scalar);
                proof {
                    lemma_list_model(out);
                    assert(values_model(out@) =~= values_model(start) + seq![b]);
                }
                FactValue::List(out)
            },
        }
    }
}

impl FactValue {
    /// Text of the value: strings as they are, integers in decimal, `true`/`false`,
    /// lists as `[a, b]` and objects as `{key: value, ...}`.
    #[verifier::loop_isolation(false)]
    pub fn to_string(&self) -> (r: String)
        ensures
            r@ == display_chars(self@),
        decreases self,
    {
        match self {
            FactValue::Str(s) => s.clone(),
            FactValue::Int(n) => i64_to_string(*n),
            FactValue::Bool(b) => {
                proof { reveal_strlit("true"); reveal_strlit("false"); }
                bool_to_string(*b)
            },
            FactValue::List(items) => {
                proof { lemma_list_model(*items); }
                let ghost xs = values_model(items@);
                let mut parts: Vec<String> = Vec::new();
                let mut i: usize = 0;
                while i < items.len()
                    invariant
                        i <= items@.len(),
                        parts@.len() == i,
                        forall|j: int| 0 <= j < i ==> #[trigger] parts@[j]@ == display_chars(items@[j]@),
                    decreases items@.len() - i,
                {
                    proof {
                        assert(decreases_to!(*items => items[i as int]));
                        assert(decreases_to!(*self => self->List_0));
                    }
                    parts.push(items[i].to_string());
                    i += 1;
                }
                let joined = join_strings(&parts, ", ");
                let mut out = crate::text::string_of("[");
                out.append(joined.as_str());
                out.append("]");
                proof {
                    reveal_strlit("[");
                    reveal_strlit("]");
                    reveal_strlit(", ");
                    assert(", "@ =~= seq![',', ' ']);
                    assert(string_views(parts@) =~= display_list_parts(xs));
                    assert(out@ =~= display_chars(self@));
                }
                out
            },
            FactValue::Object(items) => {
                proof { lemma_object_model(*items); }
                let ghost ps = pairs_model(items@);
                let mut parts: Vec<String> = Vec::new();
                let mut i: usize = 0;
                while i < items.len()
                    invariant
                        i <= items@.len(),
                        parts@.len() == i,
                        forall|j: int| 0 <= j < i ==> #[trigger] parts@[j]@ == items@[j].0@ + seq![':', ' '] + display_chars(items@[j].1@),
                    decreases items@.len() - i,
                {
                    proof {
                        assert(decreases_to!(*items => items[i as int]));
                        assert(decreases_to!(*self => self->Object_0));
                        assert(decreases_to!(items[i as int] => items[i as int].1));
                    }
                    let mut part = items[i].0.clone();
                    part.append(": ");
                    let v = items[i].1.to_string();
                    part.append(v.as_str());
                    proof { reveal_strlit(": "); assert(part@ =~= items@[i as int].0@ + seq![':', ' '] + display_chars(items@[i as int].1@)); }
                    parts.push(part);
                    i += 1;
                }
                let joined = join_strings(&parts, ", ");
                let mut out = crate::text::string_of("{");
                out.append(joined.as_str());
                out.append("}");
                proof {
                    reveal_strlit("{");
                    reveal_strlit("}");
                    reveal_strlit(", ");
                    assert(", "@ =~= seq![',', ' ']);
                    assert(string_views(parts@) =~= display_object_parts(ps));
                    assert(out@ =~= display_chars(self@));
                }
                out
            },
            FactValue::Opaque(_) => crate::text::string_of("<opaque>"),
        }
    }
}

impl FactValue {
    /// Text of the value inside a record: strings quoted with `'`, the rest as
    /// [`FactValue::to_string`] writes it.
    #[verifier::loop_isolation(false)]
    pub fn repr(&self) -> (r: String)
        ensures
            r@ == repr_chars(self@),
        decreases self,
    {
        match self {
            FactValue::Str(s) => {
                let mut out = crate::text::string_of("'");
                out.append(s.as_str());
                out.append("'");
                proof {
                    reveal_strlit("'");
                    assert(out@ =~= repr_chars(self@));
                }
                out
            },
            FactValue::Int(n) => i64_to_string(*n),
            FactValue::Bool(b) => {
                proof { reveal_strlit("true"); reveal_strlit("false"); }
                bool_to_string(*b)
            },
            FactValue::List(items) => {
                proof { lemma_list_model(*items); }
                let ghost xs = values_model(items@);
                let mut parts: Vec<String> = Vec::new();
                let mut i: usize = 0;
                while i < items.len()
                    invariant
                        i <= items@.len(),
                        parts@.len() == i,
                        forall|j: int| 0 <= j < i ==> #[trigger] parts@[j]@ == repr_chars(items@[j]@),
                    decreases items@.len() - i,
                {
                    proof {
                        assert(decreases_to!(*items => items[i as int]));
                        assert(decreases_to!(*self => self->List_0));
                    }
                    parts.push(items[i].repr());
                    i += 1;
                }
                let joined = join_strings(&parts, ", ");
                let mut out = crate::text::string_of("[");
                out.append(joined.as_str());
                out.append("]");
                proof {
                    reveal_strlit("[");
                    reveal_strlit("]");
                    reveal_strlit(", ");
                    assert(", "@ =~= seq![',', ' ']);
                    assert(string_views(parts@) =~= repr_list_parts(xs));
                    assert(out@ =~= repr_chars(self@));
                }
                out
            },
            FactValue::Object(items) => {
                proof { lemma_object_model(*items); }
                let ghost ps = pairs_model(items@);
                let mut parts: Vec<String> = Vec::new();
                let mut i: usize = 0;
                while i < items.len()
                    invariant
                        i <= items@.len(),
                        parts@.len() == i,
                        forall|j: int| 0 <= j < i ==> #[trigger] parts@[j]@ == items@[j].0@ + seq![':', ' '] + repr_chars(items@[j].1@),
                    decreases items@.len() - i,
                {
                    proof {
                        assert(decreases_to!(*items => items[i as int]));
                        assert(decreases_to!(*self => self->Object_0));
                        assert(decreases_to!(items[i as int] => items[i as int].1));
                    }
                    let mut part = items[i].0.clone();
                    part.append(": ");
                    let v = items[i].1.repr();
                    part.append(v.as_str());
                    proof { reveal_strlit(": "); assert(part@ =~= items@[i as int].0@ + seq![':', ' '] + repr_chars(items@[i as int].1@)); }
                    parts.push(part);
                    i += 1;
                }
                let joined = join_strings(&parts, ", ");
                let mut out = crate::text::string_of("{");
                out.append(joined.as_str());
                out.append("}");
                proof {
                    reveal_strlit("{");
                    reveal_strlit("}");
                    reveal_strlit(", ");
                    assert(", "@ =~= seq![',', ' ']);
                    assert(string_views(parts@) =~= repr_object_parts(ps));
                    assert(out@ =~= repr_chars(self@));
                }
                out
            },
            FactValue::Opaque(_) => crate::text::string_of("<opaque>"),
        }
    }
}

impl From<String> for FactValue {
    fn from(s: String) -> (r: FactValue)
        ensures
            r == FactValue::Str(s),
    {
        FactValue::Str(s)
    }
}

impl vstd::std_specs::convert::FromSpecImpl<String> for FactValue {
    open spec fn obeys_from_spec() -> bool {
        true
    }

    open spec fn from_spec(s: String) -> FactValue {
        FactValue::Str(s)
    }
}

impl<'a> From<&'a str> for FactValue {
    fn from(s: &'a str) -> FactValue {
        FactValue::Str(String::from_str(s))
    }
}

impl<'a> vstd::std_specs::convert::FromSpecImpl<&'a str> for FactValue {
    /// A spec function cannot build the `String`; the conversion is described by `from_str`.
    open spec fn obeys_from_spec() -> bool {
        false
    }

    open spec fn from_spec(s: &'a str) -> FactValue {
        FactValue::Bool(false)
    }
}

impl From<i64> for FactValue {
    fn from(n: i64) -> (r: FactValue)
        ensures
            r == FactValue::Int(n),
    {
        FactValue::Int(n)
    }
}

impl vstd::std_specs::convert::FromSpecImpl<i64> for FactValue {
    open spec fn obeys_from_spec() -> bool {
        true
    }

    open spec fn from_spec(n: i64) -> FactValue {
        FactValue::Int(n)
    }
}

impl From<i32> for FactValue {
    fn from(n: i32) -> (r: FactValue)
        ensures
            r == FactValue::Int(n as i64),
    {
        FactValue::Int(n as i64)
    }
}

impl vstd::std_specs::convert::FromSpecImpl<i32> for FactValue {
    open spec fn obeys_from_spec() -> bool {
        true
    }

    open spec fn from_spec(n: i32) -> FactValue {
        FactValue::Int(n as i64)
    }
}

impl From<bool> for FactValue {
    fn from(b: bool) -> (r: FactValue)
        ensures
            r == FactValue::Bool(b),
    {
        FactValue::Bool(b)
    }
}

impl vstd::std_specs::convert::FromSpecImpl<bool> for FactValue {
    open spec fn obeys_from_spec() -> bool {
        true
    }

    open spec fn from_spec(b: bool) -> FactValue {
        FactValue::Bool(b)
    }
}

/// Appending to a list is associative: `(a ++ b) ++ c` and `a ++ (b ++ c)` hold the same items.
pub proof fn lemma_push_into_list_associative(a: FactVal, b: FactVal, c: FactVal)
    ensures
        spec_push_into_list(spec_push_into_list(a, b), c) == spec_push_into_list(
            a,
            spec_push_into_list(b, c),
        ),
{
    assert(list_items(a) + list_items(b) + list_items(c) =~= list_items(a) + (list_items(b)
        + list_items(c)));
}

/// Appending keeps every item in order: the items of the result are the items of the first
/// value followed by those of the second, and its length is the sum of theirs.
pub proof fn lemma_push_into_list_items(a: FactVal, b: FactVal)
    ensures
        list_items(spec_push_into_list(a, b)) == list_items(a) + list_items(b),
        list_items(spec_push_into_list(a, b)).len() == list_items(a).len() + list_items(b).len(),
{
}

} // verus!
