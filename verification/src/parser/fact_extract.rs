//! The fields of a fact being extracted, keyed by name in sorted order as a map holds them.
use vstd::prelude::*;

use crate::interpretation::value::{pairs_model, spec_push_into_list, FactVal, FactValue};
use crate::text::{lemma_seq_lt_total, lemma_seq_lt_transitive, seq_lt, str_eq, str_lt, string_of, strictly_sorted};

verus! {

/// Names of the fields.
pub open spec fn field_names(fields: Seq<(Seq<char>, FactVal)>) -> Seq<Seq<char>> {
    fields.map_values(|p: (Seq<char>, FactVal)| p.0)
}

/// The value a field takes when `value` is set on it: `value` itself for a field that is not
/// repeatable; for a repeatable one, a one-item list when the field had no value, else the
/// old value with `value` appended as [`spec_push_into_list`] says (a list is spliced in, a
/// scalar becomes one item).
pub open spec fn field_update(old: Option<FactVal>, value: FactVal, repeatable: bool) -> FactVal {
    if !repeatable {
        value
    } else {
        match old {
            None => FactVal::List(seq![value]),
            Some(x) => spec_push_into_list(x, value),
        }
    }
}

/// Setting `name` to `value` at position `i` of fields sorted by name: every name before `i`
/// is less than `name` and the name at `i`, if any, is not; the field at `i` is updated when
/// it has that name, else a new field is inserted at `i`.
pub open spec fn set_field_at(
    old: Seq<(Seq<char>, FactVal)>,
    new: Seq<(Seq<char>, FactVal)>,
    name: Seq<char>,
    value: FactVal,
    repeatable: bool,
    i: int,
) -> bool {
    &&& 0 <= i <= old.len()
    &&& forall|j: int| 0 <= j < i ==> seq_lt(#[trigger] old[j].0, name)
    &&& i < old.len() ==> !seq_lt(old[i].0, name)
    &&& if i < old.len() && old[i].0 == name {
        new == old.update(i, (name, field_update(Some(old[i].1), value, repeatable)))
    } else {
        new == old.insert(i, (name, field_update(None, value, repeatable)))
    }
}

/// The outcome of setting `name` to `value` on fields sorted by name (see [`set_field_at`]).
pub open spec fn set_field_result(
    old: Seq<(Seq<char>, FactVal)>,
    new: Seq<(Seq<char>, FactVal)>,
    name: Seq<char>,
    value: FactVal,
    repeatable: bool,
) -> bool {
    exists|i: int| #[trigger] set_field_at(old, new, name, value, repeatable, i)
}

/// Sets the field `name` to `value`: a repeatable field accumulates values as a list, any
/// other field is replaced. The fields stay sorted by name, each name once.
pub fn set_fact_field(fields: &mut Vec<(String, FactValue)>, name: &str, value: FactValue, repeatable: bool)
    requires
        strictly_sorted(field_names(pairs_model(old(fields)@))),
    ensures
        strictly_sorted(field_names(pairs_model(final(fields)@))),
        set_field_result(pairs_model(old(fields)@), pairs_model(final(fields)@), name@, value@, repeatable),
{
    let ghost old_f = pairs_model(fields@);
    let ghost v = value@;
    let mut i: usize = 0;
    while i < fields.len() && str_lt(fields[i].0.as_str(), name)
        invariant
            i <= fields@.len(),
            old_f == pairs_model(fields@),
            forall|j: int| 0 <= j < i ==> seq_lt(#[trigger] old_f[j].0, name@),
        decreases fields@.len() - i,
    {
        i += 1;
    }
    proof {
        assert(i < old_f.len() ==> !seq_lt(old_f[i as int].0, name@));
    }
    let found = i < fields.len() && str_eq(fields[i].0.as_str(), name);
    if found {
        let (key, existing) = fields.remove(i);
        let updated = if repeatable {
            existing.push_into_list(value)
        } else {
            value
        };
        fields.insert(i, (key, updated));
        proof {
            let new_f = pairs_model(fields@);
            assert(new_f =~= old_f.update(i as int, (name@, field_update(Some(old_f[i as int].1), v, repeatable))));
            assert(field_names(new_f) =~= field_names(old_f));
            assert(set_field_at(old_f, new_f, name@, v, repeatable, i as int));
        }
    } else {
        let updated = if repeatable {
            let mut items: Vec<FactValue> = Vec::new();
            items.push(value);
            proof {
                crate::interpretation::value::lemma_list_model(items);
                assert(crate::interpretation::value::values_model(items@) =~= seq![v]);
            }
            FactValue::List(items)
        } else {
            value
        };
        fields.insert(i, (string_of(name), updated));
        proof {
            let new_f = pairs_model(fields@);
            assert(new_f =~= old_f.insert(i as int, (name@, field_update(None, v, repeatable))));
            let on = field_names(old_f);
            let nn = field_names(new_f);
            if i < old_f.len() {
                lemma_seq_lt_total(old_f[i as int].0, name@);
                assert(old_f[i as int].0 != name@);
                assert(seq_lt(name@, on[i as int]));
            }
            assert forall|a: int, b: int| 0 <= a < b < nn.len() implies seq_lt(#[trigger] nn[a], #[trigger] nn[b]) by {
                if b < i {
                    assert(nn[a] == on[a] && nn[b] == on[b]);
                } else if b == i {
                    assert(nn[b] == name@);
                    assert(nn[a] == on[a]);
                } else if a == i {
                    assert(nn[a] == name@);
                    assert(nn[b] == on[b - 1]);
                    if b - 1 > i {
                        lemma_seq_lt_transitive(name@, on[i as int], on[b - 1]);
                    }
                } else if a < i {
                    assert(nn[a] == on[a] && nn[b] == on[b - 1]);
                } else {
                    assert(nn[a] == on[a - 1] && nn[b] == on[b - 1]);
                }
            }
            assert(set_field_at(old_f, new_f, name@, v, repeatable, i as int));
        }
    }
}

} // verus!
