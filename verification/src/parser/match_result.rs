//! Results of the parser: resolution of overlapping `(start, stop)` ranges of matches.
use vstd::multiset::Multiset;
use vstd::prelude::*;

verus! {

/// `a` comes before `b`: by start, and for the same start the longer range first.
pub open spec fn range_before(a: (usize, usize), b: (usize, usize)) -> bool {
    a.0 < b.0 || (a.0 == b.0 && a.1 >= b.1)
}

/// The ranges are in the order of [`range_before`].
pub open spec fn ranges_sorted(s: Seq<(usize, usize)>) -> bool {
    forall|i: int, j: int| 0 <= i < j < s.len() ==> range_before(s[i], s[j])
}

/// State of the greedy pass after the ranges of `s`: the ranges kept so far, and the current
/// one.
pub open spec fn greedy(s: Seq<(usize, usize)>) -> (Seq<(usize, usize)>, Option<(usize, usize)>)
    decreases s.len(),
{
    if s.len() == 0 {
        (Seq::empty(), None)
    } else {
        let prev = greedy(s.drop_last());
        let x = s.last();
        match prev.1 {
            None => (prev.0, Some(x)),
            Some(c) => if x.0 >= c.1 {
                (prev.0.push(c), Some(x))
            } else if x.1 > c.1 {
                (prev.0, Some(x))
            } else {
                (prev.0, Some(c))
            },
        }
    }
}

/// The ranges kept by the greedy pass over sorted ranges.
pub open spec fn greedy_result(s: Seq<(usize, usize)>) -> Seq<(usize, usize)> {
    let g = greedy(s);
    match g.1 {
        Some(c) => g.0.push(c),
        None => g.0,
    }
}

/// Inserts `x` into sorted ranges after those that come before it.
fn insert_sorted(v: &mut Vec<(usize, usize)>, x: (usize, usize))
    requires
        ranges_sorted(old(v)@),
    ensures
        ranges_sorted(final(v)@),
        final(v)@.to_multiset() == old(v)@.to_multiset().insert(x),
{
    let mut p: usize = 0;
    while p < v.len() && (v[p].0 < x.0 || (v[p].0 == x.0 && v[p].1 >= x.1))
        invariant
            p <= v@.len(),
            v@ == old(v)@,
            forall|j: int| 0 <= j < p ==> range_before(v@[j], x),
        decreases v@.len() - p,
    {
        p += 1;
    }
    let ghost before = v@;
    v.insert(p, x);
    proof {
        assert(v@ == before.insert(p as int, x));
        assert forall|a: int, b: int| 0 <= a < b < v@.len() implies range_before(v@[a], v@[b]) by {
            if b < p {
            } else if a < p && b == p {
            } else if a < p && b > p {
                assert(range_before(before[a], before[b - 1]));
            } else if a == p && b > p {
                assert(!range_before(before[p as int], x));
                assert(range_before(before[p as int], before[b - 1]) || p as int == b - 1);
            } else {
            }
        }
        vstd::seq_lib::lemma_seq_union_to_multiset_commutative::<(usize, usize)>(before.take(p as int), seq![x]);
        assert(before.insert(p as int, x) =~= before.take(p as int) + seq![x] + before.skip(p as int));
        assert(before =~= before.take(p as int) + before.skip(p as int));
        vstd::seq_lib::lemma_multiset_commutative(before.take(p as int) + seq![x], before.skip(p as int));
        vstd::seq_lib::lemma_multiset_commutative(before.take(p as int), seq![x]);
        vstd::seq_lib::lemma_multiset_commutative(before.take(p as int), before.skip(p as int));
        assert(seq![x].to_multiset() =~= Multiset::<(usize, usize)>::empty().insert(x)) by {
            assert(seq![x] =~= Seq::<(usize, usize)>::empty().push(x));
            Seq::<(usize, usize)>::empty().to_multiset_ensures();
        }
    }
}

/// Sorts ranges by start, and for the same start the longer first.
fn sort_ranges(spans: Vec<(usize, usize)>) -> (r: Vec<(usize, usize)>)
    ensures
        ranges_sorted(r@),
        r@.to_multiset() == spans@.to_multiset(),
{
    let mut out: Vec<(usize, usize)> = Vec::new();
    let mut i: usize = 0;
    proof {
        assert(spans@.take(0) =~= Seq::<(usize, usize)>::empty());
        Seq::<(usize, usize)>::empty().to_multiset_ensures();
    }
    while i < spans.len()
        invariant
            i <= spans@.len(),
            ranges_sorted(out@),
            out@.to_multiset() == spans@.take(i as int).to_multiset(),
        decreases spans@.len() - i,
    {
        insert_sorted(&mut out, spans[i]);
        proof {
            assert(spans@.take(i + 1) =~= spans@.take(i as int).push(spans@[i as int]));
            spans@.take(i as int).to_multiset_ensures();
        }
        i += 1;
    }
    assert(spans@.take(spans@.len() as int) =~= spans@);
    out
}

/// Resolves overlapping ranges: sorted by start (the longer first for the same start), a
/// range is kept until one starts at or after its stop, and a range that starts inside it
/// but stops later replaces it.
pub fn resolve_spans(spans: Vec<(usize, usize)>) -> (r: Vec<(usize, usize)>)
    ensures
        exists|sorted: Seq<(usize, usize)>| {
            &&& ranges_sorted(sorted)
            &&& sorted.to_multiset() == spans@.to_multiset()
            &&& r@ == greedy_result(sorted)
        },
        resolution_of(spans@, r@),
{
    let sorted = sort_ranges(spans);
    let mut out: Vec<(usize, usize)> = Vec::new();
    let mut cur: Option<(usize, usize)> = None;
    let mut i: usize = 0;
    while i < sorted.len()
        invariant
            i <= sorted@.len(),
            (out@, cur) == greedy(sorted@.take(i as int)),
        decreases sorted@.len() - i,
    {
        let s = sorted[i];
        proof {
            assert(sorted@.take(i + 1).drop_last() =~= sorted@.take(i as int));
            assert(sorted@.take(i + 1).last() == s);
        }
        match cur {
            None => cur = Some(s),
            Some(c) => {
                if s.0 >= c.1 {
                    out.push(c);
                    cur = Some(s);
                } else if s.1 > c.1 {
                    cur = Some(s);
                }
            },
        }
        i += 1;
    }
    proof {
        assert(sorted@.take(sorted@.len() as int) =~= sorted@);
    }
    if let Some(c) = cur {
        out.push(c);
    }
    out
}

/// The kept ranges of a greedy pass over sorted ranges are themselves sorted and do not
/// overlap: each stops no later than the next one starts.
pub proof fn law_resolved_ranges_do_not_overlap(s: Seq<(usize, usize)>)
    requires
        ranges_sorted(s),
    ensures
        forall|i: int| 0 <= i < greedy_result(s).len() - 1 ==> #[trigger] greedy_result(s)[i].1 <= greedy_result(s)[i + 1].0,
{
    lemma_greedy(s);
    let g = greedy(s);
    match g.1 {
        Some(c) => {
            let r = g.0.push(c);
            assert forall|i: int| 0 <= i < r.len() - 1 implies #[trigger] r[i].1 <= r[i + 1].0 by {
                if i + 1 < g.0.len() {
                } else {
                    assert(r[i] == g.0.last());
                }
            }
        },
        None => {},
    }
}

/// Invariant of the greedy pass: kept ranges do not overlap, the current range is one of
/// the ranges seen, and it starts at or after the stop of the last kept one.
proof fn lemma_greedy(s: Seq<(usize, usize)>)
    requires
        ranges_sorted(s),
    ensures
        forall|i: int| 0 <= i < greedy(s).0.len() - 1 ==> #[trigger] greedy(s).0[i].1 <= greedy(s).0[i + 1].0,
        s.len() > 0 <==> greedy(s).1 is Some,
        s.len() == 0 ==> greedy(s).0.len() == 0,
        greedy(s).1 is Some && greedy(s).0.len() > 0 ==> greedy(s).0.last().1 <= (greedy(s).1->0).0,
        greedy(s).1 is Some ==> s.contains(greedy(s).1->0),
    decreases s.len(),
{
    if s.len() > 0 {
        let t = s.drop_last();
        assert(ranges_sorted(t));
        lemma_greedy(t);
        let x = s.last();
        assert(s.contains(x)) by {
            assert(s[s.len() - 1] == x);
        }
        let prev = greedy(t);
        match prev.1 {
            None => {},
            Some(c) => {
                let k = choose|k: int| 0 <= k < t.len() && t[k] == c;
                assert(s[k] == c);
                assert(range_before(s[k], s[s.len() - 1]));
                assert(c.0 <= x.0);
                if x.0 >= c.1 {
                    let o = prev.0.push(c);
                    assert forall|i: int| 0 <= i < o.len() - 1 implies #[trigger] o[i].1 <= o[i + 1].0 by {
                        if i + 1 < prev.0.len() {
                        } else {
                            assert(o[i] == prev.0.last());
                        }
                    }
                } else {
                    assert(s.contains(c));
                }
            },
        }
    }
}


/// Every range the greedy pass keeps or holds is one of its input.
pub(crate) proof fn lemma_greedy_from(s: Seq<(usize, usize)>)
    ensures
        forall|i: int| 0 <= i < greedy(s).0.len() ==> s.contains(#[trigger] greedy(s).0[i]),
        greedy(s).1 matches Some(c) ==> s.contains(c),
    decreases s.len(),
{
    if s.len() > 0 {
        let d = s.drop_last();
        lemma_greedy_from(d);
        assert forall|x: (usize, usize)| d.contains(x) implies s.contains(x) by {
            let j = choose|j: int| 0 <= j < d.len() && d[j] == x;
            assert(s[j] == x);
        }
        assert(s[s.len() - 1] == s.last());
    }
}


/// The greedy pass holds, as its current range, one that stops as late as any range seen.
proof fn lemma_greedy_reach(s: Seq<(usize, usize)>)
    requires
        forall|k: int| 0 <= k < s.len() ==> (#[trigger] s[k]).0 <= s[k].1,
    ensures
        s.len() > 0 ==> greedy(s).1 is Some,
        greedy(s).1 matches Some(c) ==> forall|k: int| 0 <= k < s.len() ==> (#[trigger] s[k]).1 <= c.1,
    decreases s.len(),
{
    if s.len() > 0 {
        let d = s.drop_last();
        assert forall|k: int| 0 <= k < d.len() implies (#[trigger] d[k]).0 <= d[k].1 by {
            assert(d[k] == s[k]);
        }
        lemma_greedy_reach(d);
        let x = s.last();
        assert(x == s[s.len() - 1]);
        assert(x.0 <= x.1);
        let g = greedy(s);
        let c = g.1->0;
        assert forall|k: int| 0 <= k < s.len() implies (#[trigger] s[k]).1 <= c.1 by {
            if k < s.len() - 1 {
                assert(s[k] == d[k]);
            }
        }
    }
}

/// `r` is what [`resolve_spans`] gives for `spans`.
pub open spec fn resolution_of(spans: Seq<(usize, usize)>, r: Seq<(usize, usize)>) -> bool {
    exists|sorted: Seq<(usize, usize)>|
        #![trigger ranges_sorted(sorted)]
        {
            &&& ranges_sorted(sorted)
            &&& sorted.to_multiset() == spans.to_multiset()
            &&& r == greedy_result(sorted)
        }
}

/// Resolving overlaps never loses reach: of ranges that each start at or before their stop,
/// the last range kept stops exactly where the furthest-reaching range stops, and it is one
/// of the ranges given. A range that starts inside the current one and stops later thus
/// replaces it, however long either is.
pub proof fn law_resolution_reaches_furthest(spans: Seq<(usize, usize)>, r: Seq<(usize, usize)>)
    requires
        resolution_of(spans, r),
        spans.len() > 0,
        forall|k: int| 0 <= k < spans.len() ==> (#[trigger] spans[k]).0 <= spans[k].1,
    ensures
        r.len() > 0,
        spans.contains(r.last()),
        forall|k: int| 0 <= k < spans.len() ==> (#[trigger] spans[k]).1 <= r.last().1,
{
    let sorted = choose|sorted: Seq<(usize, usize)>| {
        &&& ranges_sorted(sorted)
        &&& sorted.to_multiset() == spans.to_multiset()
        &&& r == greedy_result(sorted)
    };
    assert forall|k: int| 0 <= k < sorted.len() implies (#[trigger] sorted[k]).0 <= sorted[k].1 by {
        let x = sorted[k];
        assert(sorted.contains(x));
        vstd::seq_lib::to_multiset_contains(sorted, x);
        vstd::seq_lib::to_multiset_contains(spans, x);
        let m = choose|m: int| 0 <= m < spans.len() && spans[m] == x;
        assert(spans[m].0 <= spans[m].1);
    }
    assert(spans.contains(spans[0]));
    vstd::seq_lib::to_multiset_contains(spans, spans[0]);
    vstd::seq_lib::to_multiset_contains(sorted, spans[0]);
    assert(sorted.len() > 0);
    lemma_greedy_reach(sorted);
    lemma_greedy_from(sorted);
    let c = greedy(sorted).1->0;
    assert(r.last() == c);
    vstd::seq_lib::to_multiset_contains(sorted, c);
    vstd::seq_lib::to_multiset_contains(spans, c);
    assert forall|k: int| 0 <= k < spans.len() implies (#[trigger] spans[k]).1 <= r.last().1 by {
        let x = spans[k];
        assert(spans.contains(x));
        vstd::seq_lib::to_multiset_contains(spans, x);
        vstd::seq_lib::to_multiset_contains(sorted, x);
        let m = choose|m: int| 0 <= m < sorted.len() && sorted[m] == x;
        assert(sorted[m].1 <= c.1);
    }
}


/// Two ranges, the first before the second in the resolution order, sort only one way.
proof fn lemma_two_sorted(a: (usize, usize), b: (usize, usize), sorted: Seq<(usize, usize)>)
    requires
        ranges_sorted(sorted),
        sorted.to_multiset() == seq![a, b].to_multiset(),
        range_before(a, b),
        !range_before(b, a),
    ensures
        sorted == seq![a, b],
{
    let two = seq![a, b];
    two.to_multiset_ensures();
    sorted.to_multiset_ensures();
    assert(sorted.len() == 2);
    assert(two.contains(a) && two.contains(b));
    vstd::seq_lib::to_multiset_contains(two, a);
    vstd::seq_lib::to_multiset_contains(two, b);
    vstd::seq_lib::to_multiset_contains(sorted, a);
    vstd::seq_lib::to_multiset_contains(sorted, b);
    assert(sorted.contains(sorted[0]) && sorted.contains(sorted[1]));
    vstd::seq_lib::to_multiset_contains(sorted, sorted[0]);
    vstd::seq_lib::to_multiset_contains(sorted, sorted[1]);
    vstd::seq_lib::to_multiset_contains(two, sorted[0]);
    vstd::seq_lib::to_multiset_contains(two, sorted[1]);
    assert(a != b);
    assert(range_before(sorted[0], sorted[1]));
    assert(sorted =~= seq![a, b]);
}

proof fn lemma_greedy_one(a: (usize, usize))
    ensures
        greedy(seq![a]) == (Seq::<(usize, usize)>::empty(), Some(a)),
{
    let one = seq![a];
    assert(one.drop_last() =~= Seq::<(usize, usize)>::empty());
    assert(greedy(Seq::<(usize, usize)>::empty()) == (Seq::<(usize, usize)>::empty(), None::<(usize, usize)>));
    assert(one.last() == a);
}

/// The resolution of two ranges, the first before the second in the resolution order.
proof fn lemma_two_resolution(a: (usize, usize), b: (usize, usize), r: Seq<(usize, usize)>)
    requires
        resolution_of(seq![a, b], r),
        range_before(a, b),
        !range_before(b, a),
    ensures
        r == greedy_result(seq![a, b]),
{
    let sorted = choose|sorted: Seq<(usize, usize)>| {
        &&& ranges_sorted(sorted)
        &&& sorted.to_multiset() == seq![a, b].to_multiset()
        &&& r == greedy_result(sorted)
    };
    lemma_two_sorted(a, b, sorted);
}

/// A range that starts inside another and stops later replaces it, whichever is longer.
pub proof fn law_later_stopping_range_replaces(a: (usize, usize), b: (usize, usize), r: Seq<(usize, usize)>)
    requires
        a.0 < b.0 < a.1 < b.1,
        resolution_of(seq![a, b], r),
    ensures
        r == seq![b],
{
    lemma_two_resolution(a, b, r);
    let s = seq![a, b];
    assert(s.drop_last() =~= seq![a]);
    assert(seq![a].drop_last() =~= Seq::<(usize, usize)>::empty());
    lemma_greedy_one(a);
    assert(s.last() == b);
    assert(greedy(s) == (Seq::<(usize, usize)>::empty(), Some(b)));
    assert(greedy_result(s) =~= seq![b]);
}

/// Two ranges that do not overlap, the first one not empty, are both kept, in order.
pub proof fn law_separate_ranges_are_kept(a: (usize, usize), b: (usize, usize), r: Seq<(usize, usize)>)
    requires
        a.0 < a.1 <= b.0 <= b.1,
        resolution_of(seq![a, b], r),
    ensures
        r == seq![a, b],
{
    lemma_two_resolution(a, b, r);
    let s = seq![a, b];
    assert(s.drop_last() =~= seq![a]);
    assert(seq![a].drop_last() =~= Seq::<(usize, usize)>::empty());
    lemma_greedy_one(a);
    assert(s.last() == b);
    assert(greedy(s) == (seq![a], Some(b)));
    assert(greedy_result(s) =~= seq![a, b]);
}

/// Of two ranges with the same start, the longer one is kept.
pub proof fn law_longer_range_from_the_same_start(a: (usize, usize), b: (usize, usize), r: Seq<(usize, usize)>)
    requires
        a.0 < a.1,
        a.0 == b.0,
        a.1 > b.1,
        resolution_of(seq![a, b], r),
    ensures
        r == seq![a],
{
    lemma_two_resolution(a, b, r);
    let s = seq![a, b];
    assert(s.drop_last() =~= seq![a]);
    assert(seq![a].drop_last() =~= Seq::<(usize, usize)>::empty());
    lemma_greedy_one(a);
    assert(s.last() == b);
    assert(greedy(s) == (Seq::<(usize, usize)>::empty(), Some(a)));
    assert(greedy_result(s) =~= seq![a]);
}

} // verus!
