//! Small string utilities shared by the library: lower-casing, joining, decimal printing.
use vstd::prelude::*;
use vstd::string::*;

verus! {

/// The lower-case form that the standard library gives to a string (`str::to_lowercase`).
pub uninterp spec fn lowercase_chars(s: Seq<char>) -> Seq<char>;

/// Lower-cases a string with `str::to_lowercase`.
///
/// Trusted: claims only that the result is the standard library's lower-case form of `s`,
/// which depends on `s` alone.
#[verifier::external_body]
pub(crate) fn to_lowercase(s: &str) -> (r: String)
    ensures
        r@ == lowercase_chars(s@),
{
    s.to_lowercase()
}

/// Builds a `String` from a string slice.
pub fn string_of(s: &str) -> (r: String)
    ensures
        r@ == s@,
{
    String::from_str(s)
}

/// Appends the contents of `other`.
pub fn push_str(s: &mut String, other: &str)
    ensures
        final(s)@ == old(s)@ + other@,
{
    s.append(other)
}

/// Concatenation of `parts` with `sep` between consecutive elements.
pub open spec fn join_seq(parts: Seq<Seq<char>>, sep: Seq<char>) -> Seq<char>
    decreases parts.len(),
{
    if parts.len() == 0 {
        Seq::empty()
    } else if parts.len() == 1 {
        parts[0]
    } else {
        join_seq(parts.drop_last(), sep) + sep + parts.last()
    }
}

/// Views of a vector of strings.
pub open spec fn string_views(v: Seq<String>) -> Seq<Seq<char>> {
    v.map_values(|s: String| s@)
}

/// Joins the strings of `parts` with `sep` between them.
pub fn join_strings(parts: &Vec<String>, sep: &str) -> (r: String)
    ensures
        r@ == join_seq(string_views(parts@), sep@),
{
    let mut res = String::new();
    let ghost views = string_views(parts@);
    let mut i: usize = 0;
    while i < parts.len()
        invariant
            i <= parts@.len(),
            views == string_views(parts@),
            res@ == join_seq(views.take(i as int), sep@),
        decreases parts@.len() - i,
    {
        proof {
            assert(views.take(i + 1).drop_last() =~= views.take(i as int));
            assert(views.take(i + 1).last() == parts@[i as int]@);
        }
        if i != 0 {
            res.append(sep);
        } else {
            assert(views.take(0) =~= Seq::<Seq<char>>::empty());
        }
        res.append(parts[i].as_str());
        i += 1;
    }
    assert(views.take(parts@.len() as int) =~= views);
    res
}

/// The decimal digit character for `d` (`0 <= d < 10`).
pub open spec fn digit_char(d: int) -> char {
    if d == 0 { '0' } else if d == 1 { '1' } else if d == 2 { '2' } else if d == 3 { '3' }
    else if d == 4 { '4' } else if d == 5 { '5' } else if d == 6 { '6' } else if d == 7 { '7' }
    else if d == 8 { '8' } else { '9' }
}

/// Decimal digits of a natural number, most significant first, without leading zeros.
pub open spec fn nat_digits(n: nat) -> Seq<char>
    decreases n,
{
    if n < 10 {
        seq![digit_char(n as int)]
    } else {
        nat_digits((n / 10) as nat).push(digit_char((n % 10) as int))
    }
}

/// Decimal representation of an integer, as `i64`'s `Display` writes it.
pub open spec fn int_decimal(n: int) -> Seq<char> {
    if n < 0 {
        seq!['-'] + nat_digits((-n) as nat)
    } else {
        nat_digits(n as nat)
    }
}

/// The decimal digit of `d` as a one-character string.
fn digit_str(d: u64) -> (r: &'static str)
    requires
        d < 10,
    ensures
        r@ == seq![digit_char(d as int)],
{
    proof {
        reveal_strlit("0");
        reveal_strlit("1");
        reveal_strlit("2");
        reveal_strlit("3");
        reveal_strlit("4");
        reveal_strlit("5");
        reveal_strlit("6");
        reveal_strlit("7");
        reveal_strlit("8");
        reveal_strlit("9");
    }
    let r = if d == 0 { "0" } else if d == 1 { "1" } else if d == 2 { "2" } else if d == 3 { "3" }
    else if d == 4 { "4" } else if d == 5 { "5" } else if d == 6 { "6" } else if d == 7 { "7" }
    else if d == 8 { "8" } else { "9" };
    proof {
        assert(r@ =~= seq![digit_char(d as int)]);
    }
    r
}

fn nat_to_string(n: u64) -> (r: String)
    ensures
        r@ == nat_digits(n as nat),
    decreases n,
{
    if n < 10 {
        let mut s = String::new();
        s.append(digit_str(n));
        assert(s@ =~= nat_digits(n as nat));
        s
    } else {
        let mut s = nat_to_string(n / 10);
        let ghost before = s@;
        s.append(digit_str(n % 10));
        assert(s@ =~= before.push(digit_char((n % 10) as int)));
        s
    }
}

/// Writes a `usize` in decimal, as `Display` does.
pub fn usize_to_string(n: usize) -> (r: String)
    ensures
        r@ == nat_digits(n as nat),
{
    nat_to_string(n as u64)
}

/// Writes an `i64` in decimal, as `Display` does.
pub fn i64_to_string(n: i64) -> (r: String)
    ensures
        r@ == int_decimal(n as int),
{
    if n < 0 {
        let m: u64 = if n == i64::MIN { 9223372036854775808u64 } else { (-n) as u64 };
        let mut s = string_of("-");
        proof { reveal_strlit("-"); }
        let d = nat_to_string(m);
        s.append(d.as_str());
        assert(s@ =~= int_decimal(n as int));
        s
    } else {
        nat_to_string(n as u64)
    }
}

/// Writes `true` or `false`.
pub fn bool_to_string(b: bool) -> (r: String)
    ensures
        r@ == (if b { "true"@ } else { "false"@ }),
{
    if b {
        string_of("true")
    } else {
        string_of("false")
    }
}

/// Lexicographic order of strings by character code, the order of `String`'s `Ord`.
pub open spec fn seq_lt(a: Seq<char>, b: Seq<char>) -> bool
    decreases a.len(),
{
    if b.len() == 0 {
        false
    } else if a.len() == 0 {
        true
    } else if (a[0] as int) < (b[0] as int) {
        true
    } else if a[0] == b[0] {
        seq_lt(a.drop_first(), b.drop_first())
    } else {
        false
    }
}

/// Strictly increasing order of a sequence of strings.
pub open spec fn strictly_sorted(s: Seq<Seq<char>>) -> bool {
    forall|i: int, j: int| 0 <= i < j < s.len() ==> seq_lt(#[trigger] s[i], #[trigger] s[j])
}

/// The order is irreflexive.
pub proof fn lemma_seq_lt_irreflexive(a: Seq<char>)
    ensures
        !seq_lt(a, a),
    decreases a.len(),
{
    if a.len() > 0 {
        lemma_seq_lt_irreflexive(a.drop_first());
    }
}

/// The order is total on distinct strings and asymmetric.
pub proof fn lemma_seq_lt_total(a: Seq<char>, b: Seq<char>)
    ensures
        a != b ==> seq_lt(a, b) || seq_lt(b, a),
        !(seq_lt(a, b) && seq_lt(b, a)),
    decreases a.len(),
{
    if a.len() > 0 && b.len() > 0 {
        lemma_seq_lt_total(a.drop_first(), b.drop_first());
        if a[0] == b[0] && a.drop_first() == b.drop_first() {
            assert(a =~= seq![a[0]] + a.drop_first());
            assert(b =~= seq![b[0]] + b.drop_first());
        }
    } else if a.len() == 0 && b.len() == 0 {
        assert(a =~= b);
    }
}

/// The order is transitive.
pub proof fn lemma_seq_lt_transitive(a: Seq<char>, b: Seq<char>, c: Seq<char>)
    requires
        seq_lt(a, b),
        seq_lt(b, c),
    ensures
        seq_lt(a, c),
    decreases a.len(),
{
    if a.len() > 0 && b.len() > 0 && c.len() > 0 {
        if a[0] == b[0] && b[0] == c[0] {
            lemma_seq_lt_transitive(a.drop_first(), b.drop_first(), c.drop_first());
        }
    }
}

/// Compares two strings in the order of [`seq_lt`].
pub fn str_lt(a: &str, b: &str) -> (r: bool)
    ensures
        r == seq_lt(a@, b@),
{
    let n = a.unicode_len();
    let m = b.unicode_len();
    let mut i: usize = 0;
    assert(a@.skip(0) =~= a@);
    assert(b@.skip(0) =~= b@);
    while i < n && i < m
        invariant
            n == a@.len(),
            m == b@.len(),
            i <= n,
            i <= m,
            a@.take(i as int) == b@.take(i as int),
            seq_lt(a@, b@) == seq_lt(a@.skip(i as int), b@.skip(i as int)),
        decreases n - i,
    {
        let x = a.get_char(i);
        let y = b.get_char(i);
        proof {
            assert(a@.skip(i as int)[0] == x);
            assert(b@.skip(i as int)[0] == y);
        }
        if (x as u32) < (y as u32) {
            return true;
        }
        if x != y {
            return false;
        }
        proof {
            assert(a@.skip(i as int).drop_first() =~= a@.skip(i + 1));
            assert(b@.skip(i as int).drop_first() =~= b@.skip(i + 1));
            assert(a@.take(i + 1) =~= a@.take(i as int).push(x));
            assert(b@.take(i + 1) =~= b@.take(i as int).push(y));
        }
        i += 1;
    }
    i < m
}

/// `true` when `v` holds a string equal to `s`.
pub fn contains_string(v: &Vec<String>, s: &str) -> (r: bool)
    ensures
        r == string_views(v@).contains(s@),
{
    let mut i: usize = 0;
    while i < v.len()
        invariant
            i <= v@.len(),
            forall|j: int| 0 <= j < i ==> #[trigger] v@[j]@ != s@,
        decreases v@.len() - i,
    {
        if str_eq(v[i].as_str(), s) {
            proof { assert(string_views(v@)[i as int] == s@); }
            return true;
        }
        i += 1;
    }
    proof {
        if string_views(v@).contains(s@) {
            let k = choose|k: int| 0 <= k < string_views(v@).len() && string_views(v@)[k] == s@;
            assert(v@[k]@ == s@);
        }
    }
    false
}

/// Equality of two string slices.
pub fn str_eq(a: &str, b: &str) -> (r: bool)
    ensures
        r == (a@ == b@),
{
    let n = a.unicode_len();
    let m = b.unicode_len();
    if n != m {
        return false;
    }
    let mut i: usize = 0;
    while i < n
        invariant
            n == a@.len(),
            m == b@.len(),
            n == m,
            i <= n,
            forall|j: int| 0 <= j < i ==> a@[j] == b@[j],
        decreases n - i,
    {
        if a.get_char(i) != b.get_char(i) {
            return false;
        }
        i += 1;
    }
    assert(a@ =~= b@);
    true
}

/// Inserts `s` into a strictly sorted vector unless it is already there.
pub fn insert_sorted_unique(v: &mut Vec<String>, s: String)
    requires
        strictly_sorted(string_views(old(v)@)),
    ensures
        strictly_sorted(string_views(final(v)@)),
        string_views(final(v)@).to_set() == string_views(old(v)@).to_set().insert(s@),
{
    let ghost old_views = string_views(v@);
    let mut i: usize = 0;
    while i < v.len()
        invariant
            i <= v@.len(),
            v@ == old(v)@,
            old_views == string_views(v@),
            strictly_sorted(old_views),
            forall|j: int| 0 <= j < i ==> seq_lt(#[trigger] old_views[j], s@),
        ensures
            i <= v@.len(),
            v@ == old(v)@,
            forall|j: int| 0 <= j < i ==> seq_lt(#[trigger] old_views[j], s@),
            i < v@.len() ==> seq_lt(s@, old_views[i as int]),
        decreases v@.len() - i,
    {
        if str_eq(v[i].as_str(), s.as_str()) {
            proof {
                assert(old_views.to_set().insert(s@) =~= old_views.to_set()) by {
                    assert(old_views[i as int] == s@);
                }
            }
            return;
        }
        if str_lt(s.as_str(), v[i].as_str()) {
            break;
        }
        proof { lemma_seq_lt_total(s@, v@[i as int]@); }
        i += 1;
    }
    let ghost before = v@;
    let ghost sv = s@;
    v.insert(i, s);
    proof {
        let nv = string_views(v@);
        assert(nv =~= old_views.insert(i as int, sv));
        assert forall|a: int, b: int| 0 <= a < b < nv.len() implies seq_lt(#[trigger] nv[a], #[trigger] nv[b]) by {
            if a < i && b == i {
            } else if a == i && b > i {
                if b - 1 > i {
                    lemma_seq_lt_transitive(sv, old_views[i as int], old_views[b - 1]);
                }
            } else if a < i && b > i {
            } else if a > i {
            }
        }
        assert(nv.to_set() =~= old_views.to_set().insert(sv)) by {
            assert forall|x: Seq<char>| nv.to_set().contains(x) <==> old_views.to_set().insert(sv).contains(x) by {
                if nv.to_set().contains(x) {
                    let k = choose|k: int| 0 <= k < nv.len() && nv[k] == x;
                    if k < i { assert(old_views[k] == x); } else if k > i { assert(old_views[k - 1] == x); }
                }
                if old_views.to_set().contains(x) {
                    let k = choose|k: int| 0 <= k < old_views.len() && old_views[k] == x;
                    if k < i { assert(nv[k] == x); } else { assert(nv[k + 1] == x); }
                }
                if x == sv { assert(nv[i as int] == x); }
            }
        }
    }
}

/// Sorted, duplicate-free copy of a list of strings (the contents of a `BTreeSet<String>`).
pub fn sorted_unique_strings(items: &[&str]) -> (r: Vec<String>)
    ensures
        strictly_sorted(string_views(r@)),
        string_views(r@).to_set() == items@.map_values(|s: &str| s@).to_set(),
{
    let mut out: Vec<String> = Vec::new();
    let ghost src = items@.map_values(|s: &str| s@);
    let mut i: usize = 0;
    proof { assert(string_views(out@).to_set() =~= src.take(0).to_set()); }
    while i < items.len()
        invariant
            i <= items@.len(),
            src == items@.map_values(|s: &str| s@),
            strictly_sorted(string_views(out@)),
            string_views(out@).to_set() == src.take(i as int).to_set(),
        decreases items@.len() - i,
    {
        insert_sorted_unique(&mut out, String::from_str(items[i]));
        proof {
            assert(src.take(i + 1) =~= src.take(i as int).push(src[i as int]));
            src.take(i as int).lemma_push_to_set_commute(src[i as int]);
        }
        i += 1;
    }
    assert(src.take(items@.len() as int) =~= src);
    out
}

/// `pat` occurs in `s` starting at position `i`.
pub open spec fn occurs_at(s: Seq<char>, pat: Seq<char>, i: int) -> bool {
    0 <= i && i + pat.len() <= s.len() && s.subrange(i, i + pat.len()) == pat
}

/// `pat` occurs somewhere in `s`.
pub open spec fn contains_seq(s: Seq<char>, pat: Seq<char>) -> bool {
    exists|i: int| #[trigger] occurs_at(s, pat, i)
}

/// `true` when `pat` occurs in `s`.
pub fn str_contains(s: &str, pat: &str) -> (r: bool)
    ensures
        r == contains_seq(s@, pat@),
{
    let n = s.unicode_len();
    let m = pat.unicode_len();
    if m > n {
        proof {
            assert forall|i: int| !occurs_at(s@, pat@, i) by {}
        }
        return false;
    }
    let last = n - m;
    let mut i: usize = 0;
    loop
        invariant
            n == s@.len(),
            m == pat@.len(),
            m <= n,
            last == n - m,
            i <= last,
            forall|k: int| 0 <= k < i ==> !#[trigger] occurs_at(s@, pat@, k),
        decreases last - i,
    {
        let piece = s.substring_char(i, i + m);
        if str_eq(piece, pat) {
            proof { assert(occurs_at(s@, pat@, i as int)); }
            return true;
        }
        if i == last {
            proof {
                assert forall|k: int| !occurs_at(s@, pat@, k) by {
                    if 0 <= k <= i {
                    }
                }
            }
            return false;
        }
        i += 1;
    }
}

/// A `::` ends just before position `q` of `s`.
pub open spec fn sep_ends_at(s: Seq<char>, q: int) -> bool {
    2 <= q <= s.len() && s[q - 2] == ':' && s[q - 1] == ':'
}

/// The part of `s` after its last `::`, or all of `s` when it has none.
pub open spec fn last_path_segment(s: Seq<char>) -> Seq<char>
    decreases s.len(),
{
    if s.len() < 2 {
        s
    } else if s[s.len() - 2] == ':' && s[s.len() - 1] == ':' {
        Seq::empty()
    } else {
        last_path_segment(s.drop_last()).push(s.last())
    }
}

proof fn lemma_last_segment_from(s: Seq<char>, p: int)
    requires
        0 <= p <= s.len(),
        p >= 2 ==> sep_ends_at(s, p),
        forall|q: int| p < q ==> !#[trigger] sep_ends_at(s, q),
        p < 2 ==> forall|q: int| !#[trigger] sep_ends_at(s, q),
    ensures
        last_path_segment(s) == s.subrange(if p >= 2 { p } else { 0 }, s.len() as int),
    decreases s.len(),
{
    let start = if p >= 2 { p } else { 0 };
    if s.len() < 2 {
        assert(s.subrange(0, s.len() as int) =~= s);
    } else if s[s.len() - 2] == ':' && s[s.len() - 1] == ':' {
        assert(sep_ends_at(s, s.len() as int));
        assert(p == s.len());
        assert(s.subrange(p, s.len() as int) =~= Seq::<char>::empty());
    } else {
        let t = s.drop_last();
        if p == s.len() {
            assert(sep_ends_at(s, p));
            assert(false);
        }
        assert forall|q: int| p < q implies !#[trigger] sep_ends_at(t, q) by {
            if sep_ends_at(t, q) { assert(sep_ends_at(s, q)); }
        }
        if p < 2 {
            assert forall|q: int| !#[trigger] sep_ends_at(t, q) by {
                if sep_ends_at(t, q) { assert(sep_ends_at(s, q)); }
            }
        } else {
            assert(sep_ends_at(t, p));
        }
        lemma_last_segment_from(t, p);
        assert(s.subrange(start, s.len() as int) =~= t.subrange(start, t.len() as int).push(s.last()));
    }
}

/// The part of `s` after its last `::`.
pub fn last_segment(s: &str) -> (r: String)
    ensures
        r@ == last_path_segment(s@),
{
    let n = s.unicode_len();
    let mut p: usize = n;
    while p >= 2
        invariant
            n == s@.len(),
            p <= n,
            forall|q: int| p < q ==> !#[trigger] sep_ends_at(s@, q),
        ensures
            p <= n,
            p >= 2 ==> sep_ends_at(s@, p as int),
            forall|q: int| p < q ==> !#[trigger] sep_ends_at(s@, q),
        decreases p,
    {
        if s.get_char(p - 2) == ':' && s.get_char(p - 1) == ':' {
            break;
        }
        p -= 1;
    }
    proof {
        if p < 2 {
            assert forall|q: int| !#[trigger] sep_ends_at(s@, q) by {
                if q > p {} }
        }
        lemma_last_segment_from(s@, p as int);
    }
    let start = if p >= 2 { p } else { 0 };
    String::from_str(s.substring_char(start, n))
}

/// The name of a callable for labels: `<lambda>` for closures, else the last path segment
/// of its type name.
pub open spec fn callable_label(full: Seq<char>) -> Seq<char> {
    let name = last_path_segment(full);
    if contains_seq(name, "closure"@) {
        "<lambda>"@
    } else {
        name
    }
}

/// Label of a callable from the full name of its type.
pub fn callable_name(full: &str) -> (r: String)
    ensures
        r@ == callable_label(full@),
{
    let name = last_segment(full);
    if str_contains(name.as_str(), "closure") {
        string_of("<lambda>")
    } else {
        name
    }
}

} // verus!
