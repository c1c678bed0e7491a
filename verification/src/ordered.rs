//! Sets of strings kept as strictly increasing sequences, in the
//! lexicographic order of code points that `str`'s `Ord` uses.
use vstd::prelude::*;
use crate::text::str_eq;

verus! {

/// `a` comes before `b`: the first differing character is smaller in `a`,
/// or `a` is a proper prefix of `b`.
pub open spec fn seq_lt(a: Seq<char>, b: Seq<char>) -> bool
    decreases a.len(),
{
    if b.len() == 0 {
        false
    } else if a.len() == 0 {
        true
    } else if a[0] != b[0] {
        a[0] < b[0]
    } else {
        seq_lt(a.drop_first(), b.drop_first())
    }
}

/// Every element comes strictly before the later ones.
pub open spec fn strictly_sorted(s: Seq<Seq<char>>) -> bool {
    forall|i: int, j: int| 0 <= i < j < s.len() ==> seq_lt(#[trigger] s[i], #[trigger] s[j])
}

/// The character sequences of a sequence of string slices.
pub open spec fn str_views(v: Seq<&str>) -> Seq<Seq<char>> {
    v.map_values(|x: &str| x@)
}

/// The character sequences of a sequence of strings.
pub open spec fn string_views(v: Seq<String>) -> Seq<Seq<char>> {
    v.map_values(|x: String| x@)
}

pub proof fn lemma_seq_lt_irreflexive(a: Seq<char>)
    ensures
        !seq_lt(a, a),
    decreases a.len(),
{
    if a.len() > 0 {
        lemma_seq_lt_irreflexive(a.drop_first());
    }
}

pub proof fn lemma_seq_lt_transitive(a: Seq<char>, b: Seq<char>, c: Seq<char>)
    requires
        seq_lt(a, b),
        seq_lt(b, c),
    ensures
        seq_lt(a, c),
    decreases a.len(),
{
    if a.len() > 0 && b.len() > 0 && c.len() > 0 && a[0] == b[0] && b[0] == c[0] {
        lemma_seq_lt_transitive(a.drop_first(), b.drop_first(), c.drop_first());
    }
}

pub proof fn lemma_seq_lt_total(a: Seq<char>, b: Seq<char>)
    requires
        a != b,
    ensures
        seq_lt(a, b) || seq_lt(b, a),
    decreases a.len(),
{
    if a.len() == 0 {
        if b.len() == 0 {
            assert(a =~= b);
        }
    } else if b.len() == 0 {
    } else if a[0] != b[0] {
    } else {
        if a.drop_first() == b.drop_first() {
            assert(a =~= seq![a[0]] + a.drop_first());
            assert(b =~= seq![b[0]] + b.drop_first());
        }
        lemma_seq_lt_total(a.drop_first(), b.drop_first());
    }
}

pub proof fn lemma_seq_lt_asymmetric(a: Seq<char>, b: Seq<char>)
    requires
        seq_lt(a, b),
    ensures
        !seq_lt(b, a),
{
    if seq_lt(b, a) {
        lemma_seq_lt_transitive(a, b, a);
        lemma_seq_lt_irreflexive(a);
    }
}

/// Whether `a` comes strictly before `b` (as `<` on `str`).
pub fn str_lt(a: &str, b: &str) -> (r: bool)
    ensures
        r == seq_lt(a@, b@),
{
    let n = a.unicode_len();
    let m = b.unicode_len();
    let mut i: usize = 0;
    proof {
        assert(a@.skip(0) =~= a@);
        assert(b@.skip(0) =~= b@);
    }
    while i < n && i < m && a.get_char(i) == b.get_char(i)
        invariant
            n == a@.len(),
            m == b@.len(),
            i <= n,
            i <= m,
            seq_lt(a@, b@) == seq_lt(a@.skip(i as int), b@.skip(i as int)),
        decreases n - i,
    {
        proof {
            assert(a@.skip(i as int).drop_first() =~= a@.skip(i + 1));
            assert(b@.skip(i as int).drop_first() =~= b@.skip(i + 1));
        }
        i = i + 1;
    }
    if i == m {
        false
    } else if i == n {
        true
    } else {
        let x = a.get_char(i);
        let y = b.get_char(i);
        proof {
            assert(a@.skip(i as int)[0] == x);
            assert(b@.skip(i as int)[0] == y);
        }
        x < y
    }
}

/// Adds `s` to the strictly increasing `v`, unless it is already there.
pub fn insert_sorted<'a>(v: &mut Vec<&'a str>, s: &'a str)
    requires
        strictly_sorted(str_views(old(v)@)),
    ensures
        strictly_sorted(str_views(final(v)@)),
        str_views(final(v)@).to_set() == str_views(old(v)@).to_set().insert(s@),
{
    let ghost old_views = str_views(v@);
    let n = v.len();
    let mut i: usize = 0;
    while i < n && str_lt(v[i], s)
        invariant
            n == v@.len(),
            i <= n,
            old_views == str_views(v@),
            forall|j: int| 0 <= j < i ==> seq_lt(#[trigger] old_views[j], s@),
        decreases n - i,
    {
        i = i + 1;
    }
    if i < n && str_eq(v[i], s) {
        proof {
            assert(old_views.to_set().insert(s@) =~= old_views.to_set()) by {
                assert(old_views[i as int] == s@);
            }
        }
        return;
    }
    v.insert(i, s);
    proof {
        let nv = str_views(v@);
        assert(nv =~= old_views.insert(i as int, s@));
        if i < n {
            lemma_seq_lt_total(old_views[i as int], s@);
        }
        assert forall|a: int, b: int| 0 <= a < b < nv.len() implies seq_lt(
            #[trigger] nv[a],
            #[trigger] nv[b],
        ) by {
            if b < i {
            } else if a > i {
                assert(nv[a] == old_views[a - 1]);
                assert(nv[b] == old_views[b - 1]);
            } else if a == i {
                assert(nv[b] == old_views[b - 1]);
                if b - 1 > i {
                    lemma_seq_lt_transitive(s@, old_views[i as int], old_views[b - 1]);
                }
            } else if b == i {
            } else {
                assert(nv[b] == old_views[b - 1]);
                assert(seq_lt(old_views[a], s@));
                lemma_seq_lt_transitive(old_views[a], s@, old_views[i as int]);
                if b - 1 > i {
                    lemma_seq_lt_transitive(old_views[a], old_views[i as int], old_views[b - 1]);
                }
            }
        }
        assert forall|x: Seq<char>| nv.to_set().contains(x) <==> old_views.to_set().insert(
            s@,
        ).contains(x) by {
            if nv.contains(x) {
                let k = choose|k: int| 0 <= k < nv.len() && nv[k] == x;
                if k < i {
                    assert(old_views[k] == x);
                } else if k > i {
                    assert(old_views[k - 1] == x);
                }
            }
            if old_views.contains(x) {
                let k = choose|k: int| 0 <= k < old_views.len() && old_views[k] == x;
                if k < i {
                    assert(nv[k] == x);
                } else {
                    assert(nv[k + 1] == x);
                }
            }
            if x == s@ {
                assert(nv[i as int] == x);
            }
        }
        assert(nv.to_set() =~= old_views.to_set().insert(s@));
    }
}

/// The distinct elements of `items`, in increasing order.
pub fn sorted_unique<'a>(items: &Vec<&'a str>) -> (r: Vec<&'a str>)
    ensures
        strictly_sorted(str_views(r@)),
        str_views(r@).to_set() == str_views(items@).to_set(),
{
    let mut r: Vec<&'a str> = Vec::new();
    let n = items.len();
    let mut i: usize = 0;
    proof {
        assert(str_views(r@).to_set() =~= str_views(items@.take(0)).to_set());
    }
    while i < n
        invariant
            n == items@.len(),
            i <= n,
            strictly_sorted(str_views(r@)),
            str_views(r@).to_set() == str_views(items@.take(i as int)).to_set(),
        decreases n - i,
    {
        insert_sorted(&mut r, items[i]);
        proof {
            assert(items@.take(i + 1) =~= items@.take(i as int).push(items@[i as int]));
            assert(str_views(items@.take(i + 1)) =~= str_views(items@.take(i as int)).push(
                items@[i as int]@,
            ));
            str_views(items@.take(i as int)).lemma_push_to_set_commute(items@[i as int]@);
        }
        i = i + 1;
    }
    proof {
        assert(items@.take(n as int) =~= items@);
    }
    r
}


/// Owned copies of string slices.
pub fn to_owned_all(v: &Vec<&str>) -> (r: Vec<String>)
    ensures
        string_views(r@) == str_views(v@),
{
    let mut r: Vec<String> = Vec::new();
    let n = v.len();
    let mut i: usize = 0;
    while i < n
        invariant
            n == v@.len(),
            i <= n,
            r@.len() == i,
            forall|j: int| 0 <= j < i ==> (#[trigger] r@[j])@ == v@[j]@,
        decreases n - i,
    {
        r.push(v[i].to_owned());
        i = i + 1;
    }
    assert(string_views(r@) =~= str_views(v@));
    r
}

/// Slices of strings.
pub fn as_strs(v: &Vec<String>) -> (r: Vec<&str>)
    ensures
        str_views(r@) == string_views(v@),
{
    let mut r: Vec<&str> = Vec::new();
    let n = v.len();
    let mut i: usize = 0;
    while i < n
        invariant
            n == v@.len(),
            i <= n,
            r@.len() == i,
            forall|j: int| 0 <= j < i ==> (#[trigger] r@[j])@ == v@[j]@,
        decreases n - i,
    {
        r.push(v[i].as_str());
        i = i + 1;
    }
    assert(str_views(r@) =~= string_views(v@));
    r
}

/// A strictly increasing sequence is determined by its elements: two with
/// the same elements are equal.
pub proof fn lemma_strictly_sorted_unique(a: Seq<Seq<char>>, b: Seq<Seq<char>>)
    requires
        strictly_sorted(a),
        strictly_sorted(b),
        a.to_set() == b.to_set(),
    ensures
        a == b,
    decreases a.len(),
{
    if a.len() == 0 {
        if b.len() > 0 {
            assert(b.to_set().contains(b[0]));
            assert(!a.to_set().contains(b[0]));
        }
        assert(a =~= b);
    } else if b.len() == 0 {
        assert(a.to_set().contains(a[0]));
        assert(!b.to_set().contains(a[0]));
    } else {
        assert(a.to_set().contains(a[0]));
        assert(b.to_set().contains(b[0]));
        let j = choose|j: int| 0 <= j < b.len() && b[j] == a[0];
        let i = choose|i: int| 0 <= i < a.len() && a[i] == b[0];
        if a[0] != b[0] {
            assert(i > 0 && j > 0);
            assert(seq_lt(a[0], a[i]));
            assert(seq_lt(b[0], b[j]));
            lemma_seq_lt_asymmetric(a[0], b[0]);
        }
        let ra = a.drop_first();
        let rb = b.drop_first();
        assert forall|x: int, y: int| 0 <= x < y < ra.len() implies seq_lt(
            #[trigger] ra[x],
            #[trigger] ra[y],
        ) by {
            assert(ra[x] == a[x + 1] && ra[y] == a[y + 1]);
        }
        assert forall|x: int, y: int| 0 <= x < y < rb.len() implies seq_lt(
            #[trigger] rb[x],
            #[trigger] rb[y],
        ) by {
            assert(rb[x] == b[x + 1] && rb[y] == b[y + 1]);
        }
        assert forall|e: Seq<char>| ra.to_set().contains(e) <==> rb.to_set().contains(e) by {
            if ra.contains(e) {
                let k = choose|k: int| 0 <= k < ra.len() && ra[k] == e;
                assert(a[k + 1] == e);
                assert(a.to_set().contains(e));
                let m = choose|m: int| 0 <= m < b.len() && b[m] == e;
                if m == 0 {
                    assert(seq_lt(a[0], a[k + 1]));
                    lemma_seq_lt_irreflexive(e);
                }
                assert(rb[m - 1] == e);
            }
            if rb.contains(e) {
                let k = choose|k: int| 0 <= k < rb.len() && rb[k] == e;
                assert(b[k + 1] == e);
                assert(b.to_set().contains(e));
                let m = choose|m: int| 0 <= m < a.len() && a[m] == e;
                if m == 0 {
                    assert(seq_lt(b[0], b[k + 1]));
                    lemma_seq_lt_irreflexive(e);
                }
                assert(ra[m - 1] == e);
            }
        }
        assert(ra.to_set() =~= rb.to_set());
        lemma_strictly_sorted_unique(ra, rb);
        assert(a =~= seq![a[0]] + ra);
        assert(b =~= seq![b[0]] + rb);
    }
}


/// The elements of `s` in increasing order (for a finite `s`).
pub open spec fn sorted_elements(s: Set<Seq<char>>) -> Seq<Seq<char>> {
    choose|r: Seq<Seq<char>>| strictly_sorted(r) && r.to_set() == s
}

/// A strictly increasing sequence is the sorted sequence of its elements.
pub proof fn lemma_sorted_elements(r: Seq<Seq<char>>, s: Set<Seq<char>>)
    requires
        strictly_sorted(r),
        r.to_set() == s,
    ensures
        sorted_elements(s) == r,
{
    let c = sorted_elements(s);
    assert(strictly_sorted(c) && c.to_set() == s);
    lemma_strictly_sorted_unique(c, r);
}

/// The distinct elements of `items`, in increasing order.
pub fn sorted_distinct<'a>(items: &Vec<&'a str>) -> (r: Vec<&'a str>)
    ensures
        str_views(r@) == sorted_elements(str_views(items@).to_set()),
        strictly_sorted(str_views(r@)),
        str_views(r@).to_set() == str_views(items@).to_set(),
{
    let r = sorted_unique(items);
    proof {
        lemma_sorted_elements(str_views(r@), str_views(items@).to_set());
    }
    r
}

} // verus!
