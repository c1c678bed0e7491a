//! Maps keyed by strings, for the labels, annotations and other
//! string-keyed fields of resource specs.
use vstd::prelude::*;
use crate::text::str_eq;

verus! {

/// A map from strings to `V`: entries whose keys are pairwise distinct.
/// Two maps of strings (or of lists of strings) are `==` when they bind the
/// same keys to equal values, in whatever order.
#[derive(Debug)]
pub struct StrMap<V> {
    entries: Vec<(String, V)>,
}

/// The entries of a sequence of key/value pairs, keys taken as characters.
pub open spec fn str_entries<V>(e: Seq<(String, V)>) -> Seq<(Seq<char>, V)> {
    e.map_values(|p: (String, V)| (p.0@, p.1))
}

/// The keys of the entries are pairwise distinct.
pub open spec fn distinct_keys<V>(s: Seq<(Seq<char>, V)>) -> bool {
    forall|i: int, j: int| 0 <= i < s.len() && 0 <= j < s.len() && i != j ==> s[i].0 != s[j].0
}

/// Some entry has key `k`.
pub open spec fn contains_key<V>(s: Seq<(Seq<char>, V)>, k: Seq<char>) -> bool {
    exists|i: int| 0 <= i < s.len() && #[trigger] s[i].0 == k
}

/// The value under `k`.
pub open spec fn lookup<V>(s: Seq<(Seq<char>, V)>, k: Seq<char>) -> Option<V> {
    if contains_key(s, k) {
        Some(s[choose|i: int| 0 <= i < s.len() && #[trigger] s[i].0 == k].1)
    } else {
        None
    }
}

/// The entries with `k` bound to `v`: in place where `k` was present, at
/// the end where it was not.
pub open spec fn with_binding<V>(s: Seq<(Seq<char>, V)>, k: Seq<char>, v: V) -> Seq<
    (Seq<char>, V),
> {
    if contains_key(s, k) {
        s.update(choose|i: int| 0 <= i < s.len() && #[trigger] s[i].0 == k, (k, v))
    } else {
        s.push((k, v))
    }
}

impl<V> StrMap<V> {
    /// The entries, keys taken as characters.
    pub closed spec fn model(&self) -> Seq<(Seq<char>, V)> {
        str_entries(self.entries@)
    }

    #[verifier::type_invariant]
    closed spec fn keys_are_distinct(&self) -> bool {
        distinct_keys(self.model())
    }

    /// The empty map.
    pub fn new() -> (r: StrMap<V>)
        ensures
            r.model() == Seq::<(Seq<char>, V)>::empty(),
    {
        let r = StrMap { entries: Vec::new() };
        assert(r.model() =~= Seq::<(Seq<char>, V)>::empty());
        r
    }

    /// Number of entries.
    pub fn len(&self) -> (r: usize)
        ensures
            r == self.model().len(),
    {
        self.entries.len()
    }

    /// Whether the map has no entries.
    pub fn is_empty(&self) -> (r: bool)
        ensures
            r == (self.model().len() == 0),
    {
        self.entries.len() == 0
    }

    /// The keys of the entries are pairwise distinct.
    pub fn has_distinct_keys(&self)
        ensures
            distinct_keys(self.model()),
    {
        proof {
            use_type_invariant(self);
        }
    }

    /// The key of entry `i`.
    pub fn key_at(&self, i: usize) -> (r: &String)
        requires
            i < self.model().len(),
        ensures
            r@ == self.model()[i as int].0,
    {
        &self.entries[i].0
    }

    /// The value of entry `i`.
    pub fn value_at(&self, i: usize) -> (r: &V)
        requires
            i < self.model().len(),
        ensures
            *r == self.model()[i as int].1,
    {
        &self.entries[i].1
    }

    /// The position of the entry with key `k`, if any.
    fn find(&self, k: &str) -> (r: Option<usize>)
        ensures
            r is Some <==> contains_key(self.model(), k@),
            r matches Some(i) ==> i < self.model().len() && self.model()[i as int].0 == k@
                && i == choose|j: int|
                0 <= j < self.model().len() && #[trigger] self.model()[j].0 == k@,
    {
        proof {
            use_type_invariant(self);
        }
        let ghost m = self.model();
        let n = self.entries.len();
        let mut i: usize = 0;
        while i < n && !str_eq(self.entries[i].0.as_str(), k)
            invariant
                n == m.len(),
                m == self.model(),
                m == str_entries(self.entries@),
                distinct_keys(m),
                i <= n,
                forall|j: int| 0 <= j < i ==> m[j].0 != k@,
            decreases n - i,
        {
            i = i + 1;
        }
        if i < n {
            proof {
                assert(m[i as int].0 == k@);
                let c = choose|j: int| 0 <= j < m.len() && #[trigger] m[j].0 == k@;
                assert(0 <= c < m.len() && m[c].0 == k@);
            }
            Some(i)
        } else {
            None
        }
    }

    /// The value under `k`.
    pub fn get(&self, k: &str) -> (r: Option<&V>)
        ensures
            r is Some <==> contains_key(self.model(), k@),
            r matches Some(v) ==> lookup(self.model(), k@) == Some(*v),
    {
        match self.find(k) {
            Some(i) => Some(&self.entries[i].1),
            None => None,
        }
    }

    /// Binds `k` to `v`, replacing a previous binding in place.
    pub fn insert(&mut self, k: String, v: V)
        ensures
            final(self).model() == with_binding(old(self).model(), k@, v),
    {
        proof {
            use_type_invariant(&*self);
        }
        let ghost m = self.model();
        let ghost e = (k@, v);
        let found = self.find(k.as_str());
        let mut entries = Vec::new();
        std::mem::swap(&mut entries, &mut self.entries);
        match found {
            Some(i) => {
                entries.set(i, (k, v));
                proof {
                    assert(str_entries(entries@) =~= m.update(i as int, e));
                }
            },
            None => {
                entries.push((k, v));
                proof {
                    assert(str_entries(entries@) =~= m.push(e));
                }
            },
        }
        proof {
            let nm = str_entries(entries@);
            assert forall|a: int, b: int|
                0 <= a < nm.len() && 0 <= b < nm.len() && a != b implies nm[a].0 != nm[b].0 by {
                if let Some(c) = found {
                    if a != c && b != c {
                        assert(nm[a] == m[a] && nm[b] == m[b]);
                    } else if a == c {
                        assert(nm[b] == m[b]);
                    } else {
                        assert(nm[a] == m[a]);
                    }
                } else {
                    if a < m.len() && b < m.len() {
                        assert(nm[a] == m[a] && nm[b] == m[b]);
                    } else if a < m.len() {
                        assert(nm[a] == m[a]);
                    } else {
                        assert(nm[b] == m[b]);
                    }
                }
            }
        }
        self.entries = entries;
    }
}

impl<V: Clone> Clone for StrMap<V> {
    fn clone(&self) -> (r: Self)
        ensures
            r.model().len() == self.model().len(),
            forall|i: int|
                0 <= i < self.model().len() ==> (#[trigger] r.model()[i]).0 == self.model()[i].0
                    && cloned::<V>(self.model()[i].1, r.model()[i].1),
    {
        proof {
            use_type_invariant(self);
        }
        let n = self.entries.len();
        let mut out: Vec<(String, V)> = Vec::new();
        let mut i: usize = 0;
        while i < n
            invariant
                n == self.entries@.len(),
                i <= n,
                out@.len() == i,
                distinct_keys(str_entries(self.entries@)),
                forall|j: int|
                    0 <= j < i ==> (#[trigger] out@[j]).0@ == self.entries@[j].0@ && cloned::<V>(
                        self.entries@[j].1,
                        out@[j].1,
                    ),
            decreases n - i,
        {
            let v = self.entries[i].1.clone();
            proof {
                assert(cloned::<V>(self.entries@[i as int].1, v));
            }
            out.push((self.entries[i].0.clone(), v));
            i = i + 1;
        }
        proof {
            let a = str_entries(out@);
            let b = str_entries(self.entries@);
            assert forall|x: int, y: int|
                0 <= x < a.len() && 0 <= y < a.len() && x != y implies a[x].0 != a[y].0 by {
                assert(a[x].0 == b[x].0 && a[y].0 == b[y].0);
            }
        }
        StrMap { entries: out }
    }
}

impl<V> Default for StrMap<V> {
    fn default() -> (r: Self)
        ensures
            r.model() == Seq::<(Seq<char>, V)>::empty(),
    {
        StrMap::new()
    }
}

/// `x` and `y` bind the same keys, and each key of `x` is bound in `y` to a
/// value related to its own by `eqv`: the two are the same map, whatever
/// the order of their entries.
pub open spec fn same_entries_by<V>(
    x: Seq<(Seq<char>, V)>,
    y: Seq<(Seq<char>, V)>,
    eqv: spec_fn(V, V) -> bool,
) -> bool {
    &&& x.len() == y.len()
    &&& forall|i: int|
        #![trigger x[i]]
        0 <= i < x.len() ==> (lookup(y, x[i].0) matches Some(v) && eqv(x[i].1, v))
}

/// Strings are equal when their characters are.
pub open spec fn string_eqv() -> spec_fn(String, String) -> bool {
    |a: String, b: String| a@ == b@
}

/// Lists of strings are equal when they hold equal strings in the same
/// order.
pub open spec fn string_list_eqv() -> spec_fn(Vec<String>, Vec<String>) -> bool {
    |a: Vec<String>, b: Vec<String>|
        a@.len() == b@.len() && forall|k: int| 0 <= k < a@.len() ==> #[trigger] a@[k]@ == b@[k]@
}

/// Whether two lists hold equal strings in the same order.
pub fn string_lists_equal(a: &Vec<String>, b: &Vec<String>) -> (r: bool)
    ensures
        r == string_list_eqv()(*a, *b),
{
    let n = a.len();
    if n != b.len() {
        return false;
    }
    let mut i: usize = 0;
    while i < n
        invariant
            n == a@.len(),
            n == b@.len(),
            i <= n,
            forall|k: int| 0 <= k < i ==> #[trigger] a@[k]@ == b@[k]@,
        decreases n - i,
    {
        if !str_eq(a[i].as_str(), b[i].as_str()) {
            return false;
        }
        i = i + 1;
    }
    true
}

impl StrMap<String> {
    /// Whether the two maps bind the same keys to equal strings, whatever
    /// the order of their entries.
    pub fn same_strings(&self, other: &StrMap<String>) -> (r: bool)
        ensures
            r == same_entries_by(self.model(), other.model(), string_eqv()),
    {
        let ghost xm = self.model();
        let ghost ym = other.model();
        let n = self.len();
        if n != other.len() {
            return false;
        }
        let mut i: usize = 0;
        while i < n
            invariant
                n == xm.len(),
                xm == self.model(),
                ym == other.model(),
                xm.len() == ym.len(),
                i <= n,
                forall|a: int|
                    #![trigger xm[a]]
                    0 <= a < i ==> (lookup(ym, xm[a].0) matches Some(v) && string_eqv()(xm[a].1, v)),
            decreases n - i,
        {
            let k = self.key_at(i);
            let mine = self.value_at(i);
            match other.get(k.as_str()) {
                Some(theirs) => {
                    if !str_eq(mine.as_str(), theirs.as_str()) {
                        return false;
                    }
                },
                None => {
                    return false;
                },
            }
            i = i + 1;
        }
        true
    }
}

impl StrMap<Vec<String>> {
    /// Whether the two maps bind the same keys to equal lists of strings,
    /// whatever the order of their entries.
    pub fn same_string_lists(&self, other: &StrMap<Vec<String>>) -> (r: bool)
        ensures
            r == same_entries_by(self.model(), other.model(), string_list_eqv()),
    {
        let ghost xm = self.model();
        let ghost ym = other.model();
        let n = self.len();
        if n != other.len() {
            return false;
        }
        let mut i: usize = 0;
        while i < n
            invariant
                n == xm.len(),
                xm == self.model(),
                ym == other.model(),
                xm.len() == ym.len(),
                i <= n,
                forall|a: int|
                    #![trigger xm[a]]
                    0 <= a < i ==> (lookup(ym, xm[a].0) matches Some(v) && string_list_eqv()(
                        xm[a].1,
                        v,
                    )),
            decreases n - i,
        {
            let k = self.key_at(i);
            let mine = self.value_at(i);
            match other.get(k.as_str()) {
                Some(theirs) => {
                    if !string_lists_equal(mine, theirs) {
                        return false;
                    }
                },
                None => {
                    return false;
                },
            }
            i = i + 1;
        }
        true
    }
}

impl PartialEq for StrMap<String> {
    fn eq(&self, other: &Self) -> (r: bool) {
        self.same_strings(other)
    }
}

impl vstd::std_specs::cmp::PartialEqSpecImpl for StrMap<String> {
    open spec fn obeys_eq_spec() -> bool {
        true
    }

    open spec fn eq_spec(&self, other: &Self) -> bool {
        same_entries_by(self.model(), other.model(), string_eqv())
    }
}

impl Eq for StrMap<String> {
}

impl PartialEq for StrMap<Vec<String>> {
    fn eq(&self, other: &Self) -> (r: bool) {
        self.same_string_lists(other)
    }
}

impl vstd::std_specs::cmp::PartialEqSpecImpl for StrMap<Vec<String>> {
    open spec fn obeys_eq_spec() -> bool {
        true
    }

    open spec fn eq_spec(&self, other: &Self) -> bool {
        same_entries_by(self.model(), other.model(), string_list_eqv())
    }
}

impl Eq for StrMap<Vec<String>> {
}

} // verus!
