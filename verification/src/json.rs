//! A JSON document model: the values that resource specs carry verbatim,
//! and the configuration blocks that the library renders.
use vstd::prelude::*;
use crate::text::str_eq;

verus! {

/// The mathematical model of a JSON document. An object is the sequence
/// of its entries; its keys are pairwise distinct.
pub enum Json {
    Null,
    Bool(bool),
    Number(Seq<char>),
    Str(Seq<char>),
    Array(Seq<Json>),
    Object(Seq<(Seq<char>, Json)>),
}

/// A JSON document. Two documents are `==` when they are the same
/// document, objects compared as maps (the order of their entries does not
/// matter).
#[derive(Debug, PartialEq, Eq)]
pub enum JsonValue {
    Null,
    Bool(bool),
    /// A number, held as its decimal text.
    Number(String),
    String(String),
    Array(Vec<JsonValue>),
    Object(JsonMap),
}

/// A JSON object: entries whose keys are pairwise distinct. Two objects are
/// `==` when they bind the same keys to equal documents, in whatever order.
#[derive(Debug)]
pub struct JsonMap {
    entries: Vec<(String, JsonValue)>,
}

/// The keys of the entries are pairwise distinct.
pub open spec fn keys_distinct(s: Seq<(Seq<char>, Json)>) -> bool {
    forall|i: int, j: int| 0 <= i < s.len() && 0 <= j < s.len() && i != j ==> s[i].0 != s[j].0
}

/// Some entry has key `k`.
pub open spec fn has_key(s: Seq<(Seq<char>, Json)>, k: Seq<char>) -> bool {
    exists|i: int| 0 <= i < s.len() && #[trigger] s[i].0 == k
}

/// The position of the entry with key `k`.
pub open spec fn key_index(s: Seq<(Seq<char>, Json)>, k: Seq<char>) -> int {
    choose|i: int| 0 <= i < s.len() && #[trigger] s[i].0 == k
}

/// The value under key `k` (as `serde_json::Map::get`).
pub open spec fn obj_get(s: Seq<(Seq<char>, Json)>, k: Seq<char>) -> Option<Json> {
    if has_key(s, k) {
        Some(s[key_index(s, k)].1)
    } else {
        None
    }
}

/// The object with `k` bound to `v`: in place where `k` was present, at the
/// end where it was not (as `serde_json::Map::insert`).
pub open spec fn obj_insert(s: Seq<(Seq<char>, Json)>, k: Seq<char>, v: Json) -> Seq<
    (Seq<char>, Json),
> {
    if has_key(s, k) {
        s.update(key_index(s, k), (k, v))
    } else {
        s.push((k, v))
    }
}

/// The value under key `k` of an object, none for any other document
/// (as `serde_json::Value::get` with a string index).
pub open spec fn json_get(j: Json, k: Seq<char>) -> Option<Json> {
    match j {
        Json::Object(s) => obj_get(s, k),
        _ => None,
    }
}

/// The boolean a document holds, if it is one (as `serde_json::Value::as_bool`).
pub open spec fn json_as_bool(j: Json) -> Option<bool> {
    match j {
        Json::Bool(b) => Some(b),
        _ => None,
    }
}

/// The string a document holds, if it is one (as `serde_json::Value::as_str`).
pub open spec fn json_as_str(j: Json) -> Option<Seq<char>> {
    match j {
        Json::Str(s) => Some(s),
        _ => None,
    }
}

/// The documents of a sequence of values.
pub open spec fn array_model(items: Seq<JsonValue>) -> Seq<Json>
    decreases items,
{
    Seq::new(
        items.len(),
        |i: int|
            if 0 <= i < items.len() {
                items[i].model()
            } else {
                Json::Null
            },
    )
}

/// The entries of a sequence of key/value pairs.
pub open spec fn entries_model(e: Seq<(String, JsonValue)>) -> Seq<(Seq<char>, Json)>
    decreases e,
{
    Seq::new(
        e.len(),
        |i: int|
            if 0 <= i < e.len() {
                (e[i].0@, e[i].1.model())
            } else {
                (Seq::empty(), Json::Null)
            },
    )
}

/// Binding a key that is not present appends the entry.
pub proof fn lemma_insert_new_key(s: Seq<(Seq<char>, Json)>, k: Seq<char>, v: Json)
    requires
        forall|i: int| 0 <= i < s.len() ==> s[i].0 != k,
    ensures
        obj_insert(s, k, v) == s.push((k, v)),
        !has_key(s, k),
{
}

/// Binding a present key replaces its value in place.
pub proof fn lemma_insert_present_key(s: Seq<(Seq<char>, Json)>, i: int, k: Seq<char>, v: Json)
    requires
        keys_distinct(s),
        0 <= i < s.len(),
        s[i].0 == k,
    ensures
        obj_insert(s, k, v) == s.update(i, (k, v)),
        obj_get(s, k) == Some(s[i].1),
{
}

/// The value of the entry at `i`, looked up by its key.
pub proof fn lemma_obj_get_at(s: Seq<(Seq<char>, Json)>, i: int)
    requires
        keys_distinct(s),
        0 <= i < s.len(),
    ensures
        obj_get(s, s[i].0) == Some(s[i].1),
{
}

/// Binding a key keeps keys distinct; afterwards the key reads the new
/// value and every other key reads what it read before.
pub proof fn lemma_obj_insert(s: Seq<(Seq<char>, Json)>, k: Seq<char>, v: Json, q: Seq<char>)
    requires
        keys_distinct(s),
    ensures
        keys_distinct(obj_insert(s, k, v)),
        obj_get(obj_insert(s, k, v), q) == if q == k {
            Some(v)
        } else {
            obj_get(s, q)
        },
{
    let r = obj_insert(s, k, v);
    if has_key(s, k) {
        let c = key_index(s, k);
        assert forall|a: int, b: int|
            0 <= a < r.len() && 0 <= b < r.len() && a != b implies r[a].0 != r[b].0 by {
            if a != c && b != c {
            } else if a == c {
                assert(r[b] == s[b]);
            } else {
                assert(r[a] == s[a]);
            }
        }
        if q == k {
            lemma_obj_get_at(r, c);
        } else if has_key(s, q) {
            let d = key_index(s, q);
            assert(r[d] == s[d]);
            lemma_obj_get_at(r, d);
        } else {
            assert forall|j: int| 0 <= j < r.len() implies r[j].0 != q by {
                if j != c {
                    assert(r[j] == s[j]);
                }
            }
        }
    } else {
        assert forall|a: int, b: int|
            0 <= a < r.len() && 0 <= b < r.len() && a != b implies r[a].0 != r[b].0 by {
            if a < s.len() && b < s.len() {
                assert(r[a] == s[a] && r[b] == s[b]);
            } else if a < s.len() {
                assert(r[a] == s[a]);
            } else {
                assert(r[b] == s[b]);
            }
        }
        if q == k {
            lemma_obj_get_at(r, s.len() as int);
        } else if has_key(s, q) {
            let d = key_index(s, q);
            assert(r[d] == s[d]);
            lemma_obj_get_at(r, d);
        } else {
            assert forall|j: int| 0 <= j < r.len() implies r[j].0 != q by {
                if j < s.len() {
                    assert(r[j] == s[j]);
                }
            }
        }
    }
}

impl JsonValue {
    /// The document this value stands for.
    pub open spec fn model(&self) -> Json
        decreases self,
    {
        match self {
            JsonValue::Null => Json::Null,
            JsonValue::Bool(b) => Json::Bool(*b),
            JsonValue::Number(n) => Json::Number(n@),
            JsonValue::String(s) => Json::Str(s@),
            JsonValue::Array(items) => Json::Array(array_model(items@)),
            JsonValue::Object(m) => Json::Object(m.model()),
        }
    }
}

impl JsonMap {
    /// The entries of the object.
    pub closed spec fn model(&self) -> Seq<(Seq<char>, Json)>
        decreases self,
    {
        entries_model(self.entries@)
    }

    #[verifier::type_invariant]
    closed spec fn distinct_keys(&self) -> bool {
        keys_distinct(self.model())
    }
}


impl JsonMap {
    /// The empty object.
    pub fn new() -> (r: JsonMap)
        ensures
            r.model() == Seq::<(Seq<char>, Json)>::empty(),
    {
        let r = JsonMap { entries: Vec::new() };
        assert(r.model() =~= Seq::<(Seq<char>, Json)>::empty());
        r
    }

    /// Number of entries.
    pub fn len(&self) -> (r: usize)
        ensures
            r == self.model().len(),
    {
        self.entries.len()
    }

    /// Whether the object has no entries.
    pub fn is_empty(&self) -> (r: bool)
        ensures
            r == (self.model().len() == 0),
    {
        self.entries.len() == 0
    }

    /// The keys of the entries are pairwise distinct.
    pub fn has_distinct_keys(&self)
        ensures
            keys_distinct(self.model()),
    {
        proof {
            use_type_invariant(self);
        }
    }

    /// The key of entry `i`.
    pub fn key_at(&self, i: usize) -> (r: &String)
        requires
            i < self.model().len(),
        ensures
            r@ == self.model()[i as int].0,
    {
        &self.entries[i].0
    }

    /// The value of entry `i`.
    pub fn value_at(&self, i: usize) -> (r: &JsonValue)
        requires
            i < self.model().len(),
        ensures
            r.model() == self.model()[i as int].1,
    {
        &self.entries[i].1
    }

    /// The position of the entry with key `k`, if any.
    fn find(&self, k: &str) -> (r: Option<usize>)
        ensures
            r is Some <==> has_key(self.model(), k@),
            r matches Some(i) ==> i == key_index(self.model(), k@),
            r matches Some(i) ==> i < self.model().len() && self.model()[i as int].0 == k@,
    {
        proof {
            use_type_invariant(self);
        }
        let ghost m = self.model();
        let n = self.entries.len();
        let mut i: usize = 0;
        while i < n
            invariant
                n == m.len(),
                m == self.model(),
                keys_distinct(m),
                i <= n,
                forall|j: int| 0 <= j < i ==> m[j].0 != k@,
            decreases n - i,
        {
            if str_eq(self.entries[i].0.as_str(), k) {
                proof {
                    assert(m[i as int].0 == k@);
                    let c = key_index(m, k@);
                    assert(0 <= c < m.len() && m[c].0 == k@);
                }
                return Some(i);
            }
            i = i + 1;
        }
        None
    }

    /// The value under key `k` (as `serde_json::Map::get`).
    pub fn get(&self, k: &str) -> (r: Option<&JsonValue>)
        ensures
            r is Some <==> has_key(self.model(), k@),
            r matches Some(v) ==> obj_get(self.model(), k@) == Some(v.model()),
    {
        match self.find(k) {
            Some(i) => Some(&self.entries[i].1),
            None => None,
        }
    }

    /// Binds `k` to `v`, replacing a previous binding in place (as
    /// `serde_json::Map::insert`).
    pub fn insert(&mut self, k: String, v: JsonValue)
        ensures
            final(self).model() == obj_insert(old(self).model(), k@, v.model()),
            keys_distinct(final(self).model()),
    {
        proof {
            use_type_invariant(&*self);
        }
        let ghost m = self.model();
        let ghost e = (k@, v.model());
        let found = self.find(k.as_str());
        let mut entries = Vec::new();
        std::mem::swap(&mut entries, &mut self.entries);
        match found {
            Some(i) => {
                entries.set(i, (k, v));
                proof {
                    assert(entries_model(entries@) =~= m.update(i as int, e));
                }
            },
            None => {
                entries.push((k, v));
                proof {
                    assert(entries_model(entries@) =~= m.push(e));
                }
            },
        }
        proof {
            let nm = entries_model(entries@);
            assert forall|a: int, b: int|
                0 <= a < nm.len() && 0 <= b < nm.len() && a != b implies nm[a].0 != nm[b].0 by {
                if has_key(m, e.0) {
                    let c = key_index(m, e.0);
                    if a != c && b != c {
                        assert(nm[a] == m[a] && nm[b] == m[b]);
                    }
                } else {
                    if a < m.len() && b < m.len() {
                        assert(nm[a] == m[a] && nm[b] == m[b]);
                    } else if a < m.len() {
                        assert(nm[a] == m[a]);
                    } else {
                        assert(nm[b] == m[b]);
                    }
                }
            }
        }
        self.entries = entries;
    }

    /// Appends an entry whose key is not present.
    pub fn push_new(&mut self, k: &str, v: JsonValue)
        requires
            forall|i: int| 0 <= i < old(self).model().len() ==> old(self).model()[i].0 != k@,
        ensures
            final(self).model() == old(self).model().push((k@, v.model())),
    {
        proof {
            lemma_insert_new_key(self.model(), k@, v.model());
        }
        self.insert(k.to_owned(), v);
    }

    /// A copy with the same entries.
    pub fn deep_clone(&self) -> (r: JsonMap)
        ensures
            r.model() == self.model(),
        decreases self,
    {
        proof {
            use_type_invariant(self);
        }
        let n = self.entries.len();
        let mut out: Vec<(String, JsonValue)> = Vec::new();
        let mut i: usize = 0;
        while i < n
            invariant
                n == self.entries@.len(),
                i <= n,
                out@.len() == i,
                forall|j: int|
                    0 <= j < i ==> (#[trigger] out@[j]).0@ == self.entries@[j].0@ && out@[j].1.model()
                        == self.entries@[j].1.model(),
            decreases n - i,
        {
            let k = self.entries[i].0.clone();
            let v = self.entries[i].1.deep_clone();
            out.push((k, v));
            i = i + 1;
        }
        proof {
            assert(entries_model(out@) =~= entries_model(self.entries@));
        }
        JsonMap { entries: out }
    }
}

impl JsonValue {
    /// A copy of the same document.
    pub fn deep_clone(&self) -> (r: JsonValue)
        ensures
            r.model() == self.model(),
        decreases self,
    {
        match self {
            JsonValue::Null => JsonValue::Null,
            JsonValue::Bool(b) => JsonValue::Bool(*b),
            JsonValue::Number(n) => JsonValue::Number(n.clone()),
            JsonValue::String(s) => JsonValue::String(s.clone()),
            JsonValue::Array(items) => {
                let n = items.len();
                let mut out: Vec<JsonValue> = Vec::new();
                let mut i: usize = 0;
                while i < n
                    invariant
                        n == items@.len(),
                        *self is Array,
                        self->Array_0 == *items,
                        i <= n,
                        out@.len() == i,
                        forall|j: int|
                            0 <= j < i ==> (#[trigger] out@[j]).model() == items@[j].model(),
                    decreases n - i,
                {
                    proof {
                        assert(decreases_to!(items@ => items@[i as int]));
                        assert(decreases_to!(*items => items@));
                        assert(decreases_to!(*self => self->Array_0));
                    }
                    out.push(items[i].deep_clone());
                    i = i + 1;
                }
                proof {
                    assert(array_model(out@) =~= array_model(items@));
                }
                JsonValue::Array(out)
            },
            JsonValue::Object(m) => JsonValue::Object(m.deep_clone()),
        }
    }

    /// The boolean this document holds, if it is one.
    pub fn as_bool(&self) -> (r: Option<bool>)
        ensures
            r == json_as_bool(self.model()),
    {
        match self {
            JsonValue::Bool(b) => Some(*b),
            _ => None,
        }
    }

    /// The string this document holds, if it is one.
    pub fn as_str(&self) -> (r: Option<&str>)
        ensures
            r is Some <==> json_as_str(self.model()) is Some,
            r matches Some(s) ==> json_as_str(self.model()) == Some(s@),
    {
        match self {
            JsonValue::String(s) => Some(s.as_str()),
            _ => None,
        }
    }

    /// The elements of the array this document holds, if it is one.
    pub fn as_array(&self) -> (r: Option<&Vec<JsonValue>>)
        ensures
            r is Some <==> self.model() is Array,
            r matches Some(v) ==> self.model() == Json::Array(array_model(v@)),
    {
        match self {
            JsonValue::Array(v) => Some(v),
            _ => None,
        }
    }

    /// The object this document holds, if it is one.
    pub fn as_object(&self) -> (r: Option<&JsonMap>)
        ensures
            r is Some <==> self.model() is Object,
            r matches Some(m) ==> self.model() == Json::Object(m.model()),
    {
        match self {
            JsonValue::Object(m) => Some(m),
            _ => None,
        }
    }

    /// The value under key `k`, when this document is an object (as
    /// `serde_json::Value::get` with a string index).
    pub fn get(&self, k: &str) -> (r: Option<&JsonValue>)
        ensures
            r is Some <==> json_get(self.model(), k@) is Some,
            r matches Some(v) ==> json_get(self.model(), k@) == Some(v.model()),
    {
        match self {
            JsonValue::Object(m) => m.get(k),
            _ => None,
        }
    }
}

impl Default for JsonValue {
    fn default() -> (r: Self)
        ensures
            r.model() == Json::Null,
    {
        JsonValue::Null
    }
}

impl Default for JsonMap {
    fn default() -> (r: Self)
        ensures
            r.model() == Seq::<(Seq<char>, Json)>::empty(),
    {
        JsonMap::new()
    }
}

impl JsonValue {
    /// The JSON string with the characters of `s`.
    pub fn from_str(s: &str) -> (r: JsonValue)
        ensures
            r.model() == Json::Str(s@),
    {
        JsonValue::String(s.to_owned())
    }
}

impl Clone for JsonValue {
    fn clone(&self) -> (r: Self)
        ensures
            r.model() == self.model(),
    {
        self.deep_clone()
    }
}

impl Clone for JsonMap {
    fn clone(&self) -> (r: Self)
        ensures
            r.model() == self.model(),
    {
        self.deep_clone()
    }
}

/// Two documents are the same document: arrays element by element, objects
/// as maps (every key of `a` read in `b` gives the same document, and the
/// two have as many entries), whatever the order of their entries.
pub open spec fn json_equiv(a: Json, b: Json) -> bool
    decreases a, 0int,
{
    match a {
        Json::Null => b is Null,
        Json::Bool(x) => b matches Json::Bool(y) && x == y,
        Json::Number(x) => b matches Json::Number(y) && x == y,
        Json::Str(x) => b matches Json::Str(y) && x == y,
        Json::Array(x) => match b {
            Json::Array(y) => x.len() == y.len() && items_equiv(x, y, x.len() as int),
            _ => false,
        },
        Json::Object(x) => match b {
            Json::Object(y) => x.len() == y.len() && entries_found(x, y, x.len() as int),
            _ => false,
        },
    }
}

/// The first `n` elements of `x` and `y` are the same documents in turn.
pub open spec fn items_equiv(x: Seq<Json>, y: Seq<Json>, n: int) -> bool
    decreases x, n,
{
    if n <= 0 || n > x.len() {
        n <= 0
    } else {
        items_equiv(x, y, n - 1) && json_equiv(x[n - 1], y[n - 1])
    }
}

/// Each of the first `n` entries of `x` reads the same document under its
/// key in `y`.
pub open spec fn entries_found(x: Seq<(Seq<char>, Json)>, y: Seq<(Seq<char>, Json)>, n: int) -> bool
    decreases x, n,
{
    if n <= 0 || n > x.len() {
        n <= 0
    } else {
        entries_found(x, y, n - 1) && match obj_get(y, x[n - 1].0) {
            Some(v) => json_equiv(x[n - 1].1, v),
            None => false,
        }
    }
}

/// The elements up to `n` agree when those up to a larger `m` do.
pub proof fn lemma_items_equiv_at(x: Seq<Json>, y: Seq<Json>, m: int, k: int)
    requires
        0 <= k < m <= x.len(),
        items_equiv(x, y, m),
    ensures
        json_equiv(x[k], y[k]),
    decreases m,
{
    if k < m - 1 {
        lemma_items_equiv_at(x, y, m - 1, k);
    }
}

/// An entry before `m` reads the same document in `y` when those up to
/// `m` do.
pub proof fn lemma_entries_found_at(x: Seq<(Seq<char>, Json)>, y: Seq<(Seq<char>, Json)>, m: int, k: int)
    requires
        0 <= k < m <= x.len(),
        entries_found(x, y, m),
    ensures
        obj_get(y, x[k].0) matches Some(v) && json_equiv(x[k].1, v),
    decreases m,
{
    if k < m - 1 {
        lemma_entries_found_at(x, y, m - 1, k);
    }
}

impl JsonValue {
    /// Whether `self` and `other` are the same document, objects compared
    /// as maps.
    pub fn same_document(&self, other: &JsonValue) -> (r: bool)
        ensures
            r == json_equiv(self.model(), other.model()),
        decreases self,
    {
        match self {
            JsonValue::Null => match other {
                JsonValue::Null => true,
                _ => false,
            },
            JsonValue::Bool(x) => match other {
                JsonValue::Bool(y) => *x == *y,
                _ => false,
            },
            JsonValue::Number(x) => match other {
                JsonValue::Number(y) => str_eq(x.as_str(), y.as_str()),
                _ => false,
            },
            JsonValue::String(x) => match other {
                JsonValue::String(y) => str_eq(x.as_str(), y.as_str()),
                _ => false,
            },
            JsonValue::Array(x) => match other {
                JsonValue::Array(y) => {
                    let n = x.len();
                    if n != y.len() {
                        return false;
                    }
                    let ghost xm = array_model(x@);
                    let ghost ym = array_model(y@);
                    let mut i: usize = 0;
                    while i < n
                        invariant
                            n == x@.len(),
                            n == y@.len(),
                            *self is Array,
                            self->Array_0 == *x,
                            *other is Array,
                            other->Array_0 == *y,
                            xm == array_model(x@),
                            ym == array_model(y@),
                            i <= n,
                            items_equiv(xm, ym, i as int),
                        decreases n - i,
                    {
                        proof {
                            assert(decreases_to!(x@ => x@[i as int]));
                            assert(decreases_to!(*x => x@));
                            assert(decreases_to!(*self => self->Array_0));
                            assert(xm[i as int] == x@[i as int].model());
                            assert(ym[i as int] == y@[i as int].model());
                        }
                        if !x[i].same_document(&y[i]) {
                            proof {
                                assert(self.model() == Json::Array(xm));
                                assert(other.model() == Json::Array(ym));
                                if items_equiv(xm, ym, xm.len() as int) {
                                    lemma_items_equiv_at(xm, ym, xm.len() as int, i as int);
                                }
                            }
                            return false;
                        }
                        i = i + 1;
                    }
                    proof {
                        assert(self.model() == Json::Array(xm));
                        assert(other.model() == Json::Array(ym));
                        assert(xm.len() == n && ym.len() == n);
                    }
                    true
                },
                _ => false,
            },
            JsonValue::Object(x) => match other {
                JsonValue::Object(y) => x.same_bindings(y),
                _ => false,
            },
        }
    }
}

impl JsonMap {
    /// Whether the two objects bind the same keys to the same documents,
    /// whatever the order of their entries.
    pub fn same_bindings(&self, other: &JsonMap) -> (r: bool)
        ensures
            r == json_equiv(Json::Object(self.model()), Json::Object(other.model())),
        decreases self,
    {
        proof {
            use_type_invariant(self);
            use_type_invariant(other);
        }
        let ghost xm = self.model();
        let ghost ym = other.model();
        let n = self.entries.len();
        if n != other.entries.len() {
            return false;
        }
        let mut i: usize = 0;
        while i < n
            invariant
                n == self.entries@.len(),
                xm == self.model(),
                xm == entries_model(self.entries@),
                ym == other.model(),
                xm.len() == ym.len(),
                keys_distinct(ym),
                i <= n,
                entries_found(xm, ym, i as int),
            decreases n - i,
        {
            let k = self.entries[i].0.as_str();
            proof {
                assert(xm[i as int] == (self.entries@[i as int].0@, self.entries@[i as int].1.model()));
            }
            match other.get(k) {
                Some(v) => {
                    let same = self.entries[i].1.same_document(v);
                    if !same {
                        proof {
                            if entries_found(xm, ym, xm.len() as int) {
                                lemma_entries_found_at(xm, ym, xm.len() as int, i as int);
                            }
                        }
                        return false;
                    }
                },
                None => {
                    proof {
                        if entries_found(xm, ym, xm.len() as int) {
                            lemma_entries_found_at(xm, ym, xm.len() as int, i as int);
                        }
                    }
                    return false;
                },
            }
            i = i + 1;
        }
        true
    }
}

impl PartialEq for JsonMap {
    fn eq(&self, other: &Self) -> (r: bool) {
        self.same_bindings(other)
    }
}

impl vstd::std_specs::cmp::PartialEqSpecImpl for JsonMap {
    open spec fn obeys_eq_spec() -> bool {
        true
    }

    open spec fn eq_spec(&self, other: &Self) -> bool {
        json_equiv(Json::Object(self.model()), Json::Object(other.model()))
    }
}

impl Eq for JsonMap {
}

} // verus!
