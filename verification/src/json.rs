//! A JSON document model used by every message the proxy reads or writes.
//!
//! `Json` is the executable value; `JsonView` is its mathematical view, in
//! which strings are `Seq<char>` and arrays and objects are sequences.
//! Objects are sequences of (key, value) entries: a lookup finds the first
//! entry with the key, an insertion replaces that entry in place (or appends a
//! new one), and a removal drops every entry with the key.
use vstd::prelude::*;
use crate::text::str_eq;

verus! {

/// A JSON number: a non-negative integer, a negative integer, or any other
/// number kept as its decimal text.
#[derive(Debug, Clone, PartialEq, Eq)]
pub enum JsonNumber {
    PosInt(u64),
    NegInt(i64),
    Float(String),
}

/// The view of a `JsonNumber`.
pub enum JsonNumberView {
    PosInt(u64),
    NegInt(i64),
    Float(Seq<char>),
}

/// A JSON value.
#[derive(Debug, PartialEq, Eq)]
pub enum Json {
    Null,
    Bool(bool),
    Number(JsonNumber),
    Str(String),
    Array(Vec<Json>),
    Object(Vec<(String, Json)>),
}

/// The view of a `Json` value.
pub enum JsonView {
    Null,
    Bool(bool),
    Number(JsonNumberView),
    Str(Seq<char>),
    Array(Seq<JsonView>),
    Object(Seq<(Seq<char>, JsonView)>),
}

pub open spec fn number_view(n: JsonNumber) -> JsonNumberView {
    match n {
        JsonNumber::PosInt(u) => JsonNumberView::PosInt(u),
        JsonNumber::NegInt(i) => JsonNumberView::NegInt(i),
        JsonNumber::Float(s) => JsonNumberView::Float(s@),
    }
}

pub open spec fn json_view(j: Json) -> JsonView
    decreases j,
{
    match j {
        Json::Null => JsonView::Null,
        Json::Bool(b) => JsonView::Bool(b),
        Json::Number(n) => JsonView::Number(number_view(n)),
        Json::Str(s) => JsonView::Str(s@),
        Json::Array(v) => JsonView::Array(items_view(v@)),
        Json::Object(v) => JsonView::Object(entries_view(v@)),
    }
}

/// A signed integer as JSON: non-negative ones as such, others as negative.
pub open spec fn int_view(n: i64) -> JsonView {
    if n >= 0 {
        JsonView::Number(JsonNumberView::PosInt(n as u64))
    } else {
        JsonView::Number(JsonNumberView::NegInt(n))
    }
}

/// A signed integer as JSON.
pub fn int_json(n: i64) -> (r: Json)
    ensures
        r@ == int_view(n),
{
    if n >= 0 {
        Json::Number(JsonNumber::PosInt(n as u64))
    } else {
        Json::Number(JsonNumber::NegInt(n))
    }
}

/// A count as JSON.
pub open spec fn count_view(n: nat) -> JsonView {
    JsonView::Number(JsonNumberView::PosInt(n as u64))
}

/// A count as JSON.
pub fn count_json(n: u64) -> (r: Json)
    ensures
        r@ == count_view(n as nat),
{
    Json::Number(JsonNumber::PosInt(n))
}

pub open spec fn items_view(s: Seq<Json>) -> Seq<JsonView>
    decreases s,
{
    if s.len() == 0 {
        Seq::empty()
    } else {
        items_view(s.drop_last()).push(json_view(s.last()))
    }
}

pub open spec fn entries_view(s: Seq<(String, Json)>) -> Seq<(Seq<char>, JsonView)>
    decreases s,
{
    if s.len() == 0 {
        Seq::empty()
    } else {
        entries_view(s.drop_last()).push((s.last().0@, json_view(s.last().1)))
    }
}


/// The position of the first entry whose key is `k`, or -1 when there is none.
pub open spec fn key_index(e: Seq<(Seq<char>, JsonView)>, k: Seq<char>) -> int
    decreases e.len(),
{
    if e.len() == 0 {
        -1
    } else {
        let p = key_index(e.drop_last(), k);
        if p >= 0 {
            p
        } else if e.last().0 == k {
            e.len() - 1
        } else {
            -1
        }
    }
}

/// The value of the first entry whose key is `k`.
pub open spec fn entries_get(e: Seq<(Seq<char>, JsonView)>, k: Seq<char>) -> Option<JsonView> {
    let i = key_index(e, k);
    if i >= 0 {
        Some(e[i].1)
    } else {
        None
    }
}

/// The entries with the first entry for `k` given the value `v`, or with
/// `(k, v)` appended when `k` has no entry.
pub open spec fn entries_insert(
    e: Seq<(Seq<char>, JsonView)>,
    k: Seq<char>,
    v: JsonView,
) -> Seq<(Seq<char>, JsonView)> {
    let i = key_index(e, k);
    if i >= 0 {
        e.update(i, (k, v))
    } else {
        e.push((k, v))
    }
}

/// The entries without any entry for `k`.
pub open spec fn entries_remove(e: Seq<(Seq<char>, JsonView)>, k: Seq<char>) -> Seq<
    (Seq<char>, JsonView),
>
    decreases e.len(),
{
    if e.len() == 0 {
        e
    } else {
        let r = entries_remove(e.drop_last(), k);
        if e.last().0 == k {
            r
        } else {
            r.push(e.last())
        }
    }
}

impl JsonView {
    /// The value stored under `key` when `self` is an object.
    pub open spec fn get(self, key: Seq<char>) -> Option<JsonView> {
        match self {
            JsonView::Object(e) => entries_get(e, key),
            _ => None,
        }
    }

    /// `self` with `key` set to `v` when `self` is an object; otherwise unchanged.
    pub open spec fn insert(self, key: Seq<char>, v: JsonView) -> JsonView {
        match self {
            JsonView::Object(e) => JsonView::Object(entries_insert(e, key, v)),
            _ => self,
        }
    }

    /// `self` without `key` when `self` is an object; otherwise unchanged.
    pub open spec fn remove(self, key: Seq<char>) -> JsonView {
        match self {
            JsonView::Object(e) => JsonView::Object(entries_remove(e, key)),
            _ => self,
        }
    }

    pub open spec fn is_object(self) -> bool {
        self is Object
    }

    pub open spec fn as_str(self) -> Option<Seq<char>> {
        match self {
            JsonView::Str(s) => Some(s),
            _ => None,
        }
    }

    pub open spec fn as_array(self) -> Option<Seq<JsonView>> {
        match self {
            JsonView::Array(a) => Some(a),
            _ => None,
        }
    }

    /// The string stored under `key`, when there is one.
    pub open spec fn get_str(self, key: Seq<char>) -> Option<Seq<char>> {
        match self.get(key) {
            Some(v) => v.as_str(),
            None => None,
        }
    }
}


/// Reading a key right after setting it gives the value set.
pub proof fn lemma_get_insert_same(j: JsonView, k: Seq<char>, v: JsonView)
    requires
        j.is_object(),
    ensures
        j.insert(k, v).get(k) == Some(v),
{
    let e = j->Object_0;
    lemma_key_index(e, k);
    let i = key_index(e, k);
    if i >= 0 {
        lemma_key_index_at(e.update(i, (k, v)), k, i);
    } else {
        lemma_key_index_at(e.push((k, v)), k, e.len() as int);
    }
}

/// Setting one key leaves every other key as it was.
pub proof fn lemma_get_insert_other(j: JsonView, k: Seq<char>, v: JsonView, k2: Seq<char>)
    requires
        k2 != k,
    ensures
        j.insert(k, v).get(k2) == j.get(k2),
{
    if j.is_object() {
        let e = j->Object_0;
        lemma_key_index(e, k);
        lemma_key_index(e, k2);
        let i = key_index(e, k);
        let e2 = if i >= 0 {
            e.update(i, (k, v))
        } else {
            e.push((k, v))
        };
        let i2 = key_index(e, k2);
        if i2 >= 0 {
            lemma_key_index_at(e2, k2, i2);
        } else {
            lemma_key_index_none(e2, k2);
        }
    }
}

proof fn lemma_entries_remove(e: Seq<(Seq<char>, JsonView)>, k: Seq<char>)
    ensures
        forall|j: int| 0 <= j < entries_remove(e, k).len() ==> #[trigger] entries_remove(e, k)[j].0 != k,
        forall|k2: Seq<char>| k2 != k ==> #[trigger] entries_get(entries_remove(e, k), k2) == entries_get(e, k2),
    decreases e.len(),
{
    if e.len() > 0 {
        let d = e.drop_last();
        lemma_entries_remove(d, k);
        let r = entries_remove(d, k);
        assert(d.len() == e.len() - 1);
        assert forall|k2: Seq<char>| k2 != k implies #[trigger] entries_get(entries_remove(e, k), k2) == entries_get(e, k2) by {
            lemma_key_index(d, k2);
            lemma_key_index(r, k2);
            assert(entries_get(r, k2) == entries_get(d, k2));
            let pd = key_index(d, k2);
            if pd >= 0 {
                assert(e[pd] == d[pd]);
            }
            if e.last().0 != k {
                let r2 = r.push(e.last());
                assert(r2.drop_last() =~= r);
                let pr = key_index(r, k2);
                if pr >= 0 {
                    assert(r2[pr] == r[pr]);
                }
            }
        }
    }
}

/// After removing a key it is absent, and every other key is as it was.
pub proof fn lemma_get_remove(j: JsonView, k: Seq<char>, k2: Seq<char>)
    ensures
        j.remove(k).get(k) is None,
        k2 != k ==> j.remove(k).get(k2) == j.get(k2),
{
    if j.is_object() {
        let e = j->Object_0;
        lemma_entries_remove(e, k);
        lemma_key_index_none(entries_remove(e, k), k);
        if k2 != k {
            assert(entries_get(entries_remove(e, k), k2) == entries_get(e, k2));
        }
    }
}

/// A key and a value, as an object entry.
pub fn kv(key: &str, value: Json) -> (r: (String, Json))
    ensures
        r.0@ == key@,
        r.1 == value,
{
    (key.to_string(), value)
}

/// The view of an optional reference to a value.
pub open spec fn opt_view(o: Option<&Json>) -> Option<JsonView> {
    match o {
        Some(j) => Some(j@),
        None => None,
    }
}

pub proof fn lemma_key_index(e: Seq<(Seq<char>, JsonView)>, k: Seq<char>)
    ensures
        -1 <= key_index(e, k) < e.len(),
        key_index(e, k) >= 0 ==> e[key_index(e, k)].0 == k,
        key_index(e, k) >= 0 ==> forall|j: int| 0 <= j < key_index(e, k) ==> e[j].0 != k,
        key_index(e, k) == -1 ==> forall|j: int| 0 <= j < e.len() ==> e[j].0 != k,
    decreases e.len(),
{
    if e.len() > 0 {
        let d = e.drop_last();
        lemma_key_index(d, k);
        assert forall|j: int| 0 <= j < e.len() - 1 implies d[j] == #[trigger] e[j] by {}
        let p = key_index(d, k);
        if p >= 0 {
            assert forall|j: int| 0 <= j < p implies #[trigger] e[j].0 != k by {
                assert(d[j] == e[j]);
            }
        } else if e.last().0 != k {
            assert forall|j: int| 0 <= j < e.len() implies #[trigger] e[j].0 != k by {
                if j < e.len() - 1 {
                    assert(d[j] == e[j]);
                }
            }
        } else {
            assert forall|j: int| 0 <= j < e.len() - 1 implies #[trigger] e[j].0 != k by {
                assert(d[j] == e[j]);
            }
        }
    }
}

/// An index that holds the key, with no earlier entry holding it, is the key's index.
pub proof fn lemma_key_index_at(e: Seq<(Seq<char>, JsonView)>, k: Seq<char>, i: int)
    requires
        0 <= i < e.len(),
        e[i].0 == k,
        forall|j: int| 0 <= j < i ==> e[j].0 != k,
    ensures
        key_index(e, k) == i,
{
    lemma_key_index(e, k);
}

/// When no entry holds the key, its index is -1.
pub proof fn lemma_key_index_none(e: Seq<(Seq<char>, JsonView)>, k: Seq<char>)
    requires
        forall|j: int| 0 <= j < e.len() ==> e[j].0 != k,
    ensures
        key_index(e, k) == -1,
{
    lemma_key_index(e, k);
}

pub proof fn lemma_items_view(s: Seq<Json>)
    ensures
        items_view(s).len() == s.len(),
        forall|j: int| 0 <= j < s.len() ==> #[trigger] items_view(s)[j] == json_view(s[j]),
    decreases s.len(),
{
    if s.len() > 0 {
        lemma_items_view(s.drop_last());
    }
}

pub proof fn lemma_entries_view(s: Seq<(String, Json)>)
    ensures
        entries_view(s).len() == s.len(),
        forall|j: int|
            0 <= j < s.len() ==> #[trigger] entries_view(s)[j] == (s[j].0@, json_view(s[j].1)),
    decreases s.len(),
{
    if s.len() > 0 {
        lemma_entries_view(s.drop_last());
    }
}

/// Two item sequences with pointwise-equal views have equal views.
pub proof fn lemma_items_view_ext(s: Seq<Json>, t: Seq<JsonView>)
    requires
        s.len() == t.len(),
        forall|j: int| 0 <= j < s.len() ==> json_view(#[trigger] s[j]) == t[j],
    ensures
        items_view(s) == t,
{
    lemma_items_view(s);
    assert(items_view(s) =~= t);
}

/// Two entry sequences with pointwise-equal views have equal views.
pub proof fn lemma_entries_view_ext(s: Seq<(String, Json)>, t: Seq<(Seq<char>, JsonView)>)
    requires
        s.len() == t.len(),
        forall|j: int| 0 <= j < s.len() ==> (#[trigger] s[j].0@, json_view(s[j].1)) == t[j],
    ensures
        entries_view(s) == t,
{
    lemma_entries_view(s);
    assert(entries_view(s) =~= t);
}

/// The position of the first entry of `v` whose key is `key`.
pub fn find_key(v: &Vec<(String, Json)>, key: &str) -> (r: Option<usize>)
    ensures
        match r {
            Some(i) => key_index(entries_view(v@), key@) == i && i < v@.len(),
            None => key_index(entries_view(v@), key@) == -1,
        },
{
    let n = v.len();
    let mut i: usize = 0;
    proof {
        lemma_entries_view(v@);
    }
    while i < n
        invariant
            n == v@.len(),
            i <= n,
            entries_view(v@).len() == n,
            forall|j: int|
                0 <= j < n ==> #[trigger] entries_view(v@)[j] == (v@[j].0@, json_view(v@[j].1)),
            forall|j: int| 0 <= j < i ==> entries_view(v@)[j].0 != key@,
        decreases n - i,
    {
        if str_eq(v[i].0.as_str(), key) {
            proof {
                assert(entries_view(v@)[i as int] == (v@[i as int].0@, json_view(v@[i as int].1)));
                lemma_key_index_at(entries_view(v@), key@, i as int);
            }
            return Some(i);
        }
        i = i + 1;
    }
    proof {
        lemma_key_index_none(entries_view(v@), key@);
    }
    None
}

impl Json {
    /// A copy of `self` with the same view.
    pub fn deep_clone(&self) -> (r: Json)
        ensures
            r@ == self@,
        decreases self@,
    {
        match self {
            Json::Null => Json::Null,
            Json::Bool(b) => Json::Bool(*b),
            Json::Number(JsonNumber::PosInt(u)) => Json::Number(JsonNumber::PosInt(*u)),
            Json::Number(JsonNumber::NegInt(i)) => Json::Number(JsonNumber::NegInt(*i)),
            Json::Number(JsonNumber::Float(s)) => Json::Number(JsonNumber::Float(s.clone())),
            Json::Str(s) => Json::Str(s.clone()),
            Json::Array(v) => {
                let mut out: Vec<Json> = Vec::new();
                let n = v.len();
                let mut i: usize = 0;
                while i < n
                    invariant
                        n == v@.len(),
                        i <= n,
                        out@.len() == i,
                        forall|j: int| 0 <= j < i ==> json_view(#[trigger] out@[j]) == json_view(v@[j]),
                        *self == Json::Array(*v),
                    decreases n - i,
                {
                    proof {
                        assert(*self == Json::Array(*v));
                        lemma_items_view(v@);
                        assert(self@ == JsonView::Array(items_view(v@)));
                        assert(items_view(v@)[i as int] == v[i as int]@);
                        let ghost sv = self@;
                        assert(sv->Array_0 == items_view(v@));
                        assert(decreases_to!(sv => sv->Array_0));
                        assert(decreases_to!(self@ => v[i as int]@));
                    }
                    let c = v[i].deep_clone();
                    out.push(c);
                    i = i + 1;
                }
                proof {
                    lemma_items_view(v@);
                    lemma_items_view_ext(out@, items_view(v@));
                }
                Json::Array(out)
            },
            Json::Object(v) => {
                let mut out: Vec<(String, Json)> = Vec::new();
                let n = v.len();
                let mut i: usize = 0;
                while i < n
                    invariant
                        n == v@.len(),
                        i <= n,
                        out@.len() == i,
                        forall|j: int|
                            0 <= j < i ==> (#[trigger] out@[j].0@, json_view(out@[j].1)) == (
                                v@[j].0@,
                                json_view(v@[j].1),
                            ),
                        *self == Json::Object(*v),
                    decreases n - i,
                {
                    proof {
                        assert(*self == Json::Object(*v));
                        lemma_entries_view(v@);
                        let ghost sv = self@;
                        let ghost ev = entries_view(v@);
                        assert(sv->Object_0 == ev);
                        assert(ev[i as int] == (v[i as int].0@, v[i as int].1@));
                        assert(decreases_to!(sv => sv->Object_0));
                        assert(decreases_to!(ev => ev[i as int]));
                        assert(decreases_to!(ev[i as int] => ev[i as int].1));
                        assert(decreases_to!(sv => v[i as int].1@));
                    }
                    let c = v[i].1.deep_clone();
                    let k = v[i].0.clone();
                    out.push((k, c));
                    i = i + 1;
                }
                proof {
                    lemma_entries_view(v@);
                    lemma_entries_view_ext(out@, entries_view(v@));
                }
                Json::Object(out)
            },
        }
    }

    /// Whether `self` and `other` are the same value.
    pub fn same_as(&self, other: &Json) -> (r: bool)
        ensures
            r == (self@ == other@),
        decreases self@,
    {
        match (self, other) {
            (Json::Null, Json::Null) => true,
            (Json::Bool(a), Json::Bool(b)) => *a == *b,
            (Json::Number(JsonNumber::PosInt(a)), Json::Number(JsonNumber::PosInt(b))) => *a == *b,
            (Json::Number(JsonNumber::NegInt(a)), Json::Number(JsonNumber::NegInt(b))) => *a == *b,
            (Json::Number(JsonNumber::Float(a)), Json::Number(JsonNumber::Float(b))) => str_eq(a.as_str(), b.as_str()),
            (Json::Str(a), Json::Str(b)) => str_eq(a.as_str(), b.as_str()),
            (Json::Array(v), Json::Array(w)) => {
                proof {
                    lemma_items_view(v@);
                    lemma_items_view(w@);
                }
                let n = v.len();
                if n != w.len() {
                    return false;
                }
                let mut i: usize = 0;
                while i < n
                    invariant
                        n == v@.len(),
                        n == w@.len(),
                        i <= n,
                        *self == Json::Array(*v),
                        *other == Json::Array(*w),
                        items_view(v@).len() == n,
                        items_view(w@).len() == n,
                        forall|j: int| 0 <= j < n ==> #[trigger] items_view(v@)[j] == json_view(v@[j]),
                        forall|j: int| 0 <= j < n ==> #[trigger] items_view(w@)[j] == json_view(w@[j]),
                        forall|j: int| 0 <= j < i ==> json_view(#[trigger] v@[j]) == json_view(w@[j]),
                    decreases n - i,
                {
                    proof {
                        let ghost sv = self@;
                        assert(sv->Array_0 == items_view(v@));
                        assert(items_view(v@)[i as int] == v[i as int]@);
                        assert(decreases_to!(sv => sv->Array_0));
                        assert(decreases_to!(self@ => v[i as int]@));
                    }
                    if !v[i].same_as(&w[i]) {
                        proof {
                            assert(items_view(v@)[i as int] != items_view(w@)[i as int]);
                        }
                        return false;
                    }
                    i = i + 1;
                }
                proof {
                    assert(items_view(v@) =~= items_view(w@));
                }
                true
            },
            (Json::Object(v), Json::Object(w)) => {
                proof {
                    lemma_entries_view(v@);
                    lemma_entries_view(w@);
                }
                let n = v.len();
                if n != w.len() {
                    return false;
                }
                let mut i: usize = 0;
                while i < n
                    invariant
                        n == v@.len(),
                        n == w@.len(),
                        i <= n,
                        *self == Json::Object(*v),
                        *other == Json::Object(*w),
                        entries_view(v@).len() == n,
                        entries_view(w@).len() == n,
                        forall|j: int| 0 <= j < n ==> #[trigger] entries_view(v@)[j] == (v@[j].0@, json_view(v@[j].1)),
                        forall|j: int| 0 <= j < n ==> #[trigger] entries_view(w@)[j] == (w@[j].0@, json_view(w@[j].1)),
                        forall|j: int| 0 <= j < i ==> #[trigger] entries_view(v@)[j] == entries_view(w@)[j],
                    decreases n - i,
                {
                    proof {
                        let ghost sv = self@;
                        let ghost ev = entries_view(v@);
                        assert(sv->Object_0 == ev);
                        assert(ev[i as int] == (v[i as int].0@, v[i as int].1@));
                        assert(decreases_to!(sv => sv->Object_0));
                        assert(decreases_to!(ev => ev[i as int]));
                        assert(decreases_to!(ev[i as int] => ev[i as int].1));
                        assert(decreases_to!(sv => v[i as int].1@));
                    }
                    if !str_eq(v[i].0.as_str(), w[i].0.as_str()) || !v[i].1.same_as(&w[i].1) {
                        proof {
                            assert(entries_view(v@)[i as int] != entries_view(w@)[i as int]);
                        }
                        return false;
                    }
                    i = i + 1;
                }
                proof {
                    assert(entries_view(v@) =~= entries_view(w@));
                }
                true
            },
            _ => false,
        }
    }

    /// An object with the given entries.
    pub fn object(entries: Vec<(String, Json)>) -> (r: Json)
        ensures
            r@ == JsonView::Object(entries_view(entries@)),
    {
        Json::Object(entries)
    }

    /// An array with the given items.
    pub fn array(items: Vec<Json>) -> (r: Json)
        ensures
            r@ == JsonView::Array(items_view(items@)),
    {
        Json::Array(items)
    }

    /// An object whose first entry is `"name": name`, followed by `rest`.
    pub fn named_object(name: &str, rest: Vec<(String, Json)>) -> (r: Json)
        ensures
            r@.get_str("name"@) == Some(name@),
            r@.get("name"@) == Some(JsonView::Str(name@)),
            r@ == JsonView::Object(seq![("name"@, JsonView::Str(name@))] + entries_view(rest@)),
    {
        let mut entries: Vec<(String, Json)> = Vec::new();
        entries.push(("name".to_string(), Json::string(name)));
        let mut rest = rest;
        let ghost rv = rest@;
        entries.append(&mut rest);
        proof {
            lemma_entries_view(entries@);
            lemma_entries_view(rv);
            lemma_entries_view_ext(entries@, seq![("name"@, JsonView::Str(name@))] + entries_view(rv));
            lemma_key_index_at(entries_view(entries@), "name"@, 0);
        }
        Json::Object(entries)
    }

    /// A string value.
    pub fn string(s: &str) -> (r: Json)
        ensures
            r@ == JsonView::Str(s@),
    {
        Json::Str(s.to_string())
    }

    /// An empty object.
    pub fn empty_object() -> (r: Json)
        ensures
            r@ == JsonView::Object(Seq::empty()),
    {
        let v: Vec<(String, Json)> = Vec::new();
        proof {
            lemma_entries_view(v@);
        }
        Json::Object(v)
    }

    /// The string this value holds, when it is a string.
    pub fn as_str(&self) -> (r: Option<&str>)
        ensures
            match r {
                Some(s) => self@.as_str() == Some(s@),
                None => self@.as_str() is None,
            },
    {
        match self {
            Json::Str(s) => Some(s.as_str()),
            _ => None,
        }
    }

    /// The items of this value, when it is an array.
    pub fn as_array(&self) -> (r: Option<&Vec<Json>>)
        ensures
            match r {
                Some(v) => self@.as_array() == Some(items_view(v@)),
                None => self@.as_array() is None,
            },
    {
        match self {
            Json::Array(v) => Some(v),
            _ => None,
        }
    }

    /// The value stored under `key`, when `self` is an object holding it.
    pub fn get(&self, key: &str) -> (r: Option<&Json>)
        ensures
            opt_view(r) == self@.get(key@),
    {
        match self {
            Json::Object(v) => {
                proof {
                    lemma_entries_view(v@);
                }
                match find_key(v, key) {
                    Some(i) => Some(&v[i].1),
                    None => None,
                }
            },
            _ => None,
        }
    }

    /// The string stored under `key`, when there is one.
    pub fn get_str(&self, key: &str) -> (r: Option<&str>)
        ensures
            match r {
                Some(s) => self@.get_str(key@) == Some(s@),
                None => self@.get_str(key@) is None,
            },
    {
        match self.get(key) {
            Some(Json::Str(s)) => Some(s.as_str()),
            _ => None,
        }
    }

    /// Whether `self` is an object.
    pub fn is_object(&self) -> (r: bool)
        ensures
            r == self@.is_object(),
    {
        match self {
            Json::Object(_) => true,
            _ => false,
        }
    }

    /// Sets `key` to `value` when `self` is an object.
    pub fn insert(&mut self, key: String, value: Json)
        ensures
            final(self)@ == old(self)@.insert(key@, value@),
    {
        match self {
            Json::Object(v) => {
                let ghost old_v = v@;
                let ghost kv = key@;
                let ghost vv = value@;
                proof {
                    lemma_entries_view(v@);
                }
                match find_key(v, key.as_str()) {
                    Some(i) => {
                        v[i] = (key, value);
                        proof {
                            lemma_entries_view_ext(
                                v@,
                                entries_view(old_v).update(i as int, (kv, vv)),
                            );
                        }
                    },
                    None => {
                        v.push((key, value));
                        proof {
                            lemma_entries_view_ext(v@, entries_view(old_v).push((kv, vv)));
                        }
                    },
                }
            },
            _ => {},
        }
    }

    /// Drops every entry for `key` when `self` is an object, and returns the
    /// value that was stored under it.
    pub fn remove(&mut self, key: &str) -> (r: Option<Json>)
        ensures
            final(self)@ == old(self)@.remove(key@),
            match r {
                Some(x) => old(self)@.get(key@) == Some(x@),
                None => old(self)@.get(key@) is None,
            },
    {
        let found = match self.get(key) {
            Some(x) => Some(x.deep_clone()),
            None => None,
        };
        match self {
            Json::Object(v) => {
                let ghost old_v = v@;
                let mut out: Vec<(String, Json)> = Vec::new();
                let mut rest: Vec<(String, Json)> = Vec::new();
                std::mem::swap(v, &mut rest);
                let n = rest.len();
                let mut i: usize = 0;
                proof {
                    lemma_entries_view(old_v);
                }
                while i < n
                    invariant
                        n == old_v.len(),
                        rest@ == old_v,
                        i <= n,
                        entries_view(old_v).len() == n,
                        forall|j: int|
                            0 <= j < n ==> #[trigger] entries_view(old_v)[j] == (
                                old_v[j].0@,
                                json_view(old_v[j].1),
                            ),
                        entries_view(out@) == entries_remove(
                            entries_view(old_v).subrange(0, i as int),
                            key@,
                        ),
                    decreases n - i,
                {
                    let ghost pre = entries_view(old_v).subrange(0, i as int);
                    assert(entries_view(old_v).subrange(0, i + 1).drop_last() == pre);
                    let ghost before = out@;
                    if !str_eq(rest[i].0.as_str(), key) {
                        let k = rest[i].0.clone();
                        let c = rest[i].1.deep_clone();
                        out.push((k, c));
                        proof {
                            assert(out@.drop_last() =~= before);
                        }
                    }
                    proof {
                        assert(entries_view(old_v)[i as int] == (old_v[i as int].0@, json_view(old_v[i as int].1)));
                    }
                    i = i + 1;
                }
                assert(entries_view(old_v).subrange(0, n as int) == entries_view(old_v));
                *v = out;
            },
            _ => {},
        }
        found
    }
}

impl Clone for Json {
    fn clone(&self) -> (r: Json)
        ensures
            r@ == self@,
    {
        self.deep_clone()
    }
}

impl View for JsonNumber {
    type V = JsonNumberView;

    open spec fn view(&self) -> JsonNumberView {
        number_view(*self)
    }
}

impl View for Json {
    type V = JsonView;

    open spec fn view(&self) -> JsonView {
        json_view(*self)
    }
}

} // verus!
