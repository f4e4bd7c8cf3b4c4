//! A JSON document model: the values that plans, requests and receipts carry.

use vstd::prelude::*;
use crate::text::str_eq;

verus! {

/// A JSON value. Numbers are kept in their textual form.
#[derive(Debug)]
pub enum JsonValue {
    Null,
    Bool(bool),
    Number(String),
    Str(String),
    Array(Vec<JsonValue>),
    Object(JsonMap),
}

/// The mathematical form of a JSON value: strings as character sequences.
pub enum JsonSpec {
    Null,
    Bool(bool),
    Number(Seq<char>),
    Str(Seq<char>),
    Array(Seq<JsonSpec>),
    Object(Seq<(Seq<char>, JsonSpec)>),
}

/// The mathematical form of a sequence of object entries.
pub open spec fn entries_view(s: Seq<(String, JsonValue)>) -> Seq<(Seq<char>, JsonSpec)> {
    Seq::new(s.len(), |i: int| (s[i].0@, json_view(s[i].1)))
}

/// The mathematical form of a JSON value.
pub open spec fn json_view(v: JsonValue) -> JsonSpec
    decreases v,
{
    match v {
        JsonValue::Null => JsonSpec::Null,
        JsonValue::Bool(b) => JsonSpec::Bool(b),
        JsonValue::Number(n) => JsonSpec::Number(n@),
        JsonValue::Str(s) => JsonSpec::Str(s@),
        JsonValue::Array(items) => JsonSpec::Array(
            Seq::new(
                items@.len(),
                |i: int|
                    if 0 <= i < items@.len() {
                        json_view(items@[i])
                    } else {
                        JsonSpec::Null
                    },
            ),
        ),
        JsonValue::Object(m) => JsonSpec::Object(
            Seq::new(
                m.entries@.len(),
                |i: int|
                    if 0 <= i < m.entries@.len() {
                        (m.entries@[i].0@, json_view(m.entries@[i].1))
                    } else {
                        (Seq::empty(), JsonSpec::Null)
                    },
            ),
        ),
    }
}

impl View for JsonValue {
    type V = JsonSpec;

    open spec fn view(&self) -> JsonSpec {
        json_view(*self)
    }
}

impl View for JsonMap {
    type V = Seq<(Seq<char>, JsonSpec)>;

    open spec fn view(&self) -> Seq<(Seq<char>, JsonSpec)> {
        entries_view(self.entries@)
    }
}

/// The view of an object value is the view of its entries.
pub proof fn lemma_object_view(m: JsonMap)
    ensures
        json_view(JsonValue::Object(m)) == JsonSpec::Object(entries_view(m.entries@)),
{
    assert(json_view(JsonValue::Object(m))->Object_0 =~= entries_view(m.entries@));
}

/// The view of an array value is the view of its items, in order.
pub proof fn lemma_array_view(items: Vec<JsonValue>)
    ensures
        json_view(JsonValue::Array(items)) == JsonSpec::Array(
            Seq::new(items@.len(), |i: int| json_view(items@[i])),
        ),
{
    assert(json_view(JsonValue::Array(items))->Array_0 =~= Seq::new(items@.len(), |i: int| json_view(items@[i])));
}


/// Entries with the same view hold the same keys, and values with the same view, at
/// the same indices; so every key is found at the same index in both.
pub proof fn lemma_find_key_same_view(a: Seq<(String, JsonValue)>, b: Seq<(String, JsonValue)>, k: Seq<char>)
    requires
        entries_view(a) == entries_view(b),
    ensures
        a.len() == b.len(),
        forall|j: int| 0 <= j < a.len() ==> #[trigger] a[j].0@ == b[j].0@ && json_view(a[j].1) == json_view(b[j].1),
        find_key(a, k) == find_key(b, k),
{
    assert(entries_view(a).len() == a.len());
    assert(entries_view(b).len() == b.len());
    assert(a.len() == b.len());
    assert forall|j: int| 0 <= j < a.len() implies #[trigger] a[j].0@ == b[j].0@ && json_view(a[j].1) == json_view(b[j].1) by {
        assert(entries_view(a)[j] == (a[j].0@, json_view(a[j].1)));
        assert(entries_view(b)[j] == (b[j].0@, json_view(b[j].1)));
        assert(entries_view(a)[j] == entries_view(b)[j]);
    }
    lemma_find_key_bounds(a, k);
    lemma_find_key_bounds(b, k);
    let fa = find_key(a, k);
    let fb = find_key(b, k);
    if fa >= 0 {
        assert(b[fa].0@ == k);
    }
    if fb >= 0 {
        assert(a[fb].0@ == k);
    }
}

/// A JSON object: key/value entries, each key at most once.
#[derive(Debug)]
pub struct JsonMap {
    pub entries: Vec<(String, JsonValue)>,
}

/// Index of the first entry whose key is `k`, or -1 when there is none.
pub open spec fn find_key<V>(s: Seq<(String, V)>, k: Seq<char>) -> int
    decreases s.len(),
{
    if s.len() == 0 {
        -1
    } else {
        let i = find_key(s.drop_last(), k);
        if i >= 0 {
            i
        } else if s.last().0@ == k {
            s.len() - 1
        } else {
            -1
        }
    }
}

/// No key occurs twice.
pub open spec fn keys_distinct<V>(s: Seq<(String, V)>) -> bool {
    forall|i: int, j: int| 0 <= i < j < s.len() ==> #[trigger] s[i].0@ != #[trigger] s[j].0@
}

/// The value stored under `k`, if any.
pub open spec fn lookup<V>(s: Seq<(String, V)>, k: Seq<char>) -> Option<V> {
    let i = find_key(s, k);
    if i >= 0 {
        Some(s[i].1)
    } else {
        None
    }
}

/// The entries after storing `v` under `k`: the existing entry is replaced in place,
/// otherwise the pair is appended.
pub open spec fn insert_spec<V>(s: Seq<(String, V)>, k: String, v: V) -> Seq<(String, V)> {
    let i = find_key(s, k@);
    if i >= 0 {
        s.update(i, (k, v))
    } else {
        s.push((k, v))
    }
}

/// The first entry with a key is found: `-1` means no entry has it, and otherwise
/// the entry found has it and none before does.
pub proof fn lemma_find_key_bounds<V>(s: Seq<(String, V)>, k: Seq<char>)
    ensures
        -1 <= find_key(s, k) < s.len(),
        find_key(s, k) >= 0 ==> s[find_key(s, k)].0@ == k,
        find_key(s, k) >= 0 ==> forall|j: int| 0 <= j < find_key(s, k) ==> s[j].0@ != k,
        find_key(s, k) == -1 ==> forall|j: int| 0 <= j < s.len() ==> s[j].0@ != k,
    decreases s.len(),
{
    if s.len() > 0 {
        lemma_find_key_bounds(s.drop_last(), k);
        assert forall|j: int| 0 <= j < s.len() - 1 implies s.drop_last()[j] == s[j] by {}
    }
}

proof fn lemma_find_key_step<V>(s: Seq<(String, V)>, i: int, k: Seq<char>)
    requires
        0 <= i < s.len(),
    ensures
        find_key(s.take(i + 1), k) == if find_key(s.take(i), k) >= 0 {
            find_key(s.take(i), k)
        } else if s[i].0@ == k {
            i
        } else {
            -1
        },
{
    assert(s.take(i + 1).drop_last() =~= s.take(i));
}

proof fn lemma_find_key_prefix<V>(s: Seq<(String, V)>, j: int, k: Seq<char>)
    requires
        0 <= j <= s.len(),
        find_key(s.take(j), k) >= 0,
    ensures
        find_key(s, k) == find_key(s.take(j), k),
    decreases s.len() - j,
{
    if j == s.len() {
        assert(s.take(j) =~= s);
    } else {
        assert(s.drop_last().take(j) =~= s.take(j));
        lemma_find_key_prefix(s.drop_last(), j, k);
    }
}

/// Position of the first entry of `entries` whose key is `key`, if any.
pub fn position_of<V>(entries: &Vec<(String, V)>, key: &str) -> (r: Option<usize>)
    ensures
        r is Some <==> find_key(entries@, key@) >= 0,
        r matches Some(i) ==> i == find_key(entries@, key@),
{
    let n = entries.len();
    let mut i: usize = 0;
    while i < n
        invariant
            0 <= i <= n,
            n == entries@.len(),
            find_key(entries@.take(i as int), key@) == -1,
        decreases n - i,
    {
        proof {
            lemma_find_key_step(entries@, i as int, key@);
        }
        if str_eq(entries[i].0.as_str(), key) {
            proof {
                lemma_find_key_prefix(entries@, i + 1, key@);
            }
            return Some(i);
        }
        i = i + 1;
    }
    assert(entries@.take(n as int) =~= entries@);
    None
}

proof fn lemma_find_key_is<V>(s: Seq<(String, V)>, k: Seq<char>, i: int)
    requires
        0 <= i < s.len(),
        s[i].0@ == k,
        forall|j: int| 0 <= j < i ==> s[j].0@ != k,
    ensures
        find_key(s, k) == i,
{
    lemma_find_key_bounds(s, k);
}

proof fn lemma_find_key_none<V>(s: Seq<(String, V)>, k: Seq<char>)
    requires
        forall|j: int| 0 <= j < s.len() ==> s[j].0@ != k,
    ensures
        find_key(s, k) == -1,
{
    lemma_find_key_bounds(s, k);
}

/// Reading a key after storing under it gives the value stored; every other key
/// reads as before.
pub proof fn lemma_insert_lookup<V>(s: Seq<(String, V)>, k: String, v: V, k2: Seq<char>)
    ensures
        lookup(insert_spec(s, k, v), k2) == if k2 == k@ {
            Some(v)
        } else {
            lookup(s, k2)
        },
{
    lemma_find_key_bounds(s, k@);
    lemma_find_key_bounds(s, k2);
    let t = insert_spec(s, k, v);
    let i = find_key(s, k@);
    if i >= 0 {
        if k2 == k@ {
            lemma_find_key_is(t, k2, i);
        } else {
            let f = find_key(s, k2);
            if f >= 0 {
                assert(f != i);
                lemma_find_key_is(t, k2, f);
            } else {
                assert forall|j: int| 0 <= j < t.len() implies t[j].0@ != k2 by {
                    if j != i {
                        assert(t[j] == s[j]);
                    }
                }
                lemma_find_key_none(t, k2);
            }
        }
    } else {
        if k2 == k@ {
            lemma_find_key_is(t, k2, s.len() as int);
        } else {
            let f = find_key(s, k2);
            if f >= 0 {
                lemma_find_key_is(t, k2, f);
            } else {
                lemma_find_key_none(t, k2);
            }
        }
    }
}

/// Storing under a key keeps the keys distinct.
pub proof fn lemma_insert_keeps_keys_distinct<V>(s: Seq<(String, V)>, k: String, v: V)
    requires
        keys_distinct(s),
    ensures
        keys_distinct(insert_spec(s, k, v)),
{
    lemma_find_key_bounds(s, k@);
    let t = insert_spec(s, k, v);
    assert forall|i: int, j: int| 0 <= i < j < t.len() implies #[trigger] t[i].0@ != #[trigger] t[j].0@ by {
        if find_key(s, k@) >= 0 {
            assert(s[find_key(s, k@)].0@ == k@);
        }
    }
}

/// A map from names to values, each name at most once.
#[derive(Debug, Clone)]
pub struct NamedMap<V> {
    pub entries: Vec<(String, V)>,
}

impl<V> NamedMap<V> {
    /// An empty map.
    pub fn new() -> (m: NamedMap<V>)
        ensures
            m.entries@.len() == 0,
    {
        NamedMap { entries: Vec::new() }
    }

    /// Number of entries.
    pub fn len(&self) -> (n: usize)
        ensures
            n == self.entries@.len(),
    {
        self.entries.len()
    }

    /// Whether the map is empty.
    pub fn is_empty(&self) -> (b: bool)
        ensures
            b == (self.entries@.len() == 0),
    {
        self.entries.len() == 0
    }

    /// The value stored under `key`, if any.
    pub fn get(&self, key: &str) -> (r: Option<&V>)
        ensures
            r matches Some(v) ==> lookup(self.entries@, key@) == Some(*v),
            r is None ==> lookup(self.entries@, key@) is None,
    {
        proof {
            lemma_find_key_bounds(self.entries@, key@);
        }
        match position_of(&self.entries, key) {
            Some(i) => Some(&self.entries[i].1),
            None => None,
        }
    }

    /// Whether an entry with key `key` exists.
    pub fn contains_key(&self, key: &str) -> (b: bool)
        ensures
            b == (find_key(self.entries@, key@) >= 0),
    {
        position_of(&self.entries, key).is_some()
    }

    /// Stores `value` under `key`, replacing an existing value.
    pub fn insert(&mut self, key: String, value: V)
        ensures
            final(self).entries@ == insert_spec(old(self).entries@, key, value),
    {
        proof {
            lemma_find_key_bounds(self.entries@, key@);
        }
        match position_of(&self.entries, key.as_str()) {
            Some(i) => {
                self.entries.set(i, (key, value));
            },
            None => {
                self.entries.push((key, value));
            },
        }
    }
}

impl JsonValue {
    /// The boolean this value holds, if it is a boolean.
    pub fn as_bool(&self) -> (r: Option<bool>)
        ensures
            r == (match *self {
                JsonValue::Bool(b) => Some(b),
                _ => None,
            }),
    {
        match self {
            JsonValue::Bool(b) => Some(*b),
            _ => None,
        }
    }

    /// The string this value holds, if it is a string.
    pub fn as_str(&self) -> (r: Option<&str>)
        ensures
            match *self {
                JsonValue::Str(s) => r matches Some(t) && t@ == s@,
                _ => r is None,
            },
    {
        match self {
            JsonValue::Str(s) => Some(s.as_str()),
            _ => None,
        }
    }

    /// A copy of this value.
    #[verifier::loop_isolation(false)]
    pub fn copy_value(&self) -> (r: JsonValue)
        ensures
            r@ == self@,
        decreases self,
    {
        match self {
            JsonValue::Null => JsonValue::Null,
            JsonValue::Bool(b) => JsonValue::Bool(*b),
            JsonValue::Number(n) => JsonValue::Number(n.clone()),
            JsonValue::Str(s) => JsonValue::Str(s.clone()),
            JsonValue::Array(items) => {
                let mut out: Vec<JsonValue> = Vec::new();
                let n = items.len();
                let mut i: usize = 0;
                while i < n
                    invariant
                        0 <= i <= n,
                        n == items@.len(),
                        out@.len() == i,
                        forall|j: int| 0 <= j < i ==> json_view(#[trigger] out@[j]) == json_view(items@[j]),
                    decreases n - i,
                {
                    proof {
                        let ghost sv = *self;
                        assert(decreases_to!(sv => sv->Array_0@[i as int]));
                    }
                    out.push(items[i].copy_value());
                    i = i + 1;
                }
                let ghost so = Seq::new(out@.len(), |i: int| if 0 <= i < out@.len() { json_view(out@[i]) } else { JsonSpec::Null });
                let ghost si = Seq::new(items@.len(), |i: int| if 0 <= i < items@.len() { json_view(items@[i]) } else { JsonSpec::Null });
                assert(so =~= si);
                let r = JsonValue::Array(out);
                assert(json_view(r)->Array_0 =~= so);
                assert(json_view(*self)->Array_0 =~= si);
                r
            },
            JsonValue::Object(m) => {
                let mut out: Vec<(String, JsonValue)> = Vec::new();
                let n = m.entries.len();
                let mut i: usize = 0;
                while i < n
                    invariant
                        0 <= i <= n,
                        n == m.entries@.len(),
                        out@.len() == i,
                        forall|j: int| 0 <= j < i ==> (#[trigger] out@[j]).0@ == m.entries@[j].0@ && json_view(out@[j].1) == json_view(m.entries@[j].1),
                    decreases n - i,
                {
                    proof {
                        let ghost sv = *self;
                        assert(decreases_to!(sv => sv->Object_0.entries@[i as int].1));
                    }
                    let k = m.entries[i].0.clone();
                    let v = m.entries[i].1.copy_value();
                    out.push((k, v));
                    i = i + 1;
                }
                let ghost so = Seq::new(out@.len(), |i: int| if 0 <= i < out@.len() { (out@[i].0@, json_view(out@[i].1)) } else { (Seq::<char>::empty(), JsonSpec::Null) });
                let ghost si = Seq::new(m.entries@.len(), |i: int| if 0 <= i < m.entries@.len() { (m.entries@[i].0@, json_view(m.entries@[i].1)) } else { (Seq::<char>::empty(), JsonSpec::Null) });
                assert(so =~= si);
                let r = JsonValue::Object(JsonMap { entries: out });
                assert(json_view(r)->Object_0 =~= so);
                assert(json_view(*self)->Object_0 =~= si);
                r
            },
        }
    }
}

impl JsonMap {
    /// A copy of this object.
    pub fn copy_map(&self) -> (r: JsonMap)
        ensures
            r@ == self@,
    {
        let mut out: Vec<(String, JsonValue)> = Vec::new();
        let n = self.entries.len();
        let mut i: usize = 0;
        while i < n
            invariant
                0 <= i <= n,
                n == self.entries@.len(),
                out@.len() == i,
                forall|j: int| 0 <= j < i ==> (#[trigger] out@[j]).0@ == self.entries@[j].0@ && json_view(out@[j].1) == json_view(self.entries@[j].1),
            decreases n - i,
        {
            let k = self.entries[i].0.clone();
            let v = self.entries[i].1.copy_value();
            out.push((k, v));
            i = i + 1;
        }
        let r = JsonMap { entries: out };
        assert(r@ =~= self@);
        r
    }

    /// An empty object.
    pub fn new() -> (m: JsonMap)
        ensures
            m.entries@ == Seq::<(String, JsonValue)>::empty(),
    {
        JsonMap { entries: Vec::new() }
    }

    /// Number of entries.
    pub fn len(&self) -> (n: usize)
        ensures
            n == self.entries@.len(),
    {
        self.entries.len()
    }

    /// Position of the entry with key `key`, if any.
    pub fn position(&self, key: &str) -> (r: Option<usize>)
        ensures
            r is Some <==> find_key(self.entries@, key@) >= 0,
            r matches Some(i) ==> i == find_key(self.entries@, key@),
    {
        position_of(&self.entries, key)
    }

    /// The value stored under `key`, if any.
    pub fn get(&self, key: &str) -> (r: Option<&JsonValue>)
        ensures
            r matches Some(v) ==> lookup(self.entries@, key@) == Some(*v),
            r is None ==> lookup(self.entries@, key@) is None,
    {
        proof {
            lemma_find_key_bounds(self.entries@, key@);
        }
        match self.position(key) {
            Some(i) => Some(&self.entries[i].1),
            None => None,
        }
    }

    /// Whether an entry with key `key` exists.
    pub fn contains_key(&self, key: &str) -> (b: bool)
        ensures
            b == (find_key(self.entries@, key@) >= 0),
    {
        self.position(key).is_some()
    }

    /// Stores `value` under `key`, replacing an existing value.
    pub fn insert(&mut self, key: String, value: JsonValue)
        ensures
            final(self).entries@ == insert_spec(old(self).entries@, key, value),
    {
        proof {
            lemma_find_key_bounds(self.entries@, key@);
        }
        match self.position(key.as_str()) {
            Some(i) => {
                self.entries.set(i, (key, value));
            },
            None => {
                self.entries.push((key, value));
            },
        }
    }
}

} // verus!
