//! Listing saved plans and receipts: their summaries, newest first, and the
//! redaction of secrets from receipts that are read back.

use vstd::prelude::*;
use vstd::seq_lib::to_multiset_insert;
use crate::broker::{risk_name, risk_name_spec};
use crate::json::{JsonMap, JsonSpec, JsonValue, entries_view, json_view, lemma_array_view, lemma_object_view, lookup};
use crate::plan::{ApprovalMode, OsaiPlan};
use crate::shared::{osai_data_spec, take_at_most};
use crate::text::{
    chars_of, concat, eq_ignore_ascii_case, eq_ignore_ascii_case_spec, owned, path_join, path_join_spec, replace_all,
    replace_spec, str_eq, string_of_range, to_lowercase, unicode_lowercase,
};

verus! {

/// Something with a modification time, in whole seconds since the Unix epoch.
pub trait Stamped {
    /// The modification time.
    spec fn stamp_spec(&self) -> u64;

    /// The modification time.
    fn stamp(&self) -> (r: u64)
        ensures
            r == self.stamp_spec(),
    ;
}

/// The number of leading items of `s` that are strictly newer than `x`.
pub open spec fn newer_prefix<T: Stamped>(x: T, s: Seq<T>) -> int
    decreases s.len(),
{
    if s.len() > 0 && s[0].stamp_spec() > x.stamp_spec() {
        1 + newer_prefix(x, s.drop_first())
    } else {
        0
    }
}

/// `s` with `x` placed after every item newer than it and before the rest.
pub open spec fn insert_newest<T: Stamped>(x: T, s: Seq<T>) -> Seq<T> {
    s.insert(newer_prefix(x, s), x)
}

/// `s` sorted newest first; items of the same time keep their order.
pub open spec fn newest_first_spec<T: Stamped>(s: Seq<T>) -> Seq<T>
    decreases s.len(),
{
    if s.len() == 0 {
        s
    } else {
        insert_newest(s[0], newest_first_spec(s.drop_first()))
    }
}

/// No item of `s` is newer than one before it.
pub open spec fn is_newest_first<T: Stamped>(s: Seq<T>) -> bool {
    forall|i: int, j: int| 0 <= i < j < s.len() ==> s[i].stamp_spec() >= s[j].stamp_spec()
}

/// The newer prefix is a prefix of newer items, followed by one no newer.
pub proof fn lemma_newer_prefix<T: Stamped>(x: T, s: Seq<T>)
    ensures
        0 <= newer_prefix(x, s) <= s.len(),
        forall|k: int| 0 <= k < newer_prefix(x, s) ==> s[k].stamp_spec() > x.stamp_spec(),
        newer_prefix(x, s) < s.len() ==> s[newer_prefix(x, s)].stamp_spec() <= x.stamp_spec(),
    decreases s.len(),
{
    if s.len() > 0 && s[0].stamp_spec() > x.stamp_spec() {
        lemma_newer_prefix(x, s.drop_first());
        assert forall|k: int| 0 <= k < newer_prefix(x, s) implies s[k].stamp_spec() > x.stamp_spec() by {
            if k > 0 {
                assert(s[k] == s.drop_first()[k - 1]);
            }
        }
    }
}

/// A position `p` with only newer items before it and no newer item at it is the
/// newer prefix.
pub proof fn lemma_newer_prefix_is<T: Stamped>(x: T, s: Seq<T>, p: int)
    requires
        0 <= p <= s.len(),
        forall|k: int| 0 <= k < p ==> s[k].stamp_spec() > x.stamp_spec(),
        p < s.len() ==> s[p].stamp_spec() <= x.stamp_spec(),
    ensures
        newer_prefix(x, s) == p,
    decreases s.len(),
{
    if p > 0 {
        assert forall|k: int| 0 <= k < p - 1 implies s.drop_first()[k].stamp_spec() > x.stamp_spec() by {
            assert(s.drop_first()[k] == s[k + 1]);
        }
        if p - 1 < s.drop_first().len() {
            assert(s.drop_first()[p - 1] == s[p]);
        }
        lemma_newer_prefix_is(x, s.drop_first(), p - 1);
    }
}

/// Inserting into a sequence sorted newest first keeps it sorted, and adds just the
/// one item.
pub proof fn lemma_insert_newest<T: Stamped>(x: T, s: Seq<T>)
    requires
        is_newest_first(s),
    ensures
        is_newest_first(insert_newest(x, s)),
        insert_newest(x, s).to_multiset() == s.to_multiset().insert(x),
        insert_newest(x, s).len() == s.len() + 1,
{
    lemma_newer_prefix(x, s);
    let p = newer_prefix(x, s);
    let r = insert_newest(x, s);
    to_multiset_insert(s, p, x);
    assert forall|i: int, j: int| 0 <= i < j < r.len() implies r[i].stamp_spec() >= r[j].stamp_spec() by {
        if j < p {
        } else if j == p {
            assert(r[i] == s[i]);
        } else if i < p {
            assert(r[j] == s[j - 1]);
            assert(s[i].stamp_spec() >= s[j - 1].stamp_spec());
        } else if i == p {
            assert(r[j] == s[j - 1]);
            assert(s[p].stamp_spec() >= s[j - 1].stamp_spec());
        } else {
            assert(r[i] == s[i - 1]);
            assert(r[j] == s[j - 1]);
        }
    }
}

/// Sorting newest first yields a sequence sorted newest first, holding exactly the
/// items it was given.
pub proof fn lemma_newest_first_sorts<T: Stamped>(s: Seq<T>)
    ensures
        is_newest_first(newest_first_spec(s)),
        newest_first_spec(s).to_multiset() == s.to_multiset(),
        newest_first_spec(s).len() == s.len(),
    decreases s.len(),
{
    broadcast use vstd::seq_lib::group_to_multiset_ensures;

    if s.len() == 0 {
    } else {
        lemma_newest_first_sorts(s.drop_first());
        lemma_insert_newest(s[0], newest_first_spec(s.drop_first()));
        assert(s =~= seq![s[0]] + s.drop_first());
        vstd::seq_lib::lemma_seq_union_to_multiset_commutative(seq![s[0]], s.drop_first());
        assert(s.drop_first().push(s[0]).to_multiset() == s.drop_first().to_multiset().insert(s[0]));
        assert(s.drop_first() + seq![s[0]] =~= s.drop_first().push(s[0]));
    }
}

/// A sequence already sorted newest first is left as it is: the sort is stable.
pub proof fn lemma_newest_first_keeps_sorted<T: Stamped>(s: Seq<T>)
    requires
        is_newest_first(s),
    ensures
        newest_first_spec(s) == s,
    decreases s.len(),
{
    if s.len() > 0 {
        let rest = s.drop_first();
        assert(is_newest_first(rest)) by {
            assert forall|i: int, j: int| 0 <= i < j < rest.len() implies rest[i].stamp_spec() >= rest[j].stamp_spec() by {
                assert(rest[i] == s[i + 1] && rest[j] == s[j + 1]);
            }
        }
        lemma_newest_first_keeps_sorted(rest);
        if rest.len() > 0 {
            assert(rest[0] == s[1]);
        }
        lemma_newer_prefix_is(s[0], rest, 0);
        assert(rest.insert(0, s[0]) =~= s);
    }
}

/// The items sorted newest first (items of the same time keep their order), at most
/// `limit` of them.
pub fn newest_first<T: Stamped>(items: Vec<T>, limit: usize) -> (r: Vec<T>)
    ensures
        r@ == take_at_most(newest_first_spec(items@), limit as int),
{
    let ghost orig = items@;
    let mut rest = items;
    let mut out: Vec<T> = Vec::new();
    proof {
        assert(orig.skip(orig.len() as int) =~= Seq::<T>::empty());
        assert(orig.take(orig.len() as int) =~= orig);
    }
    while rest.len() > 0
        invariant
            rest@.len() <= orig.len(),
            rest@ == orig.take(rest@.len() as int),
            out@ == newest_first_spec(orig.skip(rest@.len() as int)),
            is_newest_first(out@),
        decreases rest@.len(),
    {
        let ghost k = rest@.len() as int;
        let x = rest.pop().unwrap();
        proof {
            assert(x == orig[k - 1]);
            assert(rest@ =~= orig.take(k - 1));
            assert(orig.skip(k - 1).drop_first() =~= orig.skip(k));
            assert(orig.skip(k - 1)[0] == x);
        }
        let s = x.stamp();
        let mut p: usize = 0;
        while p < out.len() && out[p].stamp() > s
            invariant
                0 <= p <= out@.len(),
                s == x.stamp_spec(),
                forall|j: int| 0 <= j < p ==> out@[j].stamp_spec() > s,
            decreases out@.len() - p,
        {
            p = p + 1;
        }
        proof {
            lemma_newer_prefix_is(x, out@, p as int);
            lemma_insert_newest(x, out@);
        }
        out.insert(p, x);
    }
    proof {
        assert(orig.skip(0) =~= orig);
    }
    out.truncate(limit);
    out
}


/// The keys whose values are withheld from receipts that are read back: those equal,
/// ignoring ASCII case, to `api_key`, `token`, `password`, `secret`, `credential` or
/// `authorization`.
pub open spec fn is_redact_key(k: Seq<char>) -> bool {
    ||| eq_ignore_ascii_case_spec(k, "api_key"@)
    ||| eq_ignore_ascii_case_spec(k, "token"@)
    ||| eq_ignore_ascii_case_spec(k, "password"@)
    ||| eq_ignore_ascii_case_spec(k, "secret"@)
    ||| eq_ignore_ascii_case_spec(k, "credential"@)
    ||| eq_ignore_ascii_case_spec(k, "authorization"@)
}

/// `v` with the value of every secret key, at any depth, replaced by `[REDACTED]`.
pub open spec fn redact_json(v: JsonSpec) -> JsonSpec
    decreases v,
{
    match v {
        JsonSpec::Object(es) => JsonSpec::Object(
            Seq::new(
                es.len(),
                |i: int|
                    if 0 <= i < es.len() {
                        if is_redact_key(es[i].0) {
                            (es[i].0, JsonSpec::Str("[REDACTED]"@))
                        } else {
                            (es[i].0, redact_json(es[i].1))
                        }
                    } else {
                        (Seq::empty(), JsonSpec::Null)
                    },
            ),
        ),
        JsonSpec::Array(xs) => JsonSpec::Array(
            Seq::new(
                xs.len(),
                |i: int|
                    if 0 <= i < xs.len() {
                        redact_json(xs[i])
                    } else {
                        JsonSpec::Null
                    },
            ),
        ),
        _ => v,
    }
}

/// Whether `k` is a secret key.
pub fn is_redact_key_exec(k: &str) -> (b: bool)
    ensures
        b == is_redact_key(k@),
{
    eq_ignore_ascii_case(k, "api_key") || eq_ignore_ascii_case(k, "token") || eq_ignore_ascii_case(k, "password")
        || eq_ignore_ascii_case(k, "secret") || eq_ignore_ascii_case(k, "credential") || eq_ignore_ascii_case(
        k,
        "authorization",
    )
}

/// Withholds the value of every secret key in `value`, at any depth.
#[verifier::loop_isolation(false)]
pub fn redact_secrets(value: &JsonValue) -> (r: JsonValue)
    ensures
        r@ == redact_json(value@),
    decreases value,
{
    match value {
        JsonValue::Object(m) => {
            let mut out: Vec<(String, JsonValue)> = Vec::new();
            let n = m.entries.len();
            let mut i: usize = 0;
            while i < n
                invariant
                    0 <= i <= n,
                    n == m.entries@.len(),
                    out@.len() == i,
                    forall|j: int|
                        0 <= j < i ==> (#[trigger] out@[j]).0@ == m.entries@[j].0@ && json_view(out@[j].1) == (
                        if is_redact_key(m.entries@[j].0@) {
                            JsonSpec::Str("[REDACTED]"@)
                        } else {
                            redact_json(json_view(m.entries@[j].1))
                        }),
                decreases n - i,
            {
                proof {
                    let ghost sv = *value;
                    assert(decreases_to!(sv => sv->Object_0.entries@[i as int].1));
                }
                let k = m.entries[i].0.clone();
                if is_redact_key_exec(k.as_str()) {
                    out.push((k, JsonValue::Str(owned("[REDACTED]"))));
                } else {
                    let v = redact_secrets(&m.entries[i].1);
                    out.push((k, v));
                }
                i = i + 1;
            }
            let r = JsonValue::Object(JsonMap { entries: out });
            proof {
                lemma_object_view(JsonMap { entries: out });
                lemma_object_view(*m);
                let ev = entries_view(m.entries@);
                assert(entries_view(out@) =~= redact_json(JsonSpec::Object(ev))->Object_0);
            }
            r
        },
        JsonValue::Array(items) => {
            let mut out: Vec<JsonValue> = Vec::new();
            let n = items.len();
            let mut i: usize = 0;
            while i < n
                invariant
                    0 <= i <= n,
                    n == items@.len(),
                    out@.len() == i,
                    forall|j: int| 0 <= j < i ==> json_view(#[trigger] out@[j]) == redact_json(json_view(items@[j])),
                decreases n - i,
            {
                proof {
                    let ghost sv = *value;
                    assert(decreases_to!(sv => sv->Array_0@[i as int]));
                }
                out.push(redact_secrets(&items[i]));
                i = i + 1;
            }
            proof {
                lemma_array_view(out);
                lemma_array_view(*items);
                let xs = Seq::new(items@.len(), |j: int| json_view(items@[j]));
                assert(Seq::new(out@.len(), |j: int| json_view(out@[j])) =~= redact_json(JsonSpec::Array(xs))->Array_0);
            }
            JsonValue::Array(out)
        },
        _ => value.copy_value(),
    }
}

/// Redacting twice withholds nothing more than redacting once.
pub proof fn lemma_redact_idempotent(v: JsonSpec)
    ensures
        redact_json(redact_json(v)) == redact_json(v),
    decreases v,
{
    match v {
        JsonSpec::Object(es) => {
            let r1 = redact_json(v)->Object_0;
            let r2 = redact_json(redact_json(v))->Object_0;
            assert forall|i: int| 0 <= i < es.len() implies r2[i] == r1[i] by {
                if !is_redact_key(es[i].0) {
                    assert(decreases_to!(v => es[i].1));
                    lemma_redact_idempotent(es[i].1);
                }
            }
            assert(r2 =~= r1);
        },
        JsonSpec::Array(xs) => {
            let r1 = redact_json(v)->Array_0;
            let r2 = redact_json(redact_json(v))->Array_0;
            assert forall|i: int| 0 <= i < xs.len() implies r2[i] == r1[i] by {
                assert(decreases_to!(v => xs[i]));
                lemma_redact_idempotent(xs[i]);
            }
            assert(r2 =~= r1);
        },
        _ => {},
    }
}

/// Redaction keeps an object's keys, in order, and withholds exactly the values of
/// its secret keys; every other value is redacted in turn.
pub proof fn lemma_redact_object(es: Seq<(Seq<char>, JsonSpec)>)
    ensures
        redact_json(JsonSpec::Object(es)) is Object,
        redact_json(JsonSpec::Object(es))->Object_0.len() == es.len(),
        forall|i: int| 0 <= i < es.len() ==> {
            let e = #[trigger] redact_json(JsonSpec::Object(es))->Object_0[i];
            &&& e.0 == es[i].0
            &&& is_redact_key(es[i].0) ==> e.1 == JsonSpec::Str("[REDACTED]"@)
            &&& !is_redact_key(es[i].0) ==> e.1 == redact_json(es[i].1)
        },
{
}


/// Receipt summary entry.
#[derive(Debug, Clone)]
pub struct ReceiptSummary {
    pub path: String,
    pub filename: String,
    pub modified_unix: u64,
    pub size_bytes: u64,
    pub kind: String,
    pub id: String,
    pub status: String,
    pub action: String,
    pub actor: String,
}

/// Receipt list query.
#[derive(Debug, Clone)]
pub struct ReceiptsQuery {
    pub limit: Option<usize>,
    pub dir: Option<String>,
    pub kind: Option<String>,
}

/// Receipts list response.
#[derive(Debug, Clone)]
pub struct ReceiptsListResponse {
    pub ok: bool,
    pub receipts: Vec<ReceiptSummary>,
}

/// Receipt read query.
#[derive(Debug, Clone)]
pub struct ReceiptReadQuery {
    pub path: String,
}

/// Plans list query parameters.
#[derive(Debug, Clone)]
pub struct PlansQuery {
    pub limit: Option<usize>,
    pub dir: Option<String>,
}

/// Plan summary entry.
#[derive(Debug, Clone)]
pub struct PlanSummary {
    pub path: String,
    pub filename: String,
    pub modified_unix: u64,
    pub size_bytes: u64,
    pub title: String,
    pub risk: String,
    pub approval: String,
    pub steps: usize,
    pub valid: bool,
    pub error: Option<String>,
}

/// Plans list response.
#[derive(Debug, Clone)]
pub struct PlansListResponse {
    pub ok: bool,
    pub plans_dir: String,
    pub plans: Vec<PlanSummary>,
}

/// Plan read query parameters.
#[derive(Debug, Clone)]
pub struct PlanReadQuery {
    pub path: String,
}

impl Stamped for ReceiptSummary {
    open spec fn stamp_spec(&self) -> u64 {
        self.modified_unix
    }

    fn stamp(&self) -> (r: u64) {
        self.modified_unix
    }
}

impl Stamped for PlanSummary {
    open spec fn stamp_spec(&self) -> u64 {
        self.modified_unix
    }

    fn stamp(&self) -> (r: u64) {
        self.modified_unix
    }
}

/// The index of the last `.` in `s`, if any.
pub open spec fn last_dot(s: Seq<char>) -> Option<int>
    decreases s.len(),
{
    if s.len() == 0 {
        None
    } else if s.last() == '.' {
        Some(s.len() - 1)
    } else {
        last_dot(s.drop_last())
    }
}

/// The extension of a file name (`Path::extension`): the text after its last `.`;
/// none when the name has no `.`, when its only `.` begins it, or when it is `..`.
pub open spec fn extension_spec(name: Seq<char>) -> Option<Seq<char>> {
    if name == ".."@ {
        None
    } else {
        match last_dot(name) {
            Some(i) => if i == 0 {
                None
            } else {
                Some(name.skip(i + 1))
            },
            None => None,
        }
    }
}

/// The extension of a file name.
pub fn file_extension(name: &str) -> (r: Option<String>)
    ensures
        match r {
            Some(e) => extension_spec(name@) == Some(e@),
            None => extension_spec(name@) is None,
        },
{
    if str_eq(name, "..") {
        return None;
    }
    let cs = chars_of(name);
    let n = cs.len();
    let mut k: usize = n;
    proof {
        assert(cs@.subrange(0, n as int) =~= cs@);
    }
    while k > 0
        invariant
            0 <= k <= n,
            n == cs@.len(),
            cs@ == name@,
            name@ != ".."@,
            last_dot(cs@.subrange(0, k as int)) == last_dot(cs@),
            forall|j: int| k <= j < n ==> cs@[j] != '.',
        decreases k,
    {
        if cs[k - 1] == '.' {
            proof {
                assert(cs@.subrange(0, k as int).last() == '.');
            }
            if k - 1 == 0 {
                return None;
            }
            let e = string_of_range(&cs, k, n);
            proof {
                assert(last_dot(cs@) == Some(k - 1));
                assert(e@ =~= name@.skip(k as int));
                assert(name@ != ".."@);
                assert(extension_spec(name@) == Some(e@));
            }
            return Some(e);
        }
        proof {
            assert(cs@.subrange(0, k as int).drop_last() =~= cs@.subrange(0, k - 1));
        }
        k = k - 1;
    }
    proof {
        assert(cs@.subrange(0, 0) =~= Seq::<char>::empty());
    }
    None
}

/// Whether an extension marks a plan file: `yml`, `yaml` or `json`.
pub open spec fn is_plan_extension(e: Option<Seq<char>>) -> bool {
    e == Some("yml"@) || e == Some("yaml"@) || e == Some("json"@)
}

/// `a` comes no later than `b` when text is ordered by the code points of its
/// characters, which for UTF-8 text is the order of its bytes: `a` is a prefix of
/// `b`, or at the first place they differ `a` has the smaller character.
pub open spec fn text_le(a: Seq<char>, b: Seq<char>) -> bool
    decreases a.len(),
{
    if a.len() == 0 {
        true
    } else if b.len() == 0 {
        false
    } else if a[0] != b[0] {
        a[0] < b[0]
    } else {
        text_le(a.drop_first(), b.drop_first())
    }
}

/// Of any two texts, one comes no later than the other.
pub proof fn lemma_text_le_total(a: Seq<char>, b: Seq<char>)
    ensures
        text_le(a, b) || text_le(b, a),
    decreases a.len(),
{
    if a.len() > 0 && b.len() > 0 && a[0] == b[0] {
        lemma_text_le_total(a.drop_first(), b.drop_first());
    }
}

/// The order of texts is transitive.
pub proof fn lemma_text_le_transitive(a: Seq<char>, b: Seq<char>, c: Seq<char>)
    requires
        text_le(a, b),
        text_le(b, c),
    ensures
        text_le(a, c),
    decreases a.len(),
{
    if a.len() > 0 && b.len() > 0 && c.len() > 0 && a[0] == b[0] && b[0] == c[0] {
        lemma_text_le_transitive(a.drop_first(), b.drop_first(), c.drop_first());
    }
}

/// Whether `a` comes no later than `b` in code-point order.
pub fn text_le_exec(a: &str, b: &str) -> (r: bool)
    ensures
        r == text_le(a@, b@),
{
    let ca = chars_of(a);
    let cb = chars_of(b);
    let mut i: usize = 0;
    proof {
        assert(a@.skip(0) =~= a@);
        assert(b@.skip(0) =~= b@);
    }
    while i < ca.len() && i < cb.len()
        invariant
            ca@ == a@,
            cb@ == b@,
            0 <= i <= ca@.len(),
            i <= cb@.len(),
            text_le(a@, b@) == text_le(a@.skip(i as int), b@.skip(i as int)),
        decreases ca@.len() - i,
    {
        if ca[i] != cb[i] {
            return ca[i] < cb[i];
        }
        proof {
            assert(a@.skip(i as int).drop_first() =~= a@.skip(i + 1));
            assert(b@.skip(i as int).drop_first() =~= b@.skip(i + 1));
        }
        i = i + 1;
    }
    i == ca.len()
}

/// The names, each once for each time it was given, in ascending code-point order
/// (the order of their bytes), as receipt files are listed.
pub fn sort_file_names(names: Vec<String>) -> (r: Vec<String>)
    ensures
        r@.to_multiset() == names@.to_multiset(),
        forall|i: int, j: int| 0 <= i < j < r@.len() ==> text_le(#[trigger] r@[i]@, #[trigger] r@[j]@),
{
    let ghost orig = names@;
    let mut rest = names;
    let mut out: Vec<String> = Vec::new();
    proof {
        vstd::seq_lib::to_multiset_len(out@);
        vstd::multiset::lemma_multiset_empty_len(out@.to_multiset());
        assert(out@.to_multiset().add(rest@.to_multiset()) =~= orig.to_multiset());
    }
    while rest.len() > 0
        invariant
            out@.to_multiset().add(rest@.to_multiset()) == orig.to_multiset(),
            forall|i: int, j: int| 0 <= i < j < out@.len() ==> text_le(#[trigger] out@[i]@, #[trigger] out@[j]@),
        decreases rest@.len(),
    {
        let ghost before = rest@;
        let x = rest.pop().unwrap();
        proof {
            assert(before =~= rest@.push(x));
            vstd::seq_lib::to_multiset_build(rest@, x);
        }
        let mut p: usize = 0;
        while p < out.len() && text_le_exec(out[p].as_str(), x.as_str())
            invariant
                0 <= p <= out@.len(),
                forall|k: int| 0 <= k < p ==> text_le(#[trigger] out@[k]@, x@),
            decreases out@.len() - p,
        {
            p = p + 1;
        }
        let ghost old_out = out@;
        proof {
            if p < old_out.len() {
                lemma_text_le_total(old_out[p as int]@, x@);
            }
            to_multiset_insert(old_out, p as int, x);
        }
        out.insert(p, x);
        proof {
            assert forall|i: int, j: int| 0 <= i < j < out@.len() implies text_le(
                #[trigger] out@[i]@,
                #[trigger] out@[j]@,
            ) by {
                if j < p {
                    assert(out@[i] == old_out[i] && out@[j] == old_out[j]);
                } else if j == p {
                    assert(out@[i] == old_out[i]);
                } else if i == p {
                    assert(out@[j] == old_out[j - 1]);
                    if j - 1 > p {
                        assert(text_le(old_out[p as int]@, old_out[j - 1]@));
                        lemma_text_le_transitive(x@, old_out[p as int]@, old_out[j - 1]@);
                    }
                } else if i < p {
                    assert(out@[i] == old_out[i] && out@[j] == old_out[j - 1]);
                    if i < j - 1 {
                        assert(text_le(old_out[i]@, old_out[j - 1]@));
                    }
                } else {
                    assert(out@[i] == old_out[i - 1] && out@[j] == old_out[j - 1]);
                    assert(text_le(old_out[i - 1]@, old_out[j - 1]@));
                }
            }
            assert(out@.to_multiset().add(rest@.to_multiset()) =~= orig.to_multiset());
        }
    }
    proof {
        vstd::seq_lib::to_multiset_len(rest@);
        vstd::multiset::lemma_multiset_empty_len(rest@.to_multiset());
        assert(out@.to_multiset() =~= orig.to_multiset());
    }
    out
}

/// Whether a file name names a plan file.
pub fn is_plan_file(name: &str) -> (b: bool)
    ensures
        b == is_plan_extension(extension_spec(name@)),
{
    match file_extension(name) {
        Some(e) => str_eq(e.as_str(), "yml") || str_eq(e.as_str(), "yaml") || str_eq(e.as_str(), "json"),
        None => false,
    }
}

/// Whether a file name names a receipt file: its extension is `json`.
pub fn is_receipt_file(name: &str) -> (b: bool)
    ensures
        b == (extension_spec(name@) == Some("json"@)),
{
    match file_extension(name) {
        Some(e) => str_eq(e.as_str(), "json"),
        None => false,
    }
}

/// The name of an approval mode.
pub open spec fn approval_name_spec(a: ApprovalMode) -> Seq<char> {
    match a {
        ApprovalMode::Auto => "Auto"@,
        ApprovalMode::Ask => "Ask"@,
        ApprovalMode::AlwaysDeny => "AlwaysDeny"@,
    }
}

/// The name of an approval mode.
pub fn approval_name(a: ApprovalMode) -> (s: String)
    ensures
        s@ == approval_name_spec(a),
{
    match a {
        ApprovalMode::Auto => owned("Auto"),
        ApprovalMode::Ask => owned("Ask"),
        ApprovalMode::AlwaysDeny => owned("AlwaysDeny"),
    }
}

/// What reading a plan file gave.
#[derive(Debug)]
pub enum PlanFile {
    /// The file could not be read.
    Unreadable,
    /// The file held a plan, in YAML or JSON.
    Parsed(OsaiPlan),
    /// The file held neither; the parse error's message.
    Unparsable(String),
}

/// `s` summarizes the plan file at `path`: a parsed plan by its title, risk,
/// approval and step count; an unreadable or unparsable file as invalid, with why.
pub open spec fn summarizes_plan(
    s: PlanSummary,
    path: Seq<char>,
    filename: Seq<char>,
    modified: u64,
    size: u64,
    file: PlanFile,
) -> bool {
    &&& s.path@ == path
    &&& s.filename@ == filename
    &&& s.modified_unix == modified
    &&& s.size_bytes == size
    &&& match file {
        PlanFile::Parsed(p) => {
            &&& s.title@ == p.title@
            &&& s.risk@ == risk_name_spec(p.risk)
            &&& s.approval@ == approval_name_spec(p.approval)
            &&& s.steps == p.steps@.len()
            &&& s.valid
            &&& s.error is None
        },
        PlanFile::Unreadable => {
            &&& s.title@.len() == 0 && s.risk@.len() == 0 && s.approval@.len() == 0
            &&& s.steps == 0 && !s.valid
            &&& s.error matches Some(e) && e@ == "failed to read file"@
        },
        PlanFile::Unparsable(m) => {
            &&& s.title@.len() == 0 && s.risk@.len() == 0 && s.approval@.len() == 0
            &&& s.steps == 0 && !s.valid
            &&& s.error matches Some(e) && e@ == "parse error: "@ + m@
        },
    }
}

/// The summary of the plan file at `path`.
pub fn plan_summary(path: &str, filename: &str, modified_unix: u64, size_bytes: u64, file: &PlanFile) -> (s: PlanSummary)
    ensures
        summarizes_plan(s, path@, filename@, modified_unix, size_bytes, *file),
{
    match file {
        PlanFile::Parsed(p) => PlanSummary {
            path: owned(path),
            filename: owned(filename),
            modified_unix,
            size_bytes,
            title: p.title.clone(),
            risk: risk_name(p.risk),
            approval: approval_name(p.approval),
            steps: p.steps.len(),
            valid: true,
            error: None,
        },
        PlanFile::Unreadable => PlanSummary {
            path: owned(path),
            filename: owned(filename),
            modified_unix,
            size_bytes,
            title: String::new(),
            risk: String::new(),
            approval: String::new(),
            steps: 0,
            valid: false,
            error: Some(owned("failed to read file")),
        },
        PlanFile::Unparsable(m) => PlanSummary {
            path: owned(path),
            filename: owned(filename),
            modified_unix,
            size_bytes,
            title: String::new(),
            risk: String::new(),
            approval: String::new(),
            steps: 0,
            valid: false,
            error: Some(concat("parse error: ", m.as_str())),
        },
    }
}

/// The text of field `key` of a JSON object, or `unknown` when it is not text.
pub open spec fn text_field(v: JsonValue, key: Seq<char>) -> Seq<char> {
    match v {
        JsonValue::Object(m) => match lookup(m.entries@, key) {
            Some(JsonValue::Str(t)) => t@,
            _ => "unknown"@,
        },
        _ => "unknown"@,
    }
}

/// The text of field `key` of a JSON object, or `unknown`.
fn text_field_exec(v: &JsonValue, key: &str) -> (r: String)
    ensures
        r@ == text_field(*v, key@),
{
    match v {
        JsonValue::Object(m) => match m.get(key) {
            Some(x) => match x.as_str() {
                Some(t) => owned(t),
                None => owned("unknown"),
            },
            None => owned("unknown"),
        },
        _ => owned("unknown"),
    }
}

/// `s` summarizes the receipt file at `path`: by the id, status, action and actor its
/// JSON names (`unknown` for any that is missing); a file that is not JSON by its
/// name without `.json`, everything else unknown.
pub open spec fn summarizes_receipt(
    s: ReceiptSummary,
    path: Seq<char>,
    filename: Seq<char>,
    modified: u64,
    size: u64,
    kind: Seq<char>,
    parsed: Option<JsonValue>,
) -> bool {
    &&& s.path@ == path
    &&& s.filename@ == filename
    &&& s.modified_unix == modified
    &&& s.size_bytes == size
    &&& s.kind@ == kind
    &&& match parsed {
        Some(v) => {
            &&& s.id@ == text_field(v, "id"@)
            &&& s.status@ == text_field(v, "status"@)
            &&& s.action@ == text_field(v, "action"@)
            &&& s.actor@ == text_field(v, "actor"@)
        },
        None => {
            &&& s.id@ == replace_spec(filename, ".json"@, Seq::empty())
            &&& s.status@ == "unknown"@ && s.action@ == "unknown"@ && s.actor@ == "unknown"@
        },
    }
}

/// The summary of the receipt file at `path`, given its JSON when it parsed.
pub fn receipt_summary(
    path: &str,
    filename: &str,
    modified_unix: u64,
    size_bytes: u64,
    kind: &str,
    parsed: Option<&JsonValue>,
) -> (s: ReceiptSummary)
    ensures
        summarizes_receipt(s, path@, filename@, modified_unix, size_bytes, kind@, match parsed {
            Some(v) => Some(*v),
            None => None,
        }),
{
    let (id, status, action, actor) = match parsed {
        Some(v) => (
            text_field_exec(v, "id"),
            text_field_exec(v, "status"),
            text_field_exec(v, "action"),
            text_field_exec(v, "actor"),
        ),
        None => {
            proof {
                reveal_strlit(".json");
                reveal_strlit("");
            }
            let id = replace_all(filename, ".json", "");
            assert(""@ =~= Seq::<char>::empty());
            assert(id@ == replace_spec(filename@, ".json"@, Seq::empty()));
            (id, owned("unknown"), owned("unknown"), owned("unknown"))
        },
    };
    ReceiptSummary {
        path: owned(path),
        filename: owned(filename),
        modified_unix,
        size_bytes,
        kind: owned(kind),
        id,
        status,
        action,
        actor,
    }
}

/// Whether receipts of `kind_name` are listed under the filter: with no filter or
/// `all` every kind is, else only the kind named.
pub fn kind_selected(filter: Option<&str>, kind_name: &str) -> (b: bool)
    ensures
        b == match filter {
            Some(k) => k@ == "all"@ || kind_name@ == k@,
            None => true,
        },
{
    match filter {
        Some(k) => str_eq(k, "all") || str_eq(kind_name, k),
        None => true,
    }
}

/// The kind of the receipts in a directory: its name in lower case.
pub fn receipt_kind(dir_name: &str) -> (k: String)
    ensures
        k@ == unicode_lowercase(dir_name@),
{
    to_lowercase(dir_name)
}

/// The plans listed: newest first, at most `limit` of them.
pub fn plans_list_response(plans_dir: &str, entries: Vec<PlanSummary>, limit: usize) -> (r: PlansListResponse)
    ensures
        r.ok,
        r.plans_dir@ == plans_dir@,
        r.plans@ == take_at_most(newest_first_spec(entries@), limit as int),
{
    PlansListResponse { ok: true, plans_dir: owned(plans_dir), plans: newest_first(entries, limit) }
}

/// The receipts listed: newest first, at most `limit` of them.
pub fn receipts_list_response(entries: Vec<ReceiptSummary>, limit: usize) -> (r: ReceiptsListResponse)
    ensures
        r.ok,
        r.receipts@ == take_at_most(newest_first_spec(entries@), limit as int),
{
    ReceiptsListResponse { ok: true, receipts: newest_first(entries, limit) }
}

/// The JSON of a receipt read back: its secrets withheld, and null when the file did
/// not hold JSON.
pub fn receipt_read_value(parsed: Option<&JsonValue>) -> (r: JsonValue)
    ensures
        r@ == match parsed {
            Some(v) => redact_json(v@),
            None => JsonSpec::Null,
        },
{
    match parsed {
        Some(v) => redact_secrets(v),
        None => JsonValue::Null,
    }
}

/// The root the receipts of every kind are kept under.
pub fn default_receipts_root(data_local_dir: Option<&str>) -> (p: String)
    ensures
        p@ == path_join_spec(osai_data_spec(match data_local_dir {
            Some(d) => Some(d@),
            None => None,
        }), "receipts"@),
{
    let base = match data_local_dir {
        Some(d) => path_join(d, "osai"),
        None => path_join(".", "osai"),
    };
    path_join(base.as_str(), "receipts")
}

/// The kinds of receipts the API reads: `chat`, `ask`, `apply`, `tool` and `model-router`.
pub open spec fn receipt_kinds() -> Seq<Seq<char>> {
    seq!["chat"@, "ask"@, "apply"@, "tool"@, "model-router"@]
}

/// The directory of each kind of receipt, in the order of `receipt_kinds`.
pub fn receipt_dirs(data_local_dir: Option<&str>) -> (v: Vec<String>)
    ensures
        v@.len() == 5,
        forall|i: int|
            0 <= i < 5 ==> #[trigger] v@[i]@ == path_join_spec(
                path_join_spec(osai_data_spec(match data_local_dir {
                    Some(d) => Some(d@),
                    None => None,
                }), "receipts"@),
                receipt_kinds()[i],
            ),
{
    let root = default_receipts_root(data_local_dir);
    let mut v: Vec<String> = Vec::new();
    v.push(path_join(root.as_str(), "chat"));
    v.push(path_join(root.as_str(), "ask"));
    v.push(path_join(root.as_str(), "apply"));
    v.push(path_join(root.as_str(), "tool"));
    v.push(path_join(root.as_str(), "model-router"));
    v
}

} // verus!
