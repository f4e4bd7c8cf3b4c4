//! Shared helpers of chat, ask and apply: model output clean-up, plan file names,
//! loopback checks and the paths the agent works with.

use vstd::prelude::*;
use crate::text::{
    chars_of, concat, find_spec, find_str, is_whitespace, is_ws, owned, path_join, path_join_spec, push_char, starts_with,
    starts_with_spec, string_of, string_of_range, str_eq, to_lowercase, trim, trim_end, trim_end_spec, trim_spec,
    trim_start_all, trim_start_matches, unicode_lowercase,
};

verus! {

/// Model output with surrounding white space removed and, when it is fenced as a
/// markdown code block, the fence removed: the opening "```yaml" or "```" markers and
/// leading newlines are dropped, and the text ends before the closing fence.
pub open spec fn sanitize_yaml_spec(content: Seq<char>) -> Seq<char> {
    let t = trim_spec(content);
    if starts_with_spec(t, "```yaml"@) || starts_with_spec(t, "```"@) {
        let w = trim_start_all(trim_start_all(trim_start_all(t, "```yaml"@), "```"@), "\n"@);
        match find_spec(w, "```"@) {
            Some(e) => trim_end_spec(w.subrange(0, e)),
            None => w,
        }
    } else {
        t
    }
}

/// Strips markdown fences from a model's YAML answer.
pub fn sanitize_yaml_response(content: &str) -> (r: String)
    ensures
        r@ == sanitize_yaml_spec(content@),
{
    let trimmed = trim(content);
    if starts_with(trimmed.as_str(), "```yaml") || starts_with(trimmed.as_str(), "```") {
        let a = trim_start_matches(trimmed.as_str(), "```yaml");
        let b = trim_start_matches(a.as_str(), "```");
        let without_fence = trim_start_matches(b.as_str(), "\n");
        match find_str(without_fence.as_str(), "```") {
            Some(end) => {
                let cs = chars_of(without_fence.as_str());
                let head = string_of_range(&cs, 0, end);
                return trim_end(head.as_str());
            },
            None => {
                return without_fence;
            },
        }
    }
    trimmed
}

/// The state of splitting `s` at white space: the words completed so far and the
/// word being read.
pub open spec fn ws_split_state(s: Seq<char>) -> (Seq<Seq<char>>, Seq<char>)
    decreases s.len(),
{
    if s.len() == 0 {
        (seq![], seq![])
    } else {
        let (ws, cur) = ws_split_state(s.drop_last());
        let c = s.last();
        if is_ws(c) {
            if cur.len() > 0 {
                (ws.push(cur), seq![])
            } else {
                (ws, cur)
            }
        } else {
            (ws, cur.push(c))
        }
    }
}

/// The words of `s`: its maximal runs of non-white-space characters (`str::split_whitespace`).
pub open spec fn split_ws(s: Seq<char>) -> Seq<Seq<char>> {
    let (ws, cur) = ws_split_state(s);
    if cur.len() > 0 {
        ws.push(cur)
    } else {
        ws
    }
}

/// The words joined with `sep` between each two.
pub open spec fn join_spec(ws: Seq<Seq<char>>, sep: Seq<char>) -> Seq<char>
    decreases ws.len(),
{
    if ws.len() == 0 {
        seq![]
    } else if ws.len() == 1 {
        ws[0]
    } else {
        join_spec(ws.drop_last(), sep) + sep + ws.last()
    }
}

/// At most the first `n` items.
pub open spec fn take_at_most<A>(s: Seq<A>, n: int) -> Seq<A> {
    if s.len() > n {
        s.take(n)
    } else {
        s
    }
}

/// Whether a character is alphabetic or numeric by Unicode's rules (`char::is_alphanumeric`).
pub uninterp spec fn unicode_alphanumeric(c: char) -> bool;

/// `char::is_alphanumeric`: Unicode's Alphabetic or Numeric property, named, not stated.
#[verifier::external_body]
pub(crate) fn is_alphanumeric(c: char) -> (b: bool)
    ensures
        b == unicode_alphanumeric(c),
{
    c.is_alphanumeric()
}

/// A character kept in a slug: alphanumerics and dashes stay, all else becomes a dash.
pub open spec fn slug_char(c: char) -> char {
    if unicode_alphanumeric(c) || c == '-' {
        c
    } else {
        '-'
    }
}

/// Number of leading `ch` characters.
pub open spec fn leading_count(s: Seq<char>, ch: char) -> int
    decreases s.len(),
{
    if s.len() > 0 && s[0] == ch {
        1 + leading_count(s.subrange(1, s.len() as int), ch)
    } else {
        0
    }
}

/// Number of trailing `ch` characters.
pub open spec fn trailing_count(s: Seq<char>, ch: char) -> int
    decreases s.len(),
{
    if s.len() > 0 && s.last() == ch {
        1 + trailing_count(s.drop_last(), ch)
    } else {
        0
    }
}

/// `s` without leading and trailing `ch` characters (`str::trim_matches` with a char).
pub open spec fn trim_char_spec(s: Seq<char>, ch: char) -> Seq<char> {
    let t = s.subrange(leading_count(s, ch), s.len() as int);
    t.subrange(0, t.len() - trailing_count(t, ch))
}

/// The slug of a request: its first three words joined by dashes, every character
/// that is neither alphanumeric nor a dash turned into a dash, dashes trimmed from
/// both ends, and the result lowercased.
pub open spec fn slug_spec(request: Seq<char>) -> Seq<char> {
    let joined = join_spec(take_at_most(split_ws(request), 3), "-"@);
    let mapped = Seq::new(joined.len(), |i: int| slug_char(joined[i]));
    unicode_lowercase(trim_char_spec(mapped, '-'))
}

proof fn lemma_leading_count_is(s: Seq<char>, ch: char, k: int)
    requires
        0 <= k <= s.len(),
        forall|i: int| 0 <= i < k ==> #[trigger] s[i] == ch,
        k < s.len() ==> s[k] != ch,
    ensures
        leading_count(s, ch) == k,
    decreases s.len(),
{
    if k > 0 {
        let t = s.subrange(1, s.len() as int);
        assert forall|i: int| 0 <= i < k - 1 implies #[trigger] t[i] == ch by {
            assert(t[i] == s[i + 1]);
        }
        if k - 1 < t.len() {
            assert(t[k - 1] == s[k]);
        }
        lemma_leading_count_is(t, ch, k - 1);
    }
}

proof fn lemma_trailing_count_is(s: Seq<char>, ch: char, k: int)
    requires
        0 <= k <= s.len(),
        forall|i: int| s.len() - k <= i < s.len() ==> #[trigger] s[i] == ch,
        k < s.len() ==> s[s.len() - k - 1] != ch,
    ensures
        trailing_count(s, ch) == k,
    decreases s.len(),
{
    if k > 0 {
        let t = s.drop_last();
        assert forall|i: int| t.len() - (k - 1) <= i < t.len() implies #[trigger] t[i] == ch by {
            assert(t[i] == s[i]);
        }
        if k - 1 < t.len() {
            assert(t[t.len() - (k - 1) - 1] == s[s.len() - k - 1]);
        }
        lemma_trailing_count_is(t, ch, k - 1);
    }
}

/// The texts of a list of character lists.
pub open spec fn words_view(v: Seq<Vec<char>>) -> Seq<Seq<char>> {
    Seq::new(v.len(), |i: int| v[i]@)
}

/// Splits `s` into its words.
pub fn split_whitespace(s: &str) -> (r: Vec<Vec<char>>)
    ensures
        words_view(r@) == split_ws(s@),
{
    let cs = chars_of(s);
    let n = cs.len();
    let mut words: Vec<Vec<char>> = Vec::new();
    let mut cur: Vec<char> = Vec::new();
    let mut i: usize = 0;
    assert(cs@.take(0) =~= Seq::<char>::empty());
    assert(words_view(words@) =~= Seq::<Seq<char>>::empty());
    while i < n
        invariant
            0 <= i <= n,
            n == cs@.len(),
            cs@ == s@,
            (words_view(words@), cur@) == ws_split_state(cs@.take(i as int)),
        decreases n - i,
    {
        let c = cs[i];
        proof {
            assert(cs@.take(i + 1).drop_last() =~= cs@.take(i as int));
            assert(cs@.take(i + 1).last() == c);
        }
        if is_whitespace(c) {
            if cur.len() > 0 {
                let ghost wv = words_view(words@);
                let ghost cv = cur@;
                let done = cur;
                words.push(done);
                cur = Vec::new();
                assert(words_view(words@) =~= wv.push(cv));
                assert(cur@ =~= Seq::<char>::empty());
            }
        } else {
            cur.push(c);
        }
        i = i + 1;
    }
    assert(cs@.take(n as int) =~= cs@);
    if cur.len() > 0 {
        let ghost wv = words_view(words@);
        let ghost cv = cur@;
        words.push(cur);
        assert(words_view(words@) =~= wv.push(cv));
    }
    words
}

/// Creates a slug from a request, for plan file names.
pub fn slug_from_request(request: &str) -> (r: String)
    ensures
        r@ == slug_spec(request@),
{
    let words = split_whitespace(request);
    let ghost ws = words_view(words@);
    let count: usize = if words.len() > 3 { 3 } else { words.len() };
    let ghost taken = take_at_most(ws, 3);
    assert(taken.len() == count);
    // Join the first words with dashes.
    let mut joined: Vec<char> = Vec::new();
    let mut w: usize = 0;
    while w < count
        invariant
            0 <= w <= count,
            count <= words@.len(),
            ws == words_view(words@),
            taken == take_at_most(ws, 3),
            taken.len() == count,
            forall|k: int| 0 <= k < count ==> #[trigger] taken[k] == ws[k],
            joined@ == join_spec(taken.take(w as int), "-"@),
        decreases count - w,
    {
        proof {
            reveal_strlit("-");
            assert(taken.take(w + 1).drop_last() =~= taken.take(w as int));
            assert(taken.take(w + 1).last() == words@[w as int]@);
        }
        let ghost before = joined@;
        if w > 0 {
            joined.push('-');
        }
        let word = &words[w];
        let m = word.len();
        let mut k: usize = 0;
        let ghost start = joined@;
        while k < m
            invariant
                0 <= k <= m,
                m == word@.len(),
                joined@ == start + word@.subrange(0, k as int),
            decreases m - k,
        {
            joined.push(word[k]);
            k = k + 1;
            assert(joined@ =~= start + word@.subrange(0, k as int));
        }
        assert(word@.subrange(0, m as int) =~= word@);
        w = w + 1;
        proof {
            if w == 1 {
                assert(taken.take(1) =~= seq![taken[0]]);
                assert(joined@ =~= join_spec(taken.take(w as int), "-"@));
            } else {
                assert(joined@ =~= join_spec(taken.take(w as int), "-"@));
            }
        }
    }
    assert(taken.take(count as int) =~= taken);
    // Replace characters that are neither alphanumeric nor dashes.
    let jn = joined.len();
    let mut mapped: Vec<char> = Vec::new();
    let mut i: usize = 0;
    while i < jn
        invariant
            0 <= i <= jn,
            jn == joined@.len(),
            mapped@.len() == i,
            forall|k: int| 0 <= k < i ==> #[trigger] mapped@[k] == slug_char(joined@[k]),
        decreases jn - i,
    {
        let c = joined[i];
        let d = if is_alphanumeric(c) || c == '-' { c } else { '-' };
        mapped.push(d);
        i = i + 1;
    }
    let ghost mv = Seq::new(joined@.len(), |k: int| slug_char(joined@[k]));
    assert(mapped@ =~= mv);
    // Trim dashes at both ends.
    let mut b: usize = 0;
    while b < jn && mapped[b] == '-'
        invariant
            0 <= b <= jn,
            jn == mapped@.len(),
            forall|k: int| 0 <= k < b ==> #[trigger] mapped@[k] == '-',
        decreases jn - b,
    {
        b = b + 1;
    }
    proof {
        lemma_leading_count_is(mapped@, '-', b as int);
    }
    let mut e: usize = jn;
    while e > b && mapped[e - 1] == '-'
        invariant
            b <= e <= jn,
            jn == mapped@.len(),
            forall|k: int| e <= k < jn ==> #[trigger] mapped@[k] == '-',
        decreases e,
    {
        e = e - 1;
    }
    proof {
        let t = mapped@.subrange(b as int, jn as int);
        assert forall|k: int| t.len() - (jn - e) <= k < t.len() implies #[trigger] t[k] == '-' by {
            assert(t[k] == mapped@[b + k]);
        }
        if jn - e < t.len() {
            assert(t[t.len() - (jn - e) - 1] == mapped@[e - 1]);
        }
        lemma_trailing_count_is(t, '-', jn - e);
        assert(t.subrange(0, t.len() - (jn - e)) =~= mapped@.subrange(b as int, e as int));
    }
    let trimmed = string_of_range(&mapped, b, e);
    to_lowercase(trimmed.as_str())
}

/// The scheme and host a URL parses to, by the WHATWG URL rules, or `None` when it
/// does not parse.
pub uninterp spec fn url_scheme_host(url: Seq<char>) -> Option<(Seq<char>, Option<Seq<char>>)>;

/// `url::Url::parse`, read back as `scheme()` and `host_str()`; the parse is named,
/// not stated.
#[verifier::external_body]
pub(crate) fn parse_scheme_host(url: &str) -> (r: Option<(String, Option<String>)>)
    ensures
        match url_scheme_host(url@) {
            Some((s, h)) => r matches Some(x) && x.0@ == s && match h {
                Some(hh) => x.1 matches Some(y) && y@ == hh,
                None => x.1 is None,
            },
            None => r is None,
        },
{
    match url::Url::parse(url) {
        Ok(u) => {
            let host = match u.host_str() {
                Some(h) => Some(h.to_string()),
                None => None,
            };
            Some((u.scheme().to_string(), host))
        },
        Err(_) => None,
    }
}

/// A URL is loopback-only when it parses with scheme `http` and host `localhost` or
/// `127.0.0.1`.
pub open spec fn is_loopback_spec(url: Seq<char>) -> bool {
    match url_scheme_host(url) {
        Some((scheme, host)) => scheme == "http"@ && (host == Some("localhost"@) || host == Some(
            "127.0.0.1"@,
        )),
        None => false,
    }
}

/// Validates that a URL is loopback-only.
pub fn is_loopback_url(url: &str) -> (b: bool)
    ensures
        b == is_loopback_spec(url@),
{
    match parse_scheme_host(url) {
        Some((scheme, host)) => {
            if !str_eq(scheme.as_str(), "http") {
                return false;
            }
            match host {
                Some(h) => str_eq(h.as_str(), "localhost") || str_eq(h.as_str(), "127.0.0.1"),
                None => false,
            }
        },
        None => false,
    }
}

/// A path is absolute when it begins at the root.
pub open spec fn is_absolute_spec(p: Seq<char>) -> bool {
    p.len() > 0 && p[0] == '/'
}

/// Whether `p` is an absolute path.
pub fn is_absolute(p: &str) -> (b: bool)
    ensures
        b == is_absolute_spec(p@),
{
    p.unicode_len() > 0 && p.get_char(0) == '/'
}

/// The default policy file under a workspace root.
pub open spec fn default_policy_spec(root: Seq<char>) -> Seq<char> {
    path_join_spec(path_join_spec(path_join_spec(root, "examples"@), "policies"@), "default-secure.yml"@)
}

/// The default policy file (`examples/policies/default-secure.yml`) under the workspace root.
pub fn default_policy_path(workspace_root: &str) -> (p: String)
    ensures
        p@ == default_policy_spec(workspace_root@),
{
    let a = path_join(workspace_root, "examples");
    let b = path_join(a.as_str(), "policies");
    path_join(b.as_str(), "default-secure.yml")
}

/// Resolves a policy path: an absolute path is used as given, a relative one is taken
/// from the workspace root, and none means the default policy.
pub fn resolve_policy_path(policy_path: Option<&str>, workspace_root: &str) -> (p: String)
    ensures
        p@ == match policy_path {
            Some(q) => if is_absolute_spec(q@) {
                q@
            } else {
                path_join_spec(workspace_root@, q@)
            },
            None => default_policy_spec(workspace_root@),
        },
{
    match policy_path {
        Some(q) => {
            if is_absolute(q) {
                owned(q)
            } else {
                path_join(workspace_root, q)
            }
        },
        None => default_policy_path(workspace_root),
    }
}

/// The agent's data directory: the platform's local data directory, or the current
/// directory when there is none, followed by `osai`.
pub open spec fn osai_data_spec(data_local_dir: Option<Seq<char>>) -> Seq<char> {
    path_join_spec(
        match data_local_dir {
            Some(d) => d,
            None => "."@,
        },
        "osai"@,
    )
}

fn osai_data_dir(data_local_dir: Option<&str>) -> (p: String)
    ensures
        p@ == osai_data_spec(match data_local_dir {
            Some(d) => Some(d@),
            None => None,
        }),
{
    match data_local_dir {
        Some(d) => path_join(d, "osai"),
        None => path_join(".", "osai"),
    }
}

/// The receipts directory of one kind of operation (`chat`, `ask`, `apply`, ...).
pub fn receipts_dir_for(data_local_dir: Option<&str>, kind: &str) -> (p: String)
    ensures
        p@ == path_join_spec(
            path_join_spec(osai_data_spec(match data_local_dir {
                Some(d) => Some(d@),
                None => None,
            }), "receipts"@),
            kind@,
        ),
{
    let base = osai_data_dir(data_local_dir);
    let r = path_join(base.as_str(), "receipts");
    path_join(r.as_str(), kind)
}

/// The directory generated plans are kept in.
pub fn plans_dir_for(data_local_dir: Option<&str>) -> (p: String)
    ensures
        p@ == path_join_spec(osai_data_spec(match data_local_dir {
            Some(d) => Some(d@),
            None => None,
        }), "plans"@),
{
    let base = osai_data_dir(data_local_dir);
    path_join(base.as_str(), "plans")
}


/// The texts of a list of strings.
pub open spec fn texts_of(v: Seq<String>) -> Seq<Seq<char>> {
    Seq::new(v.len(), |i: int| v[i]@)
}

/// The strings joined with `sep` between each two (`[String]::join`).
pub fn join_strings(v: &Vec<String>, sep: &str) -> (r: String)
    ensures
        r@ == join_spec(texts_of(v@), sep@),
{
    let ghost t = texts_of(v@);
    let mut out = String::new();
    let mut i: usize = 0;
    proof {
        assert(t.take(0) =~= Seq::<Seq<char>>::empty());
    }
    while i < v.len()
        invariant
            0 <= i <= v@.len(),
            t == texts_of(v@),
            out@ == join_spec(t.take(i as int), sep@),
        decreases v@.len() - i,
    {
        proof {
            assert(t.take(i + 1).drop_last() =~= t.take(i as int));
            assert(t.take(i + 1).last() == v@[i as int]@);
        }
        if i == 0 {
            out = v[i].clone();
            proof {
                assert(t.take(1) =~= seq![t[0]]);
            }
        } else {
            let a = concat(out.as_str(), sep);
            out = concat(a.as_str(), v[i].as_str());
        }
        i = i + 1;
    }
    proof {
        assert(t.take(v@.len() as int) =~= t);
    }
    out
}

} // verus!
