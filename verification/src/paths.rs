//! Unix path components, normalization without touching the file system, and the
//! decision whether a path lies within a set of allowed roots.

use vstd::prelude::*;
use crate::api::opt_str;
use crate::executor::{expand_path, expand_path_spec};
use crate::text::{chars_of, owned, path_join, path_join_spec, push_char, replace_all, replace_spec};

verus! {

/// The state of splitting `s` at `/`: the parts completed so far and the part being read.
pub open spec fn slash_state(s: Seq<char>) -> (Seq<Seq<char>>, Seq<char>)
    decreases s.len(),
{
    if s.len() == 0 {
        (seq![], seq![])
    } else {
        let (ps, cur) = slash_state(s.drop_last());
        if s.last() == '/' {
            (ps.push(cur), seq![])
        } else {
            (ps, cur.push(s.last()))
        }
    }
}

/// The parts of `s` between `/` separators, in order, empty ones included.
pub open spec fn split_slash(s: Seq<char>) -> Seq<Seq<char>> {
    let (ps, cur) = slash_state(s);
    ps.push(cur)
}

/// Whether a path starts at the root.
pub open spec fn is_rooted(s: Seq<char>) -> bool {
    s.len() > 0 && s[0] == '/'
}

/// The names among `parts`: the parts that are neither empty nor `.`.
pub open spec fn names_of(parts: Seq<Seq<char>>) -> Seq<Seq<char>>
    decreases parts.len(),
{
    if parts.len() == 0 {
        Seq::empty()
    } else {
        let prev = names_of(parts.drop_last());
        if parts.last().len() == 0 || parts.last() == "."@ {
            prev
        } else {
            prev.push(parts.last())
        }
    }
}

/// The components of a path (`Path::components` on Unix): whether it starts at the
/// root, whether a relative path starts with `.`, and its names in order (`..`
/// included).
pub open spec fn components(s: Seq<char>) -> (bool, bool, Seq<Seq<char>>) {
    (is_rooted(s), !is_rooted(s) && split_slash(s)[0] == "."@, names_of(split_slash(s)))
}

/// `path` begins with the components of `root` (`Path::starts_with`).
pub open spec fn path_starts_with_spec(path: Seq<char>, root: Seq<char>) -> bool {
    let (pa, pc, pn) = components(path);
    let (ra, rc, rn) = components(root);
    pa == ra && pc == rc && rn.len() <= pn.len() && pn.subrange(0, rn.len() as int) == rn
}

/// The names left after resolving `..` in `names` from left to right: each `..`
/// removes the name before it, if any.
pub open spec fn resolve_names(names: Seq<Seq<char>>) -> Seq<Seq<char>>
    decreases names.len(),
{
    if names.len() == 0 {
        Seq::empty()
    } else {
        let prev = resolve_names(names.drop_last());
        if names.last() == ".."@ {
            if prev.len() > 0 {
                prev.drop_last()
            } else {
                prev
            }
        } else {
            prev.push(names.last())
        }
    }
}

/// The names joined by `/`.
pub open spec fn join_names(names: Seq<Seq<char>>) -> Seq<char>
    decreases names.len(),
{
    if names.len() == 0 {
        Seq::empty()
    } else if names.len() == 1 {
        names[0]
    } else {
        join_names(names.drop_last()) + "/"@ + names.last()
    }
}

/// The text of a path with `..` resolved and `.` and repeated separators removed.
pub open spec fn normal_text(s: Seq<char>) -> Seq<char> {
    let names = resolve_names(names_of(split_slash(s)));
    if is_rooted(s) {
        "/"@ + join_names(names)
    } else {
        join_names(names)
    }
}

/// A path made absolute against the working directory (when it is relative and the
/// working directory is known), normalized without touching the file system, with
/// each `\` written as `/`.
pub open spec fn normalize_spec(path: Seq<char>, cwd: Option<Seq<char>>) -> Seq<char> {
    let abs = if is_rooted(path) {
        path
    } else {
        match cwd {
            Some(c) => path_join_spec(c, path),
            None => path,
        }
    };
    replace_spec(normal_text(abs), "\\"@, "/"@)
}

/// Whether a path starts at the root.
fn rooted(s: &str) -> (b: bool)
    ensures
        b == is_rooted(s@),
{
    let cs = chars_of(s);
    cs.len() > 0 && cs[0] == '/'
}

/// Splits a path at `/`.
fn split_at_slash(s: &str) -> (r: Vec<Vec<char>>)
    ensures
        r@.len() == split_slash(s@).len(),
        forall|i: int| 0 <= i < r@.len() ==> #[trigger] r@[i]@ == split_slash(s@)[i],
{
    let cs = chars_of(s);
    let n = cs.len();
    let mut parts: Vec<Vec<char>> = Vec::new();
    let mut cur: Vec<char> = Vec::new();
    let mut i: usize = 0;
    proof {
        assert(cs@.take(0) =~= Seq::<char>::empty());
    }
    while i < n
        invariant
            0 <= i <= n,
            n == cs@.len(),
            cs@ == s@,
            parts@.len() == slash_state(cs@.take(i as int)).0.len(),
            forall|k: int| 0 <= k < parts@.len() ==> #[trigger] parts@[k]@ == slash_state(cs@.take(i as int)).0[k],
            cur@ == slash_state(cs@.take(i as int)).1,
        decreases n - i,
    {
        let c = cs[i];
        proof {
            assert(cs@.take(i + 1).drop_last() =~= cs@.take(i as int));
            assert(cs@.take(i + 1).last() == c);
        }
        if c == '/' {
            let done = cur;
            parts.push(done);
            cur = Vec::new();
            proof {
                assert(cur@ =~= Seq::<char>::empty());
            }
        } else {
            cur.push(c);
        }
        i = i + 1;
    }
    proof {
        assert(cs@.take(n as int) =~= cs@);
    }
    parts.push(cur);
    parts
}

/// Whether a part is `.`.
fn is_dot(p: &Vec<char>) -> (b: bool)
    ensures
        b == (p@ == "."@),
{
    proof {
        reveal_strlit(".");
    }
    let r = p.len() == 1 && p[0] == '.';
    proof {
        if r {
            assert(p@ =~= "."@);
        }
    }
    r
}

/// Whether a name is `..`.
fn is_dot_dot(p: &Vec<char>) -> (b: bool)
    ensures
        b == (p@ == ".."@),
{
    proof {
        reveal_strlit("..");
    }
    let r = p.len() == 2 && p[0] == '.' && p[1] == '.';
    proof {
        if r {
            assert(p@ =~= ".."@);
        }
    }
    r
}

/// The names of a path, in order.
fn path_names(s: &str) -> (r: Vec<Vec<char>>)
    ensures
        r@.len() == names_of(split_slash(s@)).len(),
        forall|i: int| 0 <= i < r@.len() ==> #[trigger] r@[i]@ == names_of(split_slash(s@))[i],
{
    let parts = split_at_slash(s);
    let ghost ps = split_slash(s@);
    let mut names: Vec<Vec<char>> = Vec::new();
    let mut i: usize = 0;
    proof {
        assert(ps.take(0) =~= Seq::<Seq<char>>::empty());
    }
    while i < parts.len()
        invariant
            0 <= i <= parts@.len(),
            parts@.len() == ps.len(),
            forall|k: int| 0 <= k < parts@.len() ==> #[trigger] parts@[k]@ == ps[k],
            names@.len() == names_of(ps.take(i as int)).len(),
            forall|k: int| 0 <= k < names@.len() ==> #[trigger] names@[k]@ == names_of(ps.take(i as int))[k],
        decreases parts@.len() - i,
    {
        proof {
            assert(ps.take(i + 1).drop_last() =~= ps.take(i as int));
            assert(ps.take(i + 1).last() == parts@[i as int]@);
        }
        if parts[i].len() > 0 && !is_dot(&parts[i]) {
            names.push(parts[i].clone());
        }
        i = i + 1;
    }
    proof {
        assert(ps.take(parts@.len() as int) =~= ps);
    }
    names
}

/// The text of a path, normalized without touching the file system.
fn normal_path_text(s: &str) -> (r: String)
    ensures
        r@ == normal_text(s@),
{
    let names = path_names(s);
    let ghost ns = names_of(split_slash(s@));
    let mut stack: Vec<Vec<char>> = Vec::new();
    let mut i: usize = 0;
    proof {
        assert(ns.take(0) =~= Seq::<Seq<char>>::empty());
    }
    while i < names.len()
        invariant
            0 <= i <= names@.len(),
            names@.len() == ns.len(),
            forall|k: int| 0 <= k < names@.len() ==> #[trigger] names@[k]@ == ns[k],
            stack@.len() == resolve_names(ns.take(i as int)).len(),
            forall|k: int| 0 <= k < stack@.len() ==> #[trigger] stack@[k]@ == resolve_names(ns.take(i as int))[k],
        decreases names@.len() - i,
    {
        proof {
            assert(ns.take(i + 1).drop_last() =~= ns.take(i as int));
            assert(ns.take(i + 1).last() == names@[i as int]@);
        }
        if is_dot_dot(&names[i]) {
            if stack.len() > 0 {
                stack.pop();
            }
        } else {
            stack.push(names[i].clone());
        }
        i = i + 1;
    }
    proof {
        assert(ns.take(names@.len() as int) =~= ns);
    }
    let ghost rs = resolve_names(ns);
    let mut out = String::new();
    let rooted = rooted(s);
    if rooted {
        push_char(&mut out, '/');
    }
    let ghost start = out@;
    let mut j: usize = 0;
    proof {
        assert(rs.take(0) =~= Seq::<Seq<char>>::empty());
    }
    while j < stack.len()
        invariant
            0 <= j <= stack@.len(),
            stack@.len() == rs.len(),
            forall|k: int| 0 <= k < stack@.len() ==> #[trigger] stack@[k]@ == rs[k],
            out@ == start + join_names(rs.take(j as int)),
        decreases stack@.len() - j,
    {
        let ghost before = out@;
        if j > 0 {
            push_char(&mut out, '/');
        }
        let part = &stack[j];
        let mut k: usize = 0;
        let ghost mid = out@;
        while k < part.len()
            invariant
                0 <= k <= part@.len(),
                out@ == mid + part@.subrange(0, k as int),
            decreases part@.len() - k,
        {
            push_char(&mut out, part[k]);
            proof {
                assert(part@.subrange(0, k + 1) =~= part@.subrange(0, k as int).push(part@[k as int]));
            }
            k = k + 1;
        }
        proof {
            reveal_strlit("/");
            assert(part@.subrange(0, part@.len() as int) =~= part@);
            assert(rs.take(j + 1).drop_last() =~= rs.take(j as int));
            assert(rs.take(j + 1).last() == part@);
            if j == 0 {
                assert(rs.take(1) =~= seq![rs[0]]);
                assert(out@ =~= start + join_names(rs.take(1)));
            } else {
                assert(out@ =~= start + join_names(rs.take(j + 1)));
            }
        }
        j = j + 1;
    }
    proof {
        assert(rs.take(stack@.len() as int) =~= rs);
        reveal_strlit("/");
        if rooted {
            assert(start =~= "/"@);
        } else {
            assert(start =~= Seq::<char>::empty());
            assert(out@ =~= join_names(rs));
        }
    }
    out
}

/// Normalizes a path for a prefix check: relative paths are taken against the
/// working directory `cwd` when it is known, `..` is resolved without touching the
/// file system (it cannot climb above the root), and `\` is written as `/`.
pub fn normalize_path_for_prefix_check(path: &str, cwd: Option<&str>) -> (r: String)
    ensures
        r@ == normalize_spec(path@, match cwd {
            Some(c) => Some(c@),
            None => None,
        }),
{
    let abs = if rooted(path) {
        owned(path)
    } else {
        match cwd {
            Some(c) => path_join(c, path),
            None => owned(path),
        }
    };
    let t = normal_path_text(abs.as_str());
    proof {
        reveal_strlit("\\");
    }
    replace_all(t.as_str(), "\\", "/")
}

/// Whether `path` begins with the components of `root`.
#[verifier::loop_isolation(false)]
pub fn path_starts_with(path: &str, root: &str) -> (b: bool)
    ensures
        b == path_starts_with_spec(path@, root@),
{
    let pa = rooted(path);
    let ra = rooted(root);
    let pparts = split_at_slash(path);
    let rparts = split_at_slash(root);
    proof {
        let (ps, pc) = slash_state(path@);
        let (rs, rc) = slash_state(root@);
        assert(split_slash(path@).len() > 0);
        assert(split_slash(root@).len() > 0);
    }
    let pc = !pa && is_dot(&pparts[0]);
    let rc = !ra && is_dot(&rparts[0]);
    if pa != ra || pc != rc {
        return false;
    }
    let pn = path_names(path);
    let rn = path_names(root);
    let ghost pns = names_of(split_slash(path@));
    let ghost rns = names_of(split_slash(root@));
    if rn.len() > pn.len() {
        return false;
    }
    let mut i: usize = 0;
    while i < rn.len()
        invariant
            0 <= i <= rn@.len(),
            rn@.len() <= pn@.len(),
            rn@.len() == rns.len(),
            pn@.len() == pns.len(),
            forall|k: int| 0 <= k < rn@.len() ==> #[trigger] rn@[k]@ == rns[k],
            forall|k: int| 0 <= k < pn@.len() ==> #[trigger] pn@[k]@ == pns[k],
            forall|k: int| 0 <= k < i ==> pns[k] == rns[k],
        decreases rn@.len() - i,
    {
        let a = &pn[i];
        let b = &rn[i];
        if a.len() != b.len() {
            proof {
                assert(pns.subrange(0, rns.len() as int)[i as int] != rns[i as int]);
            }
            return false;
        }
        let mut k: usize = 0;
        while k < a.len()
            invariant
                0 <= k <= a@.len(),
                a@.len() == b@.len(),
                forall|j: int| 0 <= j < k ==> a@[j] == b@[j],
            decreases a@.len() - k,
        {
            if a[k] != b[k] {
                proof {
                    assert(pns[i as int][k as int] != rns[i as int][k as int]);
                    assert(pns.subrange(0, rns.len() as int)[i as int] != rns[i as int]);
                }
                return false;
            }
            k = k + 1;
        }
        proof {
            assert(a@ =~= b@);
        }
        i = i + 1;
    }
    proof {
        assert(pns.subrange(0, rns.len() as int) =~= rns);
    }
    true
}

/// Whether the canonical form of a path lies under the canonical form of some
/// allowed root (roots that could not be resolved admit nothing, nor does a path
/// that could not be resolved).
pub open spec fn canonical_admits(canonical_path: Option<Seq<char>>, canonical_roots: Seq<Option<String>>) -> bool {
    canonical_path is Some && exists|i: int|
        0 <= i < canonical_roots.len() && #[trigger] resolves_under(canonical_path->0, canonical_roots[i])
}

/// Whether the resolved path lies under a root that resolved.
pub open spec fn resolves_under(canonical_path: Seq<char>, canonical_root: Option<String>) -> bool {
    canonical_root is Some && path_starts_with_spec(canonical_path, canonical_root->0@)
}

/// Whether a path is within the allowed roots, given the canonical form of the path
/// and of each root (`None` where it could not be resolved).
pub fn roots_admit(canonical_path: Option<&str>, canonical_roots: &Vec<Option<String>>) -> (b: bool)
    ensures
        b == canonical_admits(opt_str(canonical_path), canonical_roots@),
{
    match canonical_path {
        Some(cp) => {
            let mut i: usize = 0;
            while i < canonical_roots.len()
                invariant
                    0 <= i <= canonical_roots@.len(),
                    canonical_path == Some(cp),
                    forall|k: int| 0 <= k < i ==> !#[trigger] resolves_under(cp@, canonical_roots@[k]),
                decreases canonical_roots@.len() - i,
            {
                match &canonical_roots[i] {
                    Some(r) => {
                        if path_starts_with(cp, r.as_str()) {
                            assert(opt_str(canonical_path)->0 == cp@);
                            assert(resolves_under(opt_str(canonical_path)->0, canonical_roots@[i as int]));
                            return true;
                        }
                    },
                    None => {},
                }
                i = i + 1;
            }
            false
        },
        None => false,
    }
}

/// Whether allowed root `root` admits a path. When both the path and the root
/// resolve on disk, the resolved path must begin with the resolved root. Otherwise
/// a path that exists is not admitted; one that does not is admitted when its
/// normalized form lies within the root's normalized or resolved form, compared
/// component by component (so `/a/bc` is not within `/a/b`).
pub open spec fn root_admits(
    expanded_path: Seq<char>,
    path_exists: bool,
    canonical_path: Option<Seq<char>>,
    expanded_root: Seq<char>,
    canonical_root: Option<Seq<char>>,
    cwd: Option<Seq<char>>,
) -> bool {
    if canonical_path is Some && canonical_root is Some {
        path_starts_with_spec(canonical_path->0, canonical_root->0)
    } else if path_exists {
        false
    } else {
        let normalized = normalize_spec(expanded_path, cwd);
        path_starts_with_spec(normalized, normalize_spec(expanded_root, cwd)) || (canonical_root matches Some(r)
            && path_starts_with_spec(normalized, r))
    }
}

/// An optional text.
pub open spec fn opt_seq(o: Option<String>) -> Option<Seq<char>> {
    match o {
        Some(s) => Some(s@),
        None => None,
    }
}

/// Whether a path lies within the allowed roots (any does when there are none).
/// `~/` in the path and the roots is expanded against `home`. The caller supplies
/// what the file system says of the expanded path (whether it exists, and its
/// canonical form) and of each expanded root (its canonical form), and the working
/// directory.
pub fn is_path_in_allowed_roots(
    path: &str,
    allowed_roots: &Vec<String>,
    home: Option<&str>,
    cwd: Option<&str>,
    path_exists: bool,
    canonical_path: Option<&str>,
    canonical_roots: &Vec<Option<String>>,
) -> (b: bool)
    requires
        canonical_roots@.len() == allowed_roots@.len(),
    ensures
        b == (allowed_roots@.len() == 0 || exists|i: int|
            0 <= i < allowed_roots@.len() && #[trigger] root_admits(
                expand_path_spec(path@, opt_str(home)),
                path_exists,
                opt_str(canonical_path),
                expand_path_spec(allowed_roots@[i]@, opt_str(home)),
                opt_seq(canonical_roots@[i]),
                opt_str(cwd),
            )),
{
    if allowed_roots.len() == 0 {
        return true;
    }
    let ghost h = opt_str(home);
    let ghost c = opt_str(cwd);
    let ghost cpv = opt_str(canonical_path);
    let expanded_path = expand_path(path, home);
    let normalized = normalize_path_for_prefix_check(expanded_path.as_str(), cwd);
    let mut i: usize = 0;
    while i < allowed_roots.len()
        invariant
            0 <= i <= allowed_roots@.len(),
            canonical_roots@.len() == allowed_roots@.len(),
            expanded_path@ == expand_path_spec(path@, h),
            normalized@ == normalize_spec(expanded_path@, c),
            h == opt_str(home),
            c == opt_str(cwd),
            cpv == opt_str(canonical_path),
            forall|k: int|
                0 <= k < i ==> !#[trigger] root_admits(
                    expand_path_spec(path@, h),
                    path_exists,
                    cpv,
                    expand_path_spec(allowed_roots@[k]@, h),
                    opt_seq(canonical_roots@[k]),
                    c,
                ),
        decreases allowed_roots@.len() - i,
    {
        let expanded_root = expand_path(allowed_roots[i].as_str(), home);
        let admitted = match (canonical_path, &canonical_roots[i]) {
            (Some(cp), Some(cr)) => path_starts_with(cp, cr.as_str()),
            _ => {
                if path_exists {
                    false
                } else {
                    let normalized_root = normalize_path_for_prefix_check(expanded_root.as_str(), cwd);
                    path_starts_with(normalized.as_str(), normalized_root.as_str()) || match &canonical_roots[i] {
                        Some(cr) => path_starts_with(normalized.as_str(), cr.as_str()),
                        None => false,
                    }
                }
            },
        };
        proof {
            assert(admitted == root_admits(
                expand_path_spec(path@, h),
                path_exists,
                cpv,
                expand_path_spec(allowed_roots@[i as int]@, h),
                opt_seq(canonical_roots@[i as int]),
                c,
            ));
        }
        if admitted {
            return true;
        }
        i = i + 1;
    }
    false
}


/// Resolving `..` leaves no `..` behind: a normalized path cannot climb out of where
/// its names lead.
pub proof fn lemma_resolved_names_have_no_parent(names: Seq<Seq<char>>)
    ensures
        forall|i: int| 0 <= i < resolve_names(names).len() ==> #[trigger] resolve_names(names)[i] != ".."@,
    decreases names.len(),
{
    if names.len() > 0 {
        lemma_resolved_names_have_no_parent(names.drop_last());
        let prev = resolve_names(names.drop_last());
        if names.last() == ".."@ {
            if prev.len() > 0 {
                assert forall|i: int| 0 <= i < prev.drop_last().len() implies #[trigger] prev.drop_last()[i] != ".."@ by {
                    assert(prev.drop_last()[i] == prev[i]);
                }
            }
        } else {
            assert forall|i: int| 0 <= i < prev.push(names.last()).len() implies #[trigger] prev.push(names.last())[i]
                != ".."@ by {
                if i < prev.len() {
                    assert(prev.push(names.last())[i] == prev[i]);
                }
            }
        }
    }
}

/// Resolving `..` never yields more names than were given.
pub proof fn lemma_resolved_names_shorter(names: Seq<Seq<char>>)
    ensures
        resolve_names(names).len() <= names.len(),
    decreases names.len(),
{
    if names.len() > 0 {
        lemma_resolved_names_shorter(names.drop_last());
    }
}

} // verus!
