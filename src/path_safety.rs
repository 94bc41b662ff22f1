//! The syntactic path validator and the containment test on resolved paths.
use vstd::prelude::*;
use crate::text::{chars_of, has_doubled, has_char, starts_with_char, ends_with_char};

verus! {

/// A client-supplied relative path that may be joined to a root: no `..`
/// anywhere, no doubled separator, no backslash, and not absolute
/// (under POSIX path semantics, absolute means a leading `/`).
pub open spec fn is_safe_relative(p: Seq<char>) -> bool {
    &&& !has_doubled(p, '.')
    &&& !has_doubled(p, '/')
    &&& !has_char(p, '\\')
    &&& !starts_with_char(p, '/')
}

/// Decides `is_safe_relative` without touching the filesystem.
pub fn is_safe_path(path: &str) -> (r: bool)
    ensures
        r == is_safe_relative(path@),
        has_doubled(path@, '.') ==> !r,
        has_doubled(path@, '/') ==> !r,
        has_char(path@, '\\') ==> !r,
        starts_with_char(path@, '/') ==> !r,
{
    let cs = chars_of(path);
    let n = cs.len();
    if n > 0 && cs[0] == '/' {
        return false;
    }
    let mut i: usize = 0;
    while i < n
        invariant
            n == cs@.len(),
            cs@ == path@,
            i <= n,
            forall|j: int| 0 <= j && j + 1 < i && cs@[j] == '.' ==> #[trigger] cs@[j + 1] != '.',
            forall|j: int| 0 <= j && j + 1 < i && cs@[j] == '/' ==> #[trigger] cs@[j + 1] != '/',
            forall|j: int| 0 <= j < i ==> #[trigger] cs@[j] != '\\',
        decreases n - i,
    {
        let c = cs[i];
        if c == '\\' {
            return false;
        }
        if i > 0 {
            let prev = cs[i - 1];
            if (c == '.' || c == '/') && prev == c {
                assert(cs@[(i - 1) as int + 1] == c);
                return false;
            }
        }
        i = i + 1;
    }
    true
}

/// The path `root` joined with `rel` as a path join does it: an absolute
/// `rel` replaces the root, and a separator is put between the two only
/// where `root` is non-empty and does not already end in one.
pub open spec fn joined(root: Seq<char>, rel: Seq<char>) -> Seq<char> {
    if starts_with_char(rel, '/') {
        rel
    } else if root.len() == 0 || ends_with_char(root, '/') {
        root + rel
    } else {
        root + seq!['/'] + rel
    }
}

/// Joins `rel` onto `root`.
pub fn join_path(root: &str, rel: &str) -> (r: String)
    ensures
        r@ == joined(root@, rel@),
{
    let rel_is_absolute = rel.unicode_len() > 0 && rel.get_char(0) == '/';
    if rel_is_absolute {
        return rel.to_owned();
    }
    let n = root.unicode_len();
    let mut r = root.to_owned();
    if n > 0 && root.get_char(n - 1) != '/' {
        r.append("/");
        proof {
            reveal_strlit("/");
        }
    }
    r.append(rel);
    r
}

/// Whether the resolved path `t` is the resolved root `root` or lies below
/// it. Both are canonical absolute paths: no `.` or `..` component, no
/// doubled separator, and no trailing separator but for `/` itself.
pub open spec fn is_descendant(t: Seq<char>, root: Seq<char>) -> bool {
    ||| t == root
    ||| (ends_with_char(root, '/') && t.len() > root.len() && t.subrange(0, root.len() as int)
        == root)
    ||| (t.len() > root.len() && t.subrange(0, root.len() as int) == root && t[root.len() as int]
        == '/')
}

/// The containment test of the traversal defense, on paths that the host
/// filesystem has already resolved (symlinks followed). A path that could
/// not be resolved is handed in as `None` and is never within the root.
pub fn is_within_resolved(target: Option<&str>, root: Option<&str>) -> (r: bool)
    ensures
        r == (target is Some && root is Some && is_descendant(target->0@, root->0@)),
{
    match (target, root) {
        (Some(t), Some(rt)) => is_descendant_exec(t, rt),
        _ => false,
    }
}

fn is_descendant_exec(t: &str, root: &str) -> (r: bool)
    ensures
        r == is_descendant(t@, root@),
{
    let ts = chars_of(t);
    let rs = chars_of(root);
    let tn = ts.len();
    let rn = rs.len();
    if tn < rn {
        assert(ts@ != rs@);
        return false;
    }
    let mut i: usize = 0;
    while i < rn
        invariant
            ts@ == t@,
            rs@ == root@,
            tn == ts@.len(),
            rn == rs@.len(),
            rn <= tn,
            i <= rn,
            ts@.subrange(0, i as int) == rs@.subrange(0, i as int),
        decreases rn - i,
    {
        if ts[i] != rs[i] {
            assert(ts@.subrange(0, rn as int)[i as int] != rs@[i as int]);
            assert(ts@.subrange(0, rn as int) != rs@);
            assert(ts@ != rs@);
            return false;
        }
        assert(ts@.subrange(0, i + 1) =~= ts@.subrange(0, i as int).push(ts@[i as int]));
        assert(rs@.subrange(0, i + 1) =~= rs@.subrange(0, i as int).push(rs@[i as int]));
        i = i + 1;
    }
    assert(rs@.subrange(0, rn as int) =~= rs@);
    if tn == rn {
        assert(ts@ =~= ts@.subrange(0, rn as int));
        return true;
    }
    (rn > 0 && rs[rn - 1] == '/') || ts[rn] == '/'
}

/// A safe relative path joined onto a non-empty root stays below that root,
/// and what follows the root holds no parent step `..`: where no symlink
/// along it leads out, the path resolves within the root.
pub proof fn lemma_safe_join_stays_below_root(root: Seq<char>, p: Seq<char>)
    requires
        root.len() > 0,
        is_safe_relative(p),
    ensures
        is_descendant(joined(root, p), root),
        joined(root, p).subrange(0, root.len() as int) == root,
        !has_doubled(joined(root, p).subrange(root.len() as int, joined(root, p).len() as int), '.'),
{
    let j = joined(root, p);
    let tail = j.subrange(root.len() as int, j.len() as int);
    if ends_with_char(root, '/') {
        assert(j =~= root + p);
        assert(tail =~= p);
        assert(j.subrange(0, root.len() as int) =~= root);
    } else {
        assert(j =~= root + seq!['/'] + p);
        assert(tail =~= seq!['/'] + p);
        assert(j.subrange(0, root.len() as int) =~= root);
        assert(j[root.len() as int] == '/');
        if has_doubled(tail, '.') {
            let i = choose|i: int| 0 <= i && i + 1 < tail.len() && tail[i] == '.' && #[trigger] tail[i + 1] == '.';
            assert(i >= 1);
            assert(p[i - 1] == '.' && p[(i - 1) + 1] == '.');
        }
    }
}

} // verus!
