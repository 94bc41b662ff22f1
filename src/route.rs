//! The request router: a path under `/static/` either names a file of a
//! versioned package (`name@version/sub/path`) or a local static file.
use vstd::prelude::*;
use crate::text::{chars_of, starts_with_char};

verus! {

/// The first index at or after `i` that holds `c1` or `c2`, or the length.
pub open spec fn next_of(p: Seq<char>, i: int, c1: char, c2: char) -> int
    decreases p.len() - i,
{
    if i >= p.len() {
        p.len() as int
    } else if p[i] == c1 || p[i] == c2 {
        i
    } else {
        next_of(p, i + 1, c1, c2)
    }
}

/// Where the package name of `p` ends, if `p` begins with one: an optional
/// `@`, a segment, and optionally `/` and a second segment, where segments
/// are non-empty and hold neither `@` nor `/`; a `@` must follow.
pub open spec fn name_end(p: Seq<char>) -> Option<int> {
    let a: int = if starts_with_char(p, '@') { 1 } else { 0 };
    let i1 = next_of(p, a, '@', '/');
    if i1 == a || i1 >= p.len() {
        None
    } else if p[i1] == '@' {
        Some(i1)
    } else {
        let i2 = next_of(p, i1 + 1, '@', '/');
        if i2 == i1 + 1 || i2 >= p.len() || p[i2] != '@' {
            None
        } else {
            Some(i2)
        }
    }
}

/// The package reference in `p`, as `(name, version, sub_path)`: the name,
/// `@`, a non-empty version up to the next `/`, that `/`, and a non-empty
/// remainder.
pub open spec fn package_parts(p: Seq<char>) -> Option<(Seq<char>, Seq<char>, Seq<char>)> {
    match name_end(p) {
        None => None,
        Some(ne) => {
            let j = next_of(p, ne + 1, '/', '/');
            if j == ne + 1 || j + 1 >= p.len() {
                None
            } else {
                Some((p.subrange(0, ne), p.subrange(ne + 1, j), p.subrange(j + 1, p.len() as int)))
            }
        },
    }
}

/// A reference to one file of one version of a remote package.
#[derive(Debug)]
pub struct PackageRef {
    pub name: String,
    pub version: String,
    pub sub_path: String,
}

impl View for PackageRef {
    type V = (Seq<char>, Seq<char>, Seq<char>);

    open spec fn view(&self) -> Self::V {
        (self.name@, self.version@, self.sub_path@)
    }
}

/// Where a request under `/static/` is sent.
#[derive(Debug)]
pub enum Route {
    /// To the package cache.
    Package(PackageRef),
    /// To the local static handler, with the path as it came.
    Local(String),
}

fn next_index(s: &Vec<char>, i: usize, c1: char, c2: char) -> (r: usize)
    requires
        i <= s@.len(),
    ensures
        r as int == next_of(s@, i as int, c1, c2),
        i <= r <= s@.len(),
{
    let mut k: usize = i;
    while k < s.len() && s[k] != c1 && s[k] != c2
        invariant
            i <= k <= s@.len(),
            next_of(s@, i as int, c1, c2) == next_of(s@, k as int, c1, c2),
        decreases s@.len() - k,
    {
        k = k + 1;
    }
    k
}

fn name_end_exec(s: &Vec<char>) -> (r: Option<usize>)
    ensures
        match r {
            Some(e) => name_end(s@) == Some(e as int) && e < s@.len(),
            None => name_end(s@) is None,
        },
{
    let a: usize = if s.len() > 0 && s[0] == '@' { 1 } else { 0 };
    let i1 = next_index(s, a, '@', '/');
    if i1 == a || i1 >= s.len() {
        None
    } else if s[i1] == '@' {
        Some(i1)
    } else {
        let i2 = next_index(s, i1 + 1, '@', '/');
        if i2 == i1 + 1 || i2 >= s.len() || s[i2] != '@' {
            None
        } else {
            Some(i2)
        }
    }
}

/// Reads the package reference in `path`, if it holds one.
pub fn parse_package_ref(path: &str) -> (r: Option<PackageRef>)
    ensures
        match r {
            Some(pr) => package_parts(path@) == Some(pr@),
            None => package_parts(path@) is None,
        },
{
    let s = chars_of(path);
    match name_end_exec(&s) {
        None => None,
        Some(ne) => {
            let n = s.len();
            assert(ne < n);
            let j = next_index(&s, ne + 1, '/', '/');
            if j == ne + 1 || j >= s.len() - 1 {
                None
            } else {
                let name = path.substring_char(0, ne).to_owned();
                let version = path.substring_char(ne + 1, j).to_owned();
                let sub_path = path.substring_char(j + 1, s.len()).to_owned();
                Some(PackageRef { name, version, sub_path })
            }
        },
    }
}

/// Sends the path that follows `/static/` to the package cache where it
/// holds a package reference, and to the local static handler otherwise.
pub fn route(path: &str) -> (r: Route)
    ensures
        match package_parts(path@) {
            Some(parts) => r matches Route::Package(pr) && pr@ == parts,
            None => r matches Route::Local(l) && l@ == path@,
        },
{
    match parse_package_ref(path) {
        Some(pr) => Route::Package(pr),
        None => Route::Local(path.to_owned()),
    }
}

/// A package reference always reads back as the text it was read from:
/// name, `@`, version, `/`, sub-path.
pub proof fn lemma_package_parts_cover(p: Seq<char>)
    requires
        package_parts(p) is Some,
    ensures
        ({
            let (n, v, s) = package_parts(p)->0;
            p == n + seq!['@'] + v + seq!['/'] + s
        }),
{
    let a: int = if starts_with_char(p, '@') { 1 } else { 0 };
    lemma_next_of_bounds(p, a, '@', '/');
    let i1 = next_of(p, a, '@', '/');
    if p[i1] != '@' {
        lemma_next_of_bounds(p, i1 + 1, '@', '/');
    }
    let ne = name_end(p)->0;
    lemma_next_of_bounds(p, ne + 1, '/', '/');
    let (n, v, s) = package_parts(p)->0;
    assert(p =~= n + seq!['@'] + v + seq!['/'] + s);
}

/// `next_of` lands on `c1` or `c2` or at the end, never before `i`.
pub proof fn lemma_next_of_bounds(p: Seq<char>, i: int, c1: char, c2: char)
    requires
        0 <= i <= p.len(),
    ensures
        i <= next_of(p, i, c1, c2) <= p.len(),
        next_of(p, i, c1, c2) < p.len() ==> (p[next_of(p, i, c1, c2)] == c1 || p[next_of(
            p,
            i,
            c1,
            c2,
        )] == c2),
    decreases p.len() - i,
{
    if i < p.len() && p[i] != c1 && p[i] != c2 {
        lemma_next_of_bounds(p, i + 1, c1, c2);
    }
}

/// A non-empty segment of a package name: no `@` and no `/`.
pub open spec fn is_name_segment(x: Seq<char>) -> bool {
    x.len() > 0 && forall|i: int| 0 <= i < x.len() ==> #[trigger] x[i] != '@' && x[i] != '/'
}

/// The package name made of an optional leading `@`, a segment, and an
/// optional second segment after `/`.
pub open spec fn package_name(scoped: bool, first: Seq<char>, second: Option<Seq<char>>) -> Seq<
    char,
> {
    let lead = if scoped { seq!['@'] } else { Seq::empty() };
    match second {
        Some(b) => lead + first + seq!['/'] + b,
        None => lead + first,
    }
}

/// Every path written as a package name, `@`, a non-empty version without
/// `/`, `/`, and a non-empty sub-path is read back into exactly those parts.
pub proof fn lemma_package_parts_complete(
    scoped: bool,
    first: Seq<char>,
    second: Option<Seq<char>>,
    version: Seq<char>,
    sub: Seq<char>,
)
    requires
        is_name_segment(first),
        second is Some ==> is_name_segment(second->0),
        version.len() > 0,
        forall|i: int| 0 <= i < version.len() ==> #[trigger] version[i] != '/',
        sub.len() > 0,
    ensures
        ({
            let n = package_name(scoped, first, second);
            package_parts(n + seq!['@'] + version + seq!['/'] + sub) == Some((n, version, sub))
        }),
{
    let n = package_name(scoped, first, second);
    let p = n + seq!['@'] + version + seq!['/'] + sub;
    let a: int = if scoped { 1 } else { 0 };
    let fe = a + first.len();
    assert forall|j: int| a <= j < fe implies p[j] != '@' && p[j] != '/' by {
        assert(p[j] == first[j - a]);
    }
    assert(starts_with_char(p, '@') == scoped) by {
        assert(p[0] == if scoped { '@' } else { first[0] });
    }
    let ne = n.len() as int;
    match second {
        None => {
            assert(p[fe] == '@');
            lemma_next_of_skips(p, a, fe, '@', '/');
        },
        Some(b) => {
            assert(p[fe] == '/');
            lemma_next_of_skips(p, a, fe, '@', '/');
            assert forall|j: int| fe + 1 <= j < ne implies p[j] != '@' && p[j] != '/' by {
                assert(p[j] == b[j - fe - 1]);
            }
            assert(p[ne] == '@');
            lemma_next_of_skips(p, fe + 1, ne, '@', '/');
        },
    }
    assert(name_end(p) == Some(ne));
    let je = ne + 1 + version.len();
    assert forall|j: int| ne + 1 <= j < je implies p[j] != '/' && p[j] != '/' by {
        assert(p[j] == version[j - ne - 1]);
    }
    assert(p[je] == '/');
    lemma_next_of_skips(p, ne + 1, je, '/', '/');
    assert(p.subrange(0, ne) =~= n);
    assert(p.subrange(ne + 1, je) =~= version);
    assert(p.subrange(je + 1, p.len() as int) =~= sub);
}

/// `next_of` passes over characters that are neither `c1` nor `c2` and
/// stops at the first that is.
pub proof fn lemma_next_of_skips(p: Seq<char>, i: int, k: int, c1: char, c2: char)
    requires
        0 <= i <= k < p.len(),
        p[k] == c1 || p[k] == c2,
        forall|j: int| i <= j < k ==> #[trigger] p[j] != c1 && p[j] != c2,
    ensures
        next_of(p, i, c1, c2) == k,
    decreases k - i,
{
    if i < k {
        lemma_next_of_skips(p, i + 1, k, c1, c2);
    }
}

} // verus!
