//! The content-type resolver: from a path's extension to a MIME type.
use vstd::prelude::*;
use crate::text::chars_of;

verus! {

/// Where the last segment of `s[0..end]` starts: just past the last `/`
/// before `end`, or 0.
pub open spec fn segment_start(s: Seq<char>, end: int) -> int
    decreases end,
{
    if end <= 0 {
        0
    } else if s[end - 1] == '/' {
        end
    } else {
        segment_start(s, end - 1)
    }
}

/// The bounds of the file name of `s[0..end]`: its last segment that is
/// neither empty nor `.`, as path components are read (trailing separators
/// and `.` components do not count). An empty range where there is none.
pub open spec fn file_name_range(s: Seq<char>, end: int) -> (int, int)
    decreases end,
{
    let st = segment_start(s, end);
    if end - st > 1 || (end - st == 1 && s[st] != '.') {
        (st, end)
    } else if st <= 0 || st > end {
        (0, 0)
    } else {
        file_name_range(s, st - 1)
    }
}

/// The position of the last `.` in `s[st..j]`, or -1.
pub open spec fn last_dot(s: Seq<char>, st: int, j: int) -> int
    decreases j - st,
{
    if j <= st {
        -1
    } else if s[j - 1] == '.' {
        j - 1
    } else {
        last_dot(s, st, j - 1)
    }
}

/// The extension of the path `p`: what follows the last `.` of its file
/// name, where that `.` is not the name's first character. A name `..`
/// has none.
pub open spec fn extension_of(p: Seq<char>) -> Option<Seq<char>> {
    let (st, en) = file_name_range(p, p.len() as int);
    let d = last_dot(p, st, en);
    if d <= st || (en - st == 2 && p[st] == '.' && p[st + 1] == '.') {
        None
    } else {
        Some(p.subrange(d + 1, en))
    }
}

/// `c` is the lower-case ASCII letter `w`, in either case, or `c == w`.
pub open spec fn same_letter(c: char, w: char) -> bool {
    c == w || ('a' <= w <= 'z' && (c as u32) + 32 == (w as u32))
}

/// `e` spells the lower-case word `w` once lower-cased.
pub open spec fn spells(e: Seq<char>, w: Seq<char>) -> bool {
    e.len() == w.len() && forall|i: int| 0 <= i < e.len() ==> same_letter(#[trigger] e[i], w[i])
}

/// The MIME type for an extension, compared without regard to ASCII case;
/// a generic binary type for an unknown or absent extension.
pub open spec fn mime_for(ext: Option<Seq<char>>) -> Seq<char> {
    match ext {
        None => "application/octet-stream"@,
        Some(e) => if spells(e, "css"@) {
            "text/css"@
        } else if spells(e, "js"@) {
            "application/javascript"@
        } else if spells(e, "json"@) {
            "application/json"@
        } else if spells(e, "html"@) {
            "text/html"@
        } else if spells(e, "png"@) {
            "image/png"@
        } else if spells(e, "jpg"@) || spells(e, "jpeg"@) {
            "image/jpeg"@
        } else if spells(e, "gif"@) {
            "image/gif"@
        } else if spells(e, "svg"@) {
            "image/svg+xml"@
        } else {
            "application/octet-stream"@
        },
    }
}

/// The content type of the file at path `p`.
pub open spec fn content_type_of(p: Seq<char>) -> Seq<char> {
    mime_for(extension_of(p))
}

fn spells_exec(ext: &str, w: &str) -> (r: bool)
    ensures
        r == spells(ext@, w@),
{
    let e = chars_of(ext);
    let ws = chars_of(w);
    if e.len() != ws.len() {
        return false;
    }
    let mut i: usize = 0;
    while i < e.len()
        invariant
            ws@ == w@,
            e@ == ext@,
            e@.len() == ws@.len(),
            i <= e@.len(),
            forall|k: int| 0 <= k < i ==> same_letter(#[trigger] e@[k], ws@[k]),
        decreases e@.len() - i,
    {
        let c = e[i];
        let x = ws[i];
        let same = c == x || ('a' <= x && x <= 'z' && (x as u32) - 32 == (c as u32));
        if !same {
            assert(!same_letter(e@[i as int], ws@[i as int]));
            return false;
        }
        i = i + 1;
    }
    true
}

/// The bounds of the file name of `s`, as `file_name_range` gives them.
fn file_name_bounds(s: &Vec<char>) -> (r: (usize, usize))
    ensures
        r.0 as int == file_name_range(s@, s@.len() as int).0,
        r.1 as int == file_name_range(s@, s@.len() as int).1,
        r.0 <= r.1 <= s@.len(),
{
    let mut end: usize = s.len();
    loop
        invariant
            end <= s@.len(),
            file_name_range(s@, s@.len() as int) == file_name_range(s@, end as int),
        decreases end,
    {
        let mut st: usize = end;
        while st > 0 && s[st - 1] != '/'
            invariant
                st <= end,
                end <= s@.len(),
                segment_start(s@, end as int) == segment_start(s@, st as int),
            decreases st,
        {
            st = st - 1;
        }
        assert(segment_start(s@, st as int) == st as int);
        if end - st > 1 || (end - st == 1 && s[st] != '.') {
            return (st, end);
        } else if st == 0 {
            return (0, 0);
        }
        end = st - 1;
    }
}

/// Where the extension of `path` stands, as `extension_of` gives it.
fn extension_range(path: &str) -> (r: Option<(usize, usize)>)
    ensures
        match r {
            Some((a, b)) => a <= b <= path@.len() && extension_of(path@) == Some(
                path@.subrange(a as int, b as int),
            ),
            None => extension_of(path@) is None,
        },
{
    let s = chars_of(path);
    let (st, en) = file_name_bounds(&s);
    let mut j: usize = en;
    while j > st && s[j - 1] != '.'
        invariant
            st <= j <= en,
            en <= s@.len(),
            last_dot(s@, st as int, en as int) == last_dot(s@, st as int, j as int),
        decreases j,
    {
        j = j - 1;
    }
    if j - st <= 1 {
        return None;
    }
    if en - st == 2 && s[st] == '.' && s[st + 1] == '.' {
        return None;
    }
    Some((j, en))
}

/// The MIME type for the extension `ext`, as `mime_for` gives it.
pub fn content_type_for_extension(ext: Option<&str>) -> (r: String)
    ensures
        r@ == mime_for(
            match ext {
                Some(e) => Some(e@),
                None => None,
            },
        ),
{
    match ext {
        None => "application/octet-stream".to_owned(),
        Some(e) => if spells_exec(e, "css") {
            "text/css".to_owned()
        } else if spells_exec(e, "js") {
            "application/javascript".to_owned()
        } else if spells_exec(e, "json") {
            "application/json".to_owned()
        } else if spells_exec(e, "html") {
            "text/html".to_owned()
        } else if spells_exec(e, "png") {
            "image/png".to_owned()
        } else if spells_exec(e, "jpg") || spells_exec(e, "jpeg") {
            "image/jpeg".to_owned()
        } else if spells_exec(e, "gif") {
            "image/gif".to_owned()
        } else if spells_exec(e, "svg") {
            "image/svg+xml".to_owned()
        } else {
            "application/octet-stream".to_owned()
        },
    }
}

/// The content type to send with the file at `path`.
pub fn content_type_for(path: &str) -> (r: String)
    ensures
        r@ == content_type_of(path@),
{
    match extension_range(path) {
        Some((a, b)) => content_type_for_extension(Some(path.substring_char(a, b))),
        None => content_type_for_extension(None),
    }
}

} // verus!
