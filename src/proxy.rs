//! The package read-through cache. A request for a package file is decided
//! one step at a time: each step names the one action that the caller
//! performs (test a path against the cache root, read the cache file, fetch
//! upstream, read the body, store), and the caller hands its outcome to the
//! next step.
use vstd::prelude::*;
use crate::content_type::{content_type_for, content_type_of};
use crate::path_safety::{is_safe_path, is_safe_relative, join_path, joined};
use crate::response::{
    HttpResponse,
    ResponseView,
    ok_view,
    text_response,
    text_response_with,
    text_view,
};
use crate::route::PackageRef;
use crate::text::starts_with_char;

verus! {

/// What the caller does next for a package request.
#[derive(Debug)]
pub enum ProxyStep {
    /// Send this response; the request is done.
    Respond(HttpResponse),
    /// Resolve this cache file (or its parent) and the cache root on the
    /// filesystem, test them with `is_within_resolved`, and hand the verdict
    /// to `after_cache_check`.
    CheckCache(String),
    /// Read the cache file at this path and hand the bytes to `after_cache_read`.
    ReadCache(String),
    /// GET this URL once and hand the outcome to `after_send`.
    Fetch(String),
    /// Read the whole upstream body and hand it to `after_body`.
    ReadBody,
    /// Create the missing directories of `path` (one that exists already is
    /// no failure), test `path` against the cache root as for `CheckCache`,
    /// and hand the verdict to `after_store_check`.
    PrepareStore { path: String, response: HttpResponse },
    /// Write the response's body to `path` (a failure is logged and does
    /// not change the response), then send the response.
    Store { path: String, response: HttpResponse },
}

/// The mathematical value of a `ProxyStep`.
pub enum StepView {
    Respond(ResponseView),
    CheckCache(Seq<char>),
    ReadCache(Seq<char>),
    Fetch(Seq<char>),
    ReadBody,
    PrepareStore { path: Seq<char>, response: ResponseView },
    Store { path: Seq<char>, response: ResponseView },
}

impl View for ProxyStep {
    type V = StepView;

    open spec fn view(&self) -> StepView {
        match self {
            ProxyStep::Respond(r) => StepView::Respond(r@),
            ProxyStep::CheckCache(p) => StepView::CheckCache(p@),
            ProxyStep::ReadCache(p) => StepView::ReadCache(p@),
            ProxyStep::Fetch(u) => StepView::Fetch(u@),
            ProxyStep::ReadBody => StepView::ReadBody,
            ProxyStep::PrepareStore { path, response } => StepView::PrepareStore {
                path: path@,
                response: response@,
            },
            ProxyStep::Store { path, response } => StepView::Store {
                path: path@,
                response: response@,
            },
        }
    }
}

/// The version as it is written on disk: one leading `@` removed.
pub open spec fn disk_version(v: Seq<char>) -> Seq<char> {
    if starts_with_char(v, '@') {
        v.drop_first()
    } else {
        v
    }
}

/// Where a package file lives below the cache root: `name/version/sub_path`,
/// with the version as `disk_version` writes it.
pub open spec fn cache_key(name: Seq<char>, version: Seq<char>, sub: Seq<char>) -> Seq<char> {
    name + seq!['/'] + disk_version(version) + seq!['/'] + sub
}

/// The upstream URL of a package file: the reference verbatim after the origin.
pub open spec fn upstream_url_of(
    origin: Seq<char>,
    name: Seq<char>,
    version: Seq<char>,
    sub: Seq<char>,
) -> Seq<char> {
    origin + name + seq!['@'] + version + seq!['/'] + sub
}

/// The status sent on for an upstream failure: the upstream's own where a
/// response can carry it (100 to 999), 500 otherwise.
pub open spec fn relayed_status(code: u16) -> u16 {
    if 100 <= code <= 999 {
        code
    } else {
        500
    }
}

/// The first step: a key that could leave the cache root is refused; for any
/// other the cache file is tested against the cache root.
pub open spec fn begin_view(root: Seq<char>, pr: (Seq<char>, Seq<char>, Seq<char>)) -> StepView {
    let key = cache_key(pr.0, pr.1, pr.2);
    if is_safe_relative(key) {
        StepView::CheckCache(joined(root, key))
    } else {
        StepView::Respond(text_view(403, "Forbidden: Unsafe path"@))
    }
}

/// After the containment test of the cache file: one within the root is
/// read; one that is not (not there yet, or led elsewhere) is a miss.
pub open spec fn after_cache_check_view(
    pr: (Seq<char>, Seq<char>, Seq<char>),
    enabled: bool,
    origin: Seq<char>,
    path: Seq<char>,
    within: bool,
) -> StepView {
    if within {
        StepView::ReadCache(path)
    } else {
        after_cache_read_view(pr, enabled, origin, None)
    }
}

/// After the cache read: a hit is served as it is; a miss is fetched, unless
/// fetching is switched off.
pub open spec fn after_cache_read_view(
    pr: (Seq<char>, Seq<char>, Seq<char>),
    enabled: bool,
    origin: Seq<char>,
    cached: Option<Seq<u8>>,
) -> StepView {
    match cached {
        Some(b) => StepView::Respond(ok_view(content_type_of(pr.2), b)),
        None => if enabled {
            StepView::Fetch(upstream_url_of(origin, pr.0, pr.1, pr.2))
        } else {
            StepView::Respond(text_view(503, "Proxy service not enabled"@))
        },
    }
}

/// After the upstream answered with `(status code, status text)`, or failed
/// with an error text.
pub open spec fn after_send_view(sent: Result<(u16, Seq<char>), Seq<char>>) -> StepView {
    match sent {
        Err(e) => StepView::Respond(text_view(500, "Download failed: "@ + e)),
        Ok((code, text)) => if 200 <= code <= 299 {
            StepView::ReadBody
        } else {
            StepView::Respond(text_view(relayed_status(code), "unpkg returned error: "@ + text))
        },
    }
}

/// After the body was read, or failed with an error text: the body is to be
/// stored at the cache file and served.
pub open spec fn after_body_view(
    sub: Seq<char>,
    path: Seq<char>,
    body: Result<Seq<u8>, Seq<char>>,
) -> StepView {
    match body {
        Err(e) => StepView::Respond(text_view(500, "Failed to read response: "@ + e)),
        Ok(b) => StepView::PrepareStore { path, response: ok_view(content_type_of(sub), b) },
    }
}

/// After the containment test that precedes a write: the file is written
/// only within the cache root; the response is sent either way.
pub open spec fn after_store_check_view(path: Seq<char>, response: ResponseView, within: bool) -> StepView {
    if within {
        StepView::Store { path, response }
    } else {
        StepView::Respond(response)
    }
}

/// The path of a package file below the cache root, or `None` where its key
/// is not a safe relative path.
pub fn cache_file_path(cache_root: &str, pr: &PackageRef) -> (r: Option<String>)
    ensures
        match r {
            Some(p) => is_safe_relative(cache_key(pr@.0, pr@.1, pr@.2)) && p@ == joined(
                cache_root@,
                cache_key(pr@.0, pr@.1, pr@.2),
            ),
            None => !is_safe_relative(cache_key(pr@.0, pr@.1, pr@.2)),
        },
{
    let v = pr.version.as_str();
    let n = v.unicode_len();
    let dv = if n > 0 && v.get_char(0) == '@' {
        v.substring_char(1, n)
    } else {
        v
    };
    assert(dv@ == disk_version(pr@.1));
    let mut key = pr.name.clone();
    key.append("/");
    key.append(dv);
    key.append("/");
    key.append(pr.sub_path.as_str());
    proof {
        reveal_strlit("/");
    }
    assert(key@ =~= cache_key(pr@.0, pr@.1, pr@.2));
    if is_safe_path(key.as_str()) {
        Some(join_path(cache_root, key.as_str()))
    } else {
        None
    }
}

/// The upstream URL of a package file below `origin`.
pub fn upstream_url(origin: &str, pr: &PackageRef) -> (r: String)
    ensures
        r@ == upstream_url_of(origin@, pr@.0, pr@.1, pr@.2),
{
    let mut u = origin.to_owned();
    u.append(pr.name.as_str());
    u.append("@");
    u.append(pr.version.as_str());
    u.append("/");
    u.append(pr.sub_path.as_str());
    proof {
        reveal_strlit("@");
        reveal_strlit("/");
    }
    assert(u@ =~= upstream_url_of(origin@, pr@.0, pr@.1, pr@.2));
    u
}

/// The first step of a package request.
pub fn begin(cache_root: &str, pr: &PackageRef) -> (r: ProxyStep)
    ensures
        r@ == begin_view(cache_root@, pr@),
{
    match cache_file_path(cache_root, pr) {
        Some(p) => ProxyStep::CheckCache(p),
        None => ProxyStep::Respond(text_response(403, "Forbidden: Unsafe path")),
    }
}

/// The step after the containment test of the cache file `path`.
pub fn after_cache_check(pr: &PackageRef, enabled: bool, origin: &str, path: String, within: bool) -> (r:
    ProxyStep)
    ensures
        r@ == after_cache_check_view(pr@, enabled, origin@, path@, within),
{
    if within {
        ProxyStep::ReadCache(path)
    } else {
        after_cache_read(pr, enabled, origin, None)
    }
}

/// The step after the cache file was read (`Some` bytes) or was not there.
pub fn after_cache_read(pr: &PackageRef, enabled: bool, origin: &str, cached: Option<Vec<u8>>) -> (r:
    ProxyStep)
    ensures
        r@ == after_cache_read_view(
            pr@,
            enabled,
            origin@,
            match cached {
                Some(b) => Some(b@),
                None => None,
            },
        ),
{
    match cached {
        Some(b) => ProxyStep::Respond(
            HttpResponse { status: 200, content_type: content_type_for(pr.sub_path.as_str()), body: b },
        ),
        None => if enabled {
            ProxyStep::Fetch(upstream_url(origin, pr))
        } else {
            ProxyStep::Respond(text_response(503, "Proxy service not enabled"))
        },
    }
}

/// The status sent on for an upstream failure with status `code`.
pub fn relay_status(code: u16) -> (r: u16)
    ensures
        r == relayed_status(code),
{
    if 100 <= code && code <= 999 {
        code
    } else {
        500
    }
}

/// The step after the upstream GET answered, or failed.
pub fn after_send(sent: Result<(u16, String), String>) -> (r: ProxyStep)
    ensures
        r@ == after_send_view(
            match sent {
                Ok((c, t)) => Ok((c, t@)),
                Err(e) => Err(e@),
            },
        ),
{
    match sent {
        Err(e) => ProxyStep::Respond(text_response_with(500, "Download failed: ", e.as_str())),
        Ok((code, text)) => if 200 <= code && code <= 299 {
            ProxyStep::ReadBody
        } else {
            ProxyStep::Respond(
                text_response_with(relay_status(code), "unpkg returned error: ", text.as_str()),
            )
        },
    }
}

/// The step after the upstream body was read, or failed; `path` is the cache
/// file that `begin` named.
pub fn after_body(pr: &PackageRef, path: String, body: Result<Vec<u8>, String>) -> (r: ProxyStep)
    ensures
        r@ == after_body_view(
            pr@.2,
            path@,
            match body {
                Ok(b) => Ok(b@),
                Err(e) => Err(e@),
            },
        ),
{
    match body {
        Err(e) => ProxyStep::Respond(
            text_response_with(500, "Failed to read response: ", e.as_str()),
        ),
        Ok(b) => ProxyStep::PrepareStore {
            path,
            response: HttpResponse {
                status: 200,
                content_type: content_type_for(pr.sub_path.as_str()),
                body: b,
            },
        },
    }
}

/// The step after the containment test that precedes a write.
pub fn after_store_check(path: String, response: HttpResponse, within: bool) -> (r: ProxyStep)
    ensures
        r@ == after_store_check_view(path@, response@, within),
{
    if within {
        ProxyStep::Store { path, response }
    } else {
        ProxyStep::Respond(response)
    }
}

/// Round trip: the bytes that a miss fetches are written to the very file
/// that a later lookup of the same reference reads, and a hit serves the
/// bytes read back unchanged.
pub proof fn lemma_stored_bytes_read_back(
    root: Seq<char>,
    pr: (Seq<char>, Seq<char>, Seq<char>),
    path: Seq<char>,
    enabled: bool,
    origin: Seq<char>,
    fetched: Seq<u8>,
)
    requires
        begin_view(root, pr) == StepView::CheckCache(path),
    ensures
        after_body_view(pr.2, path, Ok(fetched)) matches StepView::PrepareStore {
            path: p,
            response: r,
        } && p == path && r.body == fetched && after_store_check_view(p, r, true)
            == (StepView::Store { path, response: r }),
        after_cache_check_view(pr, enabled, origin, path, true) == StepView::ReadCache(path),
        after_cache_read_view(pr, enabled, origin, Some(fetched)) matches StepView::Respond(r)
            && r.body == fetched,
{
}

/// Idempotence: once a fetch of a reference succeeded and was stored, a
/// second request for it reads the same cache file and answers with the
/// same status, content type and bytes, with no upstream request.
pub proof fn lemma_second_request_hits_cache(
    root: Seq<char>,
    pr: (Seq<char>, Seq<char>, Seq<char>),
    path: Seq<char>,
    enabled: bool,
    origin: Seq<char>,
    fetched: Seq<u8>,
)
    requires
        begin_view(root, pr) == StepView::CheckCache(path),
    ensures
        after_body_view(pr.2, path, Ok(fetched)) matches StepView::PrepareStore {
            path: p,
            response: first,
        } && begin_view(root, pr) == StepView::CheckCache(p) && after_cache_check_view(
            pr,
            enabled,
            origin,
            p,
            true,
        ) == StepView::ReadCache(p) && after_cache_read_view(pr, enabled, origin, Some(first.body))
            == StepView::Respond(first),
{
}

} // verus!
