use std::collections::HashMap;

use black_hole::index_page::{IndexSlot, IndexStep};
use black_hole::local::{after_containment, after_read, local_begin, LocalStep};
use black_hole::proxy::{
    after_body, after_cache_check, after_cache_read, after_send, after_store_check, begin,
    relay_status, ProxyStep,
};
use black_hole::response::HttpResponse;
use black_hole::route::{route, PackageRef, Route};

const ORIGIN: &str = "https://unpkg.com/";

/// A stand-in for the cache directory and the upstream registry.
struct World {
    disk: HashMap<String, Vec<u8>>,
    upstream: HashMap<String, (u16, String, Vec<u8>)>,
    fetched: Vec<String>,
    /// Paths that resolve outside the cache root, as a symlink would lead them.
    escaping: Vec<String>,
}

impl World {
    fn new() -> World {
        World {
            disk: HashMap::new(),
            upstream: HashMap::new(),
            fetched: Vec::new(),
            escaping: Vec::new(),
        }
    }

    /// Runs a package request through its steps as the server does.
    fn resolve(&mut self, pr: &PackageRef, enabled: bool) -> HttpResponse {
        let mut step = begin("cache", pr);
        let mut path = String::new();
        let mut body: Vec<u8> = Vec::new();
        loop {
            step = match step {
                ProxyStep::Respond(r) => return r,
                ProxyStep::CheckCache(p) => {
                    let within = p.starts_with("cache/") && !self.escaping.contains(&p);
                    path = p.clone();
                    after_cache_check(pr, enabled, ORIGIN, p, within)
                }
                ProxyStep::ReadCache(p) => {
                    after_cache_read(pr, enabled, ORIGIN, self.disk.get(&p).cloned())
                }
                ProxyStep::Fetch(url) => {
                    self.fetched.push(url.clone());
                    match self.upstream.get(&url) {
                        Some((code, text, b)) => {
                            body = b.clone();
                            after_send(Ok((*code, text.clone())))
                        }
                        None => after_send(Err("connection refused".to_string())),
                    }
                }
                ProxyStep::ReadBody => after_body(pr, path.clone(), Ok(body.clone())),
                ProxyStep::PrepareStore { path, response } => {
                    let within = path.starts_with("cache/") && !self.escaping.contains(&path);
                    after_store_check(path, response, within)
                }
                ProxyStep::Store { path, response } => {
                    self.disk.insert(path, response.body.clone());
                    return response;
                }
            };
        }
    }
}

fn package(path: &str) -> PackageRef {
    match route(path) {
        Route::Package(p) => p,
        Route::Local(_) => panic!("not a package reference: {}", path),
    }
}

/// Runs a local request through its steps over an in-memory static root.
fn serve_local(files: &HashMap<String, Vec<u8>>, raw: &str) -> HttpResponse {
    match local_begin("static", raw) {
        LocalStep::Respond(r) => r,
        LocalStep::CheckContainment(candidate) => {
            let within = candidate.starts_with("static/");
            match after_containment(candidate, within) {
                LocalStep::Respond(r) => r,
                LocalStep::Read(p) => after_read(raw, files.get(&p).cloned()),
                LocalStep::CheckContainment(_) => panic!("containment asked twice"),
            }
        }
        LocalStep::Read(_) => panic!("read before the containment test"),
    }
}

#[test]
fn local_file_is_served_with_its_type() {
    let mut files = HashMap::new();
    files.insert("static/foo/bar.js".to_string(), b"console.log(1);".to_vec());
    let r = match route("foo/bar.js") {
        Route::Local(p) => serve_local(&files, &p),
        Route::Package(_) => panic!("expected a local path"),
    };
    assert_eq!(r.status, 200);
    assert_eq!(r.content_type, "application/javascript");
    assert_eq!(r.body, b"console.log(1);".to_vec());
}

#[test]
fn traversal_is_forbidden() {
    let files = HashMap::new();
    let r = match route("../etc/passwd") {
        Route::Local(p) => serve_local(&files, &p),
        Route::Package(_) => panic!("expected a local path"),
    };
    assert_eq!(r.status, 403);
    assert_eq!(r.body, b"Forbidden: Unsafe path".to_vec());
}

#[test]
fn missing_local_file_is_not_found() {
    let files = HashMap::new();
    let r = serve_local(&files, "nope.css");
    assert_eq!(r.status, 404);
    assert_eq!(r.content_type, "text/plain; charset=utf-8");
    assert_eq!(r.body, b"File not found: nope.css".to_vec());
}

#[test]
fn escape_through_symlink_is_forbidden() {
    match after_containment("static/link/passwd".to_string(), false) {
        LocalStep::Respond(r) => {
            assert_eq!(r.status, 403);
            assert_eq!(r.body, b"Forbidden: Outside allowed directory range".to_vec());
        }
        other => panic!("unexpected step {:?}", other),
    }
}

#[test]
fn miss_fetches_once_and_stores() {
    let mut w = World::new();
    w.upstream.insert(
        "https://unpkg.com/lodash@4.17.21/lodash.js".to_string(),
        (200, "200 OK".to_string(), b"var _ = {};".to_vec()),
    );
    let pr = package("lodash@4.17.21/lodash.js");
    let r = w.resolve(&pr, true);
    assert_eq!(w.fetched, vec!["https://unpkg.com/lodash@4.17.21/lodash.js".to_string()]);
    assert_eq!(w.disk.get("cache/lodash/4.17.21/lodash.js"), Some(&b"var _ = {};".to_vec()));
    assert_eq!(r.status, 200);
    assert_eq!(r.content_type, "application/javascript");
    assert_eq!(r.body, b"var _ = {};".to_vec());
}

#[test]
fn repeat_request_is_served_from_cache() {
    let mut w = World::new();
    w.upstream.insert(
        "https://unpkg.com/lodash@4.17.21/lodash.js".to_string(),
        (200, "200 OK".to_string(), b"var _ = {};".to_vec()),
    );
    let pr = package("lodash@4.17.21/lodash.js");
    let first = w.resolve(&pr, true);
    let calls = w.fetched.len();
    let second = w.resolve(&pr, true);
    assert_eq!(w.fetched.len(), calls);
    assert_eq!(second.status, 200);
    assert_eq!(second.content_type, first.content_type);
    assert_eq!(second.body, first.body);
}

#[test]
fn disabled_proxy_miss_is_unavailable() {
    let mut w = World::new();
    let pr = package("@scope/pkg@1.0.0/index.js");
    let r = w.resolve(&pr, false);
    assert_eq!(r.status, 503);
    assert_eq!(r.body, b"Proxy service not enabled".to_vec());
    assert!(w.fetched.is_empty());
}

#[test]
fn disabled_proxy_still_serves_hits() {
    let mut w = World::new();
    w.disk.insert("cache/@scope/pkg/1.0.0/index.js".to_string(), b"x".to_vec());
    let r = w.resolve(&package("@scope/pkg@1.0.0/index.js"), false);
    assert_eq!(r.status, 200);
    assert_eq!(r.body, b"x".to_vec());
}

#[test]
fn dist_tag_keeps_at_upstream_and_drops_it_on_disk() {
    let mut w = World::new();
    w.upstream.insert(
        "https://unpkg.com/vue@@latest/dist/vue.json".to_string(),
        (200, "200 OK".to_string(), b"{}".to_vec()),
    );
    let r = w.resolve(&package("vue@@latest/dist/vue.json"), true);
    assert_eq!(r.status, 200);
    assert_eq!(r.content_type, "application/json");
    assert!(w.disk.contains_key("cache/vue/latest/dist/vue.json"));
}

#[test]
fn upstream_status_is_relayed() {
    let mut w = World::new();
    w.upstream.insert(
        "https://unpkg.com/nope@1.0.0/x.js".to_string(),
        (404, "404 Not Found".to_string(), Vec::new()),
    );
    let r = w.resolve(&package("nope@1.0.0/x.js"), true);
    assert_eq!(r.status, 404);
    assert_eq!(r.body, b"unpkg returned error: 404 Not Found".to_vec());
    assert!(w.disk.is_empty());
}

#[test]
fn transport_failure_is_internal_error() {
    let mut w = World::new();
    let r = w.resolve(&package("gone@1.0.0/x.js"), true);
    assert_eq!(r.status, 500);
    assert_eq!(r.body, b"Download failed: connection refused".to_vec());
}

#[test]
fn body_failure_is_internal_error() {
    let pr = package("a@1/b.js");
    match after_body(&pr, "cache/a/1/b.js".to_string(), Err("reset".to_string())) {
        ProxyStep::Respond(r) => {
            assert_eq!(r.status, 500);
            assert_eq!(r.body, b"Failed to read response: reset".to_vec());
        }
        other => panic!("unexpected step {:?}", other),
    }
}

#[test]
fn unrepresentable_status_becomes_500() {
    assert_eq!(relay_status(404), 404);
    assert_eq!(relay_status(999), 999);
    assert_eq!(relay_status(1000), 500);
    assert_eq!(relay_status(42), 500);
}

#[test]
fn package_path_that_leaves_the_cache_is_forbidden() {
    let mut w = World::new();
    let r = w.resolve(&package("lodash@4.17.21/../../secret"), true);
    assert_eq!(r.status, 403);
    let r = w.resolve(&package("lodash@4.17.21//etc/passwd"), true);
    assert_eq!(r.status, 403);
    let r = w.resolve(&package("lodash@@/x.js"), true);
    assert_eq!(r.status, 403);
    assert!(w.fetched.is_empty());
}

#[test]
fn index_is_read_once() {
    let mut slot = IndexSlot::new();
    let mut reads = 0;
    let mut serve = |slot: &mut IndexSlot| -> HttpResponse {
        match slot.lookup() {
            IndexStep::Respond(r) => r,
            IndexStep::ReadFile => {
                reads += 1;
                slot.after_read(Some("<h1>hi</h1>".to_string()))
            }
        }
    };
    let first = serve(&mut slot);
    let second = serve(&mut slot);
    assert_eq!(reads, 1);
    assert_eq!(first.status, 200);
    assert_eq!(first.content_type, "text/html; charset=utf-8");
    assert_eq!(first.body, b"<h1>hi</h1>".to_vec());
    assert_eq!(second.status, first.status);
    assert_eq!(second.body, first.body);
}

#[test]
fn missing_index_is_retried() {
    let mut slot = IndexSlot::new();
    let r = slot.after_read(None);
    assert_eq!(r.status, 404);
    assert_eq!(r.body, b"404 - index.html file not found".to_vec());
    assert!(matches!(slot.lookup(), IndexStep::ReadFile));
    let r = slot.after_read(Some("ok".to_string()));
    assert_eq!(r.status, 200);
    assert!(matches!(slot.lookup(), IndexStep::Respond(_)));
}

#[test]
fn filled_index_slot_is_never_replaced() {
    let mut slot = IndexSlot::new();
    slot.after_read(Some("first".to_string()));
    slot.after_read(Some("second".to_string()));
    match slot.lookup() {
        IndexStep::Respond(r) => assert_eq!(r.body, b"first".to_vec()),
        IndexStep::ReadFile => panic!("slot was emptied"),
    }
}

#[test]
fn cache_file_leading_outside_is_never_read_nor_written() {
    let mut w = World::new();
    let p = "cache/evil/1.0.0/x.js".to_string();
    w.disk.insert(p.clone(), b"outside".to_vec());
    w.escaping.push(p.clone());
    w.upstream.insert(
        "https://unpkg.com/evil@1.0.0/x.js".to_string(),
        (200, "200 OK".to_string(), b"fresh".to_vec()),
    );
    let r = w.resolve(&package("evil@1.0.0/x.js"), true);
    assert_eq!(r.status, 200);
    assert_eq!(r.body, b"fresh".to_vec());
    assert_eq!(w.disk.get(&p), Some(&b"outside".to_vec()));
    assert_eq!(w.fetched.len(), 1);
}

#[test]
fn cache_file_leading_outside_with_proxy_off_is_unavailable() {
    let mut w = World::new();
    let p = "cache/evil/1.0.0/x.js".to_string();
    w.disk.insert(p.clone(), b"outside".to_vec());
    w.escaping.push(p);
    let r = w.resolve(&package("evil@1.0.0/x.js"), false);
    assert_eq!(r.status, 503);
}
