//! The local static handler, one step at a time: validate the path, have the
//! caller resolve the joined path against the root, have it read the file,
//! answer.
use vstd::prelude::*;
use crate::content_type::{content_type_for, content_type_of};
use crate::path_safety::{is_safe_path, is_safe_relative, join_path, joined};
use crate::response::{HttpResponse, ResponseView, ok_view, text_response, text_response_with, text_view};

verus! {

/// What the caller does next for a local file request.
#[derive(Debug)]
pub enum LocalStep {
    /// Send this response; the request is done.
    Respond(HttpResponse),
    /// Resolve this path and the static root on the filesystem, test the
    /// first against the second with `is_within_resolved`, and hand the
    /// verdict to `after_containment`.
    CheckContainment(String),
    /// Read the file at this path and hand the bytes to `after_read`.
    Read(String),
}

/// The mathematical value of a `LocalStep`.
pub enum LocalStepView {
    Respond(ResponseView),
    CheckContainment(Seq<char>),
    Read(Seq<char>),
}

impl View for LocalStep {
    type V = LocalStepView;

    open spec fn view(&self) -> LocalStepView {
        match self {
            LocalStep::Respond(r) => LocalStepView::Respond(r@),
            LocalStep::CheckContainment(p) => LocalStepView::CheckContainment(p@),
            LocalStep::Read(p) => LocalStepView::Read(p@),
        }
    }
}

/// The first step: an unsafe path is refused before anything is joined.
pub open spec fn local_begin_view(root: Seq<char>, raw: Seq<char>) -> LocalStepView {
    if is_safe_relative(raw) {
        LocalStepView::CheckContainment(joined(root, raw))
    } else {
        LocalStepView::Respond(text_view(403, "Forbidden: Unsafe path"@))
    }
}

/// After the containment test: only a path within the root is read.
pub open spec fn after_containment_view(candidate: Seq<char>, within: bool) -> LocalStepView {
    if within {
        LocalStepView::Read(candidate)
    } else {
        LocalStepView::Respond(text_view(403, "Forbidden: Outside allowed directory range"@))
    }
}

/// After the read: the file's bytes, or not found.
pub open spec fn after_read_view(raw: Seq<char>, content: Option<Seq<u8>>) -> ResponseView {
    match content {
        Some(b) => ok_view(content_type_of(raw), b),
        None => text_view(404, "File not found: "@ + raw),
    }
}

/// The first step of a request for `raw` below `static_root`.
pub fn local_begin(static_root: &str, raw: &str) -> (r: LocalStep)
    ensures
        r@ == local_begin_view(static_root@, raw@),
{
    if is_safe_path(raw) {
        LocalStep::CheckContainment(join_path(static_root, raw))
    } else {
        LocalStep::Respond(text_response(403, "Forbidden: Unsafe path"))
    }
}

/// The step after the containment test on `candidate`.
pub fn after_containment(candidate: String, within: bool) -> (r: LocalStep)
    ensures
        r@ == after_containment_view(candidate@, within),
{
    if within {
        LocalStep::Read(candidate)
    } else {
        LocalStep::Respond(text_response(403, "Forbidden: Outside allowed directory range"))
    }
}

/// The answer once the file for `raw` was read (`Some` bytes) or could not be.
pub fn after_read(raw: &str, content: Option<Vec<u8>>) -> (r: HttpResponse)
    ensures
        r@ == after_read_view(
            raw@,
            match content {
                Some(b) => Some(b@),
                None => None,
            },
        ),
{
    match content {
        Some(b) => HttpResponse { status: 200, content_type: content_type_for(raw), body: b },
        None => text_response_with(404, "File not found: ", raw),
    }
}

} // verus!
