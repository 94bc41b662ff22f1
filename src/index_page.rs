//! The landing-page slot: filled once from the landing-page file, then
//! served from memory for the rest of the process.
use vstd::prelude::*;
use vstd::utf8::encode_utf8;
use crate::response::{HttpResponse, ResponseView, text_response, text_view};

verus! {

/// The content type of the landing page.
pub const HTML_UTF8: &'static str = "text/html; charset=utf-8";

/// The landing page served with `content`.
pub open spec fn index_view(content: Seq<char>) -> ResponseView {
    ResponseView { status: 200, content_type: HTML_UTF8@, body: encode_utf8(content) }
}

/// The answer when the landing page cannot be read.
pub open spec fn index_missing_view() -> ResponseView {
    text_view(404, "404 - index.html file not found"@)
}

/// What the caller does for a request of the landing page.
#[derive(Debug)]
pub enum IndexStep {
    /// Send this response, taken from the slot.
    Respond(HttpResponse),
    /// Read the landing-page file and hand the outcome to `IndexSlot::after_read`.
    ReadFile,
}

/// The process-wide slot for the landing page: empty at start, written at
/// most once.
pub struct IndexSlot {
    content: Option<String>,
}

impl View for IndexSlot {
    type V = Option<Seq<char>>;

    closed spec fn view(&self) -> Option<Seq<char>> {
        match self.content {
            Some(c) => Some(c@),
            None => None,
        }
    }
}

/// The slot after a read of the landing page: filled with what was read
/// where it was empty, otherwise as it was.
pub open spec fn slot_after_read(slot: Option<Seq<char>>, read: Option<Seq<char>>) -> Option<
    Seq<char>,
> {
    match slot {
        Some(c) => Some(c),
        None => read,
    }
}

/// The landing page served with `content`.
pub fn index_response(content: &str) -> (r: HttpResponse)
    ensures
        r@ == index_view(content@),
{
    HttpResponse { status: 200, content_type: HTML_UTF8.to_owned(), body: content.as_bytes_vec() }
}

impl IndexSlot {
    /// An empty slot.
    pub fn new() -> (r: IndexSlot)
        ensures
            r@ is None,
    {
        IndexSlot { content: None }
    }

    /// The first step of a landing-page request: served from the slot when it
    /// is filled, read from the file otherwise.
    pub fn lookup(&self) -> (r: IndexStep)
        ensures
            match lookup_view(self@) {
                Some(v) => r matches IndexStep::Respond(resp) && resp@ == v,
                None => r is ReadFile,
            },
    {
        match &self.content {
            Some(c) => IndexStep::Respond(index_response(c.as_str())),
            None => IndexStep::ReadFile,
        }
    }

    /// The answer once the landing-page file was read (`Some` text) or could
    /// not be. A read fills an empty slot; a failure is not remembered, so
    /// the next request reads again; a filled slot is never changed.
    pub fn after_read(&mut self, read: Option<String>) -> (r: HttpResponse)
        ensures
            final(self)@ == slot_after_read(
                old(self)@,
                match read {
                    Some(c) => Some(c@),
                    None => None,
                },
            ),
            match read {
                Some(c) => r@ == index_view(c@),
                None => r@ == index_missing_view(),
            },
    {
        match read {
            Some(c) => {
                let r = index_response(c.as_str());
                if self.content.is_none() {
                    self.content = Some(c);
                }
                r
            },
            None => text_response(404, "404 - index.html file not found"),
        }
    }
}

/// What a lookup in the slot answers: the stored page, or `None` where the
/// file must be read.
pub open spec fn lookup_view(slot: Option<Seq<char>>) -> Option<ResponseView> {
    match slot {
        Some(c) => Some(index_view(c)),
        None => None,
    }
}

/// A landing page that was read once is served again, the same, without
/// another read; and a filled slot keeps its page whatever a later read
/// brings.
pub proof fn lemma_index_served_from_slot(slot: Option<Seq<char>>, read: Seq<char>, later: Option<Seq<char>>)
    ensures
        slot is None ==> lookup_view(slot_after_read(slot, Some(read))) == Some(index_view(read)),
        slot is Some ==> slot_after_read(slot, later) == slot,
        slot_after_read(slot, Some(read)) is Some ==> slot_after_read(
            slot_after_read(slot, Some(read)),
            later,
        ) == slot_after_read(slot, Some(read)),
{
}

} // verus!
