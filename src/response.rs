//! What a handler answers: a status, a content type and a body.
use vstd::prelude::*;
use vstd::utf8::encode_utf8;

verus! {

/// The content type of the plain-text bodies that describe errors.
pub const TEXT_PLAIN: &'static str = "text/plain; charset=utf-8";

/// An HTTP response as the handlers decide it.
#[derive(Debug)]
pub struct HttpResponse {
    pub status: u16,
    pub content_type: String,
    pub body: Vec<u8>,
}

/// The mathematical value of an `HttpResponse`.
pub struct ResponseView {
    pub status: u16,
    pub content_type: Seq<char>,
    pub body: Seq<u8>,
}

impl View for HttpResponse {
    type V = ResponseView;

    open spec fn view(&self) -> ResponseView {
        ResponseView { status: self.status, content_type: self.content_type@, body: self.body@ }
    }
}

/// A response with status `status` and the UTF-8 text `msg` as its body.
pub open spec fn text_view(status: u16, msg: Seq<char>) -> ResponseView {
    ResponseView { status, content_type: TEXT_PLAIN@, body: encode_utf8(msg) }
}

/// A successful response that carries `body` as `content_type`.
pub open spec fn ok_view(content_type: Seq<char>, body: Seq<u8>) -> ResponseView {
    ResponseView { status: 200, content_type, body }
}

/// A plain-text response.
pub fn text_response(status: u16, msg: &str) -> (r: HttpResponse)
    ensures
        r@ == text_view(status, msg@),
{
    HttpResponse { status, content_type: TEXT_PLAIN.to_owned(), body: msg.as_bytes_vec() }
}

/// A plain-text response whose body is `prefix` followed by `detail`.
pub fn text_response_with(status: u16, prefix: &str, detail: &str) -> (r: HttpResponse)
    ensures
        r@ == text_view(status, prefix@ + detail@),
{
    let mut msg = prefix.to_owned();
    msg.append(detail);
    text_response(status, msg.as_str())
}

} // verus!
