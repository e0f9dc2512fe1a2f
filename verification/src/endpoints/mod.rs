//! The HTTP endpoints, each reduced to the reply it computes from the
//! plain values of the request.
pub mod config;
pub mod connect_ws;
pub mod give_client;
pub mod not_found;
pub mod post_ngc_file;
pub mod serve_static;
pub mod upgrade;
pub mod websocketerror;

use vstd::prelude::*;
use vstd::string::StrSliceExecFns;

verus! {

/// One response header: its name and the bytes of its value.
pub struct HeaderLine {
    pub name: String,
    pub value: Vec<u8>,
}

/// A response: status code, headers in the order they are set, and body.
pub struct HttpReply {
    pub status: u16,
    pub headers: Vec<HeaderLine>,
    pub body: String,
}

/// The abstract content of a reply.
pub struct ReplyView {
    pub status: u16,
    pub headers: Seq<(Seq<char>, Seq<u8>)>,
    pub body: Seq<char>,
}

impl View for HttpReply {
    type V = ReplyView;

    open spec fn view(&self) -> ReplyView {
        ReplyView {
            status: self.status,
            headers: self.headers@.map_values(|h: HeaderLine| (h.name@, h.value@)),
            body: self.body@,
        }
    }
}

/// A reply with the given status, no headers and the given body.
pub open spec fn plain_reply(status: u16, body: Seq<char>) -> ReplyView {
    ReplyView { status, headers: Seq::empty(), body }
}

impl HttpReply {
    /// A reply with the given status and body and no headers.
    pub fn with_body(status: u16, body: String) -> (r: HttpReply)
        ensures
            r@ == plain_reply(status, body@),
    {
        let r = HttpReply { status, headers: Vec::new(), body };
        assert(r@.headers =~= Seq::<(Seq<char>, Seq<u8>)>::empty());
        r
    }

    /// A reply with the given status, no headers and an empty body.
    pub fn empty(status: u16) -> (r: HttpReply)
        ensures
            r@ == plain_reply(status, Seq::empty()),
    {
        HttpReply::with_body(status, String::new())
    }

    /// Appends a header.
    pub fn add_header(&mut self, name: &str, value: Vec<u8>)
        ensures
            final(self)@ == (ReplyView {
                headers: old(self)@.headers.push((name@, value@)),
                ..old(self)@
            }),
    {
        let ghost before = self.headers@;
        self.headers.push(HeaderLine { name: name.to_owned(), value });
        assert(self.headers@.map_values(|h: HeaderLine| (h.name@, h.value@)) =~= before.map_values(
            |h: HeaderLine| (h.name@, h.value@),
        ).push((name@, value@)));
    }
}

/// The bytes of a text (its UTF-8 encoding), as `str::as_bytes` gives them.
pub fn text_bytes(s: &str) -> (b: Vec<u8>)
    ensures
        b@ == vstd::utf8::encode_utf8(s@),
{
    s.as_bytes_vec()
}

} // verus!
