//! The websocket upgrade endpoint served at `/ws`.
use vstd::prelude::*;
use vstd::utf8::encode_utf8;
use crate::encoding::{base64_encode, base64_text, lemma_base64_len, sha1, sha1_digest};
use crate::endpoints::{text_bytes, HttpReply, ReplyView, plain_reply};
use crate::text::concat_bytes;

verus! {

/// The bytes that RFC 6455 appends to the client's key before hashing.
pub open spec fn websocket_guid() -> Seq<u8> {
    encode_utf8("258EAFA5-E914-47DA-95CA-C5AB0DC85B11"@)
}

/// The `Sec-WebSocket-Accept` text for a `Sec-WebSocket-Key`: the base64
/// of the SHA-1 digest of the key followed by the websocket GUID.
pub open spec fn accept_text(key: Seq<u8>) -> Seq<char> {
    base64_text(sha1_digest(key + websocket_guid()))
}

/// Computes the `Sec-WebSocket-Accept` text for a key.
pub fn websocket_accept(key: &[u8]) -> (accept: String)
    ensures
        accept@ == accept_text(key@),
        accept@.len() == 28,
{
    let guid = text_bytes("258EAFA5-E914-47DA-95CA-C5AB0DC85B11");
    let input = concat_bytes(key, guid.as_slice());
    let digest = sha1(input.as_slice());
    accept_from_digest(digest.as_slice())
}

/// The accept text for a SHA-1 digest: its base64 text, which has 28
/// characters for a 20-byte digest.
pub fn accept_from_digest(digest: &[u8]) -> (accept: String)
    ensures
        accept@ == base64_text(digest@),
        digest@.len() == 20 ==> accept@.len() == 28,
{
    proof {
        lemma_base64_len(digest@);
    }
    base64_encode(digest)
}

/// The reply to a request that cannot be upgraded.
pub open spec fn bad_request() -> ReplyView {
    plain_reply(400, Seq::empty())
}

/// The reply that switches the connection to the websocket protocol.
pub open spec fn switching_protocols(key: Seq<u8>) -> ReplyView {
    switching_with(accept_text(key))
}

/// The 101 reply that carries the given accept text.
pub open spec fn switching_with(accept: Seq<char>) -> ReplyView {
    ReplyView {
        status: 101,
        headers: seq![
            ("upgrade"@, encode_utf8("websocket"@)),
            ("connection"@, encode_utf8("Upgrade"@)),
            ("sec-websocket-accept"@, encode_utf8(accept)),
        ],
        body: Seq::empty(),
    }
}

/// The 101 reply for an accept text.
pub fn switching_reply(accept: &str) -> (reply: HttpReply)
    ensures
        reply@ == switching_with(accept@),
{
    let mut reply = HttpReply::empty(101);
    reply.add_header("upgrade", text_bytes("websocket"));
    reply.add_header("connection", text_bytes("Upgrade"));
    reply.add_header("sec-websocket-accept", text_bytes(accept));
    assert(reply@.headers =~= switching_with(accept@).headers);
    reply
}

/// The reply of the `/ws` endpoint. `has_upgrade` tells whether the request
/// has an `Upgrade` header, `websocket_key` holds the value of its
/// `Sec-WebSocket-Key` header if it has one. A 101 reply means that the
/// connection is to be upgraded.
pub fn handler(has_upgrade: bool, websocket_key: Option<&[u8]>) -> (reply: HttpReply)
    ensures
        reply@ == (match websocket_key {
            Some(key) if has_upgrade => switching_protocols(key@),
            _ => bad_request(),
        }),
        (has_upgrade && websocket_key is Some) ==> accept_text(websocket_key->0@).len() == 28,
{
    if !has_upgrade {
        return HttpReply::empty(400);
    }
    match websocket_key {
        None => HttpReply::empty(400),
        Some(key) => {
            let accept = websocket_accept(key);
            switching_reply(accept.as_str())
        },
    }
}

/// The `/ws` endpoint switches protocols with exactly three headers, each
/// named once: `upgrade: websocket`, `connection: Upgrade`, and
/// `sec-websocket-accept` carrying the accept value of the key; its body is
/// empty.
pub proof fn lemma_switching_reply_headers(key: Seq<u8>)
    ensures
        switching_protocols(key).status == 101,
        switching_protocols(key).headers.len() == 3,
        forall|i: int, j: int|
            0 <= i < j < 3 ==> (#[trigger] switching_protocols(key).headers[i]).0 != (
            #[trigger] switching_protocols(key).headers[j]).0,
        switching_protocols(key).headers.contains(("upgrade"@, encode_utf8("websocket"@))),
        switching_protocols(key).headers.contains(("connection"@, encode_utf8("Upgrade"@))),
        switching_protocols(key).headers.contains(
            ("sec-websocket-accept"@, encode_utf8(accept_text(key))),
        ),
        switching_protocols(key).body.len() == 0,
{
    reveal_strlit("connection");
    reveal_strlit("upgrade");
    reveal_strlit("sec-websocket-accept");
    let h = switching_protocols(key).headers;
    assert(h[0].0.len() == 7 && h[1].0.len() == 10 && h[2].0.len() == 20);
    assert(h[0] == ("upgrade"@, encode_utf8("websocket"@)));
    assert(h[1] == ("connection"@, encode_utf8("Upgrade"@)));
    assert(h[2] == ("sec-websocket-accept"@, encode_utf8(accept_text(key))));
}

/// Without an `Upgrade` header or a key, `/ws` answers 400 with no headers
/// and an empty body.
pub proof fn lemma_bad_request_reply()
    ensures
        bad_request().status == 400,
        bad_request().headers.len() == 0,
        bad_request().body.len() == 0,
{
}

} // verus!
