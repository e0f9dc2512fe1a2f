//! The generic websocket upgrade: recognising an upgradable request and
//! answering it.
use vstd::prelude::*;
use vstd::utf8::encode_utf8;
use headers::Header;
use crate::endpoints::connect_ws::accept_text;
use crate::endpoints::{text_bytes, HttpReply, ReplyView, plain_reply};
use crate::text::{bytes_equal, bytes_to_vec, trim};

verus! {

/// `Some(())` when the condition holds, `None` otherwise.
pub fn some(cond: bool) -> (r: Option<()>)
    ensures
        r is Some <==> cond,
{
    if cond {
        Some(())
    } else {
        None
    }
}

/// Whether a header byte is visible ASCII or a tab: the bytes that
/// `headers::HeaderValue::to_str` accepts (http 0.2, re-exported by headers).
pub open spec fn visible_ascii(b: u8) -> bool {
    (32 <= b && b < 127) || b == 9
}

/// The characters of header bytes that are all ASCII.
pub open spec fn header_chars(value: Seq<u8>) -> Seq<char> {
    Seq::new(value.len(), |i: int| value[i] as char)
}

/// The items of a comma-separated header value before trimming, as
/// `headers`' `FlatCsv::iter` splits it: a comma ends an item, except
/// between double quotes. `current` is the item being read, `in_quotes`
/// whether a quote is open.
pub open spec fn csv_items(s: Seq<char>, in_quotes: bool, current: Seq<char>) -> Seq<Seq<char>>
    decreases s.len(),
{
    if s.len() == 0 {
        seq![current]
    } else if in_quotes {
        csv_items(s.drop_first(), s[0] != '"', current.push(s[0]))
    } else if s[0] == ',' {
        seq![current] + csv_items(s.drop_first(), false, Seq::empty())
    } else {
        csv_items(s.drop_first(), s[0] == '"', current.push(s[0]))
    }
}

/// A character in ASCII lower case.
pub open spec fn ascii_lower(c: char) -> char {
    if 'A' <= c && c <= 'Z' {
        ((c as u32) + 32) as char
    } else {
        c
    }
}

/// Whether two texts are equal without regard to ASCII case.
pub open spec fn eq_ignore_ascii_case(a: Seq<char>, b: Seq<char>) -> bool {
    &&& a.len() == b.len()
    &&& forall|i: int| 0 <= i < a.len() ==> ascii_lower(#[trigger] a[i]) == ascii_lower(b[i])
}

/// Whether the `Connection` header value lists the given connection option,
/// as `headers::Connection::contains` decides it: the value is visible
/// ASCII (else it has no items), and one of its comma-separated items,
/// trimmed, equals the option without regard to ASCII case.
pub open spec fn connection_lists(value: Seq<u8>, option: Seq<char>) -> bool {
    let items = csv_items(header_chars(value), false, Seq::empty());
    &&& forall|i: int| 0 <= i < value.len() ==> visible_ascii(#[trigger] value[i])
    &&& exists|k: int| 0 <= k < items.len() && eq_ignore_ascii_case(trim(#[trigger] items[k]), option)
}

/// Text without commas or double quotes continues the current item to
/// the end.
proof fn lemma_csv_plain(s: Seq<char>, current: Seq<char>)
    requires
        forall|i: int| 0 <= i < s.len() ==> #[trigger] s[i] != ',' && s[i] != '"',
    ensures
        csv_items(s, false, current) == seq![current + s],
    decreases s.len(),
{
    if s.len() == 0 {
        assert(current + s =~= current);
    } else {
        lemma_csv_plain(s.drop_first(), current.push(s[0]));
        assert(current.push(s[0]) + s.drop_first() =~= current + s);
    }
}

/// A `Connection` value of visible ASCII without commas or quotes holds one
/// item: it lists an option exactly when, trimmed, it equals the option
/// without regard to ASCII case.
pub proof fn lemma_single_option(value: Seq<u8>, option: Seq<char>)
    requires
        forall|i: int| 0 <= i < value.len() ==> visible_ascii(#[trigger] value[i]),
        forall|i: int| 0 <= i < value.len() ==> #[trigger] value[i] != 44 && value[i] != 34,
    ensures
        connection_lists(value, option) == eq_ignore_ascii_case(trim(header_chars(value)), option),
{
    let c = header_chars(value);
    assert forall|i: int| 0 <= i < c.len() implies #[trigger] c[i] != ',' && c[i] != '"' by {
        assert(value[i] != 44 && value[i] != 34);
        assert(c[i] == value[i] as char);
    }
    lemma_csv_plain(c, Seq::empty());
    assert(Seq::<char>::empty() + c =~= c);
    let items = csv_items(c, false, Seq::empty());
    assert(items[0] == c);
    if eq_ignore_ascii_case(trim(c), option) {
        assert(eq_ignore_ascii_case(trim(items[0]), option));
    }
}

/// `headers::HeaderValue::from_bytes`, `headers::Connection::decode` on that
/// one value, then `Connection::contains(option)` (headers 0.3.9,
/// `common/connection.rs` and `util/flat_csv.rs`). The contract claims the
/// result that `connection_lists` states: `contains` walks the items of
/// `FlatCsv::iter`, which yields nothing unless `to_str` accepts the value,
/// splits on commas outside double quotes and trims each item, and compares
/// each with `eq_ignore_ascii_case`. Bytes that `from_bytes` refuses are
/// not visible ASCII, so they list no option either.
#[verifier::external_body]
fn connection_contains(value: &[u8], option: &str) -> (listed: bool)
    ensures
        listed == connection_lists(value@, option@),
{
    let value = match headers::HeaderValue::from_bytes(value) {
        Ok(v) => v,
        Err(_) => return false,
    };
    match headers::Connection::decode(&mut std::iter::once(&value)) {
        Ok(connection) => connection.contains(option),
        Err(_) => false,
    }
}

/// Whether every byte may stand in a header value
/// (`headers::HeaderValue::from_bytes` accepts it).
pub open spec fn valid_header_value(bytes: Seq<u8>) -> bool {
    forall|i: int| 0 <= i < bytes.len() ==> (#[trigger] bytes[i] >= 32 && bytes[i] != 127) || bytes[i] == 9
}

/// `headers::SecWebsocketAccept::from` on the key decoded from the given
/// header value, then encoded as a header value. Its source (headers 0.3,
/// `sign`) hashes the key's bytes followed by the websocket GUID with
/// `sha1::Sha1` and encodes the digest with base64's standard engine; the
/// contract claims exactly that result. The key must be a valid header value.
#[verifier::external_body]
fn headers_accept(key: &[u8]) -> (accept: Vec<u8>)
    requires
        valid_header_value(key@),
    ensures
        accept@ == encode_utf8(accept_text(key@)),
{
    let value = headers::HeaderValue::from_bytes(key).expect("a valid header value");
    let key = headers::SecWebsocketKey::decode(&mut std::iter::once(&value)).expect(
        "one value decodes as a key",
    );
    let mut values: Vec<headers::HeaderValue> = Vec::new();
    headers::SecWebsocketAccept::from(key).encode(&mut values);
    values[0].as_bytes().to_vec()
}

/// The key of a request that asks for a websocket upgrade: the request's
/// `Connection` header lists `upgrade`, its `Upgrade` header is exactly
/// `websocket`, its `Sec-WebSocket-Version` is exactly `13`, and it has a
/// `Sec-WebSocket-Key`, whose value is the result.
pub open spec fn upgradable_key(
    connection: Option<Seq<u8>>,
    upgrade: Option<Seq<u8>>,
    version: Option<Seq<u8>>,
    key: Option<Seq<u8>>,
) -> Option<Seq<u8>> {
    match connection {
        Some(c) => key_when(connection_lists(c, "upgrade"@), upgrade, version, key),
        None => None,
    }
}

/// The key, once it is known whether the `Connection` header lists
/// `upgrade`.
pub open spec fn key_when(
    upgrade_listed: bool,
    upgrade: Option<Seq<u8>>,
    version: Option<Seq<u8>>,
    key: Option<Seq<u8>>,
) -> Option<Seq<u8>> {
    if upgrade_listed && upgrade == Some(encode_utf8("websocket"@)) && version == Some(
        encode_utf8("13"@),
    ) {
        key
    } else {
        None
    }
}

/// The view of an optional header value.
pub open spec fn opt_bytes(v: Option<&[u8]>) -> Option<Seq<u8>> {
    match v {
        Some(b) => Some(b@),
        None => None,
    }
}

/// Finds the websocket key of an upgradable request. Each argument is the
/// (first) value of the request header of that name, if there is one.
pub fn extract_upgradable_key(
    connection: Option<&[u8]>,
    upgrade: Option<&[u8]>,
    version: Option<&[u8]>,
    key: Option<&[u8]>,
) -> (found: Option<Vec<u8>>)
    ensures
        opt_vec(found) == upgradable_key(
            opt_bytes(connection),
            opt_bytes(upgrade),
            opt_bytes(version),
            opt_bytes(key),
        ),
{
    let conn = match connection {
        Some(c) => c,
        None => return None,
    };
    upgradable_key_when(connection_contains(conn, "upgrade"), upgrade, version, key)
}

/// The rest of the test, once it is known whether the `Connection`
/// header lists `upgrade`.
pub fn upgradable_key_when(
    upgrade_listed: bool,
    upgrade: Option<&[u8]>,
    version: Option<&[u8]>,
    key: Option<&[u8]>,
) -> (found: Option<Vec<u8>>)
    ensures
        opt_vec(found) == key_when(
            upgrade_listed,
            opt_bytes(upgrade),
            opt_bytes(version),
            opt_bytes(key),
        ),
{
    if some(upgrade_listed).is_none() {
        return None;
    }
    let up = match upgrade {
        Some(u) => u,
        None => return None,
    };
    let websocket = text_bytes("websocket");
    if some(bytes_equal(up, websocket.as_slice())).is_none() {
        return None;
    }
    let ver = match version {
        Some(v) => v,
        None => return None,
    };
    let thirteen = text_bytes("13");
    if some(bytes_equal(ver, thirteen.as_slice())).is_none() {
        return None;
    }
    match key {
        Some(k) => Some(bytes_to_vec(k)),
        None => None,
    }
}

/// The view of an optional byte vector.
pub open spec fn opt_vec(v: Option<Vec<u8>>) -> Option<Seq<u8>> {
    match v {
        Some(b) => Some(b@),
        None => None,
    }
}

/// The reply to a request that is not a websocket upgrade.
pub open spec fn not_websocket() -> ReplyView {
    plain_reply(400, "BAD REQUEST: The request is not websocket"@)
}

/// The reply that accepts a websocket upgrade for the given key.
pub open spec fn upgrade_accepted(key: Seq<u8>) -> ReplyView {
    accepted_with(encode_utf8(accept_text(key)))
}

/// The 101 reply that carries the given accept value.
pub open spec fn accepted_with(accept: Seq<u8>) -> ReplyView {
    ReplyView {
        status: 101,
        headers: seq![
            ("connection"@, encode_utf8("upgrade"@)),
            ("upgrade"@, encode_utf8("websocket"@)),
            ("sec-websocket-accept"@, accept),
        ],
        body: Seq::empty(),
    }
}

/// The 101 reply for an accept value.
pub fn accepted_reply(accept: Vec<u8>) -> (reply: HttpReply)
    ensures
        reply@ == accepted_with(accept@),
{
    let ghost a = accept@;
    let mut reply = HttpReply::empty(101);
    reply.add_header("connection", text_bytes("upgrade"));
    reply.add_header("upgrade", text_bytes("websocket"));
    reply.add_header("sec-websocket-accept", accept);
    assert(reply@.headers =~= accepted_with(a).headers);
    reply
}

/// The reply to a request whose upgradable key, if any, is given: a 400
/// without a key, else a 101 that switches to the websocket protocol.
pub fn upgrade_reply(sec_key: Option<&[u8]>) -> (reply: HttpReply)
    requires
        sec_key matches Some(k) ==> valid_header_value(k@),
    ensures
        reply@ == (match sec_key {
            Some(k) => upgrade_accepted(k@),
            None => not_websocket(),
        }),
{
    match sec_key {
        None => HttpReply::with_body(400, "BAD REQUEST: The request is not websocket".to_owned()),
        Some(k) => {
            accepted_reply(headers_accept(k))
        },
    }
}

/// The generic upgrade and the `/ws` endpoint answer the same key with the
/// same `Sec-WebSocket-Accept` value and the same status.
pub proof fn lemma_handshakes_agree(key: Seq<u8>)
    ensures
        upgrade_accepted(key).status == crate::endpoints::connect_ws::switching_protocols(key).status,
        upgrade_accepted(key).headers[2] == crate::endpoints::connect_ws::switching_protocols(
            key,
        ).headers[2],
{
}

/// The reply to an upgradable request switches protocols with exactly three
/// headers, each named once: `connection: upgrade`, `upgrade: websocket`,
/// and `sec-websocket-accept` carrying the accept value of the key; its body
/// is empty.
pub proof fn lemma_accepted_reply_headers(key: Seq<u8>)
    ensures
        upgrade_accepted(key).status == 101,
        upgrade_accepted(key).headers.len() == 3,
        forall|i: int, j: int|
            0 <= i < j < 3 ==> (#[trigger] upgrade_accepted(key).headers[i]).0 != (
            #[trigger] upgrade_accepted(key).headers[j]).0,
        upgrade_accepted(key).headers.contains(("connection"@, encode_utf8("upgrade"@))),
        upgrade_accepted(key).headers.contains(("upgrade"@, encode_utf8("websocket"@))),
        upgrade_accepted(key).headers.contains(
            ("sec-websocket-accept"@, encode_utf8(accept_text(key))),
        ),
        upgrade_accepted(key).body.len() == 0,
{
    reveal_strlit("connection");
    reveal_strlit("upgrade");
    reveal_strlit("sec-websocket-accept");
    let h = upgrade_accepted(key).headers;
    assert(h[0].0.len() == 10 && h[1].0.len() == 7 && h[2].0.len() == 20);
    assert(h[0] == ("connection"@, encode_utf8("upgrade"@)));
    assert(h[1] == ("upgrade"@, encode_utf8("websocket"@)));
    assert(h[2] == ("sec-websocket-accept"@, encode_utf8(accept_text(key))));
}

/// A request yields a key only when its `Connection` header lists
/// `upgrade`, its `Upgrade` header is exactly `websocket` and its
/// `Sec-WebSocket-Version` is exactly `13`; the key is then its
/// `Sec-WebSocket-Key` value, unchanged. A request without a key, or without
/// a `Connection` header, yields none.
pub proof fn lemma_upgradable_key_conditions(
    connection: Option<Seq<u8>>,
    upgrade: Option<Seq<u8>>,
    version: Option<Seq<u8>>,
    key: Option<Seq<u8>>,
)
    ensures
        upgradable_key(connection, upgrade, version, key) is Some <==> (connection matches Some(c)
            && connection_lists(c, "upgrade"@) && upgrade == Some(encode_utf8("websocket"@))
            && version == Some(encode_utf8("13"@)) && key is Some),
        upgradable_key(connection, upgrade, version, key) is Some ==> upgradable_key(
            connection,
            upgrade,
            version,
            key,
        ) == key,
{
}

/// A request that is not upgradable is answered 400 with the fixed text and
/// no headers.
pub proof fn lemma_not_websocket_reply()
    ensures
        not_websocket().status == 400,
        not_websocket().headers.len() == 0,
        not_websocket().body == "BAD REQUEST: The request is not websocket"@,
{
}

} // verus!
