use lcnc_web::endpoints::connect_ws::{accept_from_digest, handler, websocket_accept};
use lcnc_web::endpoints::upgrade::{extract_upgradable_key, some, upgrade_reply, upgradable_key_when};
use lcnc_web::endpoints::websocketerror::WebsocketError;
use lcnc_web::endpoints::HttpReply;

const KEY: &[u8] = b"dGhlIHNhbXBsZSBub25jZQ==";
const ACCEPT: &str = "s3pPLMBiTxaQ9kYGzzhZRbK+xOo=";

fn header<'a>(reply: &'a HttpReply, name: &str) -> Option<&'a [u8]> {
    reply.headers.iter().find(|h| h.name == name).map(|h| h.value.as_slice())
}

#[test]
fn accept_matches_rfc_example() {
    assert_eq!(websocket_accept(KEY), ACCEPT);
}

#[test]
fn accept_has_28_characters() {
    assert_eq!(websocket_accept(b"").len(), 28);
    assert_eq!(websocket_accept(b"another key").len(), 28);
}

#[test]
fn base64_of_digest_pads() {
    assert_eq!(accept_from_digest(b"hello"), "aGVsbG8=");
    assert_eq!(accept_from_digest(b"hell"), "aGVsbA==");
    assert_eq!(accept_from_digest(b"hel"), "aGVs");
    assert_eq!(accept_from_digest(b""), "");
}

#[test]
fn connect_ws_switches_protocols() {
    let reply = handler(true, Some(KEY));
    assert_eq!(reply.status, 101);
    assert_eq!(reply.headers.len(), 3);
    assert_eq!(reply.headers[0].name, "upgrade");
    assert_eq!(header(&reply, "upgrade"), Some(&b"websocket"[..]));
    assert_eq!(header(&reply, "connection"), Some(&b"Upgrade"[..]));
    assert_eq!(header(&reply, "sec-websocket-accept"), Some(ACCEPT.as_bytes()));
    assert_eq!(reply.body, "");
}

#[test]
fn connect_ws_without_upgrade_is_bad_request() {
    let reply = handler(false, Some(KEY));
    assert_eq!(reply.status, 400);
    assert!(reply.headers.is_empty());
    assert_eq!(reply.body, "");
}

#[test]
fn connect_ws_without_key_is_bad_request() {
    let reply = handler(true, None);
    assert_eq!(reply.status, 400);
    assert!(reply.headers.is_empty());
}

#[test]
fn upgrade_reply_accepts_key() {
    let reply = upgrade_reply(Some(KEY));
    assert_eq!(reply.status, 101);
    assert_eq!(reply.headers[0].name, "connection");
    assert_eq!(header(&reply, "connection"), Some(&b"upgrade"[..]));
    assert_eq!(header(&reply, "upgrade"), Some(&b"websocket"[..]));
    assert_eq!(header(&reply, "sec-websocket-accept"), Some(ACCEPT.as_bytes()));
}

#[test]
fn both_handshakes_agree() {
    for key in [&b"abc"[..], KEY, b"x"] {
        let a = handler(true, Some(key));
        let b = upgrade_reply(Some(key));
        assert_eq!(header(&a, "sec-websocket-accept"), header(&b, "sec-websocket-accept"));
    }
}

#[test]
fn upgrade_reply_without_key_is_bad_request() {
    let reply = upgrade_reply(None);
    assert_eq!(reply.status, 400);
    assert_eq!(reply.body, "BAD REQUEST: The request is not websocket");
}

#[test]
fn upgradable_request_gives_key() {
    let key = extract_upgradable_key(Some(b"Upgrade"), Some(b"websocket"), Some(b"13"), Some(KEY));
    assert_eq!(key.as_deref(), Some(KEY));
    let key = extract_upgradable_key(Some(b"keep-alive, upgrade"), Some(b"websocket"), Some(b"13"), Some(KEY));
    assert_eq!(key.as_deref(), Some(KEY));
}

#[test]
fn connection_items_are_trimmed_and_case_insensitive() {
    for conn in [&b" Upgrade "[..], b"close,UPGRADE", b"keep-alive ,\tupgrade", b"\"x\", upgrade"] {
        let key = extract_upgradable_key(Some(conn), Some(b"websocket"), Some(b"13"), Some(KEY));
        assert_eq!(key.as_deref(), Some(KEY), "{:?}", conn);
    }
}

#[test]
fn connection_items_respect_quotes_and_ascii() {
    for conn in [&b"\"close,upgrade\""[..], b"upgrades", b"up grade", b"upgrade\x80", b""] {
        let key = extract_upgradable_key(Some(conn), Some(b"websocket"), Some(b"13"), Some(KEY));
        assert_eq!(key, None, "{:?}", conn);
    }
}

#[test]
fn non_upgradable_requests_give_nothing() {
    assert_eq!(extract_upgradable_key(None, Some(b"websocket"), Some(b"13"), Some(KEY)), None);
    assert_eq!(extract_upgradable_key(Some(b"close"), Some(b"websocket"), Some(b"13"), Some(KEY)), None);
    assert_eq!(extract_upgradable_key(Some(b"upgrade"), Some(b"WebSocket"), Some(b"13"), Some(KEY)), None);
    assert_eq!(extract_upgradable_key(Some(b"upgrade"), None, Some(b"13"), Some(KEY)), None);
    assert_eq!(extract_upgradable_key(Some(b"upgrade"), Some(b"websocket"), Some(b"12"), Some(KEY)), None);
    assert_eq!(extract_upgradable_key(Some(b"upgrade"), Some(b"websocket"), None, Some(KEY)), None);
    assert_eq!(extract_upgradable_key(Some(b"upgrade"), Some(b"websocket"), Some(b"13"), None), None);
}

#[test]
fn key_check_after_connection_header() {
    assert_eq!(upgradable_key_when(false, Some(b"websocket"), Some(b"13"), Some(KEY)), None);
    assert_eq!(upgradable_key_when(true, Some(b"websocket"), Some(b"13"), Some(b"k")).as_deref(), Some(&b"k"[..]));
}

#[test]
fn some_follows_condition() {
    assert_eq!(some(true), Some(()));
    assert_eq!(some(false), None);
}

#[test]
fn websocket_error_text() {
    let e = WebsocketError::Upgrade("connection reset".to_string());
    assert_eq!(e.to_text(), "routerify-websocket: Websocket upgrade error: connection reset");
}
