use code_relay::auth::{handshake, key_accepted, FirstMessage, HandshakeOutcome};
use code_relay::close::CloseCode;
use code_relay::json::{delivery_payload, json_string};
use code_relay::redirect::{handle_redirect, RedirectParams};
use code_relay::registry::Registry;
use code_relay::retrieval::RetrievalParams;
use code_relay::session::{admit_session, keepalive_step, KeepaliveAction, SessionEvent, SessionStart};
use code_relay::state::State;

fn one_key() -> Vec<String> {
    vec!["K".to_owned()]
}

#[test]
fn handshake_timeout_closes_try_again_later() {
    let r = handshake(FirstMessage::Timeout, &one_key());
    match r {
        HandshakeOutcome::Reject(m) => {
            assert_eq!(m.code, CloseCode::TryAgainLater);
            assert_eq!(m.code.code(), 1013);
            assert_eq!(m.reason, "timed out waiting for auth message");
        }
        HandshakeOutcome::Accept(_) => panic!("a silent session must be rejected"),
    }
}

#[test]
fn handshake_non_text_closes_unsupported_data() {
    let r = handshake(FirstMessage::NonText, &one_key());
    match r {
        HandshakeOutcome::Reject(m) => {
            assert_eq!(m.code, CloseCode::UnsupportedData);
            assert_eq!(m.code.code(), 1007);
            assert_eq!(m.reason, "expected text-based auth message");
        }
        HandshakeOutcome::Accept(_) => panic!("a binary first frame must be rejected"),
    }
}

#[test]
fn handshake_non_json_text_closes_unsupported_data() {
    let r = handshake(FirstMessage::Text("not json".to_owned()), &one_key());
    match r {
        HandshakeOutcome::Reject(m) => {
            assert_eq!(m.code, CloseCode::UnsupportedData);
            assert_eq!(m.reason, "expected valid JSON data");
        }
        HandshakeOutcome::Accept(_) => panic!("unparsable text must be rejected"),
    }
}

#[test]
fn handshake_json_missing_fields_closes_unsupported_data() {
    let r = handshake(
        FirstMessage::Text("{\"api_key\":\"K\"}".to_owned()),
        &one_key(),
    );
    assert!(matches!(r, HandshakeOutcome::Reject(m) if m.reason == "expected valid JSON data"));
    let r = handshake(FirstMessage::Text("{\"state\":\"abc\"}".to_owned()), &one_key());
    assert!(matches!(r, HandshakeOutcome::Reject(m) if m.reason == "expected valid JSON data"));
    let r = handshake(FirstMessage::Text("[1,2,3]".to_owned()), &one_key());
    assert!(matches!(r, HandshakeOutcome::Reject(m) if m.reason == "expected valid JSON data"));
    let r = handshake(
        FirstMessage::Text("{\"api_key\":7,\"state\":\"abc\"}".to_owned()),
        &one_key(),
    );
    assert!(matches!(r, HandshakeOutcome::Reject(m) if m.reason == "expected valid JSON data"));
}

#[test]
fn handshake_wrong_key_closes_unauthorized() {
    let r = handshake(
        FirstMessage::Text("{\"api_key\":\"wrong\",\"state\":\"abc\"}".to_owned()),
        &one_key(),
    );
    match r {
        HandshakeOutcome::Reject(m) => {
            assert_eq!(m.code, CloseCode::Unauthorized);
            assert_eq!(m.code.code(), 3000);
            assert_eq!(m.reason, "api_key was invalid");
        }
        HandshakeOutcome::Accept(_) => panic!("a key outside the accepted set must be rejected"),
    }
}

#[test]
fn handshake_valid_message_yields_token() {
    let r = handshake(
        FirstMessage::Text("{\"api_key\":\"K\",\"state\":\"abc\"}".to_owned()),
        &one_key(),
    );
    assert!(matches!(r, HandshakeOutcome::Accept(t) if t == "abc"));
}

#[test]
fn handshake_allows_extra_json_fields() {
    let r = handshake(
        FirstMessage::Text(
            "{\"api_key\":\"K\",\"state\":\"abc\",\"extra\":[1,{\"x\":null}]}".to_owned(),
        ),
        &one_key(),
    );
    assert!(matches!(r, HandshakeOutcome::Accept(t) if t == "abc"));
}

#[test]
fn refused_session_creates_no_registry_entry() {
    let mut reg: Registry<u32> = Registry::new();
    let cases = vec![
        FirstMessage::Timeout,
        FirstMessage::NonText,
        FirstMessage::Text("no json".to_owned()),
        FirstMessage::Text("{\"api_key\":\"wrong\",\"state\":\"abc\"}".to_owned()),
    ];
    for first in cases {
        match admit_session(&mut reg, first, &one_key(), 7) {
            SessionStart::Refused { sink, .. } => assert_eq!(sink, 7),
            SessionStart::Admitted { .. } => panic!("a failed handshake must not register"),
        }
        assert!(!reg.contains(&"abc".to_owned()));
    }
}

#[test]
fn admitted_session_registers_under_its_token() {
    let mut reg: Registry<u32> = Registry::new();
    let r = admit_session(
        &mut reg,
        FirstMessage::Text("{\"api_key\":\"K\",\"state\":\"abc\"}".to_owned()),
        &one_key(),
        7,
    );
    assert!(matches!(r, SessionStart::Admitted { token } if token == "abc"));
    assert!(reg.contains(&"abc".to_owned()));
}

#[test]
fn redirect_delivers_payload_exactly_once() {
    let mut reg: Registry<u32> = Registry::new();
    let r = admit_session(
        &mut reg,
        FirstMessage::Text("{\"api_key\":\"K\",\"state\":\"abc\"}".to_owned()),
        &one_key(),
        7,
    );
    assert!(matches!(r, SessionStart::Admitted { .. }));

    let params = RedirectParams { state: "abc".to_owned(), code: "XYZ".to_owned() };
    let reply = handle_redirect(&mut reg, &params);
    assert_eq!(reply.response.status, 200);
    assert_eq!(reply.response.body, "You may now close this tab");
    let delivery = reply.delivery.expect("a registered token must be delivered to");
    assert_eq!(delivery.sink, 7);
    assert_eq!(delivery.payload, "{\"code\":\"XYZ\",\"state\":\"abc\"}");

    let again = handle_redirect(&mut reg, &params);
    assert_eq!(again.response.status, 400);
    assert_eq!(again.response.body, "state parameter not registered");
    assert!(again.delivery.is_none());
}

#[test]
fn redirect_without_registration_is_bad_request() {
    let mut reg: Registry<u32> = Registry::new();
    let params = RedirectParams { state: "missing".to_owned(), code: "XYZ".to_owned() };
    let reply = handle_redirect(&mut reg, &params);
    assert_eq!(reply.response.status, 400);
    assert_eq!(reply.response.body, "state parameter not registered");
    assert!(reply.delivery.is_none());
}

#[test]
fn reregistration_last_writer_wins() {
    let mut reg: Registry<u32> = Registry::new();
    reg.insert("abc".to_owned(), 1);
    reg.insert("abc".to_owned(), 2);
    let params = RedirectParams { state: "abc".to_owned(), code: "C".to_owned() };
    let reply = handle_redirect(&mut reg, &params);
    let delivery = reply.delivery.expect("the token is registered");
    assert_eq!(delivery.sink, 2);
}

#[test]
fn remove_twice_second_observes_absence() {
    let mut reg: Registry<u32> = Registry::new();
    reg.insert("abc".to_owned(), 7);
    assert_eq!(reg.remove(&"abc".to_owned()), Some(7));
    assert_eq!(reg.remove(&"abc".to_owned()), None);
    assert_eq!(reg.remove(&"never".to_owned()), None);
}

#[test]
fn keepalive_pings_while_registered() {
    let mut reg: Registry<u32> = Registry::new();
    reg.insert("abc".to_owned(), 7);
    let token = "abc".to_owned();
    let a = keepalive_step(&mut reg, &token, &SessionEvent::PingTick);
    assert_eq!(a, KeepaliveAction::SendPing);
    let b = keepalive_step(&mut reg, &token, &SessionEvent::OtherFrame);
    assert_eq!(b, KeepaliveAction::Continue);
    assert!(reg.contains(&token));
}

#[test]
fn keepalive_close_frame_tears_down() {
    let mut reg: Registry<u32> = Registry::new();
    reg.insert("abc".to_owned(), 7);
    let token = "abc".to_owned();
    let a = keepalive_step(&mut reg, &token, &SessionEvent::CloseFrame);
    assert_eq!(a, KeepaliveAction::Terminate);
    assert!(!reg.contains(&token));
    let b = keepalive_step(&mut reg, &token, &SessionEvent::PingTick);
    assert_eq!(b, KeepaliveAction::Continue);
}

#[test]
fn store_then_retrieve_exactly_once() {
    let mut state = State::new(one_key());
    let r = state.handle_redirect(RedirectParams { state: "abc".to_owned(), code: "XYZ".to_owned() });
    assert_eq!(r.status, 200);
    assert_eq!(
        r.body,
        "You may now close this tab, the application may take up to 5 seconds to refresh"
    );

    let params = RetrievalParams { state: "abc".to_owned() };
    let first = state.handle_retrieval(Some("K".to_owned()), &params);
    assert_eq!(first.status, 200);
    assert_eq!(first.body, "\"XYZ\"");

    let second = state.handle_retrieval(Some("K".to_owned()), &params);
    assert_eq!(second.status, 200);
    assert_eq!(second.body, "null");
}

#[test]
fn retrieval_without_key_is_bad_request() {
    let mut state = State::new(one_key());
    state.handle_redirect(RedirectParams { state: "abc".to_owned(), code: "XYZ".to_owned() });
    let params = RetrievalParams { state: "abc".to_owned() };

    let r = state.handle_retrieval(None, &params);
    assert_eq!(r.status, 400);
    assert_eq!(r.body, "No X-Api-Key present");

    let r = state.handle_retrieval(Some("other".to_owned()), &params);
    assert_eq!(r.status, 400);
    assert_eq!(r.body, "X-Api-Key doesn't match");

    // Nothing was consumed by the turned-away probes.
    let ok = state.handle_retrieval(Some("K".to_owned()), &params);
    assert_eq!(ok.body, "\"XYZ\"");
}

#[test]
fn key_membership_over_several_keys() {
    let keys = vec!["a".to_owned(), "b".to_owned(), "c".to_owned()];
    assert!(key_accepted(&keys, &"b".to_owned()));
    assert!(!key_accepted(&keys, &"d".to_owned()));
    assert!(!key_accepted(&Vec::new(), &"a".to_owned()));
}

#[test]
fn close_codes_have_their_wire_values() {
    assert_eq!(CloseCode::NormalClosure.code(), 1000);
    assert_eq!(CloseCode::UnsupportedData.code(), 1007);
    assert_eq!(CloseCode::InternalError.code(), 1011);
    assert_eq!(CloseCode::TryAgainLater.code(), 1013);
    assert_eq!(CloseCode::Unauthorized.code(), 3000);
    let m = CloseCode::NormalClosure.into_close_message("bye");
    assert_eq!(m.code, CloseCode::NormalClosure);
    assert_eq!(m.reason, "bye");
}

#[test]
fn payload_is_exact_json_text() {
    assert_eq!(delivery_payload("XYZ", "abc"), "{\"code\":\"XYZ\",\"state\":\"abc\"}");
    assert_eq!(delivery_payload("", ""), "{\"code\":\"\",\"state\":\"\"}");
}

#[test]
fn json_strings_are_escaped() {
    assert_eq!(json_string("plain"), "\"plain\"");
    assert_eq!(json_string(""), "\"\"");
    assert_eq!(json_string("a\"b"), "\"a\\\"b\"");
    assert_eq!(json_string("a\\b"), "\"a\\\\b\"");
    assert_eq!(json_string("a\nb\tc\rd"), "\"a\\nb\\tc\\rd\"");
    assert_eq!(json_string("\u{8}\u{c}"), "\"\\b\\f\"");
    assert_eq!(json_string("\u{1}\u{1f}"), "\"\\u0001\\u001f\"");
    assert_eq!(json_string("héllo"), "\"héllo\"");
}

#[test]
fn escaped_payload_survives_serde_json() {
    // The emitted payload must be real JSON: read it back with the same
    // parser the handshake trusts.
    let payload = delivery_payload("a\"b\\c\nd", "s\u{1}t");
    let value: serde_json::Value = serde_json::from_str(&payload).expect("payload parses");
    assert_eq!(value.get("code").unwrap().as_str().unwrap(), "a\"b\\c\nd");
    assert_eq!(value.get("state").unwrap().as_str().unwrap(), "s\u{1}t");
}
