use bui_backend::access_control::BindAddr;
use bui_backend::assets::BundledAssets;
use bui_backend::highlevel::{
    broadcast_frame, create_event_source_msg, handle_new_connection, ConnectionEventType,
    Registry,
};
use bui_backend::lowlevel::{
    callback_response, launcher, BuiService, CallbackOutcome, Config, HttpRequest, Method,
    RequestOutcome,
};
use bui_backend::session::verify_token;
use bui_backend::types::SessionKey;
use futures::StreamExt;

const SNAPSHOT_JSON: &[u8] = b"{\"is_recording\":false,\"counter\":0,\"name\":\"\"}";
const CHANGED_JSON: &[u8] = b"{\"is_recording\":true,\"counter\":0,\"name\":\"\"}";

fn demo_service(channel_size: usize) -> BuiService {
    let mut bundle = BundledAssets::new();
    bundle.add(b"frontend/index.html".to_vec(), b"INDEX".to_vec());
    let config = Config {
        serve_filepath: b"frontend".to_vec(),
        bundled_files: Some(bundle),
        channel_size,
        cookie_name: b"client".to_vec(),
    };
    let auth = bui_backend::highlevel::generate_auth_with_token(
        BindAddr::V4 { octets: [127, 0, 0, 1], port: 3410 },
        b"jwt_secret".to_vec(),
        b"secret".to_vec(),
    )
    .expect("auth");
    let (_rx_conn, service) = launcher(config, &auth, 10, b"/events".to_vec());
    service
}

fn get(path: &[u8], query: &[u8], accept: Vec<Vec<u8>>, cookies: Vec<Vec<u8>>) -> HttpRequest {
    HttpRequest {
        method: Method::Get,
        path: path.to_vec(),
        query: query.to_vec(),
        accept,
        cookies,
    }
}

fn cookie_from_set_cookie(set_cookie: &[u8]) -> Vec<u8> {
    // "client=<jwt>; HttpOnly" -> "client=<jwt>"
    let suffix = b"; HttpOnly";
    assert!(set_cookie.ends_with(suffix));
    set_cookie[..set_cookie.len() - suffix.len()].to_vec()
}

fn jwt_from_set_cookie(set_cookie: &[u8]) -> Vec<u8> {
    let c = cookie_from_set_cookie(set_cookie);
    let prefix = b"client=";
    assert!(c.starts_with(prefix));
    c[prefix.len()..].to_vec()
}

#[test]
fn token_bootstrap() {
    let mut service = demo_service(10);
    let req = get(b"/", b"token=secret", vec![], vec![]);
    match service.dispatch(&req) {
        RequestOutcome::Respond(resp) => {
            assert_eq!(resp.status, 200);
            assert_eq!(resp.body, b"INDEX".to_vec());
            assert_eq!(resp.content_type, Some(b"text/html".to_vec()));
            let sc = resp.set_cookie.expect("set-cookie");
            assert!(sc.starts_with(b"client="));
            assert!(sc.ends_with(b"; HttpOnly"));
        }
        _ => panic!("expected a complete response"),
    }
}

#[test]
fn minted_cookie_verifies() {
    let mut service = demo_service(10);
    let req = get(b"/", b"token=secret", vec![], vec![]);
    let sc = match service.dispatch(&req) {
        RequestOutcome::Respond(resp) => resp.set_cookie.expect("set-cookie"),
        _ => panic!("expected a complete response"),
    };
    let jwt = jwt_from_set_cookie(&sc);
    // The cookie's value verifies as a JWT encoding some session key.
    assert!(verify_token(b"jwt_secret", &jwt).is_some());
}

#[test]
fn cookie_reuse() {
    let mut service = demo_service(10);
    let first = get(b"/", b"token=secret", vec![], vec![]);
    let sc = match service.dispatch(&first) {
        RequestOutcome::Respond(resp) => resp.set_cookie.expect("set-cookie"),
        _ => panic!("expected a complete response"),
    };
    let cookie = cookie_from_set_cookie(&sc);
    let second = get(b"/", b"", vec![], vec![cookie]);
    match service.dispatch(&second) {
        RequestOutcome::Respond(resp) => {
            assert_eq!(resp.status, 200);
            assert_eq!(resp.body, b"INDEX".to_vec());
            assert!(resp.set_cookie.is_none());
        }
        _ => panic!("expected a complete response"),
    }
}

#[test]
fn reject_tokenless() {
    let mut service = demo_service(10);
    let req = get(b"/", b"", vec![], vec![]);
    match service.dispatch(&req) {
        RequestOutcome::Respond(resp) => {
            assert_eq!(resp.status, 400);
            assert_eq!(
                resp.body,
                b"{\"errors\":[\"No (valid) token in request.\"]}".to_vec()
            );
            assert!(resp.set_cookie.is_none());
            assert_eq!(resp.content_type, Some(b"application/json".to_vec()));
        }
        _ => panic!("expected a complete response"),
    }
}

#[test]
fn reject_wrong_token() {
    let mut service = demo_service(10);
    let req = get(b"/", b"token=wrong", vec![], vec![]);
    match service.dispatch(&req) {
        RequestOutcome::Respond(resp) => {
            assert_eq!(resp.status, 400);
            assert!(resp.set_cookie.is_none());
        }
        _ => panic!("expected a complete response"),
    }
}

#[test]
fn not_found_for_unknown_asset() {
    let mut service = demo_service(10);
    let req = get(b"/nope.html", b"token=secret", vec![], vec![]);
    match service.dispatch(&req) {
        RequestOutcome::Respond(resp) => {
            assert_eq!(resp.status, 404);
            assert!(resp.body.is_empty());
        }
        _ => panic!("expected a complete response"),
    }
}

#[test]
fn dotdot_paths_are_rejected() {
    let mut service = demo_service(10);
    let req = get(b"/../secrets.txt", b"token=secret", vec![], vec![]);
    match service.dispatch(&req) {
        RequestOutcome::Respond(resp) => assert_eq!(resp.status, 404),
        _ => panic!("expected a complete response"),
    }
}

#[test]
fn other_methods_are_not_found() {
    let mut service = demo_service(10);
    let req = HttpRequest {
        method: Method::Other,
        path: b"/".to_vec(),
        query: b"token=secret".to_vec(),
        accept: vec![],
        cookies: vec![],
    };
    match service.dispatch(&req) {
        RequestOutcome::Respond(resp) => assert_eq!(resp.status, 404),
        _ => panic!("expected a complete response"),
    }
}

#[test]
fn event_stream_needs_accept_header() {
    let mut service = demo_service(10);
    let req = get(b"/events", b"token=secret", vec![], vec![]);
    match service.dispatch(&req) {
        RequestOutcome::Respond(resp) => {
            assert_eq!(resp.status, 400);
            assert_eq!(resp.content_type, Some(b"application/json".to_vec()));
        }
        _ => panic!("expected a complete response"),
    }
}

#[test]
fn subscribe_and_initial_snapshot() {
    let mut service = demo_service(10);
    let req = get(
        b"/events",
        b"token=secret",
        vec![b"text/event-stream".to_vec()],
        vec![],
    );
    let (conn, mut receiver) = match service.dispatch(&req) {
        RequestOutcome::EventStream { conn, receiver, set_cookie } => {
            assert!(set_cookie.is_some());
            (conn, receiver)
        }
        _ => panic!("expected an event stream"),
    };
    assert_eq!(conn.path, b"/events".to_vec());

    let frame = create_event_source_msg(SNAPSHOT_JSON, None);
    let mut reg = Registry::new();
    let (evt, installed) = handle_new_connection(&mut reg, conn, &frame);
    assert!(installed);
    assert!(matches!(evt.typ, ConnectionEventType::Connect(_)));

    let first = futures::executor::block_on(receiver.next()).expect("first frame");
    assert_eq!(
        first,
        b"data: {\"is_recording\":false,\"counter\":0,\"name\":\"\"}\n\n".to_vec()
    );
}

#[test]
fn reactive_broadcast() {
    let mut service = demo_service(10);
    let req = get(
        b"/events",
        b"token=secret",
        vec![b"text/event-stream".to_vec()],
        vec![],
    );
    let (conn, mut receiver) = match service.dispatch(&req) {
        RequestOutcome::EventStream { conn, receiver, .. } => (conn, receiver),
        _ => panic!("expected an event stream"),
    };
    let mut reg = Registry::new();
    let frame = create_event_source_msg(SNAPSHOT_JSON, None);
    let (_evt, installed) = handle_new_connection(&mut reg, conn, &frame);
    assert!(installed);

    // A browser posts a callback; the handler flips the flag; the change is
    // broadcast to every registered connection.
    let changed = create_event_source_msg(CHANGED_JSON, None);
    let (evicted, _, _) = broadcast_frame(&mut reg, &changed);
    assert!(evicted.is_empty());

    let first = futures::executor::block_on(receiver.next()).expect("first frame");
    assert_eq!(
        first,
        b"data: {\"is_recording\":false,\"counter\":0,\"name\":\"\"}\n\n".to_vec()
    );
    let second = futures::executor::block_on(receiver.next()).expect("second frame");
    assert_eq!(
        second,
        b"data: {\"is_recording\":true,\"counter\":0,\"name\":\"\"}\n\n".to_vec()
    );
}

#[test]
fn callback_carries_request_session() {
    let mut service = demo_service(10);
    // Bootstrap a session.
    let sc = match service.dispatch(&get(b"/", b"token=secret", vec![], vec![])) {
        RequestOutcome::Respond(resp) => resp.set_cookie.expect("set-cookie"),
        _ => panic!("expected a complete response"),
    };
    let cookie = cookie_from_set_cookie(&sc);
    let jwt = jwt_from_set_cookie(&sc);
    let expected_key: SessionKey = verify_token(b"jwt_secret", &jwt).expect("verifies");

    let req = HttpRequest {
        method: Method::Post,
        path: b"/callback".to_vec(),
        query: b"".to_vec(),
        accept: vec![],
        cookies: vec![cookie],
    };
    match service.dispatch(&req) {
        RequestOutcome::Callback { session_key, set_cookie } => {
            assert_eq!(session_key, expected_key);
            assert!(set_cookie.is_none());
        }
        _ => panic!("expected a callback"),
    }
}

#[test]
fn callback_without_session_is_rejected() {
    let mut service = demo_service(10);
    let req = HttpRequest {
        method: Method::Post,
        path: b"/callback".to_vec(),
        query: b"".to_vec(),
        accept: vec![],
        cookies: vec![],
    };
    match service.dispatch(&req) {
        RequestOutcome::Respond(resp) => {
            assert_eq!(resp.status, 400);
            assert_eq!(resp.body, b"{\"errors\":[\"no valid session key\"]}".to_vec());
            assert!(resp.set_cookie.is_none());
        }
        _ => panic!("expected a complete response"),
    }
}

#[test]
fn callback_responses() {
    let ok = callback_response(CallbackOutcome::Handled, None);
    assert_eq!(ok.status, 200);
    assert_eq!(ok.body, b"null".to_vec());
    assert_eq!(ok.content_type, Some(b"application/json".to_vec()));

    let err = callback_response(CallbackOutcome::HandlerError, None);
    assert_eq!(err.status, 500);
    assert_eq!(err.body, b"null".to_vec());

    let none = callback_response(CallbackOutcome::NoHandler, None);
    assert_eq!(none.status, 200);
    assert_eq!(none.body, b"null".to_vec());

    let parse = callback_response(CallbackOutcome::ParseError(b"a\"b\\c\nd".to_vec()), None);
    assert_eq!(parse.status, 400);
    assert_eq!(
        parse.body,
        b"{\"errors\":[\"Failed parsing JSON: a\\\"b\\\\c\\nd\"]}".to_vec()
    );
}

#[test]
fn slow_subscriber_eviction() {
    // Per-subscriber buffers of size 1.
    let mut service = demo_service(1);
    let req = get(
        b"/events",
        b"token=secret",
        vec![b"text/event-stream".to_vec()],
        vec![],
    );
    let (conn, receiver) = match service.dispatch(&req) {
        RequestOutcome::EventStream { conn, receiver, .. } => (conn, receiver),
        _ => panic!("expected an event stream"),
    };
    let key = conn.connection_key;
    let mut reg = Registry::new();
    let frame = create_event_source_msg(SNAPSHOT_JSON, None);
    let (_evt, installed) = handle_new_connection(&mut reg, conn, &frame);
    assert!(installed);

    // The subscriber never drains its channel; keep broadcasting until its
    // buffer refuses a frame. The refusing broadcast itself must evict it
    // and emit its disconnect event.
    let changed = create_event_source_msg(CHANGED_JSON, None);
    let mut evicted_events = Vec::new();
    for _ in 0..4 {
        let (evicted, _, _) = broadcast_frame(&mut reg, &changed);
        if !evicted.is_empty() {
            evicted_events = evicted;
            break;
        }
    }
    assert_eq!(evicted_events.len(), 1);
    let evt = &evicted_events[0];
    assert!(matches!(evt.typ, ConnectionEventType::Disconnect));
    assert_eq!(evt.connection_key, key);
    assert_eq!(evt.path, b"/events".to_vec());
    // Evicted within that very broadcast: no later broadcast reaches it.
    let (evicted_again, _, _) = broadcast_frame(&mut reg, &changed);
    assert!(evicted_again.is_empty());
    drop(receiver);
}

#[test]
fn connection_keys_increase() {
    let mut service = demo_service(10);
    let mk = |_i: usize| {
        get(
            b"/events",
            b"token=secret",
            vec![b"text/event-stream".to_vec()],
            vec![],
        )
    };
    let mut keys = Vec::new();
    for i in 0..3 {
        match service.dispatch(&mk(i)) {
            RequestOutcome::EventStream { conn, .. } => keys.push(conn.connection_key.0),
            _ => panic!("expected an event stream"),
        }
    }
    assert_eq!(keys, vec![0, 1, 2]);
}

#[test]
fn no_token_mode_lets_everyone_in() {
    let mut bundle = BundledAssets::new();
    bundle.add(b"frontend/index.html".to_vec(), b"INDEX".to_vec());
    let config = Config {
        serve_filepath: b"frontend".to_vec(),
        bundled_files: Some(bundle),
        channel_size: 10,
        cookie_name: b"client".to_vec(),
    };
    let auth = bui_backend::AccessControl::Insecure(BindAddr::V4 {
        octets: [127, 0, 0, 1],
        port: 3410,
    });
    let (_rx, mut service) = launcher(config, &auth, 10, b"/events".to_vec());
    match service.dispatch(&get(b"/", b"", vec![], vec![])) {
        RequestOutcome::Respond(resp) => {
            assert_eq!(resp.status, 200);
            // Cookies are still issued so later requests stay session-stable.
            assert!(resp.set_cookie.is_some());
        }
        _ => panic!("expected a complete response"),
    }
}

#[test]
fn handler_registration_replaces() {
    let mut slot = bui_backend::lowlevel::CallbackSlot::<i32>::new();
    assert!(!slot.is_set());
    assert_eq!(slot.set_callback_listener(1), None);
    assert!(slot.is_set());
    assert_eq!(slot.set_callback_listener(2), Some(1));
    assert_eq!(slot.handler_ref(), Some(&2));
}

#[test]
fn event_stream_head_has_stream_content_type() {
    let head = bui_backend::lowlevel::event_stream_response_head(None);
    assert_eq!(head.status, 200);
    assert_eq!(head.content_type, Some(b"text/event-stream".to_vec()));
    assert!(head.body.is_empty());
}

#[test]
fn callback_by_token_mints_a_cookie() {
    let mut service = demo_service(10);
    let req = HttpRequest {
        method: Method::Post,
        path: b"/callback".to_vec(),
        query: b"token=secret".to_vec(),
        accept: vec![],
        cookies: vec![],
    };
    match service.dispatch(&req) {
        RequestOutcome::Callback { session_key, set_cookie } => {
            let sc = set_cookie.expect("set-cookie");
            let jwt = jwt_from_set_cookie(&sc);
            assert_eq!(verify_token(b"jwt_secret", &jwt), Some(session_key));
        }
        _ => panic!("expected a callback"),
    }
}
