use bui_backend::access_control::BindAddr;
use bui_backend::assets::{content_type_for, extension_of, has_dotdot, rewrite_root, BundledAssets};
use bui_backend::codegen::{config_file_contents, has_index_file};
use bui_backend::eventsource::{EventSourceService, EventSourceStatus, ReadyState};
use bui_backend::highlevel::create_event_source_msg;
use bui_backend::json::errors_json;
use bui_backend::lowlevel::{asset_response, launcher, Config, HttpRequest, Method, RequestOutcome};
use bui_backend::types::AccessToken;

#[test]
fn root_path_is_rewritten() {
    assert_eq!(rewrite_root(b"/"), b"/index.html".to_vec());
    assert_eq!(rewrite_root(b"/app.js"), b"/app.js".to_vec());
}

#[test]
fn dotdot_detection() {
    assert!(has_dotdot(b"/../x"));
    assert!(has_dotdot(b"/a/../x"));
    assert!(has_dotdot(b"/a/.."));
    assert!(has_dotdot(b".."));
    assert!(!has_dotdot(b"/a..b/x"));
    assert!(!has_dotdot(b"/a.b/..c"));
    assert!(!has_dotdot(b"/plain/path.txt"));
}

#[test]
fn extensions() {
    assert_eq!(extension_of(b"/a/b.css"), Some(b"css".to_vec()));
    assert_eq!(extension_of(b"/a.b/c"), None);
    assert_eq!(extension_of(b"/a/.hidden"), None);
    assert_eq!(extension_of(b"/a/.hidden.txt"), Some(b"txt".to_vec()));
    assert_eq!(extension_of(b"/noext"), None);
    assert_eq!(extension_of(b"/trailing."), Some(b"".to_vec()));
}

#[test]
fn content_types() {
    assert_eq!(content_type_for(b"/m.wasm"), Some(b"application/wasm".to_vec()));
    assert_eq!(content_type_for(b"/style.css"), Some(b"text/css".to_vec()));
    assert_eq!(content_type_for(b"/index.html"), Some(b"text/html".to_vec()));
    assert_eq!(content_type_for(b"/data.json"), Some(b"application/json".to_vec()));
    assert_eq!(content_type_for(b"/noext"), None);
    assert_eq!(content_type_for(b"/odd.zzqq"), None);
}

#[test]
fn bundled_assets_lookup_and_shadowing() {
    let mut b = BundledAssets::new();
    assert_eq!(b.len(), 0);
    b.add(b"d/a".to_vec(), b"one".to_vec());
    b.add(b"d/b".to_vec(), b"two".to_vec());
    assert_eq!(b.get(b"d/a"), Some(b"one".to_vec()));
    assert_eq!(b.get(b"d/b"), Some(b"two".to_vec()));
    assert_eq!(b.get(b"d/c"), None);
    b.add(b"d/a".to_vec(), b"three".to_vec());
    assert_eq!(b.get(b"d/a"), Some(b"three".to_vec()));
}

#[test]
fn asset_responses() {
    let ok = asset_response(&b"/x.css".to_vec(), Some(b"body".to_vec()), None);
    assert_eq!(ok.status, 200);
    assert_eq!(ok.body, b"body".to_vec());
    assert_eq!(ok.content_type, Some(b"text/css".to_vec()));
    let missing = asset_response(&b"/x.css".to_vec(), None, None);
    assert_eq!(missing.status, 404);
    assert!(missing.body.is_empty());
    assert!(missing.content_type.is_none());
}

#[test]
fn filesystem_mode_hands_out_the_full_path() {
    let config = Config {
        serve_filepath: b"frontend".to_vec(),
        bundled_files: None,
        channel_size: 10,
        cookie_name: b"client".to_vec(),
    };
    let auth = bui_backend::AccessControl::Insecure(BindAddr::V4 {
        octets: [127, 0, 0, 1],
        port: 3410,
    });
    let (_rx, mut service) = launcher(config, &auth, 10, b"/events".to_vec());
    let req = HttpRequest {
        method: Method::Get,
        path: b"/".to_vec(),
        query: b"".to_vec(),
        accept: vec![],
        cookies: vec![],
    };
    match service.dispatch(&req) {
        RequestOutcome::ServeAsset { fs_path, asset_path, set_cookie } => {
            assert_eq!(fs_path, b"frontend/index.html".to_vec());
            assert_eq!(asset_path, b"/index.html".to_vec());
            assert!(set_cookie.is_some());
        }
        _ => panic!("expected a filesystem asset"),
    }
}

#[test]
fn event_frames() {
    assert_eq!(
        create_event_source_msg(b"{\"x\":1}", None),
        b"data: {\"x\":1}\n\n".to_vec()
    );
    assert_eq!(
        create_event_source_msg(b"{\"x\":1}", Some(&b"bui_backend".to_vec())),
        b"event: bui_backend\ndata: {\"x\":1}\n\n".to_vec()
    );
}

#[test]
fn error_bodies_are_escaped_json() {
    let msgs = vec![b"plain".to_vec(), b"with \"quote\" and \\slash".to_vec()];
    assert_eq!(
        errors_json(&msgs),
        b"{\"errors\":[\"plain\",\"with \\\"quote\\\" and \\\\slash\"]}".to_vec()
    );
    let empty: Vec<Vec<u8>> = Vec::new();
    assert_eq!(errors_json(&empty), b"{\"errors\":[]}".to_vec());
    let control = vec![vec![0x01u8]];
    assert_eq!(errors_json(&control), b"{\"errors\":[\"\\u0001\"]}".to_vec());
}

#[test]
fn loopback_addresses() {
    let v4 = BindAddr::V4 { octets: [127, 0, 0, 1], port: 80 };
    assert!(v4.is_loopback());
    let v4b = BindAddr::V4 { octets: [127, 5, 5, 5], port: 80 };
    assert!(v4b.is_loopback());
    let pubv4 = BindAddr::V4 { octets: [10, 0, 0, 1], port: 80 };
    assert!(!pubv4.is_loopback());
    let v6 = BindAddr::V6 { segments: [0, 0, 0, 0, 0, 0, 0, 1], port: 80 };
    assert!(v6.is_loopback());
    let v6b = BindAddr::V6 { segments: [0, 0, 0, 0, 0, 0, 1, 1], port: 80 };
    assert!(!v6b.is_loopback());
}

#[test]
fn does_match() {
    let open = AccessToken::NoToken;
    assert!(open.does_match(b"anything"));
    assert!(open.does_match(b""));
    let gated = AccessToken::PreSharedToken(b"secret".to_vec());
    assert!(gated.does_match(b"secret"));
    assert!(!gated.does_match(b"Secret"));
    assert!(!gated.does_match(b""));
}

#[test]
fn insecure_access_control() {
    let a = bui_backend::AccessControl::Insecure(BindAddr::V4 {
        octets: [127, 0, 0, 1],
        port: 3410,
    });
    assert_eq!(a.jwt_secret(), b"insecure".to_vec());
    assert!(matches!(a.token(), AccessToken::NoToken));
}

#[test]
fn random_auth_has_a_token() {
    let addr = BindAddr::V4 { octets: [192, 168, 1, 1], port: 80 };
    let a = bui_backend::highlevel::generate_random_auth(addr, b"s".to_vec()).expect("auth");
    match a.token() {
        AccessToken::PreSharedToken(t) => assert_eq!(t.len(), 36),
        AccessToken::NoToken => panic!("expected a token"),
    }
    assert_eq!(a.jwt_secret(), b"s".to_vec());
}

#[test]
fn generated_tokens_differ() {
    let a = bui_backend::highlevel::generate_valid_token();
    let b = bui_backend::highlevel::generate_valid_token();
    assert_eq!(a.len(), 36);
    assert_ne!(a, b);
}

#[test]
fn ready_state_codes() {
    assert_eq!(ReadyState::from_code(0), Some(ReadyState::Connecting));
    assert_eq!(ReadyState::from_code(1), Some(ReadyState::Open));
    assert_eq!(ReadyState::from_code(2), Some(ReadyState::Closed));
    assert_eq!(ReadyState::from_code(3), None);
    let _svc = EventSourceService::new();
    assert_ne!(EventSourceStatus::Open, EventSourceStatus::Error);
}

#[test]
fn codegen_config_text() {
    let text = config_file_contents(b"frontend");
    let expected = b"use bui_backend::lowlevel::Config;\n\n\
fn get_default_config() -> Config {\n    Config {\n        serve_filepath: b\"frontend\".to_vec(),\n        bundled_files: bundled_assets(),\n        channel_size: 10,\n        cookie_name: b\"client\".to_vec(),\n    }\n}\n";
    assert_eq!(text, expected.to_vec());
}

#[test]
fn codegen_requires_index() {
    let entries = vec![b"frontend/app.js".to_vec(), b"frontend/index.html".to_vec()];
    assert!(has_index_file(&entries, b"frontend"));
    let missing = vec![b"frontend/app.js".to_vec()];
    assert!(!has_index_file(&missing, b"frontend"));
}

#[test]
fn qr_rendering() {
    let text = bui_backend::qr::qr_text(b"http://127.0.0.1:3410/").expect("encodes");
    // An empty line, then square rows each starting with a space, then an
    // empty line.
    assert_eq!(text[0], b'\n');
    assert_eq!(*text.last().unwrap(), b'\n');
    let body = String::from_utf8(text).expect("utf8");
    let rows: Vec<&str> = body
        .split('\n')
        .filter(|r| !r.is_empty())
        .collect();
    // The smallest QR version is 21 modules; low error correction of a
    // short URL stays small but square.
    let n = rows.len();
    assert!(n >= 21);
    for row in rows {
        assert!(row.starts_with(' '));
        assert_eq!(row.chars().count(), 1 + 2 * n);
    }
    // Deterministic: same text, same rendering.
    let again = bui_backend::qr::qr_text(b"http://127.0.0.1:3410/").expect("encodes");
    assert_eq!(again, body.into_bytes());
}
