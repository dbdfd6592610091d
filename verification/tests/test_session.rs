use bui_backend::session::{mint_token, parse_uuid_text, uuid_text, verify_token};
use bui_backend::types::SessionKey;

#[test]
fn uuid_text_zero() {
    let t = uuid_text(&SessionKey(0));
    assert_eq!(t, b"00000000-0000-0000-0000-000000000000".to_vec());
}

#[test]
fn uuid_text_known_value() {
    let k = 0x0123456789abcdef0123456789abcdefu128;
    let t = uuid_text(&SessionKey(k));
    assert_eq!(t, b"01234567-89ab-cdef-0123-456789abcdef".to_vec());
}

#[test]
fn uuid_parse_roundtrip() {
    let k = SessionKey(0xfeedface_cafe_4242_8888_123456789abcu128);
    let t = uuid_text(&k);
    assert_eq!(parse_uuid_text(&t), Some(k));
}

#[test]
fn uuid_parse_rejects_malformed() {
    assert_eq!(parse_uuid_text(b""), None);
    assert_eq!(parse_uuid_text(b"0123456789"), None);
    // right length, wrong hyphen placement
    assert_eq!(parse_uuid_text(b"000000000-0000-0000-0000-00000000000"), None);
    // uppercase digits are not the canonical text
    assert_eq!(parse_uuid_text(b"ABCDEF00-0000-0000-0000-000000000000"), None);
    // non-hex byte
    assert_eq!(parse_uuid_text(b"0000000g-0000-0000-0000-000000000000"), None);
}

#[test]
fn mint_then_verify_roundtrip() {
    let secret = b"jwt_secret";
    let k = SessionKey(0x0123456789abcdef0123456789abcdefu128);
    let tok = mint_token(secret, &k);
    assert_eq!(verify_token(secret, &tok), Some(k));
}

#[test]
fn verify_rejects_wrong_secret() {
    let k = SessionKey(42);
    let tok = mint_token(b"secret-one", &k);
    assert_eq!(verify_token(b"secret-two", &tok), None);
}

#[test]
fn verify_rejects_garbage() {
    assert_eq!(verify_token(b"jwt_secret", b"not-a-jwt"), None);
    assert_eq!(verify_token(b"jwt_secret", b""), None);
}

#[test]
fn minted_token_is_a_compact_jwt() {
    let tok = mint_token(b"jwt_secret", &SessionKey(7));
    let dots = tok.iter().filter(|b| **b == b'.').count();
    assert_eq!(dots, 2);
    // The token must agree with an independent decode through jsonwebtoken.
    let mut validation = jsonwebtoken::Validation::new(jsonwebtoken::Algorithm::HS256);
    validation.validate_exp = false;
    validation.required_spec_claims = std::collections::HashSet::new();
    let key = jsonwebtoken::DecodingKey::from_secret(b"jwt_secret");
    let data = jsonwebtoken::decode::<std::collections::HashMap<String, String>>(
        tok.as_slice(),
        &key,
        &validation,
    )
    .expect("decode");
    assert_eq!(
        data.claims.get("key").map(|s| s.as_str()),
        Some("00000000-0000-0000-0000-000000000007")
    );
}
