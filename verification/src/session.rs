//! Session codec: the textual form of session keys and the signed session
//! cookie value.
//!
//! A session key is rendered as the usual hyphenated lowercase hex text of a
//! 128-bit identifier (8-4-4-4-12 digits). That text is the single claim of a
//! compact JWT signed with the configured secret; expiry validation is
//! disabled by design, so a session ends only when the browser drops its
//! cookie.

use vstd::prelude::*;

use crate::types::SessionKey;

verus! {

/// Positions of the four hyphens in the 36-byte text.
pub open spec fn is_hyphen_pos(i: int) -> bool {
    i == 8 || i == 13 || i == 18 || i == 23
}

/// Byte is a lowercase hex digit.
pub open spec fn is_lower_hex(b: u8) -> bool {
    (0x30 <= b && b <= 0x39) || (0x61 <= b && b <= 0x66)
}

/// Value of a lowercase hex digit byte.
pub open spec fn hex_val(b: u8) -> u128
    recommends
        is_lower_hex(b),
{
    if b < 0x3a {
        (b - 0x30) as u128
    } else {
        (b - 0x57) as u128
    }
}

/// Lowercase hex digit byte for a value below 16.
pub open spec fn spec_hex_digit(n: u128) -> u8
    recommends
        n < 16,
{
    if n < 10 {
        (0x30 + n) as u8
    } else {
        (0x57 + n) as u8
    }
}

/// The d-th hex digit of `k`, most significant first (d in 0..32).
pub open spec fn spec_uuid_nibble(k: u128, d: int) -> u128
    recommends
        0 <= d < 32,
{
    (k >> ((4 * (31 - d)) as u128)) & 0xf
}

/// Text position of the d-th hex digit (skipping the hyphens).
pub open spec fn spec_digit_pos(d: int) -> int
    recommends
        0 <= d < 32,
{
    if d < 8 {
        d
    } else if d < 12 {
        d + 1
    } else if d < 16 {
        d + 2
    } else if d < 20 {
        d + 3
    } else {
        d + 4
    }
}

/// The byte at position i of the text of `k`.
pub open spec fn spec_uuid_char(k: u128, i: int) -> u8
    recommends
        0 <= i < 36,
{
    if is_hyphen_pos(i) {
        0x2d
    } else {
        spec_hex_digit(spec_uuid_nibble(k, spec_digit_index(i)))
    }
}

/// Number of digit positions before text position `i`; at a non-hyphen
/// position this is also the digit index there (inverse of `spec_digit_pos`).
pub open spec fn spec_digit_index(i: int) -> int
    recommends
        0 <= i <= 36,
{
    if i <= 8 {
        i
    } else if i <= 13 {
        i - 1
    } else if i <= 18 {
        i - 2
    } else if i <= 23 {
        i - 3
    } else {
        i - 4
    }
}

/// The 36-byte hyphenated lowercase hex text of `k`.
pub open spec fn spec_uuid_text(k: u128) -> Seq<u8> {
    Seq::new(36, |i: int| spec_uuid_char(k, i))
}

/// Structural well-formedness of a candidate text: right length, hyphens in
/// the right places, lowercase hex digits everywhere else.
pub open spec fn spec_uuid_ok(s: Seq<u8>) -> bool {
    &&& s.len() == 36
    &&& forall|i: int| 0 <= i < 36 && is_hyphen_pos(i) ==> s[i] == 0x2du8
    &&& forall|i: int| 0 <= i < 36 && !is_hyphen_pos(i) ==> is_lower_hex(s[i])
}

/// Value of the first `m` digits of a well-formed text, folded most
/// significant first.
pub open spec fn spec_fold_prefix(s: Seq<u8>, m: int) -> u128
    recommends
        0 <= m <= 32,
        spec_uuid_ok(s),
    decreases m,
{
    if m <= 0 {
        0
    } else {
        (spec_fold_prefix(s, m - 1) << 4) | hex_val(s[spec_digit_pos(m - 1)])
    }
}

/// The key encoded by a text, if the text is well formed.
pub open spec fn spec_parse_uuid(s: Seq<u8>) -> Option<u128> {
    if spec_uuid_ok(s) {
        Some(spec_fold_prefix(s, 32))
    } else {
        None
    }
}

/// Every hex digit byte is classified correctly.
proof fn lemma_hex_digit_class(n: u128)
    requires
        n < 16,
    ensures
        is_lower_hex(spec_hex_digit(n)),
        hex_val(spec_hex_digit(n)) == n,
        spec_hex_digit(n) != 0x2du8,
{
}

/// Any nibble is below 16.
proof fn lemma_nibble_bound(k: u128, sh: u128)
    ensures
        (k >> sh) & 0xf < 16,
{
    assert((k >> sh) & 0xf < 16) by (bit_vector);
}

/// The text of any key is structurally well formed.
pub proof fn lemma_uuid_text_ok(k: u128)
    ensures
        spec_uuid_ok(spec_uuid_text(k)),
        spec_uuid_text(k).len() == 36,
{
    let s = spec_uuid_text(k);
    assert forall|i: int| 0 <= i < 36 && !is_hyphen_pos(i) implies is_lower_hex(s[i]) by {
        let d = spec_digit_index(i);
        lemma_nibble_bound(k, (4 * (31 - d)) as u128);
        lemma_hex_digit_class(spec_uuid_nibble(k, d));
    }
}

/// One step of the fold applied to the text of `k` extends the recovered
/// prefix of `k` by one digit.
proof fn lemma_fold_step(k: u128, m: u128)
    requires
        1 <= m < 32,
    ensures
        ((k >> ((4 * (32 - m)) as u128)) << 4) | ((k >> ((4 * (31 - m)) as u128)) & 0xf) == k >> ((
        4 * (31 - m)) as u128),
{
    assert(1 <= m < 32 ==> ((k >> ((4 * (32 - m)) as u128)) << 4) | ((k >> ((4 * (31 - m))
        as u128)) & 0xf) == k >> ((4 * (31 - m)) as u128)) by (bit_vector);
}

/// Folding the digits of the text of `k` recovers the prefix of `k` digit by
/// digit.
proof fn lemma_fold_text_prefix(k: u128, m: int)
    requires
        1 <= m <= 32,
    ensures
        spec_fold_prefix(spec_uuid_text(k), m) == k >> ((4 * (32 - m)) as u128),
    decreases m,
{
    let s = spec_uuid_text(k);
    let d = m - 1;
    let i = spec_digit_pos(d);
    assert(0 <= d && d < 32);
    assert(0 <= i && i < 36);
    assert(!is_hyphen_pos(i));
    assert(spec_digit_index(i) == d);
    assert(s[i] == spec_uuid_char(k, i));
    assert(s[i] == spec_hex_digit(spec_uuid_nibble(k, d)));
    lemma_nibble_bound(k, (4 * (31 - d)) as u128);
    lemma_hex_digit_class(spec_uuid_nibble(k, d));
    assert(hex_val(s[i]) == spec_uuid_nibble(k, d));
    assert(hex_val(s[i]) == (k >> ((4 * (32 - m)) as u128)) & 0xf);
    assert(spec_fold_prefix(s, m) == (spec_fold_prefix(s, m - 1) << 4) | hex_val(s[i]));
    if m == 1 {
        assert(spec_fold_prefix(s, 0) == 0);
        assert((0u128 << 4) | ((k >> 124) & 0xf) == k >> 124) by (bit_vector);
        assert((4 * (32 - m)) as u128 == 124);
    } else {
        lemma_fold_text_prefix(k, m - 1);
        assert((4 * (32 - (m - 1))) as u128 == (4 * (33 - m)) as u128);
        assert(spec_fold_prefix(s, m - 1) == k >> ((4 * (33 - m)) as u128));
        let mu = (m - 1) as u128;
        lemma_fold_step(k, mu);
        assert((4 * (32 - mu)) as u128 == (4 * (33 - m)) as u128);
        assert((4 * (31 - mu)) as u128 == (4 * (32 - m)) as u128);
        assert(((k >> ((4 * (33 - m)) as u128)) << 4) | ((k >> ((4 * (32 - m)) as u128)) & 0xf)
            == k >> ((4 * (32 - m)) as u128));
    }
}

/// Law: parsing the text of a key gives back exactly that key, for every key.
pub proof fn lemma_uuid_roundtrip(k: u128)
    ensures
        spec_parse_uuid(spec_uuid_text(k)) == Some(k),
{
    lemma_uuid_text_ok(k);
    lemma_fold_text_prefix(k, 32);
    assert(k >> ((4 * (32 - 32)) as u128) == k) by (bit_vector);
}

/// Every byte of the text of a key is plain ASCII.
pub proof fn lemma_uuid_text_ascii(k: u128)
    ensures
        forall|i: int| 0 <= i < 36 ==> spec_uuid_text(k)[i] < 0x80,
{
    let s = spec_uuid_text(k);
    assert forall|i: int| 0 <= i < 36 implies s[i] < 0x80 by {
        if !is_hyphen_pos(i) {
            let d = spec_digit_index(i);
            lemma_nibble_bound(k, (4 * (31 - d)) as u128);
        }
    }
}

/// Render a session key as its 36-byte hyphenated lowercase hex text.
pub fn uuid_text(key: &SessionKey) -> (r: Vec<u8>)
    ensures
        r@ == spec_uuid_text(key.0),
{
    let k = key.0;
    let mut out: Vec<u8> = Vec::new();
    let mut i: usize = 0;
    while i < 36
        invariant
            0 <= i <= 36,
            out@.len() == i,
            forall|j: int| 0 <= j < i ==> out@[j] == spec_uuid_char(k, j),
        decreases 36 - i,
    {
        let b: u8 = if i == 8 || i == 13 || i == 18 || i == 23 {
            0x2d
        } else {
            let d: usize = if i < 8 {
                i
            } else if i < 13 {
                i - 1
            } else if i < 18 {
                i - 2
            } else if i < 23 {
                i - 3
            } else {
                i - 4
            };
            let sh: u128 = (4 * (31 - d)) as u128;
            let nib: u128 = (k >> sh) & 0xf;
            proof {
                lemma_nibble_bound(k, sh);
            }
            if nib < 10 {
                0x30 + (nib as u8)
            } else {
                0x57 + (nib as u8)
            }
        };
        out.push(b);
        i += 1;
    }
    assert(out@ =~= spec_uuid_text(k));
    out
}

/// Parse a 36-byte hyphenated lowercase hex text back into a session key.
/// Returns `None` exactly on malformed input.
pub fn parse_uuid_text(s: &[u8]) -> (r: Option<SessionKey>)
    ensures
        match spec_parse_uuid(s@) {
            Some(k) => r == Some(SessionKey(k)),
            None => r is None,
        },
{
    if s.len() != 36 {
        return None;
    }
    let mut acc: u128 = 0;
    let mut i: usize = 0;
    while i < 36
        invariant
            0 <= i <= 36,
            s@.len() == 36,
            forall|j: int| 0 <= j < i && is_hyphen_pos(j) ==> s@[j] == 0x2du8,
            forall|j: int| 0 <= j < i && !is_hyphen_pos(j) ==> is_lower_hex(s@[j]),
            acc == spec_fold_prefix(s@, spec_digit_index(i as int)),
        decreases 36 - i,
    {
        let b: u8 = s[i];
        if i == 8 || i == 13 || i == 18 || i == 23 {
            if b != 0x2d {
                proof {
                    assert(is_hyphen_pos(i as int));
                    assert(s@[i as int] != 0x2du8);
                    assert(!spec_uuid_ok(s@));
                }
                return None;
            }
            proof {
                assert(spec_digit_index(i as int + 1) == spec_digit_index(i as int));
            }
        } else {
            let v: u128 = if 0x30 <= b && b <= 0x39 {
                (b - 0x30) as u128
            } else if 0x61 <= b && b <= 0x66 {
                (b - 0x57) as u128
            } else {
                proof {
                    assert(!is_hyphen_pos(i as int));
                    assert(!is_lower_hex(s@[i as int]));
                    assert(!spec_uuid_ok(s@));
                }
                return None;
            };
            proof {
                assert(spec_digit_index(i + 1) == spec_digit_index(i as int) + 1);
                assert(spec_digit_pos(spec_digit_index(i as int)) == i);
                assert(v == hex_val(s@[i as int]));
            }
            acc = (acc << 4) | v;
        }
        i += 1;
    }
    assert(spec_uuid_ok(s@));
    assert(spec_digit_index(36) == 32);
    Some(SessionKey(acc))
}

/// The token that `jsonwebtoken::encode` produces for the given HMAC secret
/// and a `{"key": <claim>}` claim set.
pub uninterp spec fn jwt_token_of(secret: Seq<u8>, claim: Seq<u8>) -> Seq<u8>;

/// The `key` claim that `jsonwebtoken::decode` recovers from a token under
/// the given HMAC secret, `None` when the token is rejected.
pub uninterp spec fn jwt_claim_of(secret: Seq<u8>, token: Seq<u8>) -> Option<Seq<u8>>;

/// Relies on `jsonwebtoken::encode` with the default HS256 header: the token
/// is a deterministic function of the secret and the claim, and decoding it
/// with the same secret yields the claim back. Signing with HS256 cannot fail
/// for any secret and any single string claim.
#[verifier::external_body]
fn jwt_mint_raw(secret: &[u8], claim: &[u8]) -> (r: Vec<u8>)
    requires
        forall|i: int| 0 <= i < claim@.len() ==> claim@[i] < 0x80,
    ensures
        r@ == jwt_token_of(secret@, claim@),
        jwt_claim_of(secret@, r@) == Some(claim@),
{
    let claim_text = String::from_utf8(claim.to_vec()).expect("ascii claim");
    let mut claims = std::collections::HashMap::new();
    claims.insert("key".to_string(), claim_text);
    let key = jsonwebtoken::EncodingKey::from_secret(secret);
    let token = jsonwebtoken::encode(&jsonwebtoken::Header::default(), &claims, &key)
        .expect("HS256 signing is infallible");
    token.into_bytes()
}

/// Relies on `jsonwebtoken::decode` with HS256, expiry validation disabled
/// and no required claims: the outcome is a deterministic function of the
/// secret and the token bytes alone.
#[verifier::external_body]
fn jwt_verify_raw(secret: &[u8], token: &[u8]) -> (r: Option<Vec<u8>>)
    ensures
        match r {
            Some(c) => jwt_claim_of(secret@, token@) == Some(c@),
            None => jwt_claim_of(secret@, token@) is None,
        },
{
    let mut validation = jsonwebtoken::Validation::new(jsonwebtoken::Algorithm::HS256);
    validation.validate_exp = false;
    validation.required_spec_claims = std::collections::HashSet::new();
    let key = jsonwebtoken::DecodingKey::from_secret(secret);
    match jsonwebtoken::decode::<std::collections::HashMap<String, String>>(token, &key,
        &validation) {
        Ok(data) => data.claims.get("key").map(|c| c.clone().into_bytes()),
        Err(_) => None,
    }
}

/// The session key a cookie value proves under `secret`, if any: the token
/// must carry a claim that is the exact text of a session key.
pub open spec fn spec_verify_token(secret: Seq<u8>, token: Seq<u8>) -> Option<SessionKey> {
    match jwt_claim_of(secret, token) {
        Some(c) => match spec_parse_uuid(c) {
            Some(k) => Some(SessionKey(k)),
            None => None,
        },
        None => None,
    }
}

/// Mint the signed cookie value for a session key. The result is a
/// deterministic function of the secret and the key, and verifying it with
/// the same secret gives the key back.
pub fn mint_token(secret: &[u8], key: &SessionKey) -> (r: Vec<u8>)
    ensures
        r@ == jwt_token_of(secret@, spec_uuid_text(key.0)),
        spec_verify_token(secret@, r@) == Some(*key),
{
    let text = uuid_text(key);
    proof {
        lemma_uuid_text_ascii(key.0);
        lemma_uuid_roundtrip(key.0);
    }
    jwt_mint_raw(secret, text.as_slice())
}

/// Check a presented cookie value: returns the session key it proves, or
/// `None` when the signature or the claim is unacceptable.
pub fn verify_token(secret: &[u8], token: &[u8]) -> (r: Option<SessionKey>)
    ensures
        r == spec_verify_token(secret@, token@),
{
    match jwt_verify_raw(secret, token) {
        Some(claim) => parse_uuid_text(claim.as_slice()),
        None => None,
    }
}

} // verus!
