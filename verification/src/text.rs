//! Fixed wire-level byte strings, each with its spec value and a verified
//! constructor.

use vstd::prelude::*;

use crate::util::to_vec;

verus! {

/// The bytes of `token`: the query key `token`.
pub open spec fn spec_token_key() -> Seq<u8> {
    seq![0x74u8, 0x6fu8, 0x6bu8, 0x65u8, 0x6eu8]
}

/// Build the bytes of `token`.
pub fn lit_token_key() -> (r: Vec<u8>)
    ensures
        r@ == spec_token_key(),
{
    let v = to_vec(&[0x74, 0x6f, 0x6b, 0x65, 0x6e]);
    assert(v@ =~= spec_token_key());
    v
}

/// The bytes of `/callback`: the callback route.
pub open spec fn spec_callback_path() -> Seq<u8> {
    seq![0x2fu8, 0x63u8, 0x61u8, 0x6cu8, 0x6cu8, 0x62u8, 0x61u8, 0x63u8, 0x6bu8]
}

/// Build the bytes of `/callback`.
pub fn lit_callback_path() -> (r: Vec<u8>)
    ensures
        r@ == spec_callback_path(),
{
    let v = to_vec(&[0x2f, 0x63, 0x61, 0x6c, 0x6c, 0x62, 0x61, 0x63, 0x6b]);
    assert(v@ =~= spec_callback_path());
    v
}

/// The bytes of `application/json`: the JSON content type.
pub open spec fn spec_json_type() -> Seq<u8> {
    seq![0x61u8, 0x70u8, 0x70u8, 0x6cu8, 0x69u8, 0x63u8, 0x61u8, 0x74u8, 0x69u8, 0x6fu8, 0x6eu8, 0x2fu8, 0x6au8, 0x73u8, 0x6fu8, 0x6eu8]
}

/// Build the bytes of `application/json`.
pub fn lit_json_type() -> (r: Vec<u8>)
    ensures
        r@ == spec_json_type(),
{
    let v = to_vec(&[0x61, 0x70, 0x70, 0x6c, 0x69, 0x63, 0x61, 0x74, 0x69, 0x6f, 0x6e, 0x2f, 0x6a, 0x73, 0x6f, 0x6e]);
    assert(v@ =~= spec_json_type());
    v
}

/// The bytes of `text/event-stream`: the event-stream content type.
pub open spec fn spec_event_stream_type() -> Seq<u8> {
    seq![0x74u8, 0x65u8, 0x78u8, 0x74u8, 0x2fu8, 0x65u8, 0x76u8, 0x65u8, 0x6eu8, 0x74u8, 0x2du8, 0x73u8, 0x74u8, 0x72u8, 0x65u8, 0x61u8, 0x6du8]
}

/// Build the bytes of `text/event-stream`.
pub fn lit_event_stream_type() -> (r: Vec<u8>)
    ensures
        r@ == spec_event_stream_type(),
{
    let v = to_vec(&[0x74, 0x65, 0x78, 0x74, 0x2f, 0x65, 0x76, 0x65, 0x6e, 0x74, 0x2d, 0x73, 0x74, 0x72, 0x65, 0x61, 0x6d]);
    assert(v@ =~= spec_event_stream_type());
    v
}

/// The bytes of `null`: the JSON body of a callback response.
pub open spec fn spec_null_body() -> Seq<u8> {
    seq![0x6eu8, 0x75u8, 0x6cu8, 0x6cu8]
}

/// Build the bytes of `null`.
pub fn lit_null_body() -> (r: Vec<u8>)
    ensures
        r@ == spec_null_body(),
{
    let v = to_vec(&[0x6e, 0x75, 0x6c, 0x6c]);
    assert(v@ =~= spec_null_body());
    v
}

/// The bytes of `; HttpOnly`: the cookie attribute suffix.
pub open spec fn spec_cookie_suffix() -> Seq<u8> {
    seq![0x3bu8, 0x20u8, 0x48u8, 0x74u8, 0x74u8, 0x70u8, 0x4fu8, 0x6eu8, 0x6cu8, 0x79u8]
}

/// Build the bytes of `; HttpOnly`.
pub fn lit_cookie_suffix() -> (r: Vec<u8>)
    ensures
        r@ == spec_cookie_suffix(),
{
    let v = to_vec(&[0x3b, 0x20, 0x48, 0x74, 0x74, 0x70, 0x4f, 0x6e, 0x6c, 0x79]);
    assert(v@ =~= spec_cookie_suffix());
    v
}

/// The bytes of `=`: the name/value separator of a cookie.
pub open spec fn spec_equals() -> Seq<u8> {
    seq![0x3du8]
}

/// Build the bytes of `=`.
pub fn lit_equals() -> (r: Vec<u8>)
    ensures
        r@ == spec_equals(),
{
    let v = to_vec(&[0x3d]);
    assert(v@ =~= spec_equals());
    v
}

/// The bytes of `No (valid) token in request.`: the tokenless-request error.
pub open spec fn spec_no_token_msg() -> Seq<u8> {
    seq![0x4eu8, 0x6fu8, 0x20u8, 0x28u8, 0x76u8, 0x61u8, 0x6cu8, 0x69u8, 0x64u8, 0x29u8, 0x20u8, 0x74u8, 0x6fu8, 0x6bu8, 0x65u8, 0x6eu8, 0x20u8, 0x69u8, 0x6eu8, 0x20u8, 0x72u8, 0x65u8, 0x71u8, 0x75u8, 0x65u8, 0x73u8, 0x74u8, 0x2eu8]
}

/// Build the bytes of `No (valid) token in request.`.
pub fn lit_no_token_msg() -> (r: Vec<u8>)
    ensures
        r@ == spec_no_token_msg(),
{
    let v = to_vec(&[0x4e, 0x6f, 0x20, 0x28, 0x76, 0x61, 0x6c, 0x69, 0x64, 0x29, 0x20, 0x74, 0x6f, 0x6b, 0x65, 0x6e, 0x20, 0x69, 0x6e, 0x20, 0x72, 0x65, 0x71, 0x75, 0x65, 0x73, 0x74, 0x2e]);
    assert(v@ =~= spec_no_token_msg());
    v
}

/// The bytes of `Event request does not specify 'Accept' or does not accept the required 'text/event-stream'`: the event-stream Accept error.
pub open spec fn spec_accept_msg() -> Seq<u8> {
    seq![0x45u8, 0x76u8, 0x65u8, 0x6eu8, 0x74u8, 0x20u8, 0x72u8, 0x65u8, 0x71u8, 0x75u8, 0x65u8, 0x73u8, 0x74u8, 0x20u8, 0x64u8, 0x6fu8, 0x65u8, 0x73u8, 0x20u8, 0x6eu8, 0x6fu8, 0x74u8, 0x20u8, 0x73u8, 0x70u8, 0x65u8, 0x63u8, 0x69u8, 0x66u8, 0x79u8, 0x20u8, 0x27u8, 0x41u8, 0x63u8, 0x63u8, 0x65u8, 0x70u8, 0x74u8, 0x27u8, 0x20u8, 0x6fu8, 0x72u8, 0x20u8, 0x64u8, 0x6fu8, 0x65u8, 0x73u8, 0x20u8, 0x6eu8, 0x6fu8, 0x74u8, 0x20u8, 0x61u8, 0x63u8, 0x63u8, 0x65u8, 0x70u8, 0x74u8, 0x20u8, 0x74u8, 0x68u8, 0x65u8, 0x20u8, 0x72u8, 0x65u8, 0x71u8, 0x75u8, 0x69u8, 0x72u8, 0x65u8, 0x64u8, 0x20u8, 0x27u8, 0x74u8, 0x65u8, 0x78u8, 0x74u8, 0x2fu8, 0x65u8, 0x76u8, 0x65u8, 0x6eu8, 0x74u8, 0x2du8, 0x73u8, 0x74u8, 0x72u8, 0x65u8, 0x61u8, 0x6du8, 0x27u8]
}

/// Build the bytes of `Event request does not specify 'Accept' or does not accept the required 'text/event-stream'`.
pub fn lit_accept_msg() -> (r: Vec<u8>)
    ensures
        r@ == spec_accept_msg(),
{
    let v = to_vec(&[0x45, 0x76, 0x65, 0x6e, 0x74, 0x20, 0x72, 0x65, 0x71, 0x75, 0x65, 0x73, 0x74, 0x20, 0x64, 0x6f, 0x65, 0x73, 0x20, 0x6e, 0x6f, 0x74, 0x20, 0x73, 0x70, 0x65, 0x63, 0x69, 0x66, 0x79, 0x20, 0x27, 0x41, 0x63, 0x63, 0x65, 0x70, 0x74, 0x27, 0x20, 0x6f, 0x72, 0x20, 0x64, 0x6f, 0x65, 0x73, 0x20, 0x6e, 0x6f, 0x74, 0x20, 0x61, 0x63, 0x63, 0x65, 0x70, 0x74, 0x20, 0x74, 0x68, 0x65, 0x20, 0x72, 0x65, 0x71, 0x75, 0x69, 0x72, 0x65, 0x64, 0x20, 0x27, 0x74, 0x65, 0x78, 0x74, 0x2f, 0x65, 0x76, 0x65, 0x6e, 0x74, 0x2d, 0x73, 0x74, 0x72, 0x65, 0x61, 0x6d, 0x27]);
    assert(v@ =~= spec_accept_msg());
    v
}

/// The bytes of `incorrect token in URI`: the wrong-token error.
pub open spec fn spec_bad_token_msg() -> Seq<u8> {
    seq![0x69u8, 0x6eu8, 0x63u8, 0x6fu8, 0x72u8, 0x72u8, 0x65u8, 0x63u8, 0x74u8, 0x20u8, 0x74u8, 0x6fu8, 0x6bu8, 0x65u8, 0x6eu8, 0x20u8, 0x69u8, 0x6eu8, 0x20u8, 0x55u8, 0x52u8, 0x49u8]
}

/// Build the bytes of `incorrect token in URI`.
pub fn lit_bad_token_msg() -> (r: Vec<u8>)
    ensures
        r@ == spec_bad_token_msg(),
{
    let v = to_vec(&[0x69, 0x6e, 0x63, 0x6f, 0x72, 0x72, 0x65, 0x63, 0x74, 0x20, 0x74, 0x6f, 0x6b, 0x65, 0x6e, 0x20, 0x69, 0x6e, 0x20, 0x55, 0x52, 0x49]);
    assert(v@ =~= spec_bad_token_msg());
    v
}

/// The bytes of `cookie not parsed`: the unparsable-cookie error.
pub open spec fn spec_cookie_parse_msg() -> Seq<u8> {
    seq![0x63u8, 0x6fu8, 0x6fu8, 0x6bu8, 0x69u8, 0x65u8, 0x20u8, 0x6eu8, 0x6fu8, 0x74u8, 0x20u8, 0x70u8, 0x61u8, 0x72u8, 0x73u8, 0x65u8, 0x64u8]
}

/// Build the bytes of `cookie not parsed`.
pub fn lit_cookie_parse_msg() -> (r: Vec<u8>)
    ensures
        r@ == spec_cookie_parse_msg(),
{
    let v = to_vec(&[0x63, 0x6f, 0x6f, 0x6b, 0x69, 0x65, 0x20, 0x6e, 0x6f, 0x74, 0x20, 0x70, 0x61, 0x72, 0x73, 0x65, 0x64]);
    assert(v@ =~= spec_cookie_parse_msg());
    v
}

/// The bytes of `invalid session cookie`: the unverifiable-cookie error.
pub open spec fn spec_bad_cookie_msg() -> Seq<u8> {
    seq![0x69u8, 0x6eu8, 0x76u8, 0x61u8, 0x6cu8, 0x69u8, 0x64u8, 0x20u8, 0x73u8, 0x65u8, 0x73u8, 0x73u8, 0x69u8, 0x6fu8, 0x6eu8, 0x20u8, 0x63u8, 0x6fu8, 0x6fu8, 0x6bu8, 0x69u8, 0x65u8]
}

/// Build the bytes of `invalid session cookie`.
pub fn lit_bad_cookie_msg() -> (r: Vec<u8>)
    ensures
        r@ == spec_bad_cookie_msg(),
{
    let v = to_vec(&[0x69, 0x6e, 0x76, 0x61, 0x6c, 0x69, 0x64, 0x20, 0x73, 0x65, 0x73, 0x73, 0x69, 0x6f, 0x6e, 0x20, 0x63, 0x6f, 0x6f, 0x6b, 0x69, 0x65]);
    assert(v@ =~= spec_bad_cookie_msg());
    v
}

/// The bytes of `no valid session key`: the no-session error.
pub open spec fn spec_no_session_msg() -> Seq<u8> {
    seq![0x6eu8, 0x6fu8, 0x20u8, 0x76u8, 0x61u8, 0x6cu8, 0x69u8, 0x64u8, 0x20u8, 0x73u8, 0x65u8, 0x73u8, 0x73u8, 0x69u8, 0x6fu8, 0x6eu8, 0x20u8, 0x6bu8, 0x65u8, 0x79u8]
}

/// Build the bytes of `no valid session key`.
pub fn lit_no_session_msg() -> (r: Vec<u8>)
    ensures
        r@ == spec_no_session_msg(),
{
    let v = to_vec(&[0x6e, 0x6f, 0x20, 0x76, 0x61, 0x6c, 0x69, 0x64, 0x20, 0x73, 0x65, 0x73, 0x73, 0x69, 0x6f, 0x6e, 0x20, 0x6b, 0x65, 0x79]);
    assert(v@ =~= spec_no_session_msg());
    v
}

/// The bytes of `Failed parsing JSON: `: the callback body parse error prefix.
pub open spec fn spec_parse_err_prefix() -> Seq<u8> {
    seq![0x46u8, 0x61u8, 0x69u8, 0x6cu8, 0x65u8, 0x64u8, 0x20u8, 0x70u8, 0x61u8, 0x72u8, 0x73u8, 0x69u8, 0x6eu8, 0x67u8, 0x20u8, 0x4au8, 0x53u8, 0x4fu8, 0x4eu8, 0x3au8, 0x20u8]
}

/// Build the bytes of `Failed parsing JSON: `.
pub fn lit_parse_err_prefix() -> (r: Vec<u8>)
    ensures
        r@ == spec_parse_err_prefix(),
{
    let v = to_vec(&[0x46, 0x61, 0x69, 0x6c, 0x65, 0x64, 0x20, 0x70, 0x61, 0x72, 0x73, 0x69, 0x6e, 0x67, 0x20, 0x4a, 0x53, 0x4f, 0x4e, 0x3a, 0x20]);
    assert(v@ =~= spec_parse_err_prefix());
    v
}

} // verus!