//! The HTTP request dispatcher and its authentication state machine.
//!
//! A request is authenticated either by a `token=` query parameter matching
//! the pre-shared token (which mints a fresh session and sets a cookie) or by
//! a session cookie whose JWT verifies; with no token configured every
//! request is let in. The dispatcher then routes to the callback endpoint,
//! the event-stream endpoint or the asset source, and builds the response
//! models that the embedding server turns into real HTTP responses.

use vstd::prelude::*;

use crate::access_control::{spec_auth_secret, spec_auth_token, AccessControl};
use crate::assets::{
    fullpath, has_dotdot, rewrite_root, spec_content_type_for, spec_fullpath, spec_has_dotdot,
    spec_rewrite_root,
};
use crate::channel::channel_new;
use crate::json::{errors_json, spec_errors_json};
use crate::session::{jwt_token_of, mint_token, spec_uuid_text, spec_verify_token};
use crate::text::{
    lit_accept_msg, lit_bad_cookie_msg, lit_bad_token_msg, lit_cookie_parse_msg,
    lit_cookie_suffix, lit_equals, lit_event_stream_type, lit_json_type, lit_no_session_msg,
    lit_no_token_msg, lit_null_body, lit_parse_err_prefix, spec_accept_msg, spec_callback_path,
    spec_cookie_suffix, spec_equals, spec_event_stream_type, spec_json_type, spec_no_token_msg,
    spec_null_body, spec_parse_err_prefix, spec_token_key,
};
use crate::types::{spec_does_match, AccessToken, ConnectionKey, SessionKey};
use crate::util::{bytes_eq, push_all, starts_with, to_vec};

verus! {

/// A sink for messages sent to one connection (one per client tab).
pub type EventChunkSender = futures::channel::mpsc::Sender<Vec<u8>>;

/// The sender handed to the onboarding loop for each new event-stream
/// listener.
pub struct NewEventStreamConnection {
    /// A sink for messages sent to this connection.
    pub chunk_sender: EventChunkSender,
    /// Identifier of the session that opened the connection (one per
    /// browser).
    pub session_key: SessionKey,
    /// Identifier of the connection (one per tab).
    pub connection_key: ConnectionKey,
    /// The path that was requested (starts with the events prefix).
    pub path: Vec<u8>,
}

/// Configuration settings for `BuiService`.
pub struct Config {
    /// Location of the files to be served from disk.
    pub serve_filepath: Vec<u8>,
    /// The bundled files, when assets are carried in memory instead of read
    /// from disk.
    pub bundled_files: Option<crate::assets::BundledAssets>,
    /// The number of messages in an event-stream channel before blocking.
    pub channel_size: usize,
    /// The name of the session cookie stored in the client's browser.
    pub cookie_name: Vec<u8>,
}

/// The request method, as far as routing cares.
#[derive(Clone, Copy, PartialEq, Eq, Structural, Debug)]
pub enum Method {
    /// A GET request.
    Get,
    /// A POST request.
    Post,
    /// Anything else.
    Other,
}

/// The parts of an incoming request that routing reads.
pub struct HttpRequest {
    /// The request method.
    pub method: Method,
    /// The request path.
    pub path: Vec<u8>,
    /// The raw query string, without the `?`.
    pub query: Vec<u8>,
    /// The raw values of the `Accept` headers.
    pub accept: Vec<Vec<u8>>,
    /// The raw values of the `Cookie` headers.
    pub cookies: Vec<Vec<u8>>,
}

/// A complete response.
pub struct HttpResponse {
    /// The status code.
    pub status: u16,
    /// The `Content-Type` header value, if one is set.
    pub content_type: Option<Vec<u8>>,
    /// The `Set-Cookie` header value, if one is set.
    pub set_cookie: Option<Vec<u8>>,
    /// The response body.
    pub body: Vec<u8>,
}

/// What the caller must do with a dispatched request.
pub enum RequestOutcome {
    /// The response is complete: send it.
    Respond(HttpResponse),
    /// Read the asset from disk and finish with [`asset_response`].
    ServeAsset {
        /// The full filesystem path to read.
        fs_path: Vec<u8>,
        /// The request path after root rewriting (for the content type).
        asset_path: Vec<u8>,
        /// The `Set-Cookie` value to attach, if a session was minted.
        set_cookie: Option<Vec<u8>>,
    },
    /// A new event-stream connection: hand `conn` to the onboarding loop and
    /// stream everything arriving on `receiver` with content type
    /// `text/event-stream`.
    EventStream {
        /// The new connection, to be handed to the onboarding loop.
        conn: NewEventStreamConnection,
        /// The stream of outbound chunks for the response body.
        receiver: futures::channel::mpsc::Receiver<Vec<u8>>,
        /// The `Set-Cookie` value to attach, if a session was minted.
        set_cookie: Option<Vec<u8>>,
    },
    /// A callback: read the body, parse it, invoke the handler, and finish
    /// with [`callback_response`].
    Callback {
        /// The session the request authenticated as.
        session_key: SessionKey,
        /// The `Set-Cookie` value to attach, if a session was minted.
        set_cookie: Option<Vec<u8>>,
    },
}

/// How a request authenticated: with an existing session from a cookie, or
/// freshly, so that a session key must be minted.
#[derive(Clone, Copy, PartialEq, Eq, Structural, Debug)]
pub enum ValidLogin {
    /// The session cookie verified.
    ExistingSession(SessionKey),
    /// The request is let in but carries no session yet.
    NeedsSessionKey,
}

/// The key/value pairs that `url::form_urlencoded::parse` decodes from a raw
/// query string: a function of the bytes alone.
pub uninterp spec fn parsed_query(q: Seq<u8>) -> Seq<(Seq<u8>, Seq<u8>)>;

/// Relies on `url::form_urlencoded::parse` to decode the query string.
#[verifier::external_body]
fn parse_query_pairs(q: &[u8]) -> (r: Vec<(Vec<u8>, Vec<u8>)>)
    ensures
        r@.len() == parsed_query(q@).len(),
        forall|i: int|
            0 <= i < r@.len() ==> (#[trigger] r@[i]).0@ == parsed_query(q@)[i].0 && r@[i].1@
                == parsed_query(q@)[i].1,
{
    url::form_urlencoded::parse(q)
        .map(|(k, v)| (k.into_owned().into_bytes(), v.into_owned().into_bytes()))
        .collect()
}

/// The name and value that `cookie::Cookie::parse` extracts from one raw
/// `Cookie` header value, `None` when the header is rejected (headers that
/// are not UTF-8 text are rejected): a function of the bytes alone.
pub uninterp spec fn parsed_cookie(s: Seq<u8>) -> Option<(Seq<u8>, Seq<u8>)>;

/// Relies on `cookie::Cookie::parse` to split a cookie header into name and
/// value.
#[verifier::external_body]
fn parse_cookie_header(s: &[u8]) -> (r: Option<(Vec<u8>, Vec<u8>)>)
    ensures
        match r {
            Some(p) => parsed_cookie(s@) == Some((p.0@, p.1@)),
            None => parsed_cookie(s@) is None,
        },
{
    let text = match std::str::from_utf8(s) {
        Ok(t) => t,
        Err(_) => return None,
    };
    match cookie::Cookie::parse(text) {
        Ok(c) => Some((c.name().as_bytes().to_vec(), c.value().as_bytes().to_vec())),
        Err(_) => None,
    }
}

/// Some query pair is `token=<value>` with a value that the configured token
/// accepts.
pub open spec fn spec_token_grants(pairs: Seq<(Seq<u8>, Seq<u8>)>, tok: Option<Seq<u8>>) -> bool {
    exists|i: int|
        0 <= i < pairs.len() && (#[trigger] pairs[i]).0 == spec_token_key() && spec_does_match(
            tok,
            pairs[i].1,
        )
}

/// The session proved by the first cookie header that parses, carries the
/// configured cookie name and verifies; `None` when there is no such cookie.
pub open spec fn spec_cookie_session(cookies: Seq<Seq<u8>>, name: Seq<u8>, secret: Seq<u8>) -> Option<
    SessionKey,
>
    decreases cookies.len(),
{
    if cookies.len() == 0 {
        None
    } else {
        let rest = spec_cookie_session(cookies.drop_first(), name, secret);
        match parsed_cookie(cookies.first()) {
            Some(nv) => if nv.0 == name {
                match spec_verify_token(secret, nv.1) {
                    Some(k) => Some(k),
                    None => rest,
                }
            } else {
                rest
            },
            None => rest,
        }
    }
}

/// The authentication outcome of a request: a valid URL token grants a fresh
/// session; otherwise a verifying session cookie is used; otherwise the
/// request is let in fresh exactly when no token is configured.
pub open spec fn spec_login(
    pairs: Seq<(Seq<u8>, Seq<u8>)>,
    cookies: Seq<Seq<u8>>,
    name: Seq<u8>,
    secret: Seq<u8>,
    tok: Option<Seq<u8>>,
) -> Option<ValidLogin> {
    if spec_token_grants(pairs, tok) {
        Some(ValidLogin::NeedsSessionKey)
    } else {
        match spec_cookie_session(cookies, name, secret) {
            Some(k) => Some(ValidLogin::ExistingSession(k)),
            None => if tok is None {
                Some(ValidLogin::NeedsSessionKey)
            } else {
                None
            },
        }
    }
}

/// The views of a list of byte vectors.
pub open spec fn spec_views(v: Seq<Vec<u8>>) -> Seq<Seq<u8>> {
    v.map_values(|c: Vec<u8>| c@)
}

/// Determine the authentication outcome of a request. `Err` carries the
/// error messages collected on the way, for the callback route's error body.
pub fn get_session_key(
    query: &Vec<u8>,
    cookies: &Vec<Vec<u8>>,
    cookie_name: &Vec<u8>,
    jwt_secret: &Vec<u8>,
    valid_token: &AccessToken,
) -> (r: Result<ValidLogin, Vec<Vec<u8>>>)
    ensures
        ({
            let outcome = spec_login(
                parsed_query(query@),
                spec_views(cookies@),
                cookie_name@,
                jwt_secret@,
                valid_token@,
            );
            match r {
                Ok(l) => outcome == Some(l),
                Err(_) => outcome is None,
            }
        }),
{
    let ghost pairsv = parsed_query(query@);
    let ghost cookiesv = spec_views(cookies@);
    let mut errors: Vec<Vec<u8>> = Vec::new();

    // First, look for a granting token among the query pairs.
    let pairs = parse_query_pairs(query.as_slice());
    let np = pairs.len();
    let mut i: usize = 0;
    while i < np
        invariant
            pairsv == parsed_query(query@),
            cookiesv == spec_views(cookies@),
            np == pairs@.len(),
            np == pairsv.len(),
            forall|j: int|
                0 <= j < np ==> (#[trigger] pairs@[j]).0@ == pairsv[j].0 && pairs@[j].1@
                    == pairsv[j].1,
            0 <= i <= np,
            forall|j: int|
                0 <= j < i ==> !((#[trigger] pairsv[j]).0 == spec_token_key() && spec_does_match(
                    valid_token@,
                    pairsv[j].1,
                )),
        decreases np - i,
    {
        let pair = &pairs[i];
        if bytes_eq(pair.0.as_slice(), &[0x74, 0x6f, 0x6b, 0x65, 0x6e]) {
            proof {
                assert(pairsv[i as int].0 =~= spec_token_key());
            }
            if valid_token.does_match(pair.1.as_slice()) {
                proof {
                    assert(spec_token_grants(pairsv, valid_token@));
                }
                return Ok(ValidLogin::NeedsSessionKey);
            }
            errors.push(lit_bad_token_msg());
        } else {
            proof {
                assert(pairsv[i as int].0 != spec_token_key());
            }
        }
        i += 1;
    }
    proof {
        assert(!spec_token_grants(pairsv, valid_token@));
    }

    // Next, look for a verifying session cookie.
    let nc = cookies.len();
    proof {
        assert(cookiesv.subrange(0, nc as int) =~= cookiesv);
    }
    let mut c: usize = 0;
    while c < nc
        invariant
            pairsv == parsed_query(query@),
            !spec_token_grants(pairsv, valid_token@),
            nc == cookies@.len(),
            cookiesv == spec_views(cookies@),
            nc == cookiesv.len(),
            0 <= c <= nc,
            spec_cookie_session(cookiesv, cookie_name@, jwt_secret@) == spec_cookie_session(
                cookiesv.subrange(c as int, nc as int),
                cookie_name@,
                jwt_secret@,
            ),
        decreases nc - c,
    {
        let ghost tail = cookiesv.subrange(c as int, nc as int);
        proof {
            assert(tail.first() == cookiesv[c as int]);
            assert(tail.drop_first() =~= cookiesv.subrange(c + 1, nc as int));
            assert(cookiesv[c as int] == cookies@[c as int]@);
        }
        match parse_cookie_header(cookies[c].as_slice()) {
            Some(nv) => {
                if bytes_eq(nv.0.as_slice(), cookie_name.as_slice()) {
                    match crate::session::verify_token(jwt_secret.as_slice(), nv.1.as_slice()) {
                        Some(k) => {
                            proof {
                                assert(spec_cookie_session(tail, cookie_name@, jwt_secret@)
                                    == Some(k));
                            }
                            return Ok(ValidLogin::ExistingSession(k));
                        },
                        None => {
                            errors.push(lit_bad_cookie_msg());
                        },
                    }
                }
            },
            None => {
                errors.push(lit_cookie_parse_msg());
            },
        }
        c += 1;
    }
    proof {
        assert(cookiesv.subrange(nc as int, nc as int) =~= Seq::<Seq<u8>>::empty());
        assert(spec_cookie_session(cookiesv, cookie_name@, jwt_secret@) is None);
    }

    // No token and no cookie: open servers still get a fresh session.
    match valid_token {
        AccessToken::NoToken => Ok(ValidLogin::NeedsSessionKey),
        AccessToken::PreSharedToken(_) => {
            errors.push(lit_no_session_msg());
            Err(errors)
        },
    }
}

/// Does any `Accept` header value contain `text/event-stream`?
pub open spec fn spec_accepts_event_stream(accept: Seq<Seq<u8>>) -> bool {
    exists|i: int|
        0 <= i < accept.len() && spec_contains_sub(#[trigger] accept[i], spec_event_stream_type())
}

/// `n` occurs as a contiguous subsequence of `h`.
pub open spec fn spec_contains_sub(h: Seq<u8>, n: Seq<u8>) -> bool {
    exists|i: int| 0 <= i && i + n.len() <= h.len() && #[trigger] h.subrange(i, i + n.len()) == n
}

/// Does `h` contain `n` as a contiguous subsequence?
pub fn contains_sub(h: &[u8], n: &[u8]) -> (r: bool)
    ensures
        r == spec_contains_sub(h@, n@),
{
    let m = n.len();
    if m > h.len() {
        return false;
    }
    let hn = h.len();
    let mut i: usize = 0;
    while i <= hn - m
        invariant
            hn == h@.len(),
            m == n@.len(),
            m <= hn,
            0 <= i <= hn - m + 1,
            forall|j: int| 0 <= j < i ==> #[trigger] h@.subrange(j, j + m) != n@,
        decreases hn + 1 - m - i,
    {
        let mut k: usize = 0;
        let mut all_eq = true;
        while k < m
            invariant
                hn == h@.len(),
                m == n@.len(),
                0 <= i <= hn - m,
                0 <= k <= m,
                all_eq == (forall|t: int| 0 <= t < k ==> h@[i + t] == n@[t]),
            decreases m - k,
        {
            if h[i + k] != n[k] {
                all_eq = false;
            }
            k += 1;
        }
        if all_eq {
            proof {
                assert(h@.subrange(i as int, i + m) =~= n@);
            }
            return true;
        }
        proof {
            assert(h@.subrange(i as int, i + m) != n@) by {
                let t = choose|t: int| 0 <= t < m && h@[i + t] != n@[t];
                assert(h@.subrange(i as int, i + m)[t] == h@[i + t]);
            }
        }
        i += 1;
    }
    false
}

/// Does any of the `Accept` header values contain `text/event-stream`?
pub fn accepts_event_stream(accept: &Vec<Vec<u8>>) -> (r: bool)
    ensures
        r == spec_accepts_event_stream(spec_views(accept@)),
{
    let ghost av = spec_views(accept@);
    let es = lit_event_stream_type();
    let n = accept.len();
    let mut i: usize = 0;
    while i < n
        invariant
            n == accept@.len(),
            av == spec_views(accept@),
            n == av.len(),
            es@ == spec_event_stream_type(),
            0 <= i <= n,
            forall|j: int| 0 <= j < i ==> !spec_contains_sub(#[trigger] av[j], spec_event_stream_type()),
        decreases n - i,
    {
        proof {
            assert(av[i as int] == accept@[i as int]@);
        }
        if contains_sub(accept[i].as_slice(), es.as_slice()) {
            return true;
        }
        i += 1;
    }
    false
}

/// The `Set-Cookie` header value carrying a minted session token:
/// `<name>=<token>; HttpOnly`.
pub open spec fn spec_set_cookie_value(name: Seq<u8>, tok: Seq<u8>) -> Seq<u8> {
    name + spec_equals() + tok + spec_cookie_suffix()
}

/// A freshly minted cookie for session `k`: its value is the signed token
/// for `k` wrapped in the cookie attributes, and that token verifies back to
/// `k` under the same secret.
pub open spec fn spec_minted_cookie(name: Seq<u8>, secret: Seq<u8>, c: Seq<u8>, k: SessionKey) -> bool {
    &&& c == spec_set_cookie_value(name, jwt_token_of(secret, spec_uuid_text(k.0)))
    &&& spec_verify_token(secret, jwt_token_of(secret, spec_uuid_text(k.0))) == Some(k)
}

/// How a login outcome resolves into the session key used downstream and the
/// cookie attached to the response: an existing session is used as is; a
/// fresh login gets a newly minted session key and exactly one `Set-Cookie`.
pub open spec fn spec_resolved(
    l: ValidLogin,
    name: Seq<u8>,
    secret: Seq<u8>,
    sc: Option<Seq<u8>>,
    k: SessionKey,
) -> bool {
    match l {
        ValidLogin::ExistingSession(k0) => k == k0 && sc is None,
        ValidLogin::NeedsSessionKey => match sc {
            Some(c) => spec_minted_cookie(name, secret, c, k),
            None => false,
        },
    }
}

/// The view of an optional byte vector.
pub open spec fn spec_opt_view(o: Option<Vec<u8>>) -> Option<Seq<u8>> {
    match o {
        Some(v) => Some(v@),
        None => None,
    }
}

/// Handle HTTP requests and coordinate responses to data updates.
pub struct BuiService {
    config: Config,
    next_connection_key: ConnectionKey,
    jwt_secret: Vec<u8>,
    valid_token: AccessToken,
    tx_new_connection: futures::channel::mpsc::Sender<NewEventStreamConnection>,
    events_prefix: Vec<u8>,
}

impl BuiService {
    /// The configured cookie name.
    pub closed spec fn spec_cookie_name(&self) -> Seq<u8> {
        self.config.cookie_name@
    }

    /// The configured serve directory.
    pub closed spec fn spec_serve_filepath(&self) -> Seq<u8> {
        self.config.serve_filepath@
    }

    /// Are assets bundled in memory?
    pub closed spec fn spec_is_bundled(&self) -> bool {
        self.config.bundled_files is Some
    }

    /// What the bundled store answers for a full path.
    pub closed spec fn spec_bundle_lookup(&self, p: Seq<u8>) -> Option<Seq<u8>>
        recommends
            self.spec_is_bundled(),
    {
        self.config.bundled_files.unwrap().spec_get(p)
    }

    /// The configured channel size for event-stream connections.
    pub closed spec fn spec_channel_size(&self) -> int {
        self.config.channel_size as int
    }

    /// The JWT secret.
    pub closed spec fn spec_secret(&self) -> Seq<u8> {
        self.jwt_secret@
    }

    /// The configured token requirement.
    pub closed spec fn spec_token(&self) -> Option<Seq<u8>> {
        self.valid_token@
    }

    /// The configured events prefix.
    pub closed spec fn spec_events_prefix(&self) -> Seq<u8> {
        self.events_prefix@
    }

    /// The next connection key to be handed out.
    pub closed spec fn spec_next_key(&self) -> u32 {
        self.next_connection_key.0
    }

    /// All configuration is as it was; only the connection counter may move.
    pub open spec fn spec_same_config(&self, other: &Self) -> bool {
        &&& self.spec_cookie_name() == other.spec_cookie_name()
        &&& self.spec_serve_filepath() == other.spec_serve_filepath()
        &&& self.spec_is_bundled() == other.spec_is_bundled()
        &&& forall|p: Seq<u8>| self.spec_bundle_lookup(p) == other.spec_bundle_lookup(p)
        &&& self.spec_channel_size() == other.spec_channel_size()
        &&& self.spec_secret() == other.spec_secret()
        &&& self.spec_token() == other.spec_token()
        &&& self.spec_events_prefix() == other.spec_events_prefix()
    }

    /// The event-stream path prefix.
    pub fn events_prefix(&self) -> (r: &Vec<u8>)
        ensures
            r@ == self.spec_events_prefix(),
    {
        &self.events_prefix
    }

    /// The value the next connection key will take. `dispatch` requires
    /// that this has not reached the counter's ceiling.
    pub fn next_key_value(&self) -> (r: u32)
        ensures
            r == self.spec_next_key(),
    {
        self.next_connection_key.0
    }

    /// The sender on which dispatched event-stream connections are to be
    /// published to the onboarding loop.
    pub fn connection_sender(&self) -> &futures::channel::mpsc::Sender<NewEventStreamConnection> {
        &self.tx_new_connection
    }

    /// Resolve a login outcome: an existing session is used as is; a fresh
    /// login mints a session key and the cookie that carries it.
    fn resolve_login(&self, l: ValidLogin) -> (r: (Option<Vec<u8>>, SessionKey))
        ensures
            spec_resolved(l, self.spec_cookie_name(), self.spec_secret(), spec_opt_view(r.0), r.1),
    {
        match l {
            ValidLogin::ExistingSession(k) => (None, k),
            ValidLogin::NeedsSessionKey => {
                let key = SessionKey::new();
                let tok = mint_token(self.jwt_secret.as_slice(), &key);
                let mut c = to_vec(self.config.cookie_name.as_slice());
                push_all(&mut c, lit_equals().as_slice());
                push_all(&mut c, tok.as_slice());
                push_all(&mut c, lit_cookie_suffix().as_slice());
                proof {
                    assert(c@ =~= spec_set_cookie_value(
                        self.spec_cookie_name(),
                        jwt_token_of(self.spec_secret(), spec_uuid_text(key.0)),
                    ));
                }
                (Some(c), key)
            },
        }
    }
}

/// A 400 response with a JSON error body.
fn error_response(msgs: &Vec<Vec<u8>>, set_cookie: Option<Vec<u8>>) -> (r: HttpResponse)
    ensures
        r.status == 400,
        r.body@ == spec_errors_json(spec_views(msgs@)),
        (r.content_type matches Some(ct) && ct@ == spec_json_type()),
        r.set_cookie == set_cookie,
{
    let body = errors_json(msgs);
    HttpResponse { status: 400, content_type: Some(lit_json_type()), set_cookie, body }
}

/// A 404 response with an empty body.
fn not_found_response(set_cookie: Option<Vec<u8>>) -> (r: HttpResponse)
    ensures
        r.status == 404,
        r.content_type is None,
        r.body@ == Seq::<u8>::empty(),
        r.set_cookie == set_cookie,
{
    let r = HttpResponse { status: 404, content_type: None, set_cookie, body: Vec::new() };
    proof {
        assert(r.body@ =~= Seq::<u8>::empty());
    }
    r
}

/// An asset path the source will look at: absolute, with no `..` component.
pub open spec fn spec_path_ok(p: Seq<u8>) -> bool {
    &&& p.len() >= 1
    &&& p[0] == 0x2fu8
    &&& !spec_has_dotdot(p)
}

impl BuiService {
    /// Route one request.
    ///
    /// The outcome says exactly what the caller must do; a fresh session is
    /// minted, and its cookie attached, exactly when authentication came by
    /// URL token or the server is open.
    pub fn dispatch(&mut self, req: &HttpRequest) -> (r: RequestOutcome)
        requires
            old(self).spec_next_key() < u32::MAX,
        ensures
            final(self).spec_same_config(old(self)),
            ({
                let name = old(self).spec_cookie_name();
                let secret = old(self).spec_secret();
                let login = spec_login(
                    parsed_query(req.query@),
                    spec_views(req.cookies@),
                    name,
                    secret,
                    old(self).spec_token(),
                );
                let path1 = spec_rewrite_root(req.path@);
                let is_cb = req.method is Post && req.path@ == spec_callback_path();
                match r {
                    RequestOutcome::Callback { session_key, set_cookie } => {
                        &&& is_cb
                        &&& (login matches Some(l) && spec_resolved(
                            l,
                            name,
                            secret,
                            spec_opt_view(set_cookie),
                            session_key,
                        ))
                        &&& final(self).spec_next_key() == old(self).spec_next_key()
                    },
                    RequestOutcome::EventStream { conn, receiver, set_cookie } => {
                        &&& !is_cb
                        &&& req.method is Get
                        &&& old(self).spec_events_prefix().is_prefix_of(path1)
                        &&& spec_accepts_event_stream(spec_views(req.accept@))
                        &&& (login matches Some(l) && spec_resolved(
                            l,
                            name,
                            secret,
                            spec_opt_view(set_cookie),
                            conn.session_key,
                        ))
                        &&& conn.path@ == path1
                        &&& conn.connection_key.0 == old(self).spec_next_key()
                        &&& final(self).spec_next_key() == old(self).spec_next_key() + 1
                    },
                    RequestOutcome::ServeAsset { fs_path, asset_path, set_cookie } => {
                        &&& !is_cb
                        &&& req.method is Get
                        &&& !old(self).spec_events_prefix().is_prefix_of(path1)
                        &&& spec_path_ok(path1)
                        &&& !old(self).spec_is_bundled()
                        &&& asset_path@ == path1
                        &&& fs_path@ == spec_fullpath(old(self).spec_serve_filepath(), path1)
                        &&& (exists|l: ValidLogin, k: SessionKey|
                            login == Some(l) && #[trigger] spec_resolved(
                                l,
                                name,
                                secret,
                                spec_opt_view(set_cookie),
                                k,
                            ))
                        &&& final(self).spec_next_key() == old(self).spec_next_key()
                    },
                    RequestOutcome::Respond(resp) => {
                        &&& final(self).spec_next_key() == old(self).spec_next_key()
                        &&& if login is None {
                            &&& resp.status == 400
                            &&& resp.set_cookie is None
                            &&& (resp.content_type matches Some(ct) && ct@ == spec_json_type())
                            &&& (!is_cb ==> resp.body@ == spec_errors_json(
                                seq![spec_no_token_msg()],
                            ))
                        } else {
                            &&& !is_cb
                            &&& (exists|l: ValidLogin, k: SessionKey|
                                login == Some(l) && #[trigger] spec_resolved(
                                    l,
                                    name,
                                    secret,
                                    spec_opt_view(resp.set_cookie),
                                    k,
                                ))
                            &&& if req.method is Get {
                                if old(self).spec_events_prefix().is_prefix_of(path1) {
                                    &&& !spec_accepts_event_stream(spec_views(req.accept@))
                                    &&& resp.status == 400
                                    &&& (resp.content_type matches Some(ct) && ct@
                                        == spec_json_type())
                                    &&& resp.body@ == spec_errors_json(seq![spec_accept_msg()])
                                } else if spec_path_ok(path1) {
                                    &&& old(self).spec_is_bundled()
                                    &&& match old(self).spec_bundle_lookup(
                                        spec_fullpath(old(self).spec_serve_filepath(), path1),
                                    ) {
                                        Some(content) => {
                                            &&& resp.status == 200
                                            &&& resp.body@ == content
                                            &&& spec_opt_view(resp.content_type)
                                                == spec_content_type_for(path1)
                                        },
                                        None => {
                                            &&& resp.status == 404
                                            &&& resp.body@ == Seq::<u8>::empty()
                                            &&& resp.content_type is None
                                        },
                                    }
                                } else {
                                    &&& resp.status == 404
                                    &&& resp.body@ == Seq::<u8>::empty()
                                }
                            } else {
                                &&& !(req.method is Get)
                                &&& resp.status == 404
                                &&& resp.body@ == Seq::<u8>::empty()
                            }
                        }
                    },
                }
            }),
    {
        let login_res = get_session_key(
            &req.query,
            &req.cookies,
            &self.config.cookie_name,
            &self.jwt_secret,
            &self.valid_token,
        );
        let is_cb = matches!(req.method, Method::Post) && bytes_eq(
            req.path.as_slice(),
            &[0x2f, 0x63, 0x61, 0x6c, 0x6c, 0x62, 0x61, 0x63, 0x6b],
        );
        proof {
            assert(is_cb == (req.method is Post && req.path@ == spec_callback_path())) by {
                assert(spec_callback_path() =~= seq![
                    0x2fu8,
                    0x63u8,
                    0x61u8,
                    0x6cu8,
                    0x6cu8,
                    0x62u8,
                    0x61u8,
                    0x63u8,
                    0x6bu8,
                ]);
            }
        }
        if is_cb {
            match login_res {
                Err(errors) => RequestOutcome::Respond(error_response(&errors, None)),
                Ok(l) => {
                    let (set_cookie, session_key) = self.resolve_login(l);
                    RequestOutcome::Callback { session_key, set_cookie }
                },
            }
        } else {
            match login_res {
                Err(_) => {
                    let mut msgs: Vec<Vec<u8>> = Vec::new();
                    msgs.push(lit_no_token_msg());
                    let resp = error_response(&msgs, None);
                    proof {
                        assert(spec_views(msgs@) =~= seq![spec_no_token_msg()]);
                    }
                    RequestOutcome::Respond(resp)
                },
                Ok(l) => {
                    let (set_cookie, session_key) = self.resolve_login(l);
                    proof {
                        assert(spec_resolved(
                            l,
                            self.spec_cookie_name(),
                            self.spec_secret(),
                            spec_opt_view(set_cookie),
                            session_key,
                        ));
                    }
                    match req.method {
                        Method::Get => {
                            let path1 = rewrite_root(req.path.as_slice());
                            if starts_with(path1.as_slice(), self.events_prefix.as_slice()) {
                                if accepts_event_stream(&req.accept) {
                                    let ck = self.next_connection_key;
                                    self.next_connection_key = ConnectionKey(ck.0 + 1);
                                    let (tx, rx) = channel_new(self.config.channel_size);
                                    RequestOutcome::EventStream {
                                        conn: NewEventStreamConnection {
                                            chunk_sender: tx,
                                            session_key,
                                            connection_key: ck,
                                            path: path1,
                                        },
                                        receiver: rx,
                                        set_cookie,
                                    }
                                } else {
                                    let mut msgs: Vec<Vec<u8>> = Vec::new();
                                    msgs.push(lit_accept_msg());
                                    let resp = error_response(&msgs, set_cookie);
                                    proof {
                                        assert(spec_views(msgs@) =~= seq![spec_accept_msg()]);
                                    }
                                    RequestOutcome::Respond(resp)
                                }
                            } else if path1.len() >= 1 && path1[0] == 0x2f && !has_dotdot(
                                path1.as_slice(),
                            ) {
                                let full = fullpath(
                                    self.config.serve_filepath.as_slice(),
                                    path1.as_slice(),
                                );
                                match &self.config.bundled_files {
                                    Some(store) => {
                                        match store.get(full.as_slice()) {
                                            Some(content) => RequestOutcome::Respond(
                                                HttpResponse {
                                                    status: 200,
                                                    content_type: crate::assets::content_type_for(
                                                        path1.as_slice(),
                                                    ),
                                                    set_cookie,
                                                    body: content,
                                                },
                                            ),
                                            None => RequestOutcome::Respond(
                                                not_found_response(set_cookie),
                                            ),
                                        }
                                    },
                                    None => RequestOutcome::ServeAsset {
                                        fs_path: full,
                                        asset_path: path1,
                                        set_cookie,
                                    },
                                }
                            } else {
                                RequestOutcome::Respond(not_found_response(set_cookie))
                            }
                        },
                        _ => RequestOutcome::Respond(not_found_response(set_cookie)),
                    }
                },
            }
        }
    }
}

/// Create a stream of new event-stream connections and a `BuiService`.
///
/// The service publishes each dispatched event-stream connection's data on
/// the sender side of the returned receiver (through
/// [`BuiService::connection_sender`]); the onboarding loop consumes the
/// receiver.
pub fn launcher(
    config: Config,
    auth: &AccessControl,
    channel_size: usize,
    events_prefix: Vec<u8>,
) -> (r: (futures::channel::mpsc::Receiver<NewEventStreamConnection>, BuiService))
    ensures
        r.1.spec_cookie_name() == config.cookie_name@,
        r.1.spec_serve_filepath() == config.serve_filepath@,
        r.1.spec_is_bundled() == (config.bundled_files is Some),
        (config.bundled_files matches Some(b) ==> forall|p: Seq<u8>|
            r.1.spec_bundle_lookup(p) == b.spec_get(p)),
        r.1.spec_channel_size() == config.channel_size,
        r.1.spec_secret() == spec_auth_secret(auth),
        r.1.spec_token() == spec_auth_token(auth),
        r.1.spec_events_prefix() == events_prefix@,
        r.1.spec_next_key() == 0,
{
    let (tx_new_connection, rx_new_connection) = channel_new(channel_size);
    let jwt_secret = auth.jwt_secret();
    let valid_token = auth.token();
    let service = BuiService {
        config,
        next_connection_key: ConnectionKey(0),
        jwt_secret,
        valid_token,
        tx_new_connection,
        events_prefix,
    };
    (rx_new_connection, service)
}

/// The registered callback-handler slot: exactly zero or one handler is
/// registered at a time. The handler itself is the embedding application's;
/// here stands the registration discipline.
pub struct CallbackSlot<H> {
    handler: Option<H>,
}

impl<H> CallbackSlot<H> {
    /// The handler currently registered.
    pub closed spec fn spec_handler(&self) -> Option<H> {
        self.handler
    }

    /// An empty slot.
    pub fn new() -> (r: Self)
        ensures
            r.spec_handler() is None,
    {
        CallbackSlot { handler: None }
    }

    /// Register a handler: replace-and-return-previous.
    pub fn set_callback_listener(&mut self, h: H) -> (r: Option<H>)
        ensures
            final(self).spec_handler() == Some(h),
            r == old(self).spec_handler(),
    {
        let mut slot = Some(h);
        core::mem::swap(&mut slot, &mut self.handler);
        slot
    }

    /// Is a handler registered?
    pub fn is_set(&self) -> (r: bool)
        ensures
            r == (self.spec_handler() is Some),
    {
        self.handler.is_some()
    }

    /// Borrow the registered handler, if any.
    pub fn handler_ref(&self) -> (r: Option<&H>)
        ensures
            r is Some <==> self.spec_handler() is Some,
            r matches Some(h) ==> self.spec_handler() == Some(*h),
    {
        self.handler.as_ref()
    }
}

/// How handling the body of an accepted `POST /callback` went; decided by
/// the embedding application, which parses the body and runs the handler.
pub enum CallbackOutcome {
    /// The registered handler completed successfully.
    Handled,
    /// The registered handler failed.
    HandlerError,
    /// No handler is registered; the request is still acknowledged.
    NoHandler,
    /// The body was not valid JSON for the callback type; carries the
    /// parser's message.
    ParseError(Vec<u8>),
}

/// Build the response for an accepted callback request from its outcome: a
/// JSON `null` with 200 on success or with no handler, 500 on handler
/// failure, and a 400 JSON error body on a parse failure.
pub fn callback_response(outcome: CallbackOutcome, set_cookie: Option<Vec<u8>>) -> (r:
    HttpResponse)
    ensures
        r.set_cookie == set_cookie,
        (r.content_type matches Some(ct) && ct@ == spec_json_type()),
        match outcome {
            CallbackOutcome::Handled => r.status == 200 && r.body@ == spec_null_body(),
            CallbackOutcome::HandlerError => r.status == 500 && r.body@ == spec_null_body(),
            CallbackOutcome::NoHandler => r.status == 200 && r.body@ == spec_null_body(),
            CallbackOutcome::ParseError(m) => r.status == 400 && r.body@ == spec_errors_json(
                seq![spec_parse_err_prefix() + m@],
            ),
        },
{
    match outcome {
        CallbackOutcome::Handled => HttpResponse {
            status: 200,
            content_type: Some(lit_json_type()),
            set_cookie,
            body: lit_null_body(),
        },
        CallbackOutcome::HandlerError => HttpResponse {
            status: 500,
            content_type: Some(lit_json_type()),
            set_cookie,
            body: lit_null_body(),
        },
        CallbackOutcome::NoHandler => HttpResponse {
            status: 200,
            content_type: Some(lit_json_type()),
            set_cookie,
            body: lit_null_body(),
        },
        CallbackOutcome::ParseError(m) => {
            let ghost mv = m@;
            let mut msg = lit_parse_err_prefix();
            push_all(&mut msg, m.as_slice());
            let mut msgs: Vec<Vec<u8>> = Vec::new();
            msgs.push(msg);
            let body = errors_json(&msgs);
            proof {
                assert(spec_views(msgs@) =~= seq![spec_parse_err_prefix() + mv]);
            }
            HttpResponse { status: 400, content_type: Some(lit_json_type()), set_cookie, body }
        },
    }
}

/// Build the response for an asset request from the fetched content: the
/// file with its content type, or a 404 with an empty body.
pub fn asset_response(
    asset_path: &Vec<u8>,
    content: Option<Vec<u8>>,
    set_cookie: Option<Vec<u8>>,
) -> (r: HttpResponse)
    ensures
        r.set_cookie == set_cookie,
        match content {
            Some(c) => r.status == 200 && r.body@ == c@ && spec_opt_view(r.content_type)
                == spec_content_type_for(asset_path@),
            None => r.status == 404 && r.body@ == Seq::<u8>::empty() && r.content_type is None,
        },
{
    match content {
        Some(c) => HttpResponse {
            status: 200,
            content_type: crate::assets::content_type_for(asset_path.as_slice()),
            set_cookie,
            body: c,
        },
        None => not_found_response(set_cookie),
    }
}

/// The response head of an accepted event-stream request: 200 with content
/// type `text/event-stream`; the body is the stream itself and stays empty
/// here.
pub fn event_stream_response_head(set_cookie: Option<Vec<u8>>) -> (r: HttpResponse)
    ensures
        r.status == 200,
        (r.content_type matches Some(ct) && ct@ == spec_event_stream_type()),
        r.set_cookie == set_cookie,
        r.body@ == Seq::<u8>::empty(),
{
    let r = HttpResponse {
        status: 200,
        content_type: Some(lit_event_stream_type()),
        set_cookie,
        body: Vec::new(),
    };
    proof {
        assert(r.body@ =~= Seq::<u8>::empty());
    }
    r
}

} // verus!
