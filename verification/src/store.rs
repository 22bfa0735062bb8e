//! The session store and its operation surface: create, read, update and
//! delete, composed from the identifier generator, the fingerprint
//! engine, the precondition evaluator and the response header composer.
//!
//! Expiry is enforced lazily: every lookup treats a session whose expiry
//! lies before `now` as absent and removes it then.

use vstd::prelude::*;
use vstd::string::*;
use std::collections::HashMap;
use crate::fingerprint::etag_of;
use crate::ident::{fresh_id, format_id, parse_id, id_str_of, parsed_id_of};
use crate::precondition::{TagList, if_match_passes, if_none_match_passes, spec_if_match_passes, spec_if_none_match_passes};
use crate::session::{Session, SessionModel};

verus! {

broadcast use vstd::std_specs::hash::group_hash_axioms;

/// The largest payload the service accepts, in bytes (100 KB).
pub const MAX_CONTENT_LENGTH: u64 = 1024 * 100;

/// The fixed session lifetime, in milliseconds (5 minutes).
pub const SESSION_TTL_MS: u64 = 5 * 60 * 1000;

/// The first millisecond timestamp that the HTTP date form cannot carry
/// (the start of the year 10000); every stored timestamp stays below it.
pub const TIMESTAMP_LIMIT_MS: u64 = 253402300800000;

/// How an operation fails, as a structured value the host turns into an
/// HTTP status and a machine-readable code.
#[derive(Debug)]
pub enum Error {
    /// The identifier is unknown, expired, or does not decode.
    NotFound,
    /// The payload (or its declared length) exceeds the size cap.
    PayloadTooLarge,
    /// `Content-Length`, `Content-Type` or, on update, `If-Match` is
    /// absent or malformed.
    MissingOrInvalidHeader,
    /// A concurrent-write conflict: the update's `If-Match` did not match
    /// the current entity tag. Carries the headers of the current,
    /// unmutated session so a client can retry without another read.
    PreconditionFailed { headers: Vec<(String, String)> },
}

impl Error {
    /// The HTTP status this failure is surfaced with.
    pub fn status(&self) -> (r: u16)
        ensures
            r == (match self {
                Error::NotFound => 404u16,
                Error::PayloadTooLarge => 413u16,
                Error::MissingOrInvalidHeader => 400u16,
                Error::PreconditionFailed { .. } => 412u16,
            }),
    {
        match self {
            Error::NotFound => 404,
            Error::PayloadTooLarge => 413,
            Error::MissingOrInvalidHeader => 400,
            Error::PreconditionFailed { .. } => 412,
        }
    }

    /// The machine-readable code of the concurrent-write conflict; the
    /// other failures carry none.
    pub fn errcode(&self) -> (r: Option<&'static str>)
        ensures
            match self {
                Error::PreconditionFailed { .. } => r is Some && r->0@ == "M_CONCURRENT_WRITE"@,
                _ => r is None,
            },
    {
        match self {
            Error::PreconditionFailed { .. } => Some("M_CONCURRENT_WRITE"),
            _ => None,
        }
    }
}

/// The IMF-fixdate rendering of a millisecond timestamp, as the headers
/// crate encodes a date-valued header. Left uninterpreted: a function of
/// the timestamp alone.
pub uninterp spec fn http_date_of(ms: u64) -> Seq<char>;

/// Relies on the headers crate's `Expires` header encoding (via
/// `headers::Header::encode`): an IMF-fixdate string determined by the
/// time value alone. The underlying encoder refuses dates from the year
/// 10000 on, hence the bound.
#[verifier::external_body]
fn format_http_date(ms: u64) -> (r: String)
    requires
        ms < TIMESTAMP_LIMIT_MS,
    ensures
        r@ == http_date_of(ms),
{
    let t = std::time::UNIX_EPOCH + std::time::Duration::from_millis(ms);
    let mut values: Vec<http::HeaderValue> = Vec::new();
    headers::Header::encode(&headers::Expires::from(t), &mut values);
    values[0].to_str().expect("an IMF-fixdate is ASCII").to_string()
}

/// Whether a string is a well-formed MIME type. Left uninterpreted: a
/// function of the string alone.
pub uninterp spec fn mime_ok(s: Seq<char>) -> bool;

/// Relies on `str::parse::<mime::Mime>`: whether a string is a
/// well-formed MIME type depends on the string alone.
#[verifier::external_body]
fn mime_valid(s: &String) -> (r: bool)
    ensures
        r == mime_ok(s@),
{
    s.as_str().parse::<mime::Mime>().is_ok()
}

/// Whether a string is a well-formed URI. Left uninterpreted: a function
/// of the string alone.
pub uninterp spec fn uri_ok(s: Seq<char>) -> bool;

/// Relies on `http::Uri::try_from`: whether a string parses as a URI
/// depends on the string alone.
#[verifier::external_body]
fn uri_valid(s: &String) -> (r: bool)
    ensures
        r == uri_ok(s@),
{
    http::Uri::try_from(s.as_str()).is_ok()
}

/// The name/value views of a header list.
pub open spec fn headers_view(h: Vec<(String, String)>) -> Seq<(Seq<char>, Seq<char>)> {
    Seq::new(h@.len(), |i: int| (h@[i].0@, h@[i].1@))
}

/// The standard response headers shared by every operation that touches
/// an existing session: cross-origin allowance, the exposed entity tag,
/// a do-not-cache directive, the current fingerprint, and the expiry and
/// last-modified dates.
pub open spec fn spec_session_headers(s: SessionModel) -> Seq<(Seq<char>, Seq<char>)> {
    seq![
        ("access-control-allow-origin"@, "*"@),
        ("access-control-expose-headers"@, "etag"@),
        ("pragma"@, "no-cache"@),
        ("etag"@, etag_of(s.data)),
        ("expires"@, http_date_of(s.expires)),
        ("last-modified"@, http_date_of(s.last_modified)),
    ]
}

/// Appends the standard response headers for `session` to `headers`.
pub fn prepare_headers(headers: &mut Vec<(String, String)>, session: &Session)
    requires
        session@.last_modified < TIMESTAMP_LIMIT_MS,
        session@.expires < TIMESTAMP_LIMIT_MS,
    ensures
        headers_view(*final(headers)) == headers_view(*old(headers)) + spec_session_headers(session@),
{
    headers.push((String::from_str("access-control-allow-origin"), String::from_str("*")));
    headers.push((String::from_str("access-control-expose-headers"), String::from_str("etag")));
    headers.push((String::from_str("pragma"), String::from_str("no-cache")));
    headers.push((String::from_str("etag"), session.etag()));
    headers.push((String::from_str("expires"), format_http_date(session.expires())));
    headers.push((String::from_str("last-modified"), format_http_date(session.last_modified())));
    proof {
        assert(headers_view(*headers) =~= headers_view(*old(headers)) + spec_session_headers(session@));
    }
}

/// Checks the headers every body-bearing request must carry: a declared
/// `Content-Length` within the size cap, and a well-formed
/// `Content-Type`.
pub fn check_input_headers(content_length: Option<u64>, content_type: &Option<String>) -> (r: Result<(), Error>)
    ensures
        r is Ok <==> (content_length is Some && content_length->0 <= MAX_CONTENT_LENGTH
            && content_type is Some && mime_ok(content_type->0@)),
        content_length is None ==> r == Err::<(), Error>(Error::MissingOrInvalidHeader),
        content_length is Some && content_length->0 > MAX_CONTENT_LENGTH
            ==> r == Err::<(), Error>(Error::PayloadTooLarge),
        content_length is Some && content_length->0 <= MAX_CONTENT_LENGTH
            && !(content_type is Some && mime_ok(content_type->0@))
            ==> r == Err::<(), Error>(Error::MissingOrInvalidHeader),
{
    match content_length {
        None => {
            return Err(Error::MissingOrInvalidHeader);
        },
        Some(cl) => {
            if cl > MAX_CONTENT_LENGTH {
                return Err(Error::PayloadTooLarge);
            }
        },
    }
    match content_type {
        Some(ct) => {
            if mime_valid(ct) {
                Ok(())
            } else {
                Err(Error::MissingOrInvalidHeader)
            }
        },
        None => Err(Error::MissingOrInvalidHeader),
    }
}

/// The session views of a map of stored sessions.
pub open spec fn session_views(m: Map<u128, Session>) -> Map<u128, SessionModel> {
    Map::new(|id: u128| m.contains_key(id), |id: u128| m[id]@)
}

/// A session is live at `now` when it is present and not yet expired; an
/// expired entry behaves exactly like an absent one.
pub open spec fn live(m: Map<u128, SessionModel>, id: u128, now: u64) -> bool {
    m.contains_key(id) && now <= m[id].expires
}

/// The model of a session created at `now`: it expires a fixed TTL later.
pub open spec fn created_session(data: Seq<u8>, content_type: Seq<char>, now: u64) -> SessionModel
    recommends
        now + SESSION_TTL_MS <= u64::MAX,
{
    SessionModel {
        data,
        content_type,
        last_modified: now,
        expires: (now + SESSION_TTL_MS) as u64,
    }
}

/// The model of a session after an accepted update at `now`: payload and
/// content type replaced, `last_modified` refreshed, `expires` untouched.
pub open spec fn updated_session(s: SessionModel, data: Seq<u8>, content_type: Seq<char>, now: u64) -> SessionModel {
    SessionModel { data, content_type, last_modified: now, expires: s.expires }
}

/// Whether the headers of a body-bearing request, and the payload itself,
/// are acceptable.
pub open spec fn inputs_ok(content_length: Option<u64>, content_type: Option<String>, body: Seq<u8>) -> bool {
    &&& content_length is Some
    &&& content_length->0 <= MAX_CONTENT_LENGTH
    &&& content_type is Some
    &&& mime_ok(content_type->0@)
    &&& body.len() <= MAX_CONTENT_LENGTH
}

/// Which error a rejected body-bearing request is reported with.
pub open spec fn input_error(content_length: Option<u64>, content_type: Option<String>, body: Seq<u8>) -> Error
    recommends
        !inputs_ok(content_length, content_type, body),
{
    if content_length is None {
        Error::MissingOrInvalidHeader
    } else if content_length->0 > MAX_CONTENT_LENGTH {
        Error::PayloadTooLarge
    } else if !(content_type is Some && mime_ok(content_type->0@)) {
        Error::MissingOrInvalidHeader
    } else {
        Error::PayloadTooLarge
    }
}

/// What a successful create returns: the allocated identifier, the
/// retrieval URL built from the configured base address, and the response
/// headers. The host wraps the URL in the JSON response envelope.
pub struct CreateResponse {
    pub id: u128,
    pub url: String,
    pub headers: Vec<(String, String)>,
}

/// What a successful read returns: either the full payload with its
/// content metadata, or a bodiless not-modified answer when the client's
/// `If-None-Match` already names the current content.
pub enum ReadOutcome {
    Full {
        data: Vec<u8>,
        content_type: String,
        content_length: u64,
        headers: Vec<(String, String)>,
    },
    NotModified {
        headers: Vec<(String, String)>,
    },
}

/// What a successful update returns: the updated session's headers.
pub struct UpdateResponse {
    pub headers: Vec<(String, String)>,
}

/// What a successful delete returns: the cross-origin allowance header.
pub struct DeleteResponse {
    pub headers: Vec<(String, String)>,
}

/// The rendezvous service: a configured base address and the store of
/// live sessions, keyed by identifier.
pub struct RendezVousHandler {
    base: String,
    sessions: HashMap<u128, Session>,
}

impl View for RendezVousHandler {
    type V = Map<u128, SessionModel>;

    closed spec fn view(&self) -> Map<u128, SessionModel> {
        session_views(self.sessions@)
    }
}

impl RendezVousHandler {
    /// Every stored timestamp lies below the HTTP date limit, so headers
    /// can always be composed for any stored session.
    #[verifier::type_invariant]
    spec fn inv(self) -> bool {
        forall|id: u128| #[trigger] self.sessions@.contains_key(id)
            ==> self.sessions@[id]@.last_modified < TIMESTAMP_LIMIT_MS
                && self.sessions@[id]@.expires < TIMESTAMP_LIMIT_MS
    }

    /// The configured externally visible base address of the service,
    /// with the rendezvous path appended.
    pub closed spec fn base_str(&self) -> Seq<char> {
        self.base@
    }

    /// Builds a handler for the given externally visible base address,
    /// appending the rendezvous path; fails when the result is not a
    /// well-formed URI.
    pub fn new(base: String) -> (r: Option<RendezVousHandler>)
        ensures
            match r {
                Some(h) => {
                    &&& uri_ok(base@ + rendezvous_path())
                    &&& h.base_str() == base@ + rendezvous_path()
                    &&& h@ == Map::<u128, SessionModel>::empty()
                },
                None => !uri_ok(base@ + rendezvous_path()),
            },
    {
        let mut full = base;
        full.append("_matrix/client/unstable/org.matrix.msc4108/rendezvous");
        if uri_valid(&full) {
            let h = RendezVousHandler { base: full, sessions: HashMap::new() };
            proof {
                assert(h@ =~= Map::<u128, SessionModel>::empty());
            }
            Some(h)
        } else {
            None
        }
    }

    /// Create: allocates a fresh identifier and inserts a session built
    /// from the submitted payload, expiring a fixed TTL after `now`.
    /// Rejects oversized payloads and missing or malformed content
    /// headers, leaving the store untouched.
    pub fn handle_post(&mut self, content_length: Option<u64>, content_type: Option<String>, body: Vec<u8>, now: u64) -> (r: Result<CreateResponse, Error>)
        requires
            now + SESSION_TTL_MS < TIMESTAMP_LIMIT_MS,
        ensures
            final(self).base_str() == old(self).base_str(),
            match r {
                Ok(resp) => {
                    &&& inputs_ok(content_length, content_type, body@)
                    &&& final(self)@ == old(self)@.insert(resp.id, created_session(body@, content_type->0@, now))
                    &&& resp.url@ == old(self).base_str() + seq!['/'] + id_str_of(resp.id)
                    &&& parsed_id_of(id_str_of(resp.id)) == Some(resp.id)
                    &&& headers_view(resp.headers) == seq![("content-type"@, "application/json"@)]
                        + spec_session_headers(created_session(body@, content_type->0@, now))
                },
                Err(e) => {
                    &&& !inputs_ok(content_length, content_type, body@)
                    &&& e == input_error(content_length, content_type, body@)
                    &&& final(self)@ == old(self)@
                },
            },
    {
        proof {
            use_type_invariant(&*self);
        }
        if let Err(e) = check_input_headers(content_length, &content_type) {
            return Err(e);
        }
        if body.len() as u64 > MAX_CONTENT_LENGTH {
            return Err(Error::PayloadTooLarge);
        }
        let ct = match content_type {
            Some(ct) => ct,
            None => {
                return Err(Error::MissingOrInvalidHeader);
            },
        };
        let id = fresh_id();
        let id_str = format_id(id);
        let mut url = self.base.clone();
        url.append("/");
        url.append(id_str.as_str());
        proof {
            reveal_strlit("/");
            assert(url@ =~= self.base_str() + seq!['/'] + id_str_of(id));
        }
        let session = Session::new(body, ct, SESSION_TTL_MS, now);
        let mut headers: Vec<(String, String)> = Vec::new();
        headers.push((String::from_str("content-type"), String::from_str("application/json")));
        prepare_headers(&mut headers, &session);
        proof {
            assert(headers_view(headers) =~= seq![("content-type"@, "application/json"@)]
                + spec_session_headers(session@));
        }
        let mut sessions = HashMap::new();
        std::mem::swap(&mut sessions, &mut self.sessions);
        let ghost old_map = sessions@;
        sessions.insert(id, session);
        self.sessions = sessions;
        proof {
            assert(session_views(old_map.insert(id, session)) =~= session_views(old_map).insert(id, session@));
        }
        Ok(CreateResponse { id, url, headers })
    }

    /// Read: looks the identifier up (an undecodable or expired one
    /// behaves like an absent one, and an expired entry is removed). When
    /// the client's `If-None-Match` already names the current entity tag,
    /// answers not-modified without a body; otherwise returns the full
    /// payload, its content metadata, and the standard headers.
    pub fn handle_get(&mut self, id: &str, if_none_match: Option<TagList>, now: u64) -> (r: Result<ReadOutcome, Error>)
        ensures
            final(self).base_str() == old(self).base_str(),
            match parsed_id_of(id@) {
                Option::None => r == Err::<ReadOutcome, Error>(Error::NotFound) && final(self)@ == old(self)@,
                Option::Some(i) => {
                    if !old(self)@.contains_key(i) {
                        r == Err::<ReadOutcome, Error>(Error::NotFound) && final(self)@ == old(self)@
                    } else if now > old(self)@[i].expires {
                        r == Err::<ReadOutcome, Error>(Error::NotFound) && final(self)@ == old(self)@.remove(i)
                    } else {
                        final(self)@ == old(self)@ && match r {
                            Ok(ReadOutcome::NotModified { headers }) => {
                                &&& if_none_match matches Some(c)
                                    && !spec_if_none_match_passes(c, etag_of(old(self)@[i].data))
                                &&& headers_view(headers) == spec_session_headers(old(self)@[i])
                            },
                            Ok(ReadOutcome::Full { data, content_type, content_length, headers }) => {
                                &&& (if_none_match matches Some(c)
                                    ==> spec_if_none_match_passes(c, etag_of(old(self)@[i].data)))
                                &&& data@ == old(self)@[i].data
                                &&& content_type@ == old(self)@[i].content_type
                                &&& content_length == old(self)@[i].data.len()
                                &&& headers_view(headers) == spec_session_headers(old(self)@[i])
                            },
                            Err(_) => false,
                        }
                    }
                },
            },
    {
        proof {
            use_type_invariant(&*self);
        }
        let i = match parse_id(id) {
            None => {
                return Err(Error::NotFound);
            },
            Some(i) => i,
        };
        let mut result: Option<ReadOutcome> = None;
        match self.sessions.get(&i) {
            None => {
                return Err(Error::NotFound);
            },
            Some(session) => {
                if now <= session.expires() {
                    let cur = session.etag();
                    let not_modified = match &if_none_match {
                        Some(c) => !if_none_match_passes(c, &cur),
                        None => false,
                    };
                    let mut headers: Vec<(String, String)> = Vec::new();
                    prepare_headers(&mut headers, session);
                    if not_modified {
                        result = Some(ReadOutcome::NotModified { headers });
                    } else {
                        result = Some(ReadOutcome::Full {
                            data: session.data(),
                            content_type: session.content_type(),
                            content_length: session.content_length(),
                            headers,
                        });
                    }
                }
            },
        }
        match result {
            Some(outcome) => Ok(outcome),
            None => {
                // the entry is past its expiry: lazy eviction treats it as
                // absent and removes it now
                let mut sessions = HashMap::new();
                std::mem::swap(&mut sessions, &mut self.sessions);
                let ghost old_map = sessions@;
                sessions.remove(&i);
                self.sessions = sessions;
                proof {
                    assert(session_views(old_map.remove(i)) =~= session_views(old_map).remove(i));
                }
                Err(Error::NotFound)
            },
        }
    }

    /// Update: `If-Match` is mandatory (a request without one fails
    /// distinctly from a conflicting one), and the precondition is
    /// checked against the current entity tag before any mutation. On a
    /// conflict nothing is mutated and the failure carries the current
    /// session's headers; on success payload, content type and
    /// fingerprint are replaced, `last_modified` is refreshed, and
    /// `expires` stays untouched.
    pub fn handle_put(&mut self, id: &str, content_length: Option<u64>, content_type: Option<String>, if_match: Option<TagList>, body: Vec<u8>, now: u64) -> (r: Result<UpdateResponse, Error>)
        requires
            now < TIMESTAMP_LIMIT_MS,
        ensures
            final(self).base_str() == old(self).base_str(),
            ({
                let pid = parsed_id_of(id@);
                if !inputs_ok(content_length, content_type, body@) {
                    r == Err::<UpdateResponse, Error>(input_error(content_length, content_type, body@))
                        && final(self)@ == old(self)@
                } else if if_match is None {
                    r == Err::<UpdateResponse, Error>(Error::MissingOrInvalidHeader)
                        && final(self)@ == old(self)@
                } else if pid is None || !old(self)@.contains_key(pid->0) {
                    r == Err::<UpdateResponse, Error>(Error::NotFound) && final(self)@ == old(self)@
                } else if now > old(self)@[pid->0].expires {
                    r == Err::<UpdateResponse, Error>(Error::NotFound)
                        && final(self)@ == old(self)@.remove(pid->0)
                } else if !spec_if_match_passes(if_match->0, etag_of(old(self)@[pid->0].data)) {
                    final(self)@ == old(self)@ && match r {
                        Err(Error::PreconditionFailed { headers }) =>
                            headers_view(headers) == spec_session_headers(old(self)@[pid->0]),
                        _ => false,
                    }
                } else {
                    final(self)@ == old(self)@.insert(
                        pid->0,
                        updated_session(old(self)@[pid->0], body@, content_type->0@, now),
                    ) && match r {
                        Ok(resp) => headers_view(resp.headers) == spec_session_headers(
                            updated_session(old(self)@[pid->0], body@, content_type->0@, now),
                        ),
                        Err(_) => false,
                    }
                }
            }),
    {
        proof {
            use_type_invariant(&*self);
        }
        if let Err(e) = check_input_headers(content_length, &content_type) {
            return Err(e);
        }
        if body.len() as u64 > MAX_CONTENT_LENGTH {
            return Err(Error::PayloadTooLarge);
        }
        let ct = match content_type {
            Some(ct) => ct,
            None => {
                return Err(Error::MissingOrInvalidHeader);
            },
        };
        let cond = match if_match {
            Some(c) => c,
            None => {
                return Err(Error::MissingOrInvalidHeader);
            },
        };
        let i = match parse_id(id) {
            None => {
                return Err(Error::NotFound);
            },
            Some(i) => i,
        };
        let mut sessions = HashMap::new();
        std::mem::swap(&mut sessions, &mut self.sessions);
        let ghost old_map = sessions@;
        let mut session = match sessions.remove(&i) {
            None => {
                self.sessions = sessions;
                proof {
                    assert(session_views(old_map.remove(i)) =~= session_views(old_map));
                }
                return Err(Error::NotFound);
            },
            Some(s) => s,
        };
        if now > session.expires() {
            // the entry is past its expiry: lazy eviction treats it as
            // absent and leaves it removed
            self.sessions = sessions;
            proof {
                assert(session_views(old_map.remove(i)) =~= session_views(old_map).remove(i));
            }
            return Err(Error::NotFound);
        }
        let cur = session.etag();
        if !if_match_passes(&cond, &cur) {
            let mut headers: Vec<(String, String)> = Vec::new();
            prepare_headers(&mut headers, &session);
            sessions.insert(i, session);
            self.sessions = sessions;
            proof {
                assert(session_views(old_map.remove(i).insert(i, session)) =~= session_views(old_map));
            }
            return Err(Error::PreconditionFailed { headers });
        }
        session.update(body, ct, now);
        let mut headers: Vec<(String, String)> = Vec::new();
        prepare_headers(&mut headers, &session);
        sessions.insert(i, session);
        self.sessions = sessions;
        proof {
            assert(session_views(old_map.remove(i).insert(i, session)) =~= session_views(old_map).insert(i, session@));
        }
        Ok(UpdateResponse { headers })
    }

    /// Delete: removes the entry if present, else fails not-found. An
    /// identifier that does not decode, was never created, or belongs to
    /// an already expired session all answer alike.
    pub fn handle_delete(&mut self, id: &str, now: u64) -> (r: Result<DeleteResponse, Error>)
        ensures
            final(self).base_str() == old(self).base_str(),
            ({
                let pid = parsed_id_of(id@);
                if pid is None || !old(self)@.contains_key(pid->0) {
                    r == Err::<DeleteResponse, Error>(Error::NotFound) && final(self)@ == old(self)@
                } else {
                    final(self)@ == old(self)@.remove(pid->0)
                        && if now > old(self)@[pid->0].expires {
                            r == Err::<DeleteResponse, Error>(Error::NotFound)
                        } else {
                            match r {
                                Ok(resp) => headers_view(resp.headers)
                                    == seq![("access-control-allow-origin"@, "*"@)],
                                Err(_) => false,
                            }
                        }
                }
            }),
    {
        proof {
            use_type_invariant(&*self);
        }
        let i = match parse_id(id) {
            None => {
                return Err(Error::NotFound);
            },
            Some(i) => i,
        };
        let mut sessions = HashMap::new();
        std::mem::swap(&mut sessions, &mut self.sessions);
        let ghost old_map = sessions@;
        let removed = sessions.remove(&i);
        self.sessions = sessions;
        proof {
            assert(session_views(old_map.remove(i)) =~= session_views(old_map).remove(i));
            assert(!old_map.contains_key(i) ==> session_views(old_map).remove(i) =~= session_views(old_map));
        }
        match removed {
            None => Err(Error::NotFound),
            Some(session) => {
                if now > session.expires() {
                    // already expired: externally indistinguishable from
                    // absent, and the entry stays removed
                    Err(Error::NotFound)
                } else {
                    let mut headers: Vec<(String, String)> = Vec::new();
                    headers.push((String::from_str("access-control-allow-origin"), String::from_str("*")));
                    proof {
                        assert(headers_view(headers) =~= seq![("access-control-allow-origin"@, "*"@)]);
                    }
                    Ok(DeleteResponse { headers })
                }
            },
        }
    }
}

/// The fixed path under which the service is reachable, appended to the
/// configured base address.
pub open spec fn rendezvous_path() -> Seq<char> {
    "_matrix/client/unstable/org.matrix.msc4108/rendezvous"@
}

/// Create then immediate read: a session created at `now` is live at
/// `now` and holds exactly the submitted bytes and content type, so an
/// unconditional read right after a create returns them, under the entity
/// tag of the submitted payload.
pub proof fn lemma_create_then_read(m: Map<u128, SessionModel>, id: u128, data: Seq<u8>, content_type: Seq<char>, now: u64)
    requires
        now + SESSION_TTL_MS <= u64::MAX,
    ensures
        ({
            let m2 = m.insert(id, created_session(data, content_type, now));
            &&& live(m2, id, now)
            &&& m2[id].data == data
            &&& m2[id].content_type == content_type
            &&& etag_of(m2[id].data) == etag_of(data)
        }),
{
}

/// A read whose `If-None-Match` lists exactly the current entity tag is a
/// cache hit (not modified, no body); one that lists exactly one other
/// tag passes and is answered with the full body.
pub proof fn lemma_read_conditional(s: SessionModel, tags: Vec<String>)
    requires
        tags@.len() == 1,
    ensures
        tags@[0]@ == etag_of(s.data)
            ==> !spec_if_none_match_passes(TagList::Tags(tags), etag_of(s.data)),
        tags@[0]@ != etag_of(s.data)
            ==> spec_if_none_match_passes(TagList::Tags(tags), etag_of(s.data)),
{
    crate::precondition::lemma_single_tag_conditions(tags, etag_of(s.data));
}

/// An accepted update replaces the payload, so the entity tag becomes the
/// tag of the new payload, while the expiry stays exactly where creation
/// put it.
pub proof fn lemma_update_effect(s: SessionModel, data: Seq<u8>, content_type: Seq<char>, now: u64)
    ensures
        updated_session(s, data, content_type, now).expires == s.expires,
        etag_of(updated_session(s, data, content_type, now).data) == etag_of(data),
        updated_session(s, data, content_type, now).last_modified == now,
{
}

/// After a delete the identifier is gone: it is not live at any time, so
/// a subsequent read, update or delete on it reports not-found.
pub proof fn lemma_delete_then_gone(m: Map<u128, SessionModel>, id: u128, now: u64)
    ensures
        !m.remove(id).contains_key(id),
        !live(m.remove(id), id, now),
{
}

} // verus!
