//! The session entity: payload bytes, declared content type, the entity
//! tag of the payload, and the two timestamps of the session's life.
//!
//! Invariants: the stored entity tag always equals the tag of the stored
//! payload (recomputed atomically on every change, never stale), and the
//! expiry timestamp is fixed at creation: it does not move on update.

use vstd::prelude::*;
use crate::fingerprint::{compute_etag, etag_of};

verus! {

/// The mathematical content of a session. The entity tag is not a field:
/// it is always `etag_of` the payload.
pub struct SessionModel {
    pub data: Seq<u8>,
    pub content_type: Seq<char>,
    pub last_modified: u64,
    pub expires: u64,
}

/// A rendezvous session as stored: the current payload, its declared MIME
/// content type, the payload's entity tag, and the timestamps of the most
/// recent write and of expiry.
pub struct Session {
    etag: String,
    data: Vec<u8>,
    content_type: String,
    last_modified: u64,
    expires: u64,
}

impl View for Session {
    type V = SessionModel;

    closed spec fn view(&self) -> SessionModel {
        SessionModel {
            data: self.data@,
            content_type: self.content_type@,
            last_modified: self.last_modified,
            expires: self.expires,
        }
    }
}

impl Session {
    /// The stored entity tag always matches the stored payload.
    #[verifier::type_invariant]
    spec fn wf(self) -> bool {
        self.etag@ == etag_of(self.data@)
    }

    /// Constructs a session at time `now` that expires `ttl` milliseconds
    /// later, fingerprinting the payload as it is stored.
    pub fn new(data: Vec<u8>, content_type: String, ttl: u64, now: u64) -> (s: Session)
        requires
            now + ttl <= u64::MAX,
        ensures
            s@ == (SessionModel {
                data: data@,
                content_type: content_type@,
                last_modified: now,
                expires: (now + ttl) as u64,
            }),
    {
        let etag = compute_etag(&data);
        Session { etag, data, content_type, last_modified: now, expires: now + ttl }
    }

    /// Replaces payload and content type wholesale, recomputes the entity
    /// tag, and refreshes `last_modified`; `expires` stays where creation
    /// put it, so a session's lifetime is independent of activity.
    pub fn update(&mut self, data: Vec<u8>, content_type: String, now: u64)
        ensures
            final(self)@ == (SessionModel {
                data: data@,
                content_type: content_type@,
                last_modified: now,
                expires: old(self)@.expires,
            }),
    {
        let etag = compute_etag(&data);
        let expires = self.expires;
        *self = Session { etag, data, content_type, last_modified: now, expires };
    }

    /// The declared MIME content type of the current payload.
    pub fn content_type(&self) -> (r: String)
        ensures
            r@ == self@.content_type,
    {
        self.content_type.clone()
    }

    /// The length of the current payload in bytes.
    pub fn content_length(&self) -> (r: u64)
        ensures
            r == self@.data.len(),
    {
        self.data.len() as u64
    }

    /// The entity tag of the current payload.
    pub fn etag(&self) -> (r: String)
        ensures
            r@ == etag_of(self@.data),
    {
        proof {
            use_type_invariant(&*self);
        }
        self.etag.clone()
    }

    /// A copy of the current payload bytes.
    pub fn data(&self) -> (r: Vec<u8>)
        ensures
            r@ == self@.data,
    {
        let r = self.data.clone();
        proof {
            assert forall|i: int| 0 <= i < r@.len() implies r@[i] == self.data@[i] by {}
            assert(r@ =~= self.data@);
        }
        r
    }

    /// The timestamp of the most recent creation or update, in
    /// milliseconds.
    pub fn last_modified(&self) -> (r: u64)
        ensures
            r == self@.last_modified,
    {
        self.last_modified
    }

    /// The expiry timestamp fixed at creation, in milliseconds.
    pub fn expires(&self) -> (r: u64)
        ensures
            r == self@.expires,
    {
        self.expires
    }
}

} // verus!
