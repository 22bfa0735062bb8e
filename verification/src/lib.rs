//! An ephemeral, content-addressed rendezvous session service.
//!
//! Two cooperating parties exchange a small opaque payload through a
//! create/read/update/delete surface with strict optimistic concurrency:
//! every update must present the entity tag of the content it intends to
//! replace, so at most one of two racing writers can win.

pub mod fingerprint;
pub mod ident;
pub mod precondition;
pub mod session;
pub mod store;
