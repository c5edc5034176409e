//! A persisted-record "course catalog" kernel: a monotonically-identified
//! record table with create/read/update/delete/filter operations, gated by a
//! three-tier authorization model (owner, moderator, admin) and a ban list
//! that revokes write access.
//!
//! The kernel is pure in-memory logic. The hosting runtime supplies each
//! operation with the caller's identity (an opaque principal string) and the
//! current time as plain values; durable storage of the state is likewise the
//! host's concern.

pub mod errors;
pub mod record;
pub mod service;
pub mod filter;
pub mod laws;
pub mod ledger;
pub mod store;

pub use errors::Error;
pub use ledger::{Ledger, MAX_MODERATORS};
pub use service::Catalog;
pub use record::{Course, CoursePayLoad, CourseUpdatePayLoad, FilterPayLoad};
