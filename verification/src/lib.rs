//! A server-side session store: unique session identifiers, keyed data per
//! session, lifecycle controls, and reconciliation of an in-memory cache with
//! an optional persistent backing store.
//!
//! A [`SessionStore`] holds the sessions in memory and, where one is given, a
//! backing store that implements [`DatabasePool`]. A [`Session`] is a handle
//! on one session: an identifier with the operations of the store on it.
//! Every operation takes the instant at which it happens, in seconds, so that
//! the store never reads a clock. Nothing is written to the backing store
//! until [`SessionStore::sweep`] runs, which also removes the sessions that
//! have expired or were destroyed.
//!
//! The store is a plain value that is changed through `&mut`. A server that
//! shares it between request handlers puts it behind a lock.
//!
//! The module [`model`] holds the store as a mathematical value and says what
//! each operation makes of it; the module [`laws`] proves what holds of the
//! operations taken together.

pub mod cache;
pub mod codec;
pub mod config;
pub mod data;
pub mod id;
pub mod laws;
pub mod model;
pub mod pool;
pub mod reconcile;
pub mod session;
pub mod store;

pub use crate::config::SessionConfig;
pub use crate::data::SessionData;
pub use crate::id::SessionID;
pub use crate::pool::{CrowdedPool, DatabasePool, MemoryPool, PoolError, StoredRow};
pub use crate::session::{ReadOnlySession, Session};
pub use crate::store::{SessionError, SessionStore, SweepReport, Verdict};
