//! A wallet persistence handle over a fixed set of storage backends.
//!
//! [`persister::Persister`] owns one open backend, a SQLite connection or a
//! redb store, and stands between the wallet and that backend for two
//! operations: load everything that was stored, and append an increment. A
//! failure of the backend comes back as a [`persister::PersisterError`] that
//! carries the backend's own error under the backend's tag.

pub mod backend;
pub mod persister;
