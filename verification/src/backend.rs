//! The storage backends, as far as the handle depends on them.
//!
//! Nothing in this module is proved. It declares the backends' types and holds
//! the calls into them that load and store; nothing is claimed of what such a
//! call returns.

use bdk_redb::error::StoreError;
use bdk_redb::Store;
use bdk_wallet::rusqlite;
use bdk_wallet::{ChangeSet, WalletPersister};
use vstd::prelude::*;

verus! {

/// `rusqlite::Connection`, an open SQLite connection. Nothing inside it is
/// modelled.
#[verifier::external_type_specification]
#[verifier::external_body]
pub struct ExConnection(rusqlite::Connection);

/// `rusqlite::Error`, the error of the SQLite backend. Nothing inside it is
/// modelled.
#[verifier::external_type_specification]
#[verifier::external_body]
pub struct ExSqliteError(rusqlite::Error);

/// `bdk_redb::Store`, the tables of one wallet in an open redb database.
/// Nothing inside it is modelled.
#[verifier::external_type_specification]
#[verifier::external_body]
pub struct ExStore(Store);

/// `bdk_redb::error::StoreError`, the error of the redb backend. Nothing
/// inside it is modelled.
#[verifier::external_type_specification]
#[verifier::external_body]
pub struct ExStoreError(StoreError);

/// `bdk_wallet::ChangeSet`, the wallet's state, whole or as an increment.
/// Nothing inside it is modelled: the handle only passes it on.
#[verifier::external_type_specification]
#[verifier::external_body]
pub struct ExChangeSet(ChangeSet);

/// Calls `WalletPersister::initialize` as `bdk_wallet` implements it for
/// `rusqlite::Connection`: in one transaction, create the wallet's tables where
/// they are missing, read back all that they hold, and commit. Text in the
/// database that does not parse comes back as an error.
///
/// Nothing is claimed of the outcome, nor of the connection afterwards: both
/// depend on the database.
#[verifier::external_body]
pub(crate) fn sqlite_initialize(
    connection: &mut rusqlite::Connection,
) -> (outcome: Result<ChangeSet, rusqlite::Error>) {
    <rusqlite::Connection as WalletPersister>::initialize(connection)
}

/// Calls `WalletPersister::persist` as `bdk_wallet` implements it for
/// `rusqlite::Connection`: write the increment in one transaction, and commit.
///
/// Nothing is claimed of the outcome, nor of the connection afterwards: both
/// depend on the database.
#[verifier::external_body]
pub(crate) fn sqlite_persist(
    connection: &mut rusqlite::Connection,
    changeset: &ChangeSet,
) -> (outcome: Result<(), rusqlite::Error>) {
    <rusqlite::Connection as WalletPersister>::persist(connection, changeset)
}

/// Calls `WalletPersister::persist` as `bdk_redb` implements it for `Store`:
/// write the increment, one part of the wallet after the other, each in a
/// transaction of its own.
///
/// Nothing is claimed of the outcome, nor of the store afterwards: both depend
/// on the database.
#[verifier::external_body]
pub(crate) fn redb_persist(
    store: &mut Store,
    changeset: &ChangeSet,
) -> (outcome: Result<(), StoreError>) {
    <Store as WalletPersister>::persist(store, changeset)
}

} // verus!
