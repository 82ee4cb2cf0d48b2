//! The persistence handle and its error.
//!
//! The handle adds nothing to what its backend does. It picks the backend's
//! own operation by the variant it was built with, hands the arguments over as
//! they are, and returns what came back, with a failure put under the
//! backend's tag. Both backends are always built in.
//!
//! One call is not made from here: the load of a redb store. It stops the
//! program where the database holds text that it cannot parse, and no function
//! of this module does that. For a redb handle [`Persister::initialize`] hands
//! out the store; the caller runs the store's own load on it and gets the
//! handle's answer from [`PersisterError::wrap_redb`].

use crate::backend::{redb_persist, sqlite_initialize, sqlite_persist};
use bdk_redb::error::StoreError;
use bdk_redb::Store;
use bdk_wallet::rusqlite;
use bdk_wallet::ChangeSet;
use vstd::prelude::*;
use vstd::std_specs::convert::FromSpec;
use vstd::string::to_string_from_display_ensures;

verus! {

/// The storage engines a handle can be backed by.
#[derive(Clone, Copy, Debug, PartialEq, Eq, Structural)]
pub enum Backend {
    /// A SQLite database, reached through an open connection.
    Sqlite,
    /// A redb database, reached through an open store.
    Redb,
}

/// A handle on the wallet's durable state, backed by exactly one storage
/// engine. The engine is chosen when the handle is built, from a resource that
/// is already open, and stays the same for as long as the handle lives. The
/// handle owns that resource.
pub enum Persister {
    /// Backed by an open SQLite connection.
    Connection(rusqlite::Connection),
    /// Backed by an open redb store.
    RedbStore(Store),
}

/// What [`Persister::initialize`] answers: the outcome of the load, or the
/// store that is still to be loaded from.
pub enum Load<'a> {
    /// The backend was asked, and this is what it returned.
    Done(Result<ChangeSet, PersisterError>),
    /// The load is left to the caller: this is the handle's own store, borrowed
    /// from the handle, to run the store's load on.
    Pending(&'a mut Store),
}

/// A failure of the backend behind a [`Persister`]: the backend's own error,
/// unchanged, under the tag of the backend that raised it. Loading and
/// appending fail under the same tag; what tells them apart is inside the
/// wrapped error.
#[derive(Debug)]
pub enum PersisterError {
    /// The SQLite backend failed.
    SqliteError(rusqlite::Error),
    /// The redb backend failed.
    RedbError(StoreError),
}

impl From<rusqlite::Error> for PersisterError {
    fn from(value: rusqlite::Error) -> (error: Self) {
        PersisterError::SqliteError(value)
    }
}

impl vstd::std_specs::convert::FromSpecImpl<rusqlite::Error> for PersisterError {
    open spec fn obeys_from_spec() -> bool {
        true
    }

    open spec fn from_spec(value: rusqlite::Error) -> Self {
        PersisterError::SqliteError(value)
    }
}

impl From<StoreError> for PersisterError {
    fn from(value: StoreError) -> (error: Self) {
        PersisterError::RedbError(value)
    }
}

impl vstd::std_specs::convert::FromSpecImpl<StoreError> for PersisterError {
    open spec fn obeys_from_spec() -> bool {
        true
    }

    open spec fn from_spec(value: StoreError) -> Self {
        PersisterError::RedbError(value)
    }
}

impl PersisterError {
    /// The backend whose failure this is.
    pub open spec fn spec_backend(&self) -> Backend {
        match self {
            PersisterError::SqliteError(_) => Backend::Sqlite,
            PersisterError::RedbError(_) => Backend::Redb,
        }
    }

    /// Whether `text` is a rendering of the error: one that the wrapped error
    /// gives of itself through `to_string`. The error adds nothing of its
    /// own, neither its tag nor the name of the operation that failed.
    pub open spec fn renders_as(&self, text: String) -> bool {
        match self {
            PersisterError::SqliteError(error) => {
                to_string_from_display_ensures::<rusqlite::Error>(error, text)
            },
            PersisterError::RedbError(error) => {
                to_string_from_display_ensures::<StoreError>(error, text)
            },
        }
    }

    /// What the handle returns when the SQLite backend returned `outcome`:
    /// the same value on success, the same error under the SQLite tag on
    /// failure.
    pub open spec fn spec_wrap_sqlite<T>(
        outcome: Result<T, rusqlite::Error>,
    ) -> Result<T, PersisterError> {
        match outcome {
            Ok(value) => Ok(value),
            Err(error) => Err(PersisterError::SqliteError(error)),
        }
    }

    /// What the handle returns when the redb backend returned `outcome`: the
    /// same value on success, the same error under the redb tag on failure.
    pub open spec fn spec_wrap_redb<T>(
        outcome: Result<T, StoreError>,
    ) -> Result<T, PersisterError> {
        match outcome {
            Ok(value) => Ok(value),
            Err(error) => Err(PersisterError::RedbError(error)),
        }
    }

    /// Returns the backend whose failure this is.
    #[verifier::when_used_as_spec(spec_backend)]
    pub fn backend(&self) -> (backend: Backend)
        ensures
            backend == self.spec_backend(),
    {
        match self {
            PersisterError::SqliteError(_) => Backend::Sqlite,
            PersisterError::RedbError(_) => Backend::Redb,
        }
    }

    /// Renders the error for a reader, as the wrapped error renders itself.
    pub fn to_string(&self) -> (text: String)
        ensures
            self.renders_as(text),
    {
        match self {
            PersisterError::SqliteError(error) => error.to_string(),
            PersisterError::RedbError(error) => error.to_string(),
        }
    }

    /// Turns an outcome of the SQLite backend into the handle's: success stays
    /// as it is, a failure is wrapped. Nothing is retried or replaced.
    #[verifier::when_used_as_spec(spec_wrap_sqlite)]
    pub fn wrap_sqlite<T>(
        outcome: Result<T, rusqlite::Error>,
    ) -> (result: Result<T, PersisterError>)
        ensures
            result == Self::spec_wrap_sqlite(outcome),
    {
        match outcome {
            Ok(value) => Ok(value),
            Err(error) => Err(PersisterError::from(error)),
        }
    }

    /// Turns an outcome of the redb backend into the handle's: success stays
    /// as it is, a failure is wrapped. Nothing is retried or replaced.
    #[verifier::when_used_as_spec(spec_wrap_redb)]
    pub fn wrap_redb<T>(outcome: Result<T, StoreError>) -> (result: Result<T, PersisterError>)
        ensures
            result == Self::spec_wrap_redb(outcome),
    {
        match outcome {
            Ok(value) => Ok(value),
            Err(error) => Err(PersisterError::from(error)),
        }
    }
}

impl Persister {
    /// The backend behind the handle.
    pub open spec fn spec_backend(&self) -> Backend {
        match self {
            Persister::Connection(_) => Backend::Sqlite,
            Persister::RedbStore(_) => Backend::Redb,
        }
    }

    /// Returns the backend behind the handle.
    #[verifier::when_used_as_spec(spec_backend)]
    pub fn backend(&self) -> (backend: Backend)
        ensures
            backend == self.spec_backend(),
    {
        match self {
            Persister::Connection(_) => Backend::Sqlite,
            Persister::RedbStore(_) => Backend::Redb,
        }
    }

    /// Loads everything that was stored so far, where the load can be made
    /// from here.
    ///
    /// A SQLite handle asks its backend and returns what the backend returned:
    /// the whole state, which is empty where nothing was ever stored, or the
    /// backend's error, wrapped. What the state holds and whether the load
    /// succeeds is the backend's to say.
    ///
    /// A redb handle hands out its store. The caller runs the store's own load
    /// on it and passes the outcome to [`PersisterError::wrap_redb`].
    ///
    /// Either way the handle stays on its backend.
    pub fn initialize(persister: &mut Self) -> (result: Load<'_>)
        ensures
            final(persister).backend() == old(persister).backend(),
            result is Done <==> old(persister).backend() == Backend::Sqlite,
            result matches Load::Done(Err(error)) ==> error.backend() == Backend::Sqlite,
            result matches Load::Pending(store) ==> *old(persister) == Persister::RedbStore(*store)
                && *final(persister) == Persister::RedbStore(*final(store)),
    {
        match persister {
            Persister::Connection(connection) => {
                Load::Done(PersisterError::wrap_sqlite(sqlite_initialize(connection)))
            },
            Persister::RedbStore(store) => Load::Pending(store),
        }
    }

    /// Asks the backend to append `changeset`, which may be empty, to what is
    /// stored, and returns what the backend returned: nothing, or the
    /// backend's error, wrapped.
    ///
    /// The call goes to the backend whether or not `initialize` came first;
    /// what a backend makes of an increment it was not prepared for comes back
    /// like any other outcome. Of every outcome it holds that the handle stays
    /// on its backend and that a failure carries that backend's tag.
    pub fn persist(
        persister: &mut Self,
        changeset: &ChangeSet,
    ) -> (result: Result<(), PersisterError>)
        ensures
            final(persister).backend() == old(persister).backend(),
            result matches Err(error) ==> error.backend() == old(persister).backend(),
    {
        match persister {
            Persister::Connection(connection) => {
                PersisterError::wrap_sqlite(sqlite_persist(connection, changeset))
            },
            Persister::RedbStore(store) => PersisterError::wrap_redb(redb_persist(store, changeset)),
        }
    }
}

/// Wrapping is transparent. Whatever a backend returns, the handle's result
/// succeeds exactly when the backend's does and then holds the same value; it
/// fails exactly when the backend's does and then holds the same error. So two
/// outcomes that the handle reports alike were alike.
pub proof fn lemma_wrapping_is_transparent<T>(
    sqlite: Result<T, rusqlite::Error>,
    other_sqlite: Result<T, rusqlite::Error>,
    redb: Result<T, StoreError>,
    other_redb: Result<T, StoreError>,
)
    ensures
        PersisterError::wrap_sqlite(sqlite) is Ok <==> sqlite is Ok,
        sqlite matches Ok(value) ==> PersisterError::wrap_sqlite(sqlite) matches Ok(same)
            && same == value,
        sqlite matches Err(error) ==> PersisterError::wrap_sqlite(sqlite) matches Err(wrapped)
            && wrapped == PersisterError::SqliteError(error),
        PersisterError::wrap_sqlite(sqlite) == PersisterError::wrap_sqlite(other_sqlite)
            ==> sqlite == other_sqlite,
        PersisterError::wrap_redb(redb) is Ok <==> redb is Ok,
        redb matches Ok(value) ==> PersisterError::wrap_redb(redb) matches Ok(same)
            && same == value,
        redb matches Err(error) ==> PersisterError::wrap_redb(redb) matches Err(wrapped)
            && wrapped == PersisterError::RedbError(error),
        PersisterError::wrap_redb(redb) == PersisterError::wrap_redb(other_redb)
            ==> redb == other_redb,
{
}

/// Conversion loses nothing. An error of either backend, once converted, is
/// the same error under its backend's tag, so two errors that convert alike
/// were alike.
pub proof fn lemma_conversion_is_lossless(
    sqlite: rusqlite::Error,
    other_sqlite: rusqlite::Error,
    redb: StoreError,
    other_redb: StoreError,
)
    ensures
        <PersisterError as FromSpec<rusqlite::Error>>::from_spec(sqlite)
            == PersisterError::SqliteError(sqlite),
        <PersisterError as FromSpec<rusqlite::Error>>::from_spec(sqlite)
            == <PersisterError as FromSpec<rusqlite::Error>>::from_spec(other_sqlite)
            ==> sqlite == other_sqlite,
        <PersisterError as FromSpec<StoreError>>::from_spec(redb) == PersisterError::RedbError(redb),
        <PersisterError as FromSpec<StoreError>>::from_spec(redb)
            == <PersisterError as FromSpec<StoreError>>::from_spec(other_redb)
            ==> redb == other_redb,
{
}

/// Wrapping loses nothing of the text. A text is a rendering of a converted
/// error exactly when it is a rendering of the backend's error by itself, and
/// so it is for the error of a failed load or write.
pub proof fn lemma_rendering_is_lossless<T>(
    sqlite: rusqlite::Error,
    redb: StoreError,
    sqlite_outcome: Result<T, rusqlite::Error>,
    redb_outcome: Result<T, StoreError>,
    text: String,
)
    ensures
        <PersisterError as FromSpec<rusqlite::Error>>::from_spec(sqlite).renders_as(text)
            <==> to_string_from_display_ensures::<rusqlite::Error>(&sqlite, text),
        <PersisterError as FromSpec<StoreError>>::from_spec(redb).renders_as(text)
            <==> to_string_from_display_ensures::<StoreError>(&redb, text),
        sqlite_outcome matches Err(error) ==> PersisterError::wrap_sqlite(sqlite_outcome)
            matches Err(wrapped) && (wrapped.renders_as(text)
            <==> to_string_from_display_ensures::<rusqlite::Error>(&error, text)),
        redb_outcome matches Err(error) ==> PersisterError::wrap_redb(redb_outcome)
            matches Err(wrapped) && (wrapped.renders_as(text)
            <==> to_string_from_display_ensures::<StoreError>(&error, text)),
{
}

/// A failure carries the tag of the backend it came from, and of no other:
/// the SQLite tag for every failure of the SQLite backend, the redb tag for
/// every failure of the redb backend.
pub proof fn lemma_error_tag_is_the_backend<T>(
    sqlite: Result<T, rusqlite::Error>,
    redb: Result<T, StoreError>,
)
    ensures
        PersisterError::wrap_sqlite(sqlite) matches Err(error) ==> error.backend()
            == Backend::Sqlite,
        PersisterError::wrap_redb(redb) matches Err(error) ==> error.backend() == Backend::Redb,
{
}

} // verus!
