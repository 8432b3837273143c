//! The encrypted store: a handle to one password-encrypted database file
//! holding two record tables, one per secret kind.
//!
//! The storage engine (SQLCipher through `rusqlite`) is reached only through
//! the trusted wrappers in this module.  Each wrapper's contract states what
//! the one SQL statement it runs does to the two tables, over the ghost
//! contents [`store_logins`] and [`store_apikeys`]; the tables are created
//! with a `UNIQUE` constraint on their name column, which is what lets the
//! contents be read as a map keyed by name.
//!
//! The ghost contents are functions of the handle value, so they model the
//! database soundly only while a single live handle points at the file and
//! the schema is the one [`EncryptedStore::create`] lays down — the
//! single-process, single-store discipline the vault is built for.  A caller
//! who opens two handles onto one path steps outside the model.

use vstd::prelude::*;

use crate::errors::CMError;
use crate::objects::{APIObj, AccountObj};
use rusqlite::OptionalExtension;

verus! {

/// The declared shape of `rusqlite::Connection`: opaque to the verifier.
#[verifier::external_type_specification]
#[verifier::external_body]
pub struct ExConnection(rusqlite::Connection);

/// The declared shape of `rusqlite::Error`: opaque to the verifier.
#[verifier::external_type_specification]
#[verifier::external_body]
pub struct ExRusqliteError(rusqlite::Error);

/// A handle to one encrypted database file.
pub struct EncryptedStore {
    con: rusqlite::Connection,
}

/// One login-credential record, keyed in [`store_logins`] by its unique name.
pub ghost struct LoginEntry {
    pub user_name: Seq<char>,
    pub password: Seq<char>,
}

/// One API-key record, keyed in [`store_apikeys`] by its unique name.
pub ghost struct ApiEntry {
    pub description: Seq<char>,
    pub user_name: Seq<char>,
    pub api_key: Seq<char>,
}

/// The contents of the login-credential table behind a store handle, keyed by
/// the table's unique name column.
pub uninterp spec fn store_logins(s: EncryptedStore) -> Map<Seq<char>, LoginEntry>;

/// The contents of the API-key table behind a store handle, keyed by the
/// table's unique name column.
pub uninterp spec fn store_apikeys(s: EncryptedStore) -> Map<Seq<char>, ApiEntry>;

/// An empty login table.
pub open spec fn empty_logins() -> Map<Seq<char>, LoginEntry> {
    Map::empty()
}

/// An empty API-key table.
pub open spec fn empty_apikeys() -> Map<Seq<char>, ApiEntry> {
    Map::empty()
}

/// A storage-engine failure, classified by what it says about the store file.
pub enum DbFailure {
    /// The engine's "cannot open" code: no readable file at the path.
    CannotOpen,
    /// The engine's "not a database" code: the wrong-key signal of the
    /// encrypted format.
    NotADatabase,
    /// Any other engine failure, with the engine's message.
    Other(String),
}

/// Relies on the `code` field of `rusqlite::Error::SqliteFailure` to tell the
/// engine's "cannot open" and "not a database" conditions from every other
/// failure.
#[verifier::external_body]
pub(crate) fn classify_error(e: rusqlite::Error) -> DbFailure {
    match e {
        rusqlite::Error::SqliteFailure(f, msg) => {
            if f.code == rusqlite::ErrorCode::CannotOpen {
                DbFailure::CannotOpen
            } else if f.code == rusqlite::ErrorCode::NotADatabase {
                DbFailure::NotADatabase
            } else {
                DbFailure::Other(msg.unwrap_or_else(|| f.to_string()))
            }
        },
        other => DbFailure::Other(other.to_string()),
    }
}

/// Relies on `rusqlite::Connection::open_with_flags` with the read-only flag:
/// it succeeds exactly when a file can be opened at `path` (the engine opens
/// lazily and reads nothing yet).
#[verifier::external_body]
pub(crate) fn probe_file(path: &str) -> bool {
    rusqlite::Connection::open_with_flags(path, rusqlite::OpenFlags::SQLITE_OPEN_READ_ONLY).is_ok()
}

/// Relies on `rusqlite::Connection::open`, which creates the file when it is
/// absent.
#[verifier::external_body]
pub(crate) fn open_new(path: &str) -> Result<EncryptedStore, DbFailure> {
    match rusqlite::Connection::open(path) {
        Ok(con) => Ok(EncryptedStore { con }),
        Err(e) => Err(classify_error(e)),
    }
}

/// Relies on `rusqlite::Connection::open_with_flags` with the read-write
/// flag, which fails with the "cannot open" code when the file is absent.
#[verifier::external_body]
pub(crate) fn open_rw(path: &str) -> Result<EncryptedStore, DbFailure> {
    match rusqlite::Connection::open_with_flags(
        path,
        rusqlite::OpenFlags::SQLITE_OPEN_READ_WRITE,
    ) {
        Ok(con) => Ok(EncryptedStore { con }),
        Err(e) => Err(classify_error(e)),
    }
}

impl EncryptedStore {
    /// Relies on `rusqlite::Connection::pragma_update` running `PRAGMA key`:
    /// the password is passed as a quoted value (quote characters doubled),
    /// so exactly that one pragma runs, which only installs the decryption
    /// key and never changes the stored records.
    #[verifier::external_body]
    pub(crate) fn apply_key(&mut self, master_password: &str) -> (r: Result<(), DbFailure>)
        ensures
            store_logins(*final(self)) == store_logins(*old(self)),
            store_apikeys(*final(self)) == store_apikeys(*old(self)),
    {
        self.con.pragma_update(None, "key", master_password).map_err(classify_error)
    }

    /// Relies on `rusqlite::Connection::pragma_update` running `PRAGMA
    /// rekey`: the password is passed as a quoted value (quote characters
    /// doubled), so exactly that one pragma runs, which re-encrypts the file
    /// under the new key and never changes the stored records.
    #[verifier::external_body]
    pub(crate) fn rekey_raw(&mut self, new_master_password: &str) -> (r: Result<(), DbFailure>)
        ensures
            store_logins(*final(self)) == store_logins(*old(self)),
            store_apikeys(*final(self)) == store_apikeys(*old(self)),
    {
        self.con.pragma_update(None, "rekey", new_master_password).map_err(classify_error)
    }

    /// Relies on `rusqlite::Connection::execute_batch` running a read of the
    /// schema table: with a wrong key the encrypted format fails it with the
    /// "not a database" code.
    #[verifier::external_body]
    pub(crate) fn trial_read(&self) -> Result<(), DbFailure> {
        self.con.execute_batch("SELECT COUNT(*) FROM sqlite_master;").map_err(classify_error)
    }

    /// Relies on `rusqlite::Connection::execute_batch` running the two
    /// `CREATE TABLE` statements: on success both record tables exist, are
    /// empty, and carry a `UNIQUE` constraint on their name column; it fails
    /// when either table already exists.
    #[verifier::external_body]
    pub(crate) fn init_schema(&mut self) -> (r: Result<(), DbFailure>)
        ensures
            r is Ok ==> store_logins(*final(self)) == empty_logins(),
            r is Ok ==> store_apikeys(*final(self)) == empty_apikeys(),
    {
        self.con.execute_batch(
            "CREATE TABLE account (\
             acc_id INTEGER PRIMARY KEY AUTOINCREMENT,\
             acc_name VARCHAR(100) NOT NULL UNIQUE,\
             user_name VARCHAR(100),\
             password VARCHAR(256));\
             CREATE TABLE api_keys (\
             api_id INTEGER PRIMARY KEY AUTOINCREMENT,\
             api_name VARCHAR(100) NOT NULL UNIQUE,\
             description VARCHAR(100),\
             user_name VARCHAR(100),\
             api_key VARCHAR(256));",
        ).map_err(classify_error)
    }

    /// Relies on `rusqlite::Connection::query_row` running `SELECT EXISTS` on
    /// the login table, which returns 1 when a row with that name exists and
    /// 0 otherwise.
    #[verifier::external_body]
    pub(crate) fn login_exists_raw(&self, name: &str) -> (r: Result<i64, DbFailure>)
        ensures
            r matches Ok(v) ==> (v == 0 || v == 1) && (v == 1 <==> store_logins(
                *self,
            ).dom().contains(name@)),
    {
        self.con.query_row(
            "SELECT EXISTS(SELECT 1 FROM account WHERE acc_name = ?1);",
            (name,),
            |row| row.get::<_, i64>(0),
        ).map_err(classify_error)
    }

    /// Relies on `rusqlite::Connection::query_row` running `SELECT EXISTS` on
    /// the API-key table, which returns 1 when a row with that name exists
    /// and 0 otherwise.
    #[verifier::external_body]
    pub(crate) fn api_exists_raw(&self, name: &str) -> (r: Result<i64, DbFailure>)
        ensures
            r matches Ok(v) ==> (v == 0 || v == 1) && (v == 1 <==> store_apikeys(
                *self,
            ).dom().contains(name@)),
    {
        self.con.query_row(
            "SELECT EXISTS(SELECT 1 FROM api_keys WHERE api_name = ?1);",
            (name,),
            |row| row.get::<_, i64>(0),
        ).map_err(classify_error)
    }

    /// Relies on `rusqlite::Connection::execute` running one `INSERT` into
    /// the login table: on success exactly that row is added; on failure
    /// (including the `UNIQUE` constraint on the name) nothing changes.
    #[verifier::external_body]
    pub(crate) fn insert_login_raw(&mut self, account: &AccountObj) -> (r: Result<(), DbFailure>)
        ensures
            r is Ok ==> store_logins(*final(self)) == store_logins(*old(self)).insert(
                account.account_name@,
                (LoginEntry { user_name: account.user_name@, password: account.password@ }),
            ),
            r is Err ==> store_logins(*final(self)) == store_logins(*old(self)),
            store_apikeys(*final(self)) == store_apikeys(*old(self)),
    {
        self.con.execute(
            "INSERT INTO account(acc_name, user_name, password) VALUES (?1, ?2, ?3);",
            [&account.account_name, &account.user_name, &account.password],
        ).map(|_| ()).map_err(classify_error)
    }

    /// Relies on `rusqlite::Connection::execute` running one `INSERT` into
    /// the API-key table: on success exactly that row is added; on failure
    /// (including the `UNIQUE` constraint on the name) nothing changes.
    #[verifier::external_body]
    pub(crate) fn insert_api_raw(&mut self, api: &APIObj) -> (r: Result<(), DbFailure>)
        ensures
            r is Ok ==> store_apikeys(*final(self)) == store_apikeys(*old(self)).insert(
                api.api_name@,
                (ApiEntry {
                    description: api.description@,
                    user_name: api.user_name@,
                    api_key: api.api_key@,
                }),
            ),
            r is Err ==> store_apikeys(*final(self)) == store_apikeys(*old(self)),
            store_logins(*final(self)) == store_logins(*old(self)),
    {
        self.con.execute(
            "INSERT INTO api_keys(api_name, description, user_name, api_key) VALUES (?1, ?2, ?3, ?4);",
            [&api.api_name, &api.description, &api.user_name, &api.api_key],
        ).map(|_| ()).map_err(classify_error)
    }

    /// Relies on `rusqlite::Connection::execute` running one `DELETE` on the
    /// login table: on success the row with that name, if any, is gone and
    /// nothing else changes.
    #[verifier::external_body]
    pub(crate) fn delete_login_raw(&mut self, name: &str) -> (r: Result<(), DbFailure>)
        ensures
            r is Ok ==> store_logins(*final(self)) == store_logins(*old(self)).remove(name@),
            r is Err ==> store_logins(*final(self)) == store_logins(*old(self)),
            store_apikeys(*final(self)) == store_apikeys(*old(self)),
    {
        self.con.execute("DELETE FROM account WHERE acc_name = ?1;", [name]).map(|_| ()).map_err(
            classify_error,
        )
    }

    /// Relies on `rusqlite::Connection::execute` running one `DELETE` on the
    /// API-key table: on success the row with that name, if any, is gone and
    /// nothing else changes.
    #[verifier::external_body]
    pub(crate) fn delete_api_raw(&mut self, name: &str) -> (r: Result<(), DbFailure>)
        ensures
            r is Ok ==> store_apikeys(*final(self)) == store_apikeys(*old(self)).remove(name@),
            r is Err ==> store_apikeys(*final(self)) == store_apikeys(*old(self)),
            store_logins(*final(self)) == store_logins(*old(self)),
    {
        self.con.execute("DELETE FROM api_keys WHERE api_name = ?1;", [name]).map(|_| ()).map_err(
            classify_error,
        )
    }

    /// Relies on `rusqlite::Connection::query_row` (with
    /// `rusqlite::OptionalExtension`) running one `SELECT` by name on the
    /// login table: `Some` carries exactly the stored row, `None` means no
    /// row has that name.
    #[verifier::external_body]
    pub(crate) fn get_login_raw(&self, name: &str) -> (r: Result<Option<AccountObj>, DbFailure>)
        ensures
            r matches Ok(Some(a)) ==> store_logins(*self).dom().contains(name@)
                && a.account_name@ == name@ && store_logins(*self)[name@] == (LoginEntry {
                user_name: a.user_name@,
                password: a.password@,
            }),
            r matches Ok(None) ==> !store_logins(*self).dom().contains(name@),
    {
        self.con.query_row(
            "SELECT acc_name, user_name, password FROM account WHERE acc_name = ?1;",
            [name],
            |row| {
                Ok(AccountObj {
                    account_name: row.get(0)?,
                    user_name: row.get(1)?,
                    password: row.get(2)?,
                })
            },
        ).optional().map_err(classify_error)
    }

    /// Relies on `rusqlite::Connection::query_row` (with
    /// `rusqlite::OptionalExtension`) running one `SELECT` by name on the
    /// API-key table: `Some` carries exactly the stored row, `None` means no
    /// row has that name.
    #[verifier::external_body]
    pub(crate) fn get_api_raw(&self, name: &str) -> (r: Result<Option<APIObj>, DbFailure>)
        ensures
            r matches Ok(Some(a)) ==> store_apikeys(*self).dom().contains(name@)
                && a.api_name@ == name@ && store_apikeys(*self)[name@] == (ApiEntry {
                description: a.description@,
                user_name: a.user_name@,
                api_key: a.api_key@,
            }),
            r matches Ok(None) ==> !store_apikeys(*self).dom().contains(name@),
    {
        self.con.query_row(
            "SELECT api_name, description, user_name, api_key FROM api_keys WHERE api_name = ?1;",
            [name],
            |row| {
                Ok(APIObj {
                    api_name: row.get(0)?,
                    description: row.get(1)?,
                    user_name: row.get(2)?,
                    api_key: row.get(3)?,
                })
            },
        ).optional().map_err(classify_error)
    }

    /// Relies on `rusqlite::Statement::query_map` running `SELECT` over the
    /// whole login table: the rows returned are exactly the table's rows,
    /// each once, in storage order.
    #[verifier::external_body]
    pub(crate) fn all_logins_raw(&self) -> (r: Result<Vec<AccountObj>, DbFailure>)
        ensures
            r matches Ok(v) ==> {
                &&& store_logins(*self).dom().finite()
                &&& v@.len() == store_logins(*self).dom().len()
                &&& forall|i: int|
                    0 <= i < v@.len() ==> store_logins(*self).dom().contains(
                        #[trigger] v@[i].account_name@,
                    ) && store_logins(*self)[v@[i].account_name@] == (LoginEntry {
                        user_name: v@[i].user_name@,
                        password: v@[i].password@,
                    })
                &&& forall|i: int, j: int|
                    0 <= i < j < v@.len() ==> #[trigger] v@[i].account_name@
                        != #[trigger] v@[j].account_name@
                &&& forall|k: Seq<char>|
                    #[trigger] store_logins(*self).dom().contains(k) ==> exists|i: int|
                        0 <= i < v@.len() && #[trigger] v@[i].account_name@ == k
            },
    {
        let run = || -> rusqlite::Result<Vec<AccountObj>> {
            let mut stmt = self.con.prepare(
                "SELECT acc_name, user_name, password FROM account;",
            )?;
            let rows = stmt.query_map([], |row| {
                Ok(AccountObj { account_name: row.get(0)?, user_name: row.get(1)?, password: row.get(2)? })
            })?;
            rows.collect()
        };
        run().map_err(classify_error)
    }

    /// Relies on `rusqlite::Statement::query_map` running `SELECT` over the
    /// whole API-key table: the rows returned are exactly the table's rows,
    /// each once, in storage order.
    #[verifier::external_body]
    pub(crate) fn all_apis_raw(&self) -> (r: Result<Vec<APIObj>, DbFailure>)
        ensures
            r matches Ok(v) ==> {
                &&& store_apikeys(*self).dom().finite()
                &&& v@.len() == store_apikeys(*self).dom().len()
                &&& forall|i: int|
                    0 <= i < v@.len() ==> store_apikeys(*self).dom().contains(
                        #[trigger] v@[i].api_name@,
                    ) && store_apikeys(*self)[v@[i].api_name@] == (ApiEntry {
                        description: v@[i].description@,
                        user_name: v@[i].user_name@,
                        api_key: v@[i].api_key@,
                    })
                &&& forall|i: int, j: int|
                    0 <= i < j < v@.len() ==> #[trigger] v@[i].api_name@
                        != #[trigger] v@[j].api_name@
                &&& forall|k: Seq<char>|
                    #[trigger] store_apikeys(*self).dom().contains(k) ==> exists|i: int|
                        0 <= i < v@.len() && #[trigger] v@[i].api_name@ == k
            },
    {
        let run = || -> rusqlite::Result<Vec<APIObj>> {
            let mut stmt = self.con.prepare(
                "SELECT api_name, description, user_name, api_key FROM api_keys;",
            )?;
            let rows = stmt.query_map([], |row| {
                Ok(APIObj { api_name: row.get(0)?, description: row.get(1)?, user_name: row.get(2)?, api_key: row.get(3)? })
            })?;
            rows.collect()
        };
        run().map_err(classify_error)
    }

    /// Relies on `rusqlite::Connection::execute` running one `UPDATE` of the
    /// login table's username column: on success exactly the row with that
    /// name, if any, has its username replaced.
    #[verifier::external_body]
    pub(crate) fn update_login_user_raw(&mut self, name: &str, value: &str) -> (r: Result<
        (),
        DbFailure,
    >)
        ensures
            r is Ok && store_logins(*old(self)).dom().contains(name@) ==> store_logins(
                *final(self),
            ) == store_logins(*old(self)).insert(
                name@,
                (LoginEntry {
                    user_name: value@,
                    password: store_logins(*old(self))[name@].password,
                }),
            ),
            r is Ok && !store_logins(*old(self)).dom().contains(name@) ==> store_logins(
                *final(self),
            ) == store_logins(*old(self)),
            r is Err ==> store_logins(*final(self)) == store_logins(*old(self)),
            store_apikeys(*final(self)) == store_apikeys(*old(self)),
    {
        self.con.execute(
            "UPDATE account SET user_name = ?1 WHERE acc_name = ?2;",
            [value, name],
        ).map(|_| ()).map_err(classify_error)
    }

    /// Relies on `rusqlite::Connection::execute` running one `UPDATE` of the
    /// login table's password column: on success exactly the row with that
    /// name, if any, has its password replaced.
    #[verifier::external_body]
    pub(crate) fn update_login_pass_raw(&mut self, name: &str, value: &str) -> (r: Result<
        (),
        DbFailure,
    >)
        ensures
            r is Ok && store_logins(*old(self)).dom().contains(name@) ==> store_logins(
                *final(self),
            ) == store_logins(*old(self)).insert(
                name@,
                (LoginEntry {
                    user_name: store_logins(*old(self))[name@].user_name,
                    password: value@,
                }),
            ),
            r is Ok && !store_logins(*old(self)).dom().contains(name@) ==> store_logins(
                *final(self),
            ) == store_logins(*old(self)),
            r is Err ==> store_logins(*final(self)) == store_logins(*old(self)),
            store_apikeys(*final(self)) == store_apikeys(*old(self)),
    {
        self.con.execute(
            "UPDATE account SET password = ?1 WHERE acc_name = ?2;",
            [value, name],
        ).map(|_| ()).map_err(classify_error)
    }

    /// Relies on `rusqlite::Connection::execute` running one `UPDATE` of the
    /// login table's name column: on success the row keyed by `name`, if
    /// any, is keyed by `new_name` instead; the `UNIQUE` constraint fails the
    /// statement instead of overwriting another row.
    #[verifier::external_body]
    pub(crate) fn rename_login_raw(&mut self, name: &str, new_name: &str) -> (r: Result<
        (),
        DbFailure,
    >)
        ensures
            r is Ok && store_logins(*old(self)).dom().contains(name@) ==> store_logins(
                *final(self),
            ) == store_logins(*old(self)).remove(name@).insert(
                new_name@,
                store_logins(*old(self))[name@],
            ),
            r is Ok && !store_logins(*old(self)).dom().contains(name@) ==> store_logins(
                *final(self),
            ) == store_logins(*old(self)),
            r is Err ==> store_logins(*final(self)) == store_logins(*old(self)),
            store_apikeys(*final(self)) == store_apikeys(*old(self)),
    {
        self.con.execute(
            "UPDATE account SET acc_name = ?1 WHERE acc_name = ?2;",
            [new_name, name],
        ).map(|_| ()).map_err(classify_error)
    }

    /// Relies on `rusqlite::Connection::execute` running one `UPDATE` of the
    /// API-key table's username column.
    #[verifier::external_body]
    pub(crate) fn update_api_user_raw(&mut self, name: &str, value: &str) -> (r: Result<
        (),
        DbFailure,
    >)
        ensures
            r is Ok && store_apikeys(*old(self)).dom().contains(name@) ==> store_apikeys(
                *final(self),
            ) == store_apikeys(*old(self)).insert(
                name@,
                (ApiEntry {
                    description: store_apikeys(*old(self))[name@].description,
                    user_name: value@,
                    api_key: store_apikeys(*old(self))[name@].api_key,
                }),
            ),
            r is Ok && !store_apikeys(*old(self)).dom().contains(name@) ==> store_apikeys(
                *final(self),
            ) == store_apikeys(*old(self)),
            r is Err ==> store_apikeys(*final(self)) == store_apikeys(*old(self)),
            store_logins(*final(self)) == store_logins(*old(self)),
    {
        self.con.execute(
            "UPDATE api_keys SET user_name = ?1 WHERE api_name = ?2;",
            [value, name],
        ).map(|_| ()).map_err(classify_error)
    }

    /// Relies on `rusqlite::Connection::execute` running one `UPDATE` of the
    /// API-key table's description column.
    #[verifier::external_body]
    pub(crate) fn update_api_desc_raw(&mut self, name: &str, value: &str) -> (r: Result<
        (),
        DbFailure,
    >)
        ensures
            r is Ok && store_apikeys(*old(self)).dom().contains(name@) ==> store_apikeys(
                *final(self),
            ) == store_apikeys(*old(self)).insert(
                name@,
                (ApiEntry {
                    description: value@,
                    user_name: store_apikeys(*old(self))[name@].user_name,
                    api_key: store_apikeys(*old(self))[name@].api_key,
                }),
            ),
            r is Ok && !store_apikeys(*old(self)).dom().contains(name@) ==> store_apikeys(
                *final(self),
            ) == store_apikeys(*old(self)),
            r is Err ==> store_apikeys(*final(self)) == store_apikeys(*old(self)),
            store_logins(*final(self)) == store_logins(*old(self)),
    {
        self.con.execute(
            "UPDATE api_keys SET description = ?1 WHERE api_name = ?2;",
            [value, name],
        ).map(|_| ()).map_err(classify_error)
    }

    /// Relies on `rusqlite::Connection::execute` running one `UPDATE` of the
    /// API-key table's key column.
    #[verifier::external_body]
    pub(crate) fn update_api_key_raw(&mut self, name: &str, value: &str) -> (r: Result<
        (),
        DbFailure,
    >)
        ensures
            r is Ok && store_apikeys(*old(self)).dom().contains(name@) ==> store_apikeys(
                *final(self),
            ) == store_apikeys(*old(self)).insert(
                name@,
                (ApiEntry {
                    description: store_apikeys(*old(self))[name@].description,
                    user_name: store_apikeys(*old(self))[name@].user_name,
                    api_key: value@,
                }),
            ),
            r is Ok && !store_apikeys(*old(self)).dom().contains(name@) ==> store_apikeys(
                *final(self),
            ) == store_apikeys(*old(self)),
            r is Err ==> store_apikeys(*final(self)) == store_apikeys(*old(self)),
            store_logins(*final(self)) == store_logins(*old(self)),
    {
        self.con.execute(
            "UPDATE api_keys SET api_key = ?1 WHERE api_name = ?2;",
            [value, name],
        ).map(|_| ()).map_err(classify_error)
    }

    /// Relies on `rusqlite::Connection::execute` running one `UPDATE` of the
    /// API-key table's name column: on success the row keyed by `name`, if
    /// any, is keyed by `new_name` instead; the `UNIQUE` constraint fails the
    /// statement instead of overwriting another row.
    #[verifier::external_body]
    pub(crate) fn rename_api_raw(&mut self, name: &str, new_name: &str) -> (r: Result<
        (),
        DbFailure,
    >)
        ensures
            r is Ok && store_apikeys(*old(self)).dom().contains(name@) ==> store_apikeys(
                *final(self),
            ) == store_apikeys(*old(self)).remove(name@).insert(
                new_name@,
                store_apikeys(*old(self))[name@],
            ),
            r is Ok && !store_apikeys(*old(self)).dom().contains(name@) ==> store_apikeys(
                *final(self),
            ) == store_apikeys(*old(self)),
            r is Err ==> store_apikeys(*final(self)) == store_apikeys(*old(self)),
            store_logins(*final(self)) == store_logins(*old(self)),
    {
        self.con.execute(
            "UPDATE api_keys SET api_name = ?1 WHERE api_name = ?2;",
            [new_name, name],
        ).map(|_| ()).map_err(classify_error)
    }
}

/// The catch-all storage error for a failure that carries no decision.
pub(crate) fn storage_error_of(f: DbFailure) -> (r: CMError)
    ensures
        r matches CMError::StorageError(_),
{
    match f {
        DbFailure::CannotOpen => CMError::StorageError(
            "the database file could not be opened".to_owned(),
        ),
        DbFailure::NotADatabase => CMError::StorageError(
            "the file is not a readable database".to_owned(),
        ),
        DbFailure::Other(s) => CMError::StorageError(s),
    }
}

/// How a failure to open the file is reported: the engine's "cannot open"
/// signal means the file is absent.
pub(crate) fn open_failure_error(f: DbFailure) -> (r: CMError)
    ensures
        f is CannotOpen ==> r is NotFound,
        !(f is CannotOpen) ==> r matches CMError::StorageError(_),
{
    match f {
        DbFailure::CannotOpen => CMError::NotFound,
        other => storage_error_of(other),
    }
}

/// How a failure of the verification read is reported: the engine's "not a
/// database" signal is attributable to a wrong key, so it is reported as an
/// authentication failure; every other failure is a storage error.
pub(crate) fn verify_failure_error(f: DbFailure) -> (r: CMError)
    ensures
        f is NotADatabase ==> r is AuthenticationFailed,
        !(f is NotADatabase) ==> r matches CMError::StorageError(_),
{
    match f {
        DbFailure::NotADatabase => CMError::AuthenticationFailed,
        other => storage_error_of(other),
    }
}

impl EncryptedStore {
    /// Create a new encrypted store at `path`, keyed by `master_password`,
    /// with both record tables empty.
    ///
    /// Fails with `AlreadyExists` when a file is already present at `path`;
    /// every other failure is a storage error.
    pub fn create(path: &str, master_password: &str) -> (r: Result<EncryptedStore, CMError>)
        ensures
            r matches Ok(s) ==> store_logins(s) == empty_logins() && store_apikeys(s)
                == empty_apikeys(),
            r matches Err(e) ==> e is AlreadyExists || e matches CMError::StorageError(_),
    {
        if probe_file(path) {
            return Err(CMError::AlreadyExists);
        }
        let mut store = match open_new(path) {
            Ok(s) => s,
            Err(f) => return Err(storage_error_of(f)),
        };
        if let Err(f) = store.apply_key(master_password) {
            return Err(storage_error_of(f));
        }
        if let Err(f) = store.init_schema() {
            return Err(storage_error_of(f));
        }
        Ok(store)
    }

    /// Open the store at `path` with `master_password` and verify the
    /// password by a trial read.
    ///
    /// Fails with `NotFound` when the file is absent, with
    /// `AuthenticationFailed` when the trial read fails in the way
    /// attributable to a wrong key, and with a storage error otherwise.
    pub fn open(path: &str, master_password: &str) -> (r: Result<EncryptedStore, CMError>)
        ensures
            r matches Err(e) ==> e is NotFound || e is AuthenticationFailed
                || e matches CMError::StorageError(_),
    {
        let mut store = match open_rw(path) {
            Ok(s) => s,
            Err(f) => return Err(open_failure_error(f)),
        };
        if let Err(f) = store.apply_key(master_password) {
            return Err(storage_error_of(f));
        }
        if let Err(f) = store.trial_read() {
            return Err(verify_failure_error(f));
        }
        Ok(store)
    }

    /// Re-encrypt the store at `path` under `new_password`, after opening and
    /// verifying it with `old_password` exactly as [`EncryptedStore::open`]
    /// does.  The stored records are unchanged.
    pub fn rekey(path: &str, old_password: &str, new_password: &str) -> (r: Result<(), CMError>)
        ensures
            r matches Err(e) ==> e is NotFound || e is AuthenticationFailed
                || e matches CMError::StorageError(_),
    {
        let mut store = match EncryptedStore::open(path, old_password) {
            Ok(s) => s,
            Err(e) => return Err(e),
        };
        match store.rekey_raw(new_password) {
            Ok(()) => Ok(()),
            Err(f) => Err(storage_error_of(f)),
        }
    }
}

} // verus!
