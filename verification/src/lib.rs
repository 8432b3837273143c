//! A local credential vault: login credentials and API keys are kept in a
//! password-encrypted SQLite database and are created, retrieved, mutated and
//! deleted by unique name.
//!
//! The storage engine (SQLCipher through `rusqlite`) is reached only through
//! small trusted wrappers in [`store`]; everything that decides — name
//! validation, duplicate detection, field-set checks, batch-import
//! bookkeeping — is verified against a ghost model of the two record tables.

pub mod batch;
pub mod errors;
pub mod laws;
pub mod objects;
pub mod ops;
pub mod passgen;
pub mod present;
pub mod store;
pub mod strutil;
