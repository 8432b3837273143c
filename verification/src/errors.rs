//! The error taxonomy of the vault.

use vstd::prelude::*;

verus! {

/// An error that carries nothing but a caller-supplied message.
#[derive(Debug, Clone)]
pub struct CustomError {
    pub message: String,
}

impl CustomError {
    pub fn new(message: &str) -> (e: Self)
        ensures
            e.message@ == message@,
    {
        CustomError { message: message.to_owned() }
    }
}

/// Every failure the vault can report.
///
/// `StorageError` is the catch-all for failures of the underlying storage
/// engine and carries that engine's message; `Custom` carries a message from a
/// collaborator outside the core (for example the password generator).
#[derive(Debug, Clone)]
pub enum CMError {
    /// `create` found a file already present at the requested path.
    AlreadyExists,
    /// The store file, or the requested record, is absent.
    NotFound,
    /// The supplied master password does not decrypt the store.
    AuthenticationFailed,
    /// The record name is already taken within its kind.
    DuplicateName,
    /// The record name is the reserved word for the master password.
    ReservedName,
    /// The requested field is not in the kind's mutable field set.
    InvalidField,
    /// The record name is empty.
    EmptyName,
    /// A batch line's kind discriminator is neither of the two known kinds.
    UnrecognizedKind,
    /// A batch line has the wrong number of comma-separated fields.
    FieldCountMismatch,
    /// The underlying storage engine failed.
    StorageError(String),
    /// Confirmation input did not match the first entry.
    MismatchError,
    /// A failure of a collaborator outside the core, with its message.
    Custom(CustomError),
}

impl From<CustomError> for CMError {
    fn from(value: CustomError) -> (r: Self) {
        CMError::Custom(value)
    }
}

impl vstd::std_specs::convert::FromSpecImpl<CustomError> for CMError {
    open spec fn obeys_from_spec() -> bool {
        true
    }

    open spec fn from_spec(value: CustomError) -> CMError {
        CMError::Custom(value)
    }
}

/// The text that `CMError::message` returns for each variant.
pub open spec fn spec_message(e: CMError) -> Seq<char> {
    match e {
        CMError::AlreadyExists => "a file already exists at that path"@,
        CMError::NotFound => "not found"@,
        CMError::AuthenticationFailed => "could not decrypt the database; check the password"@,
        CMError::DuplicateName => "a secret with that name already exists"@,
        CMError::ReservedName => "the name \"master\" is reserved for the master password"@,
        CMError::InvalidField => "the given field is invalid for this kind of secret"@,
        CMError::EmptyName => "the name cannot be empty"@,
        CMError::UnrecognizedKind => "the first field should be 'login' or 'api'"@,
        CMError::FieldCountMismatch => "wrong number of fields"@,
        CMError::StorageError(s) => s@,
        CMError::MismatchError => "the confirmation input did not match"@,
        CMError::Custom(c) => c.message@,
    }
}

impl CMError {
    /// A short human-readable description of the error.
    pub fn message(&self) -> (r: String)
        ensures
            r@ == spec_message(*self),
    {
        match self {
            CMError::AlreadyExists => "a file already exists at that path".to_owned(),
            CMError::NotFound => "not found".to_owned(),
            CMError::AuthenticationFailed => "could not decrypt the database; check the password".to_owned(),
            CMError::DuplicateName => "a secret with that name already exists".to_owned(),
            CMError::ReservedName => "the name \"master\" is reserved for the master password".to_owned(),
            CMError::InvalidField => "the given field is invalid for this kind of secret".to_owned(),
            CMError::EmptyName => "the name cannot be empty".to_owned(),
            CMError::UnrecognizedKind => "the first field should be 'login' or 'api'".to_owned(),
            CMError::FieldCountMismatch => "wrong number of fields".to_owned(),
            CMError::StorageError(s) => s.clone(),
            CMError::MismatchError => "the confirmation input did not match".to_owned(),
            CMError::Custom(c) => c.message.clone(),
        }
    }
}

} // verus!
