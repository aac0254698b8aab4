//! The error kinds that every operation of the core can surface.

use vstd::prelude::*;

verus! {

/// One typed failure for each way a request can be rejected.
#[derive(Debug, Clone, Copy, PartialEq, Eq, Structural)]
pub enum Error {
    /// The requested entity is absent from the store.
    NotFound,
    /// The acting account does not own the resource it tries to mutate.
    Unauthorized,
    /// Token validation failed; deliberately undifferentiated.
    CannotDecryptToken,
    /// A login credential did not match the stored hash.
    WrongPassword,
    /// The credential codec failed internally.
    HashingError,
    /// A backend-specific store failure.
    StoreError,
    /// The email of a new account is already registered.
    DuplicateAccount,
}

impl Error {
    /// The fixed description of each error kind.
    pub open spec fn spec_message(self) -> Seq<char> {
        match self {
            Error::NotFound => "entity not found"@,
            Error::Unauthorized => "not the owner of the resource"@,
            Error::CannotDecryptToken => "cannot decrypt token"@,
            Error::WrongPassword => "wrong password"@,
            Error::HashingError => "password hashing failed"@,
            Error::StoreError => "store failure"@,
            Error::DuplicateAccount => "account already registered"@,
        }
    }

    /// A human-readable description, for the collaborator to serialize.
    pub fn message(&self) -> (r: String)
        ensures
            r@ == self.spec_message(),
    {
        match self {
            Error::NotFound => "entity not found".to_owned(),
            Error::Unauthorized => "not the owner of the resource".to_owned(),
            Error::CannotDecryptToken => "cannot decrypt token".to_owned(),
            Error::WrongPassword => "wrong password".to_owned(),
            Error::HashingError => "password hashing failed".to_owned(),
            Error::StoreError => "store failure".to_owned(),
            Error::DuplicateAccount => "account already registered".to_owned(),
        }
    }
}

} // verus!
