//! Accounts and the session carried by a verified bearer token.

use vstd::prelude::*;

verus! {

/// Identifier of an account; distinct from every other entity identifier.
#[derive(Debug, Clone, Copy, PartialEq, Eq, Structural)]
pub struct AccountId(pub u64);

/// An account as handed in by a collaborator or stored by a backend.
///
/// `id` is present once the account is persisted and absent before.
/// `password` holds the plaintext on input to registration and the salted
/// hash at rest; never both in the same value.
#[derive(Debug, PartialEq, Eq)]
pub struct Account {
    pub id: Option<AccountId>,
    pub email: String,
    pub password: String,
}

impl Account {
    /// The assigned identifier of a persisted account, as a number;
    /// zero for an account not yet persisted.
    pub open spec fn id_value(self) -> u64 {
        match self.id {
            Some(a) => a.0,
            None => 0,
        }
    }
}

impl Clone for Account {
    /// A clone carries exactly the fields of the original.
    fn clone(&self) -> (r: Self)
        ensures
            r == *self,
    {
        Account { id: self.id, email: self.email.clone(), password: self.password.clone() }
    }
}

/// The decoded, verified identity and validity window of a bearer token.
///
/// `nbf` and `exp` are seconds since the Unix epoch; the session is valid
/// while the current time lies in `[nbf, exp)`.
#[derive(Debug, Clone, Copy, PartialEq, Eq, Structural)]
pub struct Session {
    pub account_id: AccountId,
    pub nbf: u64,
    pub exp: u64,
}

} // verus!
