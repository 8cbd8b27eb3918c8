//! The account record as the sign-in exchange reads and rewrites it.

use crate::clock::{readable, utc_now, Timestamp};
use vstd::prelude::*;

verus! {

/// The identity record that the store keeps under a username.
///
/// The stored credential is not part of it: the store checks passwords
/// against it and answers yes or no.
#[derive(Debug, PartialEq, Eq)]
pub struct Account {
    /// The key of the record in the store, and the subject of its tokens.
    pub username: String,
    /// The role of the account, as it is written into a token.
    pub role: String,
    /// When the account last signed in, if it ever did.
    pub last_signin_time: Option<Timestamp>,
}

/// An account as a mathematical value.
pub struct AccountView {
    pub username: Seq<char>,
    pub role: Seq<char>,
    pub last_signin_time: Option<Timestamp>,
}

impl View for Account {
    type V = AccountView;

    open spec fn view(&self) -> AccountView {
        AccountView {
            username: self.username@,
            role: self.role@,
            last_signin_time: self.last_signin_time,
        }
    }
}

impl AccountView {
    /// The same account, last signed in at `at`.
    pub open spec fn signed_in_at(self, at: Timestamp) -> AccountView {
        AccountView { last_signin_time: Some(at), ..self }
    }
}

impl Clone for Account {
    fn clone(&self) -> (copy: Account)
        ensures
            copy == *self,
    {
        Account {
            username: self.username.clone(),
            role: self.role.clone(),
            last_signin_time: self.last_signin_time,
        }
    }
}

impl Account {
    /// An account that has never signed in.
    pub fn new(username: String, role: String) -> (account: Account)
        ensures
            account@ == (AccountView { username: username@, role: role@, last_signin_time: None }),
    {
        Account { username, role, last_signin_time: None }
    }

    /// Records `at` as the time of the last sign-in.
    pub fn set_last_signin_time(&mut self, at: Timestamp)
        ensures
            final(self)@ == old(self)@.signed_in_at(at),
    {
        self.last_signin_time = Some(at);
    }

    /// Records the present reading of the clock as the time of the last
    /// sign-in. Name and role stay.
    pub fn update_last_signin_time(&mut self)
        ensures
            exists|at: Timestamp|
                readable(at) && final(self)@ == #[trigger] old(self)@.signed_in_at(at),
    {
        let now = utc_now();
        self.set_last_signin_time(now);
    }
}

} // verus!
