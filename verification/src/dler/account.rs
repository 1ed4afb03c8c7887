//! The credentials of the account that a run reports on.

use vstd::prelude::*;

verus! {

/// The credentials of one account: who logs in, and with what secret.
///
/// The fields are private and nothing changes them, so a value stays what
/// [`Account::new`] made it.
#[derive(Debug, PartialEq, Eq)]
pub struct Account {
    email: String,
    password: String,
}

/// An [`Account`] as two sequences of characters.
pub struct AccountView {
    pub email: Seq<char>,
    pub password: Seq<char>,
}

impl View for Account {
    type V = AccountView;

    open spec fn view(&self) -> AccountView {
        AccountView { email: self.email()@, password: self.password()@ }
    }
}

impl Account {
    /// The identifier that is kept.
    pub closed spec fn spec_email(&self) -> &String {
        &self.email
    }

    /// The secret that is kept.
    pub closed spec fn spec_password(&self) -> &String {
        &self.password
    }

    /// Holds the two strings as they are given.
    pub fn new(email: String, password: String) -> (account: Account)
        ensures
            *account.email() == email,
            *account.password() == password,
            account@ == (AccountView { email: email@, password: password@ }),
    {
        Account { email, password }
    }

    /// The identifier that the account logs in with.
    #[verifier::when_used_as_spec(spec_email)]
    pub fn email(&self) -> (email: &String)
        ensures
            email == self.email(),
    {
        &self.email
    }

    /// The secret that the account logs in with.
    #[verifier::when_used_as_spec(spec_password)]
    pub fn password(&self) -> (password: &String)
        ensures
            password == self.password(),
    {
        &self.password
    }
}

} // verus!
