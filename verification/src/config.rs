//! The account that the session uses.

use vstd::prelude::*;
use crate::user_data::UserData;

verus! {

/// Holds the account of the session.
#[derive(Debug)]
pub struct ConfigService {
    user_data: UserData,
}

impl ConfigService {
    /// The account held.
    pub closed spec fn spec_user_data(&self) -> UserData {
        self.user_data
    }

    /// Holds the account with server `url` and user name `uname`.
    pub fn new(url: &str, uname: &str) -> (c: Self)
        ensures
            c.spec_user_data().spec_server()@ == url@,
            c.spec_user_data().spec_username()@ == uname@,
    {
        ConfigService { user_data: UserData::new(url.to_owned(), uname.to_owned()) }
    }

    /// The account held.
    pub fn user_data(&self) -> (r: &UserData)
        ensures
            *r == self.spec_user_data(),
    {
        &self.user_data
    }
}

} // verus!
