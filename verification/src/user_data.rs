//! The account of the user: server address and user name.

use vstd::prelude::*;

verus! {

/// Server address and user name of an account.
#[derive(Debug)]
pub struct UserData {
    server: String,
    username: String,
}

impl UserData {
    /// The server address.
    pub closed spec fn spec_server(&self) -> String {
        self.server
    }

    /// The user name.
    pub closed spec fn spec_username(&self) -> String {
        self.username
    }

    /// The account with this server and user name.
    pub fn new(server: String, uname: String) -> (u: Self)
        ensures
            u.spec_server() == server,
            u.spec_username() == uname,
    {
        UserData { server, username: uname }
    }

    /// The server address.
    pub fn server(&self) -> (r: &String)
        ensures
            *r == self.spec_server(),
    {
        &self.server
    }

    /// The user name.
    pub fn username(&self) -> (r: &String)
        ensures
            *r == self.spec_username(),
    {
        &self.username
    }
}

} // verus!
