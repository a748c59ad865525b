//! The keyring entry that holds the password of the account.

use vstd::prelude::*;
use crate::text::push_str;

verus! {

/// A credential of the platform's keyring (`keyring::Entry`); only carried here.
#[verifier::external_type_specification]
#[verifier::external_body]
pub struct ExEntry(keyring::Entry);

/// An error of the keyring (`keyring::Error`); only carried here.
#[verifier::external_type_specification]
#[verifier::external_body]
pub struct ExKeyringError(keyring::Error);

/// Calls `keyring::Entry::new(service, user)`, which creates the entry for
/// that service and user, and keeps the entry with a record of the two
/// names. What is claimed: an entry that comes back is the one for
/// `service` and `user`. Whether one comes back is not claimed: that
/// depends on the credential store set for the process, not on the
/// arguments alone.
#[verifier::external_body]
fn entry_new(service: &str, user: &str) -> (r: Result<KeyringService, keyring::Error>)
    ensures
        r matches Ok(k) ==> k.spec_service() == service@ && k.spec_user() == user@,
{
    match keyring::Entry::new(service, user) {
        Ok(entry) => Ok(KeyringService { entry, service: Ghost(service@), user: Ghost(user@) }),
        Err(e) => Err(e),
    }
}

/// The keyring could not create the entry.
#[derive(Debug)]
pub struct KeyringError {
    pub source: keyring::Error,
}

/// The service name under which the password of `uname` on `server` is
/// kept: `org.tubgerm.{uname}@{server}`.
pub open spec fn spec_service_name(server: Seq<char>, uname: Seq<char>) -> Seq<char> {
    "org.tubgerm."@ + uname + "@"@ + server
}

/// The service name under which the password of `uname` on `server` is kept.
pub fn service_name(server: &str, uname: &str) -> (r: String)
    ensures
        r@ == spec_service_name(server@, uname@),
{
    let mut r = String::new();
    push_str(&mut r, "org.tubgerm.");
    push_str(&mut r, uname);
    push_str(&mut r, "@");
    push_str(&mut r, server);
    r
}

/// The keyring entry of an account, with the service and user it was
/// created for.
pub struct KeyringService {
    entry: keyring::Entry,
    service: Ghost<Seq<char>>,
    user: Ghost<Seq<char>>,
}

impl KeyringService {
    /// The service name the entry was created for.
    pub closed spec fn spec_service(&self) -> Seq<char> {
        self.service@
    }

    /// The user the entry was created for.
    pub closed spec fn spec_user(&self) -> Seq<char> {
        self.user@
    }

    /// The outcome of creating a keyring entry: the service, or the
    /// keyring's error wrapped in the library's own.
    pub fn from_entry(created: Result<KeyringService, keyring::Error>) -> (r: Result<Self, KeyringError>)
        ensures
            match created {
                Ok(k) => r == Ok::<KeyringService, KeyringError>(k),
                Err(source) => r matches Err(e) && e.source == source,
            },
    {
        match created {
            Ok(k) => Ok(k),
            Err(source) => Err(KeyringError { source }),
        }
    }

    /// Opens the entry for user `uname` under the service name of the
    /// account on `service` (see [`service_name`]). Whether the keyring
    /// creates it is up to the keyring; an entry that comes back is the one
    /// for that service name and user.
    pub fn new(service: &str, uname: &str) -> (r: Result<Self, KeyringError>)
        ensures
            r matches Ok(k) ==> k.spec_service() == spec_service_name(service@, uname@) && k.spec_user() == uname@,
    {
        let serv = service_name(service, uname);
        Self::from_entry(entry_new(serv.as_str(), uname))
    }

    /// The keyring entry.
    pub closed spec fn spec_entry(&self) -> keyring::Entry {
        self.entry
    }

    /// The keyring entry.
    pub fn entry(&self) -> (r: &keyring::Entry)
        ensures
            *r == self.spec_entry(),
    {
        &self.entry
    }
}

} // verus!
