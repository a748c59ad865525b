//! The stateless helper that connects clients to the server.

use vstd::prelude::*;

verus! {

/// Connects clients to a server (the connecting itself is network work).
#[derive(Debug)]
pub struct Fetcher {}

impl Fetcher {
    /// A fetcher.
    pub fn new() -> (f: Self) {
        Fetcher {}
    }
}

impl Default for Fetcher {
    fn default() -> (f: Self) {
        Fetcher {}
    }
}

} // verus!
