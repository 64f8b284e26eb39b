//! A handle on a private server's API, where most calls need no key.

use vstd::prelude::*;

verus! {

/// Handle on a private server's API, with an optional key.
pub struct Api {
    api_key: String,
}

impl Api {
    /// The API key; empty when none was given.
    pub closed spec fn key(&self) -> Seq<char> {
        self.api_key@
    }

    pub fn new(api_key: String) -> (r: Api)
        ensures
            r.key() == api_key@,
    {
        Api { api_key }
    }
}

impl Default for Api {
    /// A handle without a key.
    fn default() -> (r: Api)
        ensures
            r.key() == Seq::<char>::empty(),
    {
        Api { api_key: String::new() }
    }
}

} // verus!
