use vstd::prelude::*;
use vstd::string::*;

verus! {

// The entry configuration: one optional address string. Empty means the
// console; anything else is an address to bind and serve on, one session per
// connection. The listening and accepting itself is I/O and lives with the
// runner; the decision which mode holds is made here.

pub struct Game {
    address: String,
}

impl Game {
    pub closed spec fn spec_address(&self) -> Seq<char> {
        self.address@
    }

    pub fn new(address: &str) -> (r: Game)
        ensures
            r.spec_address() == address@,
    {
        Game { address: address.to_owned() }
    }

    /// The configured address, empty in console mode.
    pub fn address(&self) -> (r: &str)
        ensures
            r@ == self.spec_address(),
    {
        self.address.as_str()
    }

    /// Network mode holds exactly when an address was given.
    pub fn is_network(&self) -> (r: bool)
        ensures
            r == (self.spec_address().len() != 0),
    {
        !self.address.as_str().is_empty()
    }
}

} // verus!
