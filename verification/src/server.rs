//! Where the server listens.

use vstd::prelude::*;

verus! {

/// The address that the server binds to.
pub enum Address {
    IPv4(String),
    IPv6(String),
}

impl View for Address {
    type V = Seq<char>;

    /// The text of the address, whichever family it belongs to.
    open spec fn view(&self) -> Seq<char> {
        match self {
            Address::IPv4(addr) => addr@,
            Address::IPv6(addr) => addr@,
        }
    }
}

impl Address {
    /// The text of the address.
    pub fn to_string(&self) -> (s: &String)
        ensures
            s@ == self@,
    {
        match self {
            Address::IPv4(addr) => addr,
            Address::IPv6(addr) => addr,
        }
    }
}

} // verus!
