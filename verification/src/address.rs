//! Addresses that a host name resolves to.

use vstd::prelude::*;

verus! {

/// An address of one of the two families, held in its textual form.
#[derive(Debug, Clone, PartialEq, Eq)]
pub enum IpAddress {
    V4(String),
    V6(String),
}

impl IpAddress {
    /// The textual form of the address.
    pub open spec fn text(&self) -> Seq<char> {
        match self {
            IpAddress::V4(text) => text@,
            IpAddress::V6(text) => text@,
        }
    }

    /// The textual form of the address.
    pub fn as_text(&self) -> (text: &str)
        ensures
            text@ == self.text(),
    {
        match self {
            IpAddress::V4(text) => text.as_str(),
            IpAddress::V6(text) => text.as_str(),
        }
    }

    /// Tells whether the address is of the older family.
    pub fn is_ipv4(&self) -> (yes: bool)
        ensures
            yes == (self is V4),
    {
        match self {
            IpAddress::V4(_) => true,
            IpAddress::V6(_) => false,
        }
    }
}

} // verus!
