use vstd::prelude::*;
use crate::address::{multiaddr_encoding, starts_at_root, parse_address, Address, AddressError};

verus! {

/// What the host asks of a node.
#[derive(Debug)]
pub enum NetworkCommand {
    /// Start an outbound connection attempt to an address.
    Dial(Address),
}

impl NetworkCommand {
    /// The address a dial command targets.
    pub open spec fn target(&self) -> Seq<u8> {
        match self {
            NetworkCommand::Dial(a) => a@,
        }
    }
}

/// Why a dial request was refused on the spot.
#[derive(Debug, Clone, Copy, PartialEq, Eq, Structural)]
pub enum DialError {
    /// The address text does not parse.
    InvalidAddress,
}

impl DialError {
    pub fn from_address_error(e: AddressError) -> (r: DialError)
        ensures
            r == DialError::InvalidAddress,
    {
        match e {
            AddressError::Malformed => DialError::InvalidAddress,
        }
    }
}

/// Builds the dial command for the text form of an address. A text that does
/// not parse is refused at once, before anything is queued.
pub fn dial_command(text: &str) -> (r: Result<NetworkCommand, DialError>)
    ensures
        (r is Err) == (multiaddr_encoding(text@) is None),
        r is Err ==> r == Err::<NetworkCommand, DialError>(DialError::InvalidAddress),
        r is Ok ==> multiaddr_encoding(text@) == Some(r.unwrap().target()),
        !starts_at_root(text@) ==> r is Err,
{
    match parse_address(text) {
        Ok(a) => Ok(NetworkCommand::Dial(a)),
        Err(e) => Err(DialError::from_address_error(e)),
    }
}

} // verus!
