//! Network addresses, and the address that a `Forwarded` header carries.
//!
//! The header has the form `<proto> <ip>`: a protocol tag, one space, and the client's
//! network address. The tag is only skipped; the address is what sessions are bound to.

use sqlx::types::ipnetwork::IpNetwork;
use vstd::prelude::*;
use vstd::utf8::is_ascii_chars;
use crate::error::{AuthError, ValidationError};

verus! {

/// The two address families.
#[derive(Clone, Copy, Debug, PartialEq, Eq, Structural)]
pub enum AddressFamily {
    V4,
    V6,
}

/// A network address with its subnet: what a session is bound to.
#[derive(Clone, Copy, Debug, PartialEq, Eq, Structural)]
pub struct NetworkAddress {
    /// The family of the address.
    pub family: AddressFamily,
    /// The address as a number, most significant byte first.
    pub bits: u128,
    /// The number of leading bits that name the network.
    pub prefix: u8,
}

impl NetworkAddress {
    /// An address of family V4 fits in 32 bits, and no prefix is longer than the address.
    pub open spec fn wf(self) -> bool {
        match self.family {
            AddressFamily::V4 => self.bits <= 0xffff_ffff && self.prefix <= 32,
            AddressFamily::V6 => self.prefix <= 128,
        }
    }

    /// Whether the value is one that a parsed address can have.
    pub fn is_wf(&self) -> (ok: bool)
        ensures
            ok == self.wf(),
    {
        match self.family {
            AddressFamily::V4 => self.bits <= 0xffff_ffff && self.prefix <= 32,
            AddressFamily::V6 => self.prefix <= 128,
        }
    }
}

/// The number of characters of `text` that stand before its first space: the length of the
/// whole text where it holds no space.
pub open spec fn proto_len(text: Seq<char>) -> nat
    decreases text.len(),
{
    if text.len() == 0 || text[0] == ' ' {
        0
    } else {
        1 + proto_len(text.drop_first())
    }
}

/// The address portion of a `Forwarded` header: what follows the first space, where the
/// header is ASCII, the protocol tag before that space is not empty, and neither is the rest.
pub open spec fn address_part(header: Seq<char>) -> Option<Seq<char>> {
    let at = proto_len(header) as int;
    if is_ascii_chars(header) && 0 < at && at + 1 < header.len() {
        Some(header.subrange(at + 1, header.len() as int))
    } else {
        None
    }
}

/// `proto_len` is the position of the first space: nothing before it is a space, and it is
/// either the end of the text or a space itself. No other position has both properties.
pub proof fn lemma_proto_len(text: Seq<char>, at: int)
    ensures
        proto_len(text) <= text.len(),
        forall|i: int| 0 <= i < proto_len(text) ==> text[i] != ' ',
        proto_len(text) < text.len() ==> text[proto_len(text) as int] == ' ',
        0 <= at <= text.len() && (forall|i: int| 0 <= i < at ==> text[i] != ' ') && (at
            < text.len() ==> text[at] == ' ') ==> proto_len(text) == at,
    decreases text.len(),
{
    if text.len() == 0 || text[0] == ' ' {
    } else {
        let rest = text.drop_first();
        lemma_proto_len(rest, at - 1);
        assert forall|i: int| 0 <= i < proto_len(text) implies text[i] != ' ' by {
            if i > 0 {
                assert(text[i] == rest[i - 1]);
            }
        }
        if 0 <= at <= text.len() && (forall|i: int| 0 <= i < at ==> text[i] != ' ') && (at
            < text.len() ==> text[at] == ' ') {
            assert(at > 0);
            assert forall|i: int| 0 <= i < at - 1 implies rest[i] != ' ' by {
                assert(rest[i] == text[i + 1]);
            }
        }
    }
}

/// Splits a `Forwarded` header and returns its address portion, or nothing where the header
/// is not of the form `<proto> <ip>`.
pub fn forwarded_address(header: &str) -> (part: Option<&str>)
    ensures
        match part {
            Some(address) => address_part(header@) == Some(address@),
            None => address_part(header@) is None,
        },
{
    if !header.is_ascii() {
        return None;
    }
    let length: usize = header.unicode_len();
    let mut at: usize = 0;
    while at < length && header.get_ascii(at) != 32
        invariant
            at <= length,
            length == header@.len(),
            is_ascii_chars(header@),
            forall|i: int| 0 <= i < at ==> header@[i] != ' ',
        decreases length - at,
    {
        at += 1;
    }
    proof {
        lemma_proto_len(header@, at as int);
    }
    if at == 0 || length - at < 2 {
        return None;
    }
    Some(header.substring_ascii(at + 1, length))
}

/// What `IpNetwork::from_str` of the crate `ipnetwork` makes of a text: the address, or
/// nothing where it returns an error.
pub uninterp spec fn parsed_network(text: Seq<char>) -> Option<NetworkAddress>;

/// Calls `IpNetwork::from_str` and hands out the address and prefix of the network it
/// returns. The result is named, not described; all that is claimed beside the name is that
/// a V4 address fits in 32 bits and that the prefix is within the family's width, which both
/// constructors of the outside crate check.
#[verifier::external_body]
fn parse_network(text: &str) -> (parsed: Option<NetworkAddress>)
    ensures
        parsed == parsed_network(text@),
        parsed matches Some(address) ==> address.wf(),
{
    let (family, bits, prefix) = match text.parse::<IpNetwork>() {
        Ok(IpNetwork::V4(net)) => (AddressFamily::V4, u128::from(u32::from(net.ip())), net.prefix()),
        Ok(IpNetwork::V6(net)) => (AddressFamily::V6, u128::from(net.ip()), net.prefix()),
        Err(_) => return None,
    };
    Some(NetworkAddress { family, bits, prefix })
}

/// The client address that a parsed address portion stands for: the address itself, or the
/// validation error where the portion named none.
pub open spec fn spec_bound_address(parsed: Option<NetworkAddress>) -> Result<
    NetworkAddress,
    AuthError,
> {
    match parsed {
        Some(address) => Ok(address),
        None => Err(AuthError::Validation(ValidationError::MalformedAddress)),
    }
}

/// The client address of a request, from its `Forwarded` header as the transport saw it.
pub open spec fn spec_client_address(forwarded: Option<Seq<char>>) -> Result<
    NetworkAddress,
    AuthError,
> {
    match forwarded {
        None => Err(AuthError::Validation(ValidationError::MissingForwarded)),
        Some(header) => match address_part(header) {
            None => Err(AuthError::Validation(ValidationError::MalformedForwarded)),
            Some(part) => spec_bound_address(parsed_network(part)),
        },
    }
}

/// Turns the outcome of parsing an address portion into the client address or the
/// validation error.
pub fn bound_address(parsed: Option<NetworkAddress>) -> (client: Result<NetworkAddress, AuthError>)
    ensures
        client == spec_bound_address(parsed),
{
    match parsed {
        Some(address) => Ok(address),
        None => Err(AuthError::Validation(ValidationError::MalformedAddress)),
    }
}

/// Parses a network address in CIDR notation, as `203.0.113.5/32` or `2001:db8::/96`; a
/// bare address stands for the host's own network.
pub fn parse_address(text: &str) -> (parsed: Option<NetworkAddress>)
    ensures
        parsed == parsed_network(text@),
        parsed matches Some(address) ==> address.wf(),
{
    parse_network(text)
}

/// Extracts the client address from the `Forwarded` header of a request. A request without
/// the header, with one not of the form `<proto> <ip>`, or with an address portion that
/// names no network address is a validation error.
pub fn client_address(forwarded: Option<&str>) -> (client: Result<NetworkAddress, AuthError>)
    ensures
        client == spec_client_address(
            match forwarded {
                Some(header) => Some(header@),
                None => None,
            },
        ),
        client matches Ok(address) ==> address.wf(),
{
    match forwarded {
        None => Err(AuthError::Validation(ValidationError::MissingForwarded)),
        Some(header) => match forwarded_address(header) {
            None => Err(AuthError::Validation(ValidationError::MalformedForwarded)),
            Some(part) => bound_address(parse_network(part)),
        },
    }
}

} // verus!
