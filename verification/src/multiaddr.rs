//! Network addresses in multiaddr notation, parsed by tentacle's multiaddr implementation.
use std::str::FromStr;

use tentacle_multiaddr::MultiAddr;
use vstd::prelude::*;

use crate::status::NetStatus;

verus! {

/// What tentacle's `MultiAddr::from_str` makes of `text`, rendered back with the address's
/// `Display`: its canonical text, or `None` where the text is not a multiaddr.
pub uninterp spec fn multiaddr_text(text: Seq<char>) -> Option<Seq<char>>;

/// Parses `text` with `tentacle_multiaddr::MultiAddr::from_str` and renders the result with
/// `Display` (`to_string`). The contract claims that the outcome is `multiaddr_text` of the
/// text; from the source of `from_str`, that a text which does not start with `/` is refused;
/// and, from the source of `from_str` and of `Display`, that the rendered text parses back to
/// the same address (each protocol prints in the form its parser reads), so that it renders
/// alike.
#[verifier::external_body]
pub(crate) fn canonical_multiaddr(text: &str) -> (r: Option<String>)
    ensures
        match r {
            Some(s) => multiaddr_text(text@) == Some(s@),
            None => multiaddr_text(text@) is None,
        },
        text@.len() == 0 || text@[0] != '/' ==> r is None,
        r matches Some(s) ==> multiaddr_text(s@) == Some(s@),
{
    match MultiAddr::from_str(text) {
        Ok(addr) => Some(addr.to_string()),
        Err(_) => None,
    }
}

/// The address of a node to dial, given as a multiaddr text: its canonical text, which parses
/// back to itself, or `MultiAddrParseError` where it is not a multiaddr.
pub fn node_address(text: &str) -> (r: Result<String, NetStatus>)
    ensures
        match multiaddr_text(text@) {
            Some(t) => r matches Ok(s) && s@ == t,
            None => r == Err::<String, NetStatus>(NetStatus::MultiAddrParseError),
        },
        r matches Ok(s) ==> multiaddr_text(s@) == Some(s@),
{
    match canonical_multiaddr(text) {
        Some(s) => Ok(s),
        None => Err(NetStatus::MultiAddrParseError),
    }
}

} // verus!
