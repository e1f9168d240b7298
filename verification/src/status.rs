//! The outcomes that the service reports to its gRPC callers.
use vstd::prelude::*;

verus! {

/// The status code the service answers a request with.
#[derive(Clone, Copy, Debug, PartialEq, Eq, Structural)]
pub enum NetStatus {
    /// The request was carried out.
    Success,
    /// The message could not be encoded.
    EncodeError,
    /// The message could not be sent to its session.
    SendMsgError,
    /// The message could not be broadcast.
    BroadcastMsgError,
    /// An address is not a valid multiaddr.
    MultiAddrParseError,
    /// The node could not be dialed.
    DialNodeFail,
}

/// An operation the network carries out for a gRPC caller.
#[derive(Clone, Copy, Debug, PartialEq, Eq, Structural)]
pub enum Transfer {
    /// Sending a message to one session.
    SendToSession,
    /// Sending a message to every session.
    Broadcast,
    /// Dialing a node.
    Dial,
}

/// The status a caller is answered with once the network has carried out `kind`, or failed to.
pub open spec fn transfer_outcome(kind: Transfer, succeeded: bool) -> NetStatus {
    if succeeded {
        NetStatus::Success
    } else {
        match kind {
            Transfer::SendToSession => NetStatus::SendMsgError,
            Transfer::Broadcast => NetStatus::BroadcastMsgError,
            Transfer::Dial => NetStatus::DialNodeFail,
        }
    }
}

/// A caller hears `Success` exactly when the network carried out the operation, and a failure
/// names the operation that failed: failures of different operations are answered differently,
/// and none of them with a parse or encode error.
pub proof fn law_failure_names_the_operation(kind: Transfer, other: Transfer, succeeded: bool)
    ensures
        (transfer_outcome(kind, succeeded) == NetStatus::Success) == succeeded,
        kind != other ==> transfer_outcome(kind, false) != transfer_outcome(other, false),
        transfer_outcome(kind, succeeded) != NetStatus::EncodeError,
        transfer_outcome(kind, succeeded) != NetStatus::MultiAddrParseError,
{
}

/// The status a caller is answered with once the network has carried out `kind`, or failed to.
pub fn transfer_status(kind: Transfer, succeeded: bool) -> (r: NetStatus)
    ensures
        r == transfer_outcome(kind, succeeded),
{
    if succeeded {
        NetStatus::Success
    } else {
        match kind {
            Transfer::SendToSession => NetStatus::SendMsgError,
            Transfer::Broadcast => NetStatus::BroadcastMsgError,
            Transfer::Dial => NetStatus::DialNodeFail,
        }
    }
}

} // verus!
