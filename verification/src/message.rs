//! Network messages: what a node's module sends to, or receives from, another node.
use vstd::prelude::*;

verus! {

/// A message exchanged between the nodes' modules: the module it is for, its type, the session
/// it came from (or is sent to) and its body.
pub struct NetworkMessage {
    /// The module that handles the message.
    pub module: String,
    /// The kind of message, as the module names it.
    pub msg_type: String,
    /// The session the message came from, or is to be sent to.
    pub origin: u64,
    /// The message's body.
    pub msg: Vec<u8>,
}

/// The fields of a message as plain values: module, type, origin, body.
pub type MessageFields = (Seq<char>, Seq<char>, u64, Seq<u8>);

impl View for NetworkMessage {
    type V = MessageFields;

    open spec fn view(&self) -> MessageFields {
        (self.module@, self.msg_type@, self.origin, self.msg@)
    }
}

/// The message that came in on session `session_id`: what was decoded from the payload, stamped
/// with that session as its origin; `None` where the payload did not decode.
pub fn receive_message(session_id: usize, decoded: Option<NetworkMessage>) -> (r: Option<
    NetworkMessage,
>)
    ensures
        match decoded {
            Some(m) => r matches Some(n) && n@ == (m@.0, m@.1, session_id as u64, m@.3),
            None => r is None,
        },
{
    match decoded {
        Some(mut m) => {
            m.origin = session_id as u64;
            Some(m)
        },
        None => None,
    }
}

} // verus!
