//! The error taxonomy of the harness. Every one of these conditions is
//! fatal: the driver terminates the process with a diagnostic, there is
//! no retry, no backoff and no reconnection.

use vstd::prelude::*;

verus! {

/// The ways a run of the harness can fail. Each variant is fatal.
#[derive(Clone, Copy, Debug, PartialEq, Eq, Structural)]
pub enum ProtocolError {
    /// The initial handshake failed on either channel.
    Connection,
    /// A write failed on an established channel.
    Transmission,
    /// A read failed on an established channel.
    Reception,
    /// An outbound message could not be put on the wire; this marks a
    /// programming defect (a non-representable payload), not a
    /// transient condition.
    Serialization,
    /// An inbound frame did not conform to the expected schema.
    Deserialization,
}

impl ProtocolError {
    /// A human-readable diagnostic line for the failure, the one thing
    /// the operator sees before the process exits.
    pub fn describe(&self) -> (r: &'static str)
        ensures
            r@ == self.spec_describe(),
    {
        match self {
            ProtocolError::Connection => "Can't connect to the game server",
            ProtocolError::Transmission => "Error writing message",
            ProtocolError::Reception => "Error reading message",
            ProtocolError::Serialization => "Error converting message to string",
            ProtocolError::Deserialization => "Error parsing message",
        }
    }

    /// The diagnostic text of each failure.
    pub open spec fn spec_describe(&self) -> Seq<char> {
        match self {
            ProtocolError::Connection => "Can't connect to the game server"@,
            ProtocolError::Transmission => "Error writing message"@,
            ProtocolError::Reception => "Error reading message"@,
            ProtocolError::Serialization => "Error converting message to string"@,
            ProtocolError::Deserialization => "Error parsing message"@,
        }
    }
}

} // verus!
