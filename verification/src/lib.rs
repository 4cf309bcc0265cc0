//! A client-side bot harness: the protocol core of a single-connection,
//! single-bot game client that talks to a server over two text-frame
//! channels, one for game traffic and one for diagnostic logging.
//!
//! This crate holds the verified logic: the wire codec for outbound
//! client messages, the validation of inbound game-state frames, the
//! derivation of the two endpoint addresses from the shared port, and
//! the bootstrap/turn-loop state machine that decides, step by step,
//! what the transport driver must do next. The driver itself (sockets,
//! argument parsing, the embedding bot) lives outside the crate and
//! feeds events back into the machine.

use vstd::prelude::*;

pub mod endpoint;
pub mod errors;
pub mod json;
pub mod protocol;
mod text;
pub mod trace;
pub mod wire;

verus! {

/// Startup parameters: the single required setting, the server port
/// shared by the game endpoint and the log endpoint.
pub struct Args {
    /// The port to connect to.
    pub port: u16,
}

} // verus!
