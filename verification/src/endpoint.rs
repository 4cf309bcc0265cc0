//! Derivation of the two endpoint addresses from the one startup
//! parameter: the game channel and the log channel live on the same
//! host and port and differ only in their path.

use vstd::prelude::*;
use crate::text::{dec_rep, push_dec};

verus! {

/// The address of the game channel for a given port.
pub open spec fn spec_game_url(port: u16) -> Seq<char> {
    "ws://localhost:"@ + dec_rep(port as nat) + "/game"@
}

/// The address of the log channel for a given port.
pub open spec fn spec_log_url(port: u16) -> Seq<char> {
    "ws://localhost:"@ + dec_rep(port as nat) + "/log"@
}

/// Builds the game-channel address for a given port.
pub fn game_url(port: u16) -> (r: String)
    ensures
        r@ == spec_game_url(port),
{
    let mut s = String::from_str("ws://localhost:");
    push_dec(&mut s, port);
    s.append("/game");
    proof {
        assert(s@ =~= spec_game_url(port));
    }
    s
}

/// Builds the log-channel address for a given port.
pub fn log_url(port: u16) -> (r: String)
    ensures
        r@ == spec_log_url(port),
{
    let mut s = String::from_str("ws://localhost:");
    push_dec(&mut s, port);
    s.append("/log");
    proof {
        assert(s@ =~= spec_log_url(port));
    }
    s
}

} // verus!
