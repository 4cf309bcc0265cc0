//! The one fact the harness needs from its JSON library: whether a
//! text is a single well-formed JSON value. Inbound game-state frames
//! are checked against it before they reach the bot, and outbound
//! action payloads before they are framed.

use vstd::prelude::*;

verus! {

/// Whether a text parses as exactly one well-formed JSON value.
/// The parse is a pure function of the characters, so the predicate
/// is left abstract and pinned to the parser by `json_parses`.
pub uninterp spec fn is_json_value(s: Seq<char>) -> bool;

/// Relies on `serde_json::from_str::<serde_json::Value>`: it returns
/// `Ok` exactly on texts that form one well-formed JSON value, and its
/// verdict depends on the characters of the text alone.
#[verifier::external_body]
pub(crate) fn json_parses(s: &str) -> (r: bool)
    ensures
        r == is_json_value(s@),
{
    serde_json::from_str::<serde_json::Value>(s).is_ok()
}

} // verus!
