//! What the state of a unit, as the service manager reports it, says of the
//! health of the unit.
use crate::tag::{bytes_equal, lemma_text_equal_iff_bytes_equal};
use vstd::prelude::*;
use vstd::string::*;

verus! {

/// What is told of a unit whose active state is `state` and not `active`.
pub open spec fn invalid_state_message(state: Seq<char>) -> Seq<char> {
    "Invalid state: "@ + state
}

/// Tells whether a unit with the active state `state` is healthy: it is
/// exactly if the state is `active`. Every other state is handed back in the
/// message of the error.
pub fn health_of_active_state(state: &str) -> (health: Result<(), String>)
    ensures
        health is Ok <==> state@ == "active"@,
        health matches Err(message) ==> message@ == invalid_state_message(state@),
{
    proof {
        lemma_text_equal_iff_bytes_equal(state@, "active"@);
    }
    if bytes_equal(state.as_bytes(), "active".as_bytes()) {
        Ok(())
    } else {
        Err("Invalid state: ".to_owned().concat(state))
    }
}

} // verus!
