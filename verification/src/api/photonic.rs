//! Harmonic verification of an action score.

use vstd::prelude::*;

verus! {

/// Whether an action score verifies: it leaves 33 modulo 66, or exceeds 88.
pub open spec fn spec_harmonic(action_score: u64) -> bool {
    action_score % 66 == 33 || action_score > 88
}

/// The message that goes with a verdict.
pub open spec fn spec_proof_message(verified: bool) -> Seq<char> {
    if verified {
        "Michael blue flame verification successful"@
    } else {
        "Verification failed - insufficient harmonic resonance"@
    }
}

/// Verifies an action score and words the verdict.
pub fn michael_proof(action_score: u64) -> (verdict: (bool, String))
    ensures
        verdict.0 == spec_harmonic(action_score),
        verdict.1@ == spec_proof_message(verdict.0),
{
    let verified = (action_score % 66 == 33) || (action_score > 88);
    let message = if verified {
        "Michael blue flame verification successful".to_owned()
    } else {
        "Verification failed - insufficient harmonic resonance".to_owned()
    };
    (verified, message)
}

} // verus!
