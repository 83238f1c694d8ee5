//! The numeric operation selector that callers put in front of a payload.
//! Routing the selected operation to its handler is the caller's job; this
//! module only fixes the mapping from selector byte to operation.

use vstd::prelude::*;

verus! {

/// The two operations this library exposes: submitting an authorization
/// request, and claiming the authorized amount.
#[derive(Clone, Copy, Debug, PartialEq, Eq, Structural)]
pub enum ProgramInstruction {
    ClaimTokens,
    ED25519Call,
}

impl ProgramInstruction {
    /// Decodes a selector byte: 0 selects the authorization request, 1 the
    /// claim, and every other value selects nothing.
    pub fn try_from(value: &u8) -> (r: Option<ProgramInstruction>)
        ensures
            *value == 0 ==> r == Some(ProgramInstruction::ED25519Call),
            *value == 1 ==> r == Some(ProgramInstruction::ClaimTokens),
            *value > 1 ==> r is None,
    {
        match *value {
            0 => Some(ProgramInstruction::ED25519Call),
            1 => Some(ProgramInstruction::ClaimTokens),
            _ => None,
        }
    }
}

} // verus!
