use vstd::prelude::*;

verus! {

/// Every way a claim evaluation can fail. Each variant is produced by exactly
/// one check, and any failure aborts the whole operation with no balance
/// change.
#[derive(Clone, Copy, Debug, PartialEq, Eq)]
pub enum ClaimError {
    /// The claimant did not sign the enclosing transaction.
    MissingSigner,
    /// The claim step is the first step: no verification step precedes it.
    NotFound,
    /// The preceding step was not addressed to the trusted verifier program.
    WrongVerifier,
    /// The verification step's payload is too short for its fixed header, or
    /// its leading entry-count byte is not the single-entry marker.
    MalformedHeader,
    /// The claim step's own payload is too short to hold the offset table.
    TruncatedData,
    /// An owning-step index in the descriptor points at some other step.
    CrossStepReference,
    /// A descriptor offset points into the fixed header instead of past it.
    HeaderOverlap,
    /// A descriptor byte range runs past the end of the verification payload.
    OutOfBounds,
    /// The signed message is not exactly the fixed authorization-record size.
    WrongMessageSize,
    /// The recovered public key is not the trusted distributor key.
    UntrustedSigner,
    /// The identity inside the signed message is not the invoking claimant.
    RecipientMismatch,
    /// The vault holds less than the authorized amount.
    InsufficientFunds,
    /// Crediting the recipient would exceed the representable balance.
    Overflow,
}

} // verus!
