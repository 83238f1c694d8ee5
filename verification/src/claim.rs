//! The claim evaluation itself: given the steps of the enclosing transaction,
//! locate the verification step that ran immediately before the claim step,
//! parse and confine its descriptor, decode the authorization record, match
//! the recovered key and subject, and move the authorized amount between the
//! two balances. Every stage fails closed: on any violation the balances are
//! left untouched and a single terminal error is returned.

use vstd::prelude::*;

use crate::bytes::bytes_eq;
use crate::descriptor::{
    descriptor_of, locality_check, parse_descriptor, validate_descriptor, CURRENT_STEP_SENTINEL,
    HEADER_LEN, MSG_LEN, PUBKEY_LEN, SIG_LEN, SINGLE_ENTRY_MARKER, VerificationDescriptor,
};
use crate::errors::ClaimError;
use crate::message::{
    amount_of, apply_transfer, decode_message, pubkey_of, read_pubkey, subject_of,
};

verus! {

/// One step of the enclosing transaction, as the step accessor reports it:
/// the identifier of the program it targets and its raw instruction payload.
pub struct Step {
    /// The 32-byte identifier of the program this step is addressed to.
    pub program_id: Vec<u8>,
    /// The step's raw instruction payload.
    pub data: Vec<u8>,
}

/// Whether a verification step's payload carries a well-formed fixed header:
/// long enough to hold it, and opening with the single-entry marker.
pub open spec fn header_ok(payload: Seq<u8>) -> bool {
    payload.len() > HEADER_LEN && payload[0] == SINGLE_ENTRY_MARKER
}

/// The amount that the claim's descriptor and the preceding step's payload
/// authorize: the little-endian quantity in the tail of the signed message.
pub open spec fn claimed_amount(steps: Seq<Step>, current_index: int, claim_data: Seq<u8>) -> u64
    recommends
        0 < current_index < steps.len(),
{
    amount_of(
        steps[current_index - 1].data@,
        descriptor_of(claim_data).message_offset as int,
    )
}

/// Whether every check that guards the balance move passes: the claimant
/// signed, a verification step addressed to the trusted verifier immediately
/// precedes the claim step, its header and descriptor are well formed and
/// self-contained, the recovered key is the trusted distributor key, and the
/// signed message names the claimant.
pub open spec fn authorized(
    steps: Seq<Step>,
    current_index: int,
    claim_data: Seq<u8>,
    recipient_key: Seq<u8>,
    recipient_is_signer: bool,
    verifier_id: Seq<u8>,
    trusted_key: Seq<u8>,
) -> bool {
    let prev = steps[current_index - 1].data@;
    let d = descriptor_of(claim_data);
    &&& recipient_is_signer
    &&& 0 < current_index < steps.len()
    &&& steps[current_index - 1].program_id@ == verifier_id
    &&& header_ok(prev)
    &&& claim_data.len() >= HEADER_LEN
    &&& locality_check(d, prev.len() as int) is Ok
    &&& pubkey_of(prev, d.pubkey_offset as int) == trusted_key
    &&& subject_of(prev, d.message_offset as int) == recipient_key
}

/// What a claim evaluation returns for the given transaction view and
/// starting balances: either the pair of balances after the move, or the
/// first error of the fail-fast cascade.
pub open spec fn claim_outcome(
    steps: Seq<Step>,
    current_index: int,
    claim_data: Seq<u8>,
    recipient_key: Seq<u8>,
    recipient_is_signer: bool,
    verifier_id: Seq<u8>,
    trusted_key: Seq<u8>,
    vault_balance: u64,
    recipient_balance: u64,
) -> Result<(u64, u64), ClaimError>
    recommends
        current_index < steps.len(),
{
    if !recipient_is_signer {
        Err(ClaimError::MissingSigner)
    } else if current_index == 0 {
        Err(ClaimError::NotFound)
    } else if steps[current_index - 1].program_id@ != verifier_id {
        Err(ClaimError::WrongVerifier)
    } else if !header_ok(steps[current_index - 1].data@) {
        Err(ClaimError::MalformedHeader)
    } else if claim_data.len() < HEADER_LEN {
        Err(ClaimError::TruncatedData)
    } else {
        let prev = steps[current_index - 1].data@;
        let d = descriptor_of(claim_data);
        match locality_check(d, prev.len() as int) {
            Err(e) => Err(e),
            Ok(_) => {
                if pubkey_of(prev, d.pubkey_offset as int) != trusted_key {
                    Err(ClaimError::UntrustedSigner)
                } else if subject_of(prev, d.message_offset as int) != recipient_key {
                    Err(ClaimError::RecipientMismatch)
                } else {
                    let amount = amount_of(prev, d.message_offset as int);
                    if vault_balance < amount {
                        Err(ClaimError::InsufficientFunds)
                    } else if recipient_balance + amount > u64::MAX {
                        Err(ClaimError::Overflow)
                    } else {
                        Ok(((vault_balance - amount) as u64, (recipient_balance + amount) as u64))
                    }
                }
            },
        }
    }
}

/// Evaluates one claim. `steps` is the transaction as the step accessor
/// reports it, `current_index` the 0-based index of the claim step now
/// executing, and `claim_data` the claim step's own instruction payload,
/// which carries the expected offset table. On success the vault is debited
/// and the recipient credited by exactly the authorized amount; on any error
/// both balances are unchanged.
pub fn claim(
    steps: &Vec<Step>,
    current_index: usize,
    claim_data: &Vec<u8>,
    recipient_key: &Vec<u8>,
    recipient_is_signer: bool,
    verifier_id: &Vec<u8>,
    trusted_key: &Vec<u8>,
    vault_balance: &mut u64,
    recipient_balance: &mut u64,
) -> (r: Result<(), ClaimError>)
    requires
        current_index < steps@.len(),
        recipient_key@.len() == PUBKEY_LEN,
        verifier_id@.len() == PUBKEY_LEN,
        trusted_key@.len() == PUBKEY_LEN,
    ensures
        ({
            let outcome = claim_outcome(
                steps@,
                current_index as int,
                claim_data@,
                recipient_key@,
                recipient_is_signer,
                verifier_id@,
                trusted_key@,
                *old(vault_balance),
                *old(recipient_balance),
            );
            match r {
                Ok(_) => outcome == Ok::<(u64, u64), ClaimError>(
                    (*final(vault_balance), *final(recipient_balance)),
                ),
                Err(e) => outcome == Err::<(u64, u64), ClaimError>(e)
                    && *final(vault_balance) == *old(vault_balance)
                    && *final(recipient_balance) == *old(recipient_balance),
            }
        }),
        r is Ok ==> *final(vault_balance) == *old(vault_balance) - claimed_amount(
            steps@,
            current_index as int,
            claim_data@,
        ) && *final(recipient_balance) == *old(recipient_balance) + claimed_amount(
            steps@,
            current_index as int,
            claim_data@,
        ),
        r is Ok ==> *final(vault_balance) + *final(recipient_balance) == *old(vault_balance)
            + *old(recipient_balance),
{
    if !recipient_is_signer {
        return Err(ClaimError::MissingSigner);
    }
    if current_index == 0 {
        return Err(ClaimError::NotFound);
    }
    let prev: &Step = &steps[current_index - 1];
    if !bytes_eq(&prev.program_id, verifier_id) {
        return Err(ClaimError::WrongVerifier);
    }
    if prev.data.len() <= HEADER_LEN || prev.data[0] != SINGLE_ENTRY_MARKER {
        return Err(ClaimError::MalformedHeader);
    }
    let d: VerificationDescriptor = match parse_descriptor(claim_data) {
        Ok(d) => d,
        Err(e) => { return Err(e); },
    };
    match validate_descriptor(&d, prev.data.len()) {
        Ok(_) => {},
        Err(e) => { return Err(e); },
    }
    let recovered_key = read_pubkey(&prev.data, d.pubkey_offset as usize);
    if !bytes_eq(&recovered_key, trusted_key) {
        return Err(ClaimError::UntrustedSigner);
    }
    let message = decode_message(&prev.data, d.message_offset as usize);
    if !bytes_eq(&message.subject, recipient_key) {
        return Err(ClaimError::RecipientMismatch);
    }
    apply_transfer(vault_balance, recipient_balance, message.amount)
}

/// A successful claim moves exactly the authorized amount: the vault loses
/// it, the recipient gains it, and the total held by the two accounts is
/// conserved.
pub proof fn lemma_valid_claim_moves_exact_amount(
    steps: Seq<Step>,
    current_index: int,
    claim_data: Seq<u8>,
    recipient_key: Seq<u8>,
    recipient_is_signer: bool,
    verifier_id: Seq<u8>,
    trusted_key: Seq<u8>,
    vault_balance: u64,
    recipient_balance: u64,
)
    requires
        current_index < steps.len(),
        claim_outcome(
            steps,
            current_index,
            claim_data,
            recipient_key,
            recipient_is_signer,
            verifier_id,
            trusted_key,
            vault_balance,
            recipient_balance,
        ) is Ok,
    ensures
        ({
            let amount = claimed_amount(steps, current_index, claim_data);
            &&& amount <= vault_balance
            &&& recipient_balance + amount <= u64::MAX
            &&& claim_outcome(
                steps,
                current_index,
                claim_data,
                recipient_key,
                recipient_is_signer,
                verifier_id,
                trusted_key,
                vault_balance,
                recipient_balance,
            ) == Ok::<(u64, u64), ClaimError>(
                ((vault_balance - amount) as u64, (recipient_balance + amount) as u64),
            )
            &&& (vault_balance - amount) + (recipient_balance + amount) == vault_balance
                + recipient_balance
        }),
{
}

/// A claim is accepted only when every authorization check passed: there is
/// no input on which the balances move without the claimant having signed,
/// the trusted verifier step preceding, the descriptor being self-contained,
/// and the message naming both the trusted distributor and the claimant.
pub proof fn lemma_success_requires_authorization(
    steps: Seq<Step>,
    current_index: int,
    claim_data: Seq<u8>,
    recipient_key: Seq<u8>,
    recipient_is_signer: bool,
    verifier_id: Seq<u8>,
    trusted_key: Seq<u8>,
    vault_balance: u64,
    recipient_balance: u64,
)
    requires
        0 <= current_index < steps.len(),
        claim_outcome(
            steps,
            current_index,
            claim_data,
            recipient_key,
            recipient_is_signer,
            verifier_id,
            trusted_key,
            vault_balance,
            recipient_balance,
        ) is Ok,
    ensures
        authorized(
            steps,
            current_index,
            claim_data,
            recipient_key,
            recipient_is_signer,
            verifier_id,
            trusted_key,
        ),
{
}

/// A claim whose preceding step is not addressed to the trusted verifier is
/// rejected as `WrongVerifier`, whatever that step's payload holds.
pub proof fn lemma_wrong_verifier_rejected(
    steps: Seq<Step>,
    current_index: int,
    claim_data: Seq<u8>,
    recipient_key: Seq<u8>,
    verifier_id: Seq<u8>,
    trusted_key: Seq<u8>,
    vault_balance: u64,
    recipient_balance: u64,
)
    requires
        0 < current_index < steps.len(),
        steps[current_index - 1].program_id@ != verifier_id,
    ensures
        claim_outcome(
            steps,
            current_index,
            claim_data,
            recipient_key,
            true,
            verifier_id,
            trusted_key,
            vault_balance,
            recipient_balance,
        ) == Err::<(u64, u64), ClaimError>(ClaimError::WrongVerifier),
{
}

/// A descriptor whose owning-step index differs from the "this same step"
/// sentinel in any of its three fields is rejected as `CrossStepReference`.
/// Nothing here constrains the payload of any other step, so the rejection
/// holds even when the referenced foreign step carries bytes that would
/// decode into a perfectly valid-looking message: offset-splicing cannot
/// reach them.
pub proof fn lemma_cross_step_reference_rejected(
    steps: Seq<Step>,
    current_index: int,
    claim_data: Seq<u8>,
    recipient_key: Seq<u8>,
    verifier_id: Seq<u8>,
    trusted_key: Seq<u8>,
    vault_balance: u64,
    recipient_balance: u64,
)
    requires
        0 < current_index < steps.len(),
        steps[current_index - 1].program_id@ == verifier_id,
        header_ok(steps[current_index - 1].data@),
        claim_data.len() >= HEADER_LEN,
        descriptor_of(claim_data).signature_owner != CURRENT_STEP_SENTINEL || descriptor_of(
            claim_data,
        ).pubkey_owner != CURRENT_STEP_SENTINEL || descriptor_of(claim_data).message_owner
            != CURRENT_STEP_SENTINEL,
    ensures
        claim_outcome(
            steps,
            current_index,
            claim_data,
            recipient_key,
            true,
            verifier_id,
            trusted_key,
            vault_balance,
            recipient_balance,
        ) == Err::<(u64, u64), ClaimError>(ClaimError::CrossStepReference),
{
}

/// A descriptor whose message is not exactly the fixed authorization-record
/// size is rejected as `WrongMessageSize`, once the stages before it (owner
/// sentinels, header clearance, payload bounds) pass.
pub proof fn lemma_wrong_message_size_rejected(
    steps: Seq<Step>,
    current_index: int,
    claim_data: Seq<u8>,
    recipient_key: Seq<u8>,
    verifier_id: Seq<u8>,
    trusted_key: Seq<u8>,
    vault_balance: u64,
    recipient_balance: u64,
)
    requires
        0 < current_index < steps.len(),
        steps[current_index - 1].program_id@ == verifier_id,
        header_ok(steps[current_index - 1].data@),
        claim_data.len() >= HEADER_LEN,
        ({
            let d = descriptor_of(claim_data);
            let payload_len = steps[current_index - 1].data@.len() as int;
            &&& d.signature_owner == CURRENT_STEP_SENTINEL
            &&& d.pubkey_owner == CURRENT_STEP_SENTINEL
            &&& d.message_owner == CURRENT_STEP_SENTINEL
            &&& d.signature_offset >= HEADER_LEN
            &&& d.pubkey_offset >= HEADER_LEN
            &&& d.message_offset >= HEADER_LEN
            &&& payload_len >= d.signature_offset + SIG_LEN
            &&& payload_len >= d.pubkey_offset + PUBKEY_LEN
            &&& payload_len >= d.message_offset + d.message_size
            &&& d.message_size != MSG_LEN
        }),
    ensures
        claim_outcome(
            steps,
            current_index,
            claim_data,
            recipient_key,
            true,
            verifier_id,
            trusted_key,
            vault_balance,
            recipient_balance,
        ) == Err::<(u64, u64), ClaimError>(ClaimError::WrongMessageSize),
{
}

/// A fully authorized claim for exactly the vault's whole balance succeeds
/// and leaves the vault empty.
pub proof fn lemma_exact_balance_claim_empties_vault(
    steps: Seq<Step>,
    current_index: int,
    claim_data: Seq<u8>,
    recipient_key: Seq<u8>,
    verifier_id: Seq<u8>,
    trusted_key: Seq<u8>,
    vault_balance: u64,
    recipient_balance: u64,
)
    requires
        current_index < steps.len(),
        authorized(
            steps,
            current_index,
            claim_data,
            recipient_key,
            true,
            verifier_id,
            trusted_key,
        ),
        claimed_amount(steps, current_index, claim_data) == vault_balance,
        recipient_balance + vault_balance <= u64::MAX,
    ensures
        claim_outcome(
            steps,
            current_index,
            claim_data,
            recipient_key,
            true,
            verifier_id,
            trusted_key,
            vault_balance,
            recipient_balance,
        ) == Ok::<(u64, u64), ClaimError>(
            (0u64, (recipient_balance + vault_balance) as u64),
        ),
{
}

/// Replaying a claim cannot double-credit once the vault no longer covers the
/// authorized amount: evaluated a second time on the balances a successful
/// claim left behind, the identical claim is rejected as `InsufficientFunds`
/// whenever less than the amount remains. (That any replay of the whole
/// transaction fails is the host's transaction-uniqueness guarantee, which
/// lies outside this model.)
pub proof fn lemma_replayed_claim_cannot_double_credit(
    steps: Seq<Step>,
    current_index: int,
    claim_data: Seq<u8>,
    recipient_key: Seq<u8>,
    verifier_id: Seq<u8>,
    trusted_key: Seq<u8>,
    vault_balance: u64,
    recipient_balance: u64,
)
    requires
        current_index < steps.len(),
        claim_outcome(
            steps,
            current_index,
            claim_data,
            recipient_key,
            true,
            verifier_id,
            trusted_key,
            vault_balance,
            recipient_balance,
        ) is Ok,
        2 * claimed_amount(steps, current_index, claim_data) > vault_balance,
    ensures
        ({
            let amount = claimed_amount(steps, current_index, claim_data);
            claim_outcome(
                steps,
                current_index,
                claim_data,
                recipient_key,
                true,
                verifier_id,
                trusted_key,
                (vault_balance - amount) as u64,
                (recipient_balance + amount) as u64,
            ) == Err::<(u64, u64), ClaimError>(ClaimError::InsufficientFunds)
        }),
{
}

/// A fully authorized claim for more than the vault holds — one unit more is
/// enough — is rejected as `InsufficientFunds`.
pub proof fn lemma_excess_claim_rejected(
    steps: Seq<Step>,
    current_index: int,
    claim_data: Seq<u8>,
    recipient_key: Seq<u8>,
    verifier_id: Seq<u8>,
    trusted_key: Seq<u8>,
    vault_balance: u64,
    recipient_balance: u64,
)
    requires
        current_index < steps.len(),
        authorized(
            steps,
            current_index,
            claim_data,
            recipient_key,
            true,
            verifier_id,
            trusted_key,
        ),
        claimed_amount(steps, current_index, claim_data) > vault_balance,
    ensures
        claim_outcome(
            steps,
            current_index,
            claim_data,
            recipient_key,
            true,
            verifier_id,
            trusted_key,
            vault_balance,
            recipient_balance,
        ) == Err::<(u64, u64), ClaimError>(ClaimError::InsufficientFunds),
{
}

} // verus!
