//! Decoding of the fixed 40-byte authorization record and of the public key
//! that the verification step recovered. Both live inside the verification
//! step's payload at offsets that the locality rules have already confined.

use vstd::prelude::*;

use crate::bytes::{copy_range, read_u64_le, u64_le};
use crate::descriptor::{MSG_LEN, PUBKEY_LEN};
use crate::errors::ClaimError;

verus! {

/// The decoded authorization record: whom the distributor authorized, and for
/// how much. Exists only transiently during one claim evaluation.
pub struct SignedMessage {
    /// The 32-byte identity of the claimant the message authorizes.
    pub subject: Vec<u8>,
    /// The authorized amount, decoded little-endian.
    pub amount: u64,
}

/// The subject identity stored in the message that starts at `offset`.
pub open spec fn subject_of(payload: Seq<u8>, offset: int) -> Seq<u8>
    recommends
        0 <= offset,
        offset + MSG_LEN <= payload.len(),
{
    payload.subrange(offset, offset + 32)
}

/// The amount stored in the message that starts at `offset`.
pub open spec fn amount_of(payload: Seq<u8>, offset: int) -> u64
    recommends
        0 <= offset,
        offset + MSG_LEN <= payload.len(),
{
    u64_le(payload, offset + 32)
}

/// The public key stored at `offset`.
pub open spec fn pubkey_of(payload: Seq<u8>, offset: int) -> Seq<u8>
    recommends
        0 <= offset,
        offset + PUBKEY_LEN <= payload.len(),
{
    payload.subrange(offset, offset + PUBKEY_LEN)
}

/// Extracts the public key that the verification step recovered.
pub fn read_pubkey(payload: &Vec<u8>, offset: usize) -> (r: Vec<u8>)
    requires
        offset + PUBKEY_LEN <= payload@.len(),
    ensures
        r@ == pubkey_of(payload@, offset as int),
{
    copy_range(payload, offset, PUBKEY_LEN)
}

/// Splits the 40-byte authorization record at `offset` into the subject
/// identity (bytes 0 to 31) and the little-endian amount (bytes 32 to 39).
/// Total on every payload the locality rules admit; there is no further
/// failure mode here.
pub fn decode_message(payload: &Vec<u8>, offset: usize) -> (r: SignedMessage)
    requires
        offset + MSG_LEN <= payload@.len(),
    ensures
        r.subject@ == subject_of(payload@, offset as int),
        r.amount == amount_of(payload@, offset as int),
{
    let n: usize = payload.len();
    assert(offset + MSG_LEN <= n);
    let subject = copy_range(payload, offset, 32);
    let amount = read_u64_le(payload, offset + 32);
    SignedMessage { subject, amount }
}

/// Applies the authorized move to the two balances: a checked debit of the
/// vault and a checked credit of the recipient, or no change at all.
pub fn apply_transfer(vault_balance: &mut u64, recipient_balance: &mut u64, amount: u64) -> (r:
    Result<(), ClaimError>)
    ensures
        *old(vault_balance) < amount ==> r == Err::<(), ClaimError>(ClaimError::InsufficientFunds),
        *old(vault_balance) >= amount && *old(recipient_balance) + amount > u64::MAX
            ==> r == Err::<(), ClaimError>(ClaimError::Overflow),
        r is Ok <==> *old(vault_balance) >= amount && *old(recipient_balance) + amount
            <= u64::MAX,
        r is Ok ==> *final(vault_balance) == *old(vault_balance) - amount
            && *final(recipient_balance) == *old(recipient_balance) + amount,
        r is Err ==> *final(vault_balance) == *old(vault_balance)
            && *final(recipient_balance) == *old(recipient_balance),
        r is Ok ==> *final(vault_balance) + *final(recipient_balance) == *old(vault_balance)
            + *old(recipient_balance),
{
    if *vault_balance < amount {
        return Err(ClaimError::InsufficientFunds);
    }
    let debited = *vault_balance - amount;
    match recipient_balance.checked_add(amount) {
        Some(credited) => {
            *vault_balance = debited;
            *recipient_balance = credited;
            Ok(())
        },
        None => Err(ClaimError::Overflow),
    }
}

} // verus!
