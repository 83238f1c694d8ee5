//! The authorization-request side: decoding a request payload into its three
//! fixed-width parts and building the companion verification step's
//! instruction data from them. Building is delegated to the verification
//! primitive's own instruction constructor; submitting the step is the
//! caller's job.

use vstd::prelude::*;

use crate::bytes::copy_range;
use crate::descriptor::{MSG_LEN, PUBKEY_LEN, SIG_LEN};
use crate::errors::ClaimError;
use crate::states::DataLen;

verus! {

/// Serialized length of an authorization request: a 40-byte message, a
/// 32-byte public key and a 64-byte signature, in that order.
pub const CALL_DATA_LEN: usize = 136;

/// An authorization request: the signed message, the key that signed it and
/// the signature, exactly as a verification step needs them.
pub struct Ed25519CallData {
    /// The fixed 40-byte authorization record that was signed.
    pub message: Vec<u8>,
    /// The 32-byte public key the signature is checked against.
    pub pubkey: Vec<u8>,
    /// The 64-byte signature over the message.
    pub signature: Vec<u8>,
}

impl DataLen for Ed25519CallData {
    const LEN: usize = 136;
}

impl Ed25519CallData {
    /// Whether the three parts have their fixed serialized widths.
    pub open spec fn well_formed(&self) -> bool {
        self.message@.len() == MSG_LEN && self.pubkey@.len() == PUBKEY_LEN && self.signature@.len()
            == SIG_LEN
    }

    /// Decodes a request payload, which must be exactly the serialized
    /// length: message, then public key, then signature.
    pub fn load(data: &Vec<u8>) -> (r: Result<Ed25519CallData, ClaimError>)
        ensures
            data@.len() == CALL_DATA_LEN ==> (r matches Ok(c) && c.well_formed() && c.message@
                == data@.subrange(0, 40) && c.pubkey@ == data@.subrange(40, 72) && c.signature@
                == data@.subrange(72, 136)),
            data@.len() != CALL_DATA_LEN ==> r == Err::<Ed25519CallData, ClaimError>(
                ClaimError::TruncatedData,
            ),
    {
        if data.len() != CALL_DATA_LEN {
            return Err(ClaimError::TruncatedData);
        }
        Ok(
            Ed25519CallData {
                message: copy_range(data, 0, 40),
                pubkey: copy_range(data, 40, 32),
                signature: copy_range(data, 72, 64),
            },
        )
    }
}

/// The instruction data the verification primitive's constructor produces for
/// one entry: a count byte and a padding byte, the offset table (signature at
/// 48, public key at 16, message at 112, every owning-step index left at the
/// primitive's "unset" filler of 0xffff), then the key, the signature and the
/// message themselves.
pub open spec fn ed25519_ix_data(message: Seq<u8>, pubkey: Seq<u8>, signature: Seq<u8>) -> Seq<u8>
    recommends
        message.len() < 0x10000,
{
    seq![
        1u8,
        0u8,
        48u8,
        0u8,
        0xffu8,
        0xffu8,
        16u8,
        0u8,
        0xffu8,
        0xffu8,
        112u8,
        0u8,
        (message.len() % 0x100) as u8,
        (message.len() / 0x100) as u8,
        0xffu8,
        0xffu8,
    ] + pubkey + signature + message
}

/// Relies on solana_ed25519_program::new_ed25519_instruction_with_signature:
/// for one entry it lays out a two-byte header, the seven-field offset table
/// (offsets 48, 16 and 112, instruction indexes 0xffff, the message length
/// little-endian), then the key, the signature and the message. The offset
/// table is serialized in the machine's native little-endian byte order.
#[verifier::external_body]
fn build_verification_data(message: &Vec<u8>, pubkey: &Vec<u8>, signature: &Vec<u8>) -> (r: Vec<
    u8,
>)
    requires
        message@.len() == MSG_LEN,
        pubkey@.len() == PUBKEY_LEN,
        signature@.len() == SIG_LEN,
    ensures
        r@ == ed25519_ix_data(message@, pubkey@, signature@),
{
    let ix = solana_ed25519_program::new_ed25519_instruction_with_signature(
        message.as_slice(),
        signature.as_slice().try_into().unwrap(),
        pubkey.as_slice().try_into().unwrap(),
    );
    ix.data
}

/// Handles one authorization request: decodes the request payload and builds
/// the verification step's instruction data with the required self-contained
/// layout. The caller submits the returned data to the verification program;
/// nothing is authorized here.
pub fn ed25519_call(data: &Vec<u8>) -> (r: Result<Vec<u8>, ClaimError>)
    ensures
        data@.len() == CALL_DATA_LEN ==> (r matches Ok(v) && v@ == ed25519_ix_data(
            data@.subrange(0, 40),
            data@.subrange(40, 72),
            data@.subrange(72, 136),
        )),
        data@.len() != CALL_DATA_LEN ==> r == Err::<Vec<u8>, ClaimError>(ClaimError::TruncatedData),
{
    let call = Ed25519CallData::load(data)?;
    Ok(build_verification_data(&call.message, &call.pubkey, &call.signature))
}

} // verus!
