//! The self-describing offset table that a verification step carries, and the
//! two defensive stages that run over it: structural parsing of the fixed
//! header layout, and the locality rules that keep every referenced byte range
//! inside the verification step's own payload.

use vstd::prelude::*;

use crate::bytes::{read_u16_le, u16_le};
use crate::errors::ClaimError;

verus! {

/// Length of the fixed header at the start of a verification step's payload:
/// a two-byte entry count followed by the seven-field offset table.
pub const HEADER_LEN: usize = 16;

/// Length of a serialized public key.
pub const PUBKEY_LEN: usize = 32;

/// Length of a serialized signature.
pub const SIG_LEN: usize = 64;

/// Length of the fixed authorization record: a 32-byte subject identity
/// followed by an 8-byte little-endian amount.
pub const MSG_LEN: usize = 40;

/// Owning-step index meaning "this same step": the largest 16-bit signed
/// value, per the verification primitive's convention. Any other value is a
/// cross-step reference and is rejected.
pub const CURRENT_STEP_SENTINEL: u16 = 0x7fff;

/// The marker byte that says the verification step holds exactly one entry.
pub const SINGLE_ENTRY_MARKER: u8 = 1;

/// The offset table of a verification step, decoded into typed fields. Each
/// byte range is described by an offset (a length is implied by its type,
/// except for the message) and the index of the step that owns the bytes.
#[derive(Clone, Copy, Debug, PartialEq, Eq, Structural)]
pub struct VerificationDescriptor {
    pub signature_offset: u16,
    pub signature_owner: u16,
    pub pubkey_offset: u16,
    pub pubkey_owner: u16,
    pub message_offset: u16,
    pub message_size: u16,
    pub message_owner: u16,
}

/// The descriptor encoded at the fixed positions of `data`: a leading
/// two-byte count is skipped, then seven unsigned 16-bit little-endian
/// fields follow.
pub open spec fn descriptor_of(data: Seq<u8>) -> VerificationDescriptor
    recommends
        data.len() >= HEADER_LEN,
{
    VerificationDescriptor {
        signature_offset: u16_le(data, 2),
        signature_owner: u16_le(data, 4),
        pubkey_offset: u16_le(data, 6),
        pubkey_owner: u16_le(data, 8),
        message_offset: u16_le(data, 10),
        message_size: u16_le(data, 12),
        message_owner: u16_le(data, 14),
    }
}

/// Decodes the offset table from the claim step's own payload, failing when
/// any fixed-position read would run past the end of `data`.
pub fn parse_descriptor(data: &Vec<u8>) -> (r: Result<VerificationDescriptor, ClaimError>)
    ensures
        data@.len() >= HEADER_LEN ==> r == Ok::<VerificationDescriptor, ClaimError>(
            descriptor_of(data@),
        ),
        data@.len() < HEADER_LEN ==> r == Err::<VerificationDescriptor, ClaimError>(
            ClaimError::TruncatedData,
        ),
{
    if data.len() < HEADER_LEN {
        return Err(ClaimError::TruncatedData);
    }
    Ok(
        VerificationDescriptor {
            signature_offset: read_u16_le(data, 2),
            signature_owner: read_u16_le(data, 4),
            pubkey_offset: read_u16_le(data, 6),
            pubkey_owner: read_u16_le(data, 8),
            message_offset: read_u16_le(data, 10),
            message_size: read_u16_le(data, 12),
            message_owner: read_u16_le(data, 14),
        },
    )
}

/// The outcome of the locality rules for descriptor `d` against a
/// verification payload of `payload_len` bytes, checked in this order:
/// every owning-step index must be the "this same step" sentinel, every
/// offset must point strictly past the fixed header, every referenced byte
/// range must end within the payload, and the message must be exactly the
/// fixed authorization-record size.
pub open spec fn locality_check(d: VerificationDescriptor, payload_len: int) -> Result<
    (),
    ClaimError,
> {
    if d.signature_owner != CURRENT_STEP_SENTINEL || d.pubkey_owner != CURRENT_STEP_SENTINEL
        || d.message_owner != CURRENT_STEP_SENTINEL {
        Err(ClaimError::CrossStepReference)
    } else if d.signature_offset < HEADER_LEN || d.pubkey_offset < HEADER_LEN || d.message_offset
        < HEADER_LEN {
        Err(ClaimError::HeaderOverlap)
    } else if payload_len < d.signature_offset + SIG_LEN || payload_len < d.pubkey_offset
        + PUBKEY_LEN || payload_len < d.message_offset + d.message_size {
        Err(ClaimError::OutOfBounds)
    } else if d.message_size != MSG_LEN {
        Err(ClaimError::WrongMessageSize)
    } else {
        Ok(())
    }
}

/// Enforces the locality rules: all three byte ranges must be self-contained
/// within the verification step's own payload and lie strictly after the
/// fixed header. This is the anti-spoofing stage: without it a forged
/// descriptor could point the verifier at bytes of a different step.
pub fn validate_descriptor(d: &VerificationDescriptor, payload_len: usize) -> (r: Result<
    (),
    ClaimError,
>)
    ensures
        r == locality_check(*d, payload_len as int),
{
    if d.signature_owner != CURRENT_STEP_SENTINEL || d.pubkey_owner != CURRENT_STEP_SENTINEL
        || d.message_owner != CURRENT_STEP_SENTINEL {
        return Err(ClaimError::CrossStepReference);
    }
    if (d.signature_offset as usize) < HEADER_LEN || (d.pubkey_offset as usize) < HEADER_LEN
        || (d.message_offset as usize) < HEADER_LEN {
        return Err(ClaimError::HeaderOverlap);
    }
    if payload_len < d.signature_offset as usize + SIG_LEN || payload_len < d.pubkey_offset
        as usize + PUBKEY_LEN || payload_len < d.message_offset as usize + d.message_size
        as usize {
        return Err(ClaimError::OutOfBounds);
    }
    if d.message_size as usize != MSG_LEN {
        return Err(ClaimError::WrongMessageSize);
    }
    Ok(())
}

} // verus!
