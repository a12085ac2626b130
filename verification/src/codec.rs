//! The executable codec.

use crate::error::VtxFormatError;
use crate::format::{
    container_v1, decoded, outcome, Decoded, HEADER_LEN, VTX_MAGIC_V1, VTX_PREFIX, VTX_VERSION_V1,
};
use crate::laws::lemma_decode_encode_round_trip;
use vstd::prelude::*;
use vstd::slice::slice_subrange;

verus! {

/// Wraps `component_bytes` into a version 1 container: a new buffer that
/// holds the header and then a copy of the payload. Every payload is
/// accepted, the empty one too, and what comes out decodes back to it.
pub fn encode_v1(component_bytes: &[u8]) -> (out: Vec<u8>)
    ensures
        out@ == container_v1(component_bytes@),
        out@.len() == HEADER_LEN + component_bytes@.len(),
        decoded(out@) == Decoded::Ok((VTX_VERSION_V1, component_bytes@)),
{
    // Reserve the whole container at once. A slice that exists in memory is
    // short enough for the sum to fit; where the type alone does not show it,
    // the buffer grows on demand.
    let mut out: Vec<u8> = match VTX_MAGIC_V1.len().checked_add(component_bytes.len()) {
        Some(capacity) => Vec::with_capacity(capacity),
        None => Vec::new(),
    };
    out.extend_from_slice(&VTX_MAGIC_V1);
    out.extend_from_slice(component_bytes);
    proof {
        assert(out@ =~= container_v1(component_bytes@));
        lemma_decode_encode_round_trip(component_bytes@);
    }
    out
}

/// Checks the header of `bytes` and returns the version byte together with
/// the payload, which is the rest of `bytes` behind the header, borrowed and
/// not copied.
///
/// The checks run in order and the first that fails decides the error: a
/// buffer shorter than the header is `TooShort`; one that does not start with
/// the magic prefix is `InvalidPrefix`, whatever follows; one whose version
/// byte is not `VTX_VERSION_V1` is `UnsupportedVersion` with that byte.
pub fn decode(bytes: &[u8]) -> (res: Result<(u8, &[u8]), VtxFormatError>)
    ensures
        outcome(res) == decoded(bytes@),
{
    if bytes.len() < HEADER_LEN {
        return Err(VtxFormatError::TooShort);
    }
    if bytes[0] != VTX_PREFIX[0] || bytes[1] != VTX_PREFIX[1] || bytes[2] != VTX_PREFIX[2] {
        return Err(VtxFormatError::InvalidPrefix);
    }
    let version: u8 = bytes[3];
    if version == VTX_VERSION_V1 {
        Ok((version, slice_subrange(bytes, HEADER_LEN, bytes.len())))
    } else {
        Err(VtxFormatError::UnsupportedVersion(version))
    }
}

} // verus!
