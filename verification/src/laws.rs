//! How encoding and decoding relate, proved over the model of
//! [`crate::format`].
//!
//! [`crate::codec::encode_v1`] returns `container_v1` of its argument and
//! [`crate::codec::decode`] returns `decoded` of its argument, so each law
//! below holds of the executable functions as well.

use crate::error::VtxFormatError;
use crate::format::{
    container_v1, decoded, has_magic_prefix, Decoded, HEADER_LEN, VTX_MAGIC_V1, VTX_PREFIX,
    VTX_VERSION_V1,
};
use vstd::prelude::*;

verus! {

/// The header is the magic prefix followed by the version byte, and nothing
/// else.
pub proof fn lemma_header_layout()
    ensures
        VTX_MAGIC_V1@ == VTX_PREFIX@.push(VTX_VERSION_V1),
        VTX_MAGIC_V1@.len() == HEADER_LEN,
{
}

/// A container is as long as the header and its payload together, starts with
/// the header, and carries the payload unchanged behind it.
pub proof fn lemma_container_shape(payload: Seq<u8>)
    ensures
        container_v1(payload).len() == HEADER_LEN + payload.len(),
        container_v1(payload).take(HEADER_LEN as int) == VTX_MAGIC_V1@,
        container_v1(payload).skip(HEADER_LEN as int) == payload,
{
}

/// Decoding undoes encoding: the container of any payload, the empty one
/// included, decodes to version 1 and that same payload, byte for byte.
pub proof fn lemma_decode_encode_round_trip(payload: Seq<u8>)
    ensures
        decoded(container_v1(payload)) == Decoded::Ok((VTX_VERSION_V1, payload)),
{
    lemma_container_shape(payload);
}

/// A buffer decodes to a version and a payload exactly when the version is 1
/// and the buffer is the container of that payload. So nothing but what
/// encoding produces is accepted, and two payloads never share a container.
pub proof fn lemma_accepted_iff_container(bytes: Seq<u8>, version: u8, payload: Seq<u8>)
    ensures
        decoded(bytes) == Decoded::Ok((version, payload)) <==> version == VTX_VERSION_V1 && bytes
            == container_v1(payload),
{
    if version == VTX_VERSION_V1 && bytes == container_v1(payload) {
        lemma_decode_encode_round_trip(payload);
    }
    if decoded(bytes) == Decoded::Ok((version, payload)) {
        assert(bytes =~= container_v1(payload));
    }
}

/// The length check comes first: a buffer is rejected as too short exactly
/// when it has fewer bytes than the header, which covers the lengths 0, 1, 2
/// and 3, whatever the bytes are.
pub proof fn lemma_too_short_iff(bytes: Seq<u8>)
    ensures
        decoded(bytes) == Decoded::Err(VtxFormatError::TooShort) <==> bytes.len() < HEADER_LEN,
{
}

/// The prefix check comes second: a buffer is rejected for its prefix exactly
/// when it holds a whole header's worth of bytes and its first three are not
/// the magic prefix. The version byte and the payload play no part.
pub proof fn lemma_invalid_prefix_iff(bytes: Seq<u8>)
    ensures
        decoded(bytes) == Decoded::Err(VtxFormatError::InvalidPrefix) <==> bytes.len()
            >= HEADER_LEN && bytes.subrange(0, 3) != VTX_PREFIX@,
{
    assert(has_magic_prefix(bytes) <==> bytes.len() >= 3 && bytes.subrange(0, 3) == VTX_PREFIX@);
}

/// The version check comes last: a buffer is rejected for version `v` exactly
/// when it is long enough, starts with the magic prefix, and its version byte
/// is `v` and not 1. No payload comes back in that case.
pub proof fn lemma_unsupported_version_iff(bytes: Seq<u8>, v: u8)
    ensures
        decoded(bytes) == Decoded::Err(VtxFormatError::UnsupportedVersion(v)) <==> bytes.len()
            >= HEADER_LEN && has_magic_prefix(bytes) && bytes[3] == v && v != VTX_VERSION_V1,
{
}

} // verus!
