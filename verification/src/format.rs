//! The byte layout of a container, and its mathematical model.
//!
//! The model speaks of byte sequences only: [`container_v1`] is the container
//! that holds a given payload, and [`decoded`] is what a given buffer decodes
//! to. The executable codec is specified against these two.

use crate::error::VtxFormatError;
use vstd::prelude::*;

verus! {

/// The magic prefix that opens every container: the ASCII letters "VTX".
pub const VTX_PREFIX: [u8; 3] = [0x56, 0x54, 0x58];

/// The version byte of the only layout defined so far.
pub const VTX_VERSION_V1: u8 = 0x01;

/// The whole header of a version 1 container: the prefix, then the version.
pub const VTX_MAGIC_V1: [u8; 4] = [0x56, 0x54, 0x58, 0x01];

/// The number of bytes that stand in front of the payload.
pub const HEADER_LEN: usize = 4;

/// The version 1 container that holds `payload`: the header, then the
/// payload unchanged.
pub open spec fn container_v1(payload: Seq<u8>) -> Seq<u8> {
    VTX_MAGIC_V1@ + payload
}

/// Whether `bytes` starts with the magic prefix.
pub open spec fn has_magic_prefix(bytes: Seq<u8>) -> bool {
    VTX_PREFIX@.is_prefix_of(bytes)
}

/// The outcome of decoding in the model: the version byte and the payload as
/// a sequence, or the reason for the rejection.
pub type Decoded = Result<(u8, Seq<u8>), VtxFormatError>;

/// What a buffer decodes to: the version byte and the payload, or the first
/// of the three checks that it fails. The checks are ordered: length, then
/// prefix, then version.
pub open spec fn decoded(bytes: Seq<u8>) -> Decoded {
    if bytes.len() < HEADER_LEN {
        Err(VtxFormatError::TooShort)
    } else if !has_magic_prefix(bytes) {
        Err(VtxFormatError::InvalidPrefix)
    } else if bytes[3] != VTX_VERSION_V1 {
        Err(VtxFormatError::UnsupportedVersion(bytes[3]))
    } else {
        Ok((bytes[3], bytes.skip(HEADER_LEN as int)))
    }
}

/// The model of what the executable decoder returned: the same outcome, with
/// the borrowed payload taken as the sequence of its bytes.
pub open spec fn outcome(res: Result<(u8, &[u8]), VtxFormatError>) -> Decoded {
    match res {
        Ok((version, payload)) => Ok((version, payload@)),
        Err(e) => Err(e),
    }
}

} // verus!
