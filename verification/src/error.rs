//! Why a buffer was not accepted as a container.

use vstd::prelude::*;

verus! {

/// The ways in which decoding fails. The set is closed: every rejected
/// buffer falls under exactly one of these.
#[derive(Debug, Clone, Copy, PartialEq, Eq, Structural)]
pub enum VtxFormatError {
    /// The buffer is shorter than the header, so neither the prefix nor the
    /// version could be looked at.
    TooShort,
    /// The buffer is long enough, but does not start with the magic prefix.
    InvalidPrefix,
    /// The prefix is right, but the version byte, carried here, names a
    /// layout that is not implemented.
    UnsupportedVersion(u8),
}

} // verus!
