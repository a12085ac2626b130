//! The VTX container format.
//!
//! A container is a four-byte header followed by an opaque payload, usually
//! the bytes of a WebAssembly component:
//!
//! | offset | length | content                         |
//! |--------|--------|---------------------------------|
//! | 0      | 3      | magic prefix `56 54 58` ("VTX") |
//! | 3      | 1      | version, `01` for version 1     |
//! | 4      | n      | payload, carried verbatim       |
//!
//! There is no length field, checksum or padding: the payload ends where the
//! buffer ends. [`encode_v1`] wraps a payload, [`decode`] checks the header
//! and hands back the version and the payload. Both are pure functions of
//! their argument; their contracts are stated over the model in [`format`],
//! and [`laws`] proves how the two relate.

pub mod codec;
pub mod error;
pub mod format;
pub mod laws;

pub use codec::{decode, encode_v1};
pub use error::VtxFormatError;
pub use format::{HEADER_LEN, VTX_MAGIC_V1, VTX_PREFIX, VTX_VERSION_V1};
