//! Result codes of the library.
//!
//! Every fallible operation returns one of these value-based errors;
//! the protocol layer converts them into the small fixed vocabulary of
//! driver-facing status codes that games expect.

use vstd::prelude::*;

verus! {

/// Errors of the virtual-figurine store and the control plane.
#[derive(Clone, Copy, PartialEq, Eq, Structural, Debug)]
pub enum EmuError {
    /// The presence flag file is missing: the directory is not a figurine.
    VirtualAmiiboFlagNotFound,
    /// The primary record is missing from the figurine directory.
    VirtualAmiiboJsonNotFound,
    /// A record could not be serialized.
    InvalidJsonSerialization,
    /// A record could not be deserialized.
    InvalidJsonDeserialization,
    /// The loaded figurine is not valid (its path is empty).
    InvalidLoadedVirtualAmiibo,
    /// The area directory record is missing from the figurine directory.
    VirtualAmiiboAreasJsonNotFound,
    /// No figurine is currently active.
    InvalidActiveVirtualAmiibo,
    /// The requested area data-id is not registered on the figurine.
    InvalidVirtualAmiiboAccessId,
}

/// Errors of the binary dump codec.
#[derive(Clone, Copy, PartialEq, Eq, Structural, Debug)]
pub enum CodecError {
    /// The input buffer is shorter than a whole dump.
    TruncatedDump,
    /// The decrypted display name holds invalid character data.
    InvalidNameEncoding,
    /// A size is outside the range an operation accepts.
    InvalidSize,
}

/// Driver-facing status codes of the emulation protocol.
///
/// Every state violation surfaces as `DeviceNotFound`; the create/open
/// ordering conflict on application areas has its own code.
#[derive(Clone, Copy, PartialEq, Eq, Structural, Debug)]
pub enum NfpError {
    DeviceNotFound,
    AreaNeedsToBeCreated,
}

} // verus!
