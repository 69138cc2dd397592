//! What can go wrong.

use vstd::prelude::*;

verus! {

/// Why the transport refused or failed a call, as far as the library cares.
#[derive(Clone, Copy, Debug, PartialEq, Eq, Structural)]
pub enum Fault {
    /// The caller lacks the permission.
    Access,
    /// Somebody else holds the resource.
    Busy,
    /// Anything else.
    Other,
}

/// The errors of the library.
#[derive(Clone, Copy, Debug, PartialEq, Eq, Structural)]
pub enum Error {
    /// No device with the keyboard's vendor and product identifiers is there.
    DeviceNotFound,
    /// A kernel driver could not be detached or an interface could not be claimed.
    DeviceAccessDenied,
    /// An interface is held by another process.
    DeviceBusy,
    /// The slot is not one of the five custom slots.
    InvalidSlot,
    /// The transfer at position `index` of its sequence failed in the transport.
    TransferError { index: usize, fault: Fault },
    /// The transfer at position `index` of its sequence moved `moved` bytes
    /// where `expected` were to be moved.
    ShortTransfer { index: usize, expected: usize, moved: usize },
    /// The text names no preset.
    UnknownPresetName,
    /// The text names no color.
    UnknownColorName,
}

} // verus!
