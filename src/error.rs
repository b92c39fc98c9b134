//! What can go wrong while finding a printer and opening a channel to it.
use vstd::prelude::*;

verus! {

/// Why a channel to a device could not be opened.
#[derive(Clone, Copy, Debug, PartialEq, Eq, Structural)]
pub enum OpenFailureReason {
    /// The device is there but cannot take work now; trying later may help.
    NotReady,
    /// No such device is known to the host.
    NotPresent,
}

/// The failures of discovery, lookup and transport.
#[derive(Clone, Copy, Debug, PartialEq, Eq, Structural)]
pub enum PrinterError {
    /// The host's printer registry could not be queried; `code` is the
    /// host's error code.
    DiscoveryFailure { code: u32 },
    /// No printer of the requested name is registered.
    NotFound,
    /// The selected device could not be opened.
    TransportOpenFailure { reason: OpenFailureReason },
    /// A write to an open channel failed; `confirmed` is the number of bytes
    /// known to have gone out, where that is known.
    TransportWriteFailure { confirmed: Option<usize> },
}

} // verus!
