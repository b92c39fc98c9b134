//! The channel that carries a document to a printer, chosen at run time:
//! the spooler queue of a registered printer, or a device addressed directly
//! on the USB bus.
use crate::error::{OpenFailureReason, PrinterError};
use crate::printer::WindowsPrinter;
use vstd::prelude::*;

verus! {

/// Where a document goes.
#[derive(Debug)]
pub enum TransportTarget {
    /// The spooler queue named by a descriptor's raw name.
    Spooler { raw_name: Vec<u16> },
    /// A device on the USB bus, with an optional output endpoint.
    Direct { vendor_id: u16, product_id: u16, endpoint: Option<u8> },
}

/// How the host answered a request to open a channel.
#[derive(Clone, Copy, Debug, PartialEq, Eq, Structural)]
pub enum OpenReply {
    /// The channel is open.
    Opened,
    /// The host knows no such queue or device.
    Absent,
    /// The device is there but could not be taken.
    Unavailable,
}

impl TransportTarget {
    /// The spooler queue of `printer`. Its readiness is not consulted: the
    /// spooler takes jobs for queues whose printer is offline.
    pub fn spooler(printer: &WindowsPrinter) -> (r: TransportTarget)
        ensures
            r matches TransportTarget::Spooler { raw_name } && raw_name@ == printer@.raw,
    {
        TransportTarget::Spooler { raw_name: printer.get_raw_vec().clone() }
    }

    /// A device on the USB bus.
    pub fn direct(vendor_id: u16, product_id: u16, endpoint: Option<u8>) -> (r: TransportTarget)
        ensures
            r == (TransportTarget::Direct { vendor_id, product_id, endpoint }),
    {
        TransportTarget::Direct { vendor_id, product_id, endpoint }
    }

    /// The outcome of opening this target, given the host's answer: a missing
    /// queue or device is told apart from one that is there but not ready.
    pub fn open_outcome(&self, reply: OpenReply) -> (r: Result<(), PrinterError>)
        ensures
            reply == OpenReply::Opened ==> r is Ok,
            reply == OpenReply::Absent ==> r == Err::<(), PrinterError>(
                PrinterError::TransportOpenFailure { reason: OpenFailureReason::NotPresent },
            ),
            reply == OpenReply::Unavailable ==> r == Err::<(), PrinterError>(
                PrinterError::TransportOpenFailure { reason: OpenFailureReason::NotReady },
            ),
    {
        match reply {
            OpenReply::Opened => Ok(()),
            OpenReply::Absent => Err(
                PrinterError::TransportOpenFailure { reason: OpenFailureReason::NotPresent },
            ),
            OpenReply::Unavailable => Err(
                PrinterError::TransportOpenFailure { reason: OpenFailureReason::NotReady },
            ),
        }
    }
}

/// The host's error code (as an HRESULT) for a printer name that names no
/// queue.
pub const INVALID_PRINTER_NAME: u32 = 0x8007_0709;

/// Reads the answer to a request to open a spooler queue: no failure means
/// the queue is open, an unknown printer name means it is absent, and any
/// other failure (access denied, spooler stopped) means it is there but
/// could not be taken.
pub fn spooler_open_reply(failure: Option<u32>) -> (r: OpenReply)
    ensures
        r == match failure {
            None => OpenReply::Opened,
            Some(code) => if code == INVALID_PRINTER_NAME {
                OpenReply::Absent
            } else {
                OpenReply::Unavailable
            },
        },
{
    match failure {
        None => OpenReply::Opened,
        Some(code) => if code == INVALID_PRINTER_NAME {
            OpenReply::Absent
        } else {
            OpenReply::Unavailable
        },
    }
}

/// The outcome of handing `requested` bytes to an open channel, which
/// reported whether it took them and how many went out: anything short of
/// all of them is a write failure that carries the confirmed count.
pub fn write_outcome(requested: usize, accepted: bool, written: u32) -> (r: Result<(), PrinterError>)
    ensures
        r is Ok <==> (accepted && written as int == requested as int),
        r is Err ==> r == Err::<(), PrinterError>(
            PrinterError::TransportWriteFailure { confirmed: Some(written as usize) },
        ),
{
    if accepted && written as u64 == requested as u64 {
        Ok(())
    } else {
        Err(PrinterError::TransportWriteFailure { confirmed: Some(written as usize) })
    }
}

/// Reads the USB driver's failure message: "USB device not found", with
/// which it reports that no device on the bus has the requested vendor and
/// product, means the device is absent; any other means it is there but
/// could not be opened.
pub fn direct_open_reply(message: &str) -> (r: OpenReply)
    ensures
        r == (if message@ == "USB device not found"@ {
            OpenReply::Absent
        } else {
            OpenReply::Unavailable
        }),
{
    let got = message.to_owned();
    let absent = "USB device not found".to_owned();
    if got == absent {
        OpenReply::Absent
    } else {
        OpenReply::Unavailable
    }
}

} // verus!
