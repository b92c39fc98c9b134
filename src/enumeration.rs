//! The two-phase enumeration: the host is first asked how many bytes the
//! full answer takes, then handed a zeroed buffer of exactly that size.
use crate::error::PrinterError;
use crate::printer::{ends_with_two_zeros, WindowsPrinter};
use crate::records::{any_malformed, parse_records, parsed, views, Enumeration};
use crate::registry::all_wf;
use vstd::prelude::*;

verus! {

/// How a call into the host's printer registry ended.
#[derive(Clone, Copy, Debug, PartialEq, Eq, Structural)]
pub enum HostReply {
    /// The call succeeded.
    Success,
    /// The buffer handed over was too small: during the size query this is
    /// the expected answer.
    InsufficientBuffer,
    /// The call failed for another reason, with the host's error code.
    Failed { code: u32 },
}

/// What to do after the size query.
pub enum SizeStep {
    /// The answer is complete without a second call.
    Finished(Enumeration),
    /// Call again with a zeroed buffer of `len` bytes.
    FillBuffer { len: usize },
}

impl Enumeration {
    /// No printers, nothing skipped.
    pub fn empty() -> (r: Enumeration)
        ensures
            r.printers@.len() == 0,
            !r.partial,
    {
        Enumeration { printers: Vec::new(), partial: false }
    }
}

/// Decides on the answer to the size query, which reported `needed` bytes.
/// A failure other than the expected one about the buffer's size ends the
/// enumeration; otherwise, where nothing is needed there are no printers and
/// no second call.
pub fn after_size_query(reply: HostReply, needed: u32) -> (r: Result<SizeStep, PrinterError>)
    ensures
        reply matches HostReply::Failed { code } ==> r == Err::<SizeStep, PrinterError>(
            PrinterError::DiscoveryFailure { code },
        ),
        needed == 0 && !(reply is Failed) ==> (r matches Ok(SizeStep::Finished(e))
            && e.printers@.len() == 0 && !e.partial),
        needed != 0 && !(reply is Failed) ==> (r matches Ok(SizeStep::FillBuffer { len }) && len
            == needed),
{
    match reply {
        HostReply::Failed { code } => Err(PrinterError::DiscoveryFailure { code }),
        _ => if needed == 0 {
            Ok(SizeStep::Finished(Enumeration::empty()))
        } else {
            Ok(SizeStep::FillBuffer { len: needed as usize })
        },
    }
}

impl WindowsPrinter {
    /// Finishes an enumeration from the answer to the second call: `buffer`
    /// is what the host filled, `returned` the number of records it reported
    /// and `base` the address of the buffer's first byte. A failure other
    /// than one about the buffer's size ends the enumeration.
    pub fn list_printers(reply: HostReply, buffer: &[u8], returned: u32, base: u64) -> (r: Result<
        Enumeration,
        PrinterError,
    >)
        ensures
            match reply {
                HostReply::Failed { code } => r matches Err(e) && e
                    == PrinterError::DiscoveryFailure { code },
                _ => r matches Ok(e) && views(e.printers@) == parsed(
                    buffer@,
                    base as int,
                    returned as nat,
                ) && e.partial == any_malformed(buffer@, base as int, returned as nat),
            },
            r matches Ok(e) ==> all_wf(e.printers@) && forall|k: int|
                0 <= k < e.printers@.len() ==> ends_with_two_zeros(#[trigger] e.printers@[k]@),
    {
        match reply {
            HostReply::Failed { code } => Err(PrinterError::DiscoveryFailure { code }),
            _ => {
                let e = parse_records(buffer, returned, base);
                proof {
                    assert forall|k: int| 0 <= k < e.printers@.len() implies ends_with_two_zeros(
                        #[trigger] e.printers@[k]@,
                    ) by {
                        e.printers@[k].lemma_wf_raw_name();
                        let p = e.printers@[k]@;
                        let n = p.name_units();
                        assert(p.raw == n + seq![0u16, 0u16]);
                        assert(p.raw[n.len() as int] == 0);
                        assert(p.raw[n.len() + 1int] == 0);
                    }
                }
                Ok(e)
            },
        }
    }
}

} // verus!
