//! Discovery of printers registered with the host's print spooler, and the
//! choice of the channel that carries a document to one of them.
mod enumeration;
mod error;
mod layout;
mod printer;
mod records;
mod registry;
mod transport;

pub use enumeration::{after_size_query, HostReply, SizeStep};
pub use error::{OpenFailureReason, PrinterError};
pub use layout::{
    le16, le32, le64, read_u16_le, read_u32_le, read_u64_le, ATTRIBUTES_OFFSET,
    NAME_POINTER_OFFSET, RECORD_SIZE, STATUS_OFFSET,
};
pub use printer::{
    ends_with_two_zeros, no_null_char, no_zero_unit, terminated, utf16_lossy, PrinterView,
    WindowsPrinter,
};
pub use records::{
    any_malformed, lemma_parsed_names, lemma_readiness_per_record, name_at, parse_record,
    parse_records, parsed, record_at, scan_name, terminated_at, units_at, views, Enumeration,
};
pub use registry::{all_wf, first_named, name_matches, none_named};
pub use transport::{
    direct_open_reply, spooler_open_reply, write_outcome, OpenReply, TransportTarget,
    INVALID_PRINTER_NAME,
};
