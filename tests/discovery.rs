use printer_discovery::{
    after_size_query, direct_open_reply, name_matches, spooler_open_reply, INVALID_PRINTER_NAME, parse_record, parse_records, read_u16_le, read_u32_le,
    read_u64_le, scan_name, Enumeration, HostReply, OpenFailureReason, OpenReply, PrinterError,
    SizeStep, TransportTarget, write_outcome, WindowsPrinter, ATTRIBUTES_OFFSET, NAME_POINTER_OFFSET,
    RECORD_SIZE, STATUS_OFFSET,
};

const BASE: u64 = 0x7ff0_1234_0000;

fn utf16(s: &str) -> Vec<u16> {
    s.encode_utf16().collect()
}

fn put_u32(buf: &mut [u8], off: usize, v: u32) {
    buf[off..off + 4].copy_from_slice(&v.to_le_bytes());
}

fn put_u64(buf: &mut [u8], off: usize, v: u64) {
    buf[off..off + 8].copy_from_slice(&v.to_le_bytes());
}

/// A buffer laid out as the host fills it: the records first, then the
/// null-terminated names they point at.
fn host_buffer(entries: &[(&str, u32, u32)]) -> Vec<u8> {
    let mut buf = vec![0u8; entries.len() * RECORD_SIZE];
    for (i, (name, status, attributes)) in entries.iter().enumerate() {
        let off = i * RECORD_SIZE;
        let at = buf.len() as u64;
        put_u64(&mut buf, off + NAME_POINTER_OFFSET, BASE + at);
        put_u32(&mut buf, off + STATUS_OFFSET, *status);
        put_u32(&mut buf, off + ATTRIBUTES_OFFSET, *attributes);
        for u in utf16(name) {
            buf.extend_from_slice(&u.to_le_bytes());
        }
        buf.extend_from_slice(&[0, 0]);
    }
    buf
}

fn enumerate(entries: &[(&str, u32, u32)]) -> Enumeration {
    let buf = host_buffer(entries);
    WindowsPrinter::list_printers(HostReply::Success, &buf, entries.len() as u32, BASE).unwrap()
}

#[test]
fn reads_little_endian_fields() {
    let b = [0x01u8, 0x02, 0x03, 0x04, 0x05, 0x06, 0x07, 0x08, 0x09];
    assert_eq!(read_u16_le(&b, 0), 0x0201);
    assert_eq!(read_u32_le(&b, 1), 0x0504_0302);
    assert_eq!(read_u64_le(&b, 1), 0x0908_0706_0504_0302);
    assert_eq!(read_u32_le(&[0xff, 0xff, 0xff, 0xff], 0), u32::MAX);
}

#[test]
fn scans_terminated_names() {
    let b = [0x41u8, 0x00, 0x42, 0x00, 0x00, 0x00, 0x43, 0x00];
    assert_eq!(scan_name(&b, 0), Some(vec![0x41, 0x42]));
    assert_eq!(scan_name(&b, 4), Some(vec![]));
    assert_eq!(scan_name(&b, 6), None);
    assert_eq!(scan_name(&b, 8), None);
    assert_eq!(scan_name(&b, 100), None);
}

#[test]
fn raw_names_end_with_two_zeros_and_names_hold_no_null() {
    let mut e = enumerate(&[("XP-80C", 0, 0), ("Office-LaserA", 0x80, 0x400)]);
    assert!(!e.partial);
    assert_eq!(e.printers.len(), 2);
    for p in e.printers.iter_mut() {
        let raw = p.get_raw_vec().clone();
        assert!(raw.len() > 2);
        assert_eq!(&raw[raw.len() - 2..], &[0, 0]);
        assert!(!p.get_name().contains('\0'));
    }
    assert_eq!(e.printers[0].get_raw_vec(), &{
        let mut v = utf16("XP-80C");
        v.extend_from_slice(&[0, 0]);
        v
    });
}

#[test]
fn readiness_follows_each_records_own_status() {
    let e = enumerate(&[("Busy", 0x0000_0080, 0), ("Idle", 0, 0x400)]);
    assert!(!e.printers[0].is_ready());
    assert!(e.printers[1].is_ready());
    assert_eq!(e.printers[0].raw_status(), 0x80);
    assert_eq!(e.printers[1].raw_attributes(), 0x400);
    let e = enumerate(&[("Idle", 0, 0), ("Busy", 2, 0)]);
    assert!(e.printers[0].is_ready());
    assert!(!e.printers[1].is_ready());
}

#[test]
fn display_name_is_decoded_once_and_kept() {
    let mut p = WindowsPrinter::new(&utf16("Caf\u{e9} \u{1F5A8}"), 0, 0);
    let first = p.get_name();
    let second = p.get_name();
    assert_eq!(first, "Caf\u{e9} \u{1F5A8}");
    assert_eq!(first, second);
}

#[test]
fn invalid_utf16_is_replaced() {
    let mut p = WindowsPrinter::new(&[0x41, 0xD800, 0x42], 0, 0);
    assert_eq!(p.get_name(), "A\u{FFFD}B");
}

#[test]
fn unknown_name_is_not_found_and_listing_still_works() {
    let e = enumerate(&[("XP-80C", 0, 0)]);
    let r = WindowsPrinter::from_str(e.printers, "Nonexistent-XYZ");
    assert_eq!(r.unwrap_err(), PrinterError::NotFound);
    let mut again = enumerate(&[("XP-80C", 0, 0)]);
    assert_eq!(again.printers.len(), 1);
    assert_eq!(again.printers[0].get_name(), "XP-80C");
    let empty = Enumeration::empty();
    assert!(empty.printers.is_empty());
    assert_eq!(
        WindowsPrinter::from_str(empty.printers, "Nonexistent-XYZ").unwrap_err(),
        PrinterError::NotFound
    );
}

#[test]
fn lookup_is_exact_and_takes_the_first_match() {
    let e = enumerate(&[("xp-80c", 1, 0), ("XP-80C", 0, 7), ("XP-80C", 5, 9)]);
    let p = WindowsPrinter::from_str(e.printers, "XP-80C").unwrap();
    assert_eq!(p.raw_attributes(), 7);
    let e = enumerate(&[("XP-80C", 0, 0)]);
    assert!(WindowsPrinter::from_str(e.printers, "XP-80").is_err());
}

#[test]
fn nothing_needed_means_no_printers_and_no_second_call() {
    for reply in [HostReply::Success, HostReply::InsufficientBuffer] {
        match after_size_query(reply, 0) {
            Ok(SizeStep::Finished(e)) => {
                assert!(e.printers.is_empty());
                assert!(!e.partial);
            }
            _ => panic!("expected an empty enumeration"),
        }
    }
}

#[test]
fn size_query_asks_for_exactly_the_needed_buffer() {
    match after_size_query(HostReply::InsufficientBuffer, 1234) {
        Ok(SizeStep::FillBuffer { len }) => assert_eq!(len, 1234),
        _ => panic!("expected a second call"),
    }
    match after_size_query(HostReply::Failed { code: 5 }, 1234) {
        Err(e) => assert_eq!(e, PrinterError::DiscoveryFailure { code: 5 }),
        _ => panic!("expected a discovery failure"),
    }
}

#[test]
fn failed_size_query_is_a_discovery_failure_even_with_nothing_needed() {
    for code in [5u32, 1722] {
        match after_size_query(HostReply::Failed { code }, 0) {
            Err(e) => assert_eq!(e, PrinterError::DiscoveryFailure { code }),
            _ => panic!("expected a discovery failure"),
        }
    }
}

#[test]
fn failed_fill_is_a_discovery_failure() {
    let buf = host_buffer(&[("XP-80C", 0, 0)]);
    let r = WindowsPrinter::list_printers(HostReply::Failed { code: 1722 }, &buf, 1, BASE);
    assert_eq!(r.unwrap_err(), PrinterError::DiscoveryFailure { code: 1722 });
}

#[test]
fn malformed_records_are_skipped_and_mark_the_result_partial() {
    // second record's name pointer lies before the buffer
    let mut buf = host_buffer(&[("A", 0, 0), ("B", 0, 0), ("C", 3, 0)]);
    put_u64(&mut buf, RECORD_SIZE + NAME_POINTER_OFFSET, BASE - 2);
    let e = parse_records(&buf, 3, BASE);
    assert!(e.partial);
    assert_eq!(e.printers.len(), 2);
    assert_eq!(e.printers[1].raw_status(), 3);

    // a name pointer past the end
    let mut buf = host_buffer(&[("A", 0, 0)]);
    let end = BASE + buf.len() as u64;
    put_u64(&mut buf, NAME_POINTER_OFFSET, end);
    assert!(parse_record(&buf, BASE, 0).is_none());

    // an empty name
    let buf = host_buffer(&[("", 0, 0), ("B", 0, 0)]);
    let e = parse_records(&buf, 2, BASE);
    assert!(e.partial);
    assert_eq!(e.printers.len(), 1);

    // an unterminated name
    let mut buf = host_buffer(&[("AB", 0, 0)]);
    let n = buf.len();
    buf.truncate(n - 2);
    assert!(parse_record(&buf, BASE, 0).is_none());

    // more records reported than the buffer holds
    let buf = host_buffer(&[("A", 0, 0)]);
    let e = parse_records(&buf, 5, BASE);
    assert!(e.partial);
    assert_eq!(e.printers.len(), 1);
}

#[test]
fn registry_scenario_with_spooler_queues() {
    let e = enumerate(&[("XP-80C", 0, 0), ("Office-LaserA", 0x0000_0080, 0)]);
    assert_eq!(e.printers.len(), 2);
    let mut xp = WindowsPrinter::from_str(e.printers, "XP-80C").unwrap();
    assert!(xp.is_ready());
    assert_eq!(xp.get_name(), "XP-80C");
    let target = TransportTarget::spooler(&xp);
    match &target {
        TransportTarget::Spooler { raw_name } => assert_eq!(raw_name, xp.get_raw_vec()),
        _ => panic!("expected a spooler target"),
    }
    assert!(target.open_outcome(OpenReply::Opened).is_ok());

    let e = enumerate(&[("XP-80C", 0, 0), ("Office-LaserA", 0x0000_0080, 0)]);
    let laser = WindowsPrinter::from_str(e.printers, "Office-LaserA").unwrap();
    assert!(!laser.is_ready());
    assert!(TransportTarget::spooler(&laser).open_outcome(OpenReply::Opened).is_ok());
}

#[test]
fn direct_transport_without_device_is_not_present() {
    let target = TransportTarget::direct(0x1504, 0x006e, None);
    let reply = direct_open_reply("USB device not found");
    assert_eq!(reply, OpenReply::Absent);
    let err = target.open_outcome(reply).unwrap_err();
    assert_eq!(
        err,
        PrinterError::TransportOpenFailure { reason: OpenFailureReason::NotPresent }
    );
    assert_ne!(
        err,
        PrinterError::TransportOpenFailure { reason: OpenFailureReason::NotReady }
    );
}

#[test]
fn direct_transport_busy_device_is_not_ready() {
    let target = TransportTarget::direct(0x1504, 0x006e, Some(0x02));
    let reply = direct_open_reply("Access denied (insufficient permissions)");
    assert_eq!(reply, OpenReply::Unavailable);
    assert_eq!(
        target.open_outcome(reply).unwrap_err(),
        PrinterError::TransportOpenFailure { reason: OpenFailureReason::NotReady }
    );
    assert_eq!(
        target.open_outcome(OpenReply::Absent).unwrap_err(),
        PrinterError::TransportOpenFailure { reason: OpenFailureReason::NotPresent }
    );
    assert!(target.open_outcome(OpenReply::Opened).is_ok());
}

#[test]
fn short_writes_report_the_confirmed_count() {
    assert_eq!(write_outcome(10, true, 10), Ok(()));
    assert_eq!(
        write_outcome(10, true, 4),
        Err(PrinterError::TransportWriteFailure { confirmed: Some(4) })
    );
    assert_eq!(
        write_outcome(10, false, 10),
        Err(PrinterError::TransportWriteFailure { confirmed: Some(10) })
    );
    assert_eq!(write_outcome(0, true, 0), Ok(()));
}

#[test]
fn name_matching_is_exact() {
    assert!(name_matches(&"XP-80C".to_string(), &"XP-80C".to_string()));
    assert!(!name_matches(&"XP-80C".to_string(), &"xp-80c".to_string()));
    assert!(!name_matches(&"XP-80C ".to_string(), &"XP-80C".to_string()));
}

#[test]
fn spooler_open_failures_are_told_apart() {
    assert_eq!(spooler_open_reply(None), OpenReply::Opened);
    assert_eq!(spooler_open_reply(Some(0x8007_0709)), OpenReply::Absent);
    assert_eq!(spooler_open_reply(Some(INVALID_PRINTER_NAME)), OpenReply::Absent);
    // access denied
    assert_eq!(spooler_open_reply(Some(0x8007_0005)), OpenReply::Unavailable);
    let e = enumerate(&[("XP-80C", 0, 0)]);
    let target = TransportTarget::spooler(&e.printers[0]);
    assert_eq!(
        target.open_outcome(spooler_open_reply(Some(0x8007_0005))).unwrap_err(),
        PrinterError::TransportOpenFailure { reason: OpenFailureReason::NotReady }
    );
}
