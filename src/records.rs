//! Reading printer descriptors out of the buffer that the host's enumeration
//! fills: fixed-size records whose name fields point at null-terminated UTF-16
//! strings stored in the same buffer.
use crate::layout::{
    le16, le32, le64, read_u16_le, read_u32_le, read_u64_le, ATTRIBUTES_OFFSET,
    NAME_POINTER_OFFSET, RECORD_SIZE, STATUS_OFFSET,
};
use crate::printer::{ends_with_two_zeros, no_zero_unit, terminated, PrinterView, WindowsPrinter};
use vstd::prelude::*;

verus! {

/// The string at byte offset `start` has `n` code units: all of them are
/// nonzero and a zero unit follows them, all inside the buffer.
pub open spec fn terminated_at(b: Seq<u8>, start: int, n: int) -> bool {
    &&& 0 <= start
    &&& 0 <= n
    &&& start + 2 * n + 2 <= b.len()
    &&& le16(b, start + 2 * n) == 0
    &&& forall|k: int| 0 <= k < n ==> le16(b, #[trigger] (start + 2 * k)) != 0
}

/// The `n` code units that start at byte offset `start`.
pub open spec fn units_at(b: Seq<u8>, start: int, n: int) -> Seq<u16> {
    Seq::new(n as nat, |k: int| le16(b, start + 2 * k) as u16)
}

/// The null-terminated string at byte offset `start`, if it ends inside the
/// buffer.
pub open spec fn name_at(b: Seq<u8>, start: int) -> Option<Seq<u16>> {
    if exists|n: int| terminated_at(b, start, n) {
        Some(units_at(b, start, choose|n: int| terminated_at(b, start, n)))
    } else {
        None
    }
}

/// The descriptor that record `i` holds, or `None` where the record is
/// malformed: it does not lie wholly in the buffer, or its name is empty or
/// does not end inside the buffer. `base` is the address of the buffer's
/// first byte, against which the record's name pointer is read.
pub open spec fn record_at(b: Seq<u8>, base: int, i: int) -> Option<PrinterView> {
    let off = i * RECORD_SIZE as int;
    if off + RECORD_SIZE as int > b.len() {
        None
    } else {
        match name_at(b, le64(b, off + NAME_POINTER_OFFSET as int) - base) {
            Some(name) => if name.len() > 0 {
                Some(
                    PrinterView {
                        raw: terminated(name),
                        status: le32(b, off + STATUS_OFFSET as int) as u32,
                        attributes: le32(b, off + ATTRIBUTES_OFFSET as int) as u32,
                    },
                )
            } else {
                None
            },
            None => None,
        }
    }
}

/// The descriptors of the well-formed records among the first `n`, in order.
pub open spec fn parsed(b: Seq<u8>, base: int, n: nat) -> Seq<PrinterView>
    decreases n,
{
    if n == 0 {
        Seq::empty()
    } else {
        let prev = parsed(b, base, (n - 1) as nat);
        match record_at(b, base, n - 1) {
            Some(p) => prev.push(p),
            None => prev,
        }
    }
}

/// Some record among the first `n` is malformed.
pub open spec fn any_malformed(b: Seq<u8>, base: int, n: nat) -> bool {
    exists|i: int| 0 <= i < n && #[trigger] record_at(b, base, i) is None
}

/// The views of a sequence of descriptors.
pub open spec fn views(s: Seq<WindowsPrinter>) -> Seq<PrinterView> {
    s.map_values(|p: WindowsPrinter| p@)
}

/// The result of reading a buffer: the descriptors of its well-formed records
/// in order, and whether some record was skipped as malformed.
#[derive(Debug)]
pub struct Enumeration {
    pub printers: Vec<WindowsPrinter>,
    pub partial: bool,
}

/// Every descriptor read out of a buffer has a raw name that ends with two
/// zero code units, before which stands a nonempty name without a zero unit.
pub proof fn lemma_parsed_names(b: Seq<u8>, base: int, n: nat)
    ensures
        forall|k: int|
            0 <= k < parsed(b, base, n).len() ==> {
                let p = #[trigger] parsed(b, base, n)[k];
                &&& ends_with_two_zeros(p)
                &&& p.raw == terminated(p.name_units())
                &&& p.name_units().len() > 0
                &&& no_zero_unit(p.name_units())
            },
    decreases n,
{
    if n > 0 {
        lemma_parsed_names(b, base, (n - 1) as nat);
        let prev = parsed(b, base, (n - 1) as nat);
        let cur = parsed(b, base, n);
        assert forall|k: int| 0 <= k < cur.len() implies {
            let p = #[trigger] cur[k];
            &&& ends_with_two_zeros(p)
            &&& p.raw == terminated(p.name_units())
            &&& p.name_units().len() > 0
            &&& no_zero_unit(p.name_units())
        } by {
            if k < prev.len() {
                assert(cur[k] == prev[k]);
            } else {
                let i = n - 1;
                let off = i * RECORD_SIZE as int;
                let start = le64(b, off + NAME_POINTER_OFFSET as int) - base;
                let name = name_at(b, start).unwrap();
                let m = choose|m: int| terminated_at(b, start, m);
                assert(terminated_at(b, start, m));
                assert(name == units_at(b, start, m));
                let p = cur[k];
                assert(p.raw == terminated(name));
                assert(p.raw.subrange(0, p.raw.len() - 2) =~= name);
                assert forall|j: int| 0 <= j < name.len() implies name[j] != 0 by {
                    assert(le16(b, start + 2 * j) != 0);
                }
            }
        }
    }
}

/// Readiness is decided record by record: every descriptor read out of the
/// buffer comes from one record among the first `n`, and it is ready exactly
/// when that record's own status field is zero, whatever the other records
/// hold.
pub proof fn lemma_readiness_per_record(b: Seq<u8>, base: int, n: nat)
    ensures
        forall|k: int|
            0 <= k < parsed(b, base, n).len() ==> exists|i: int|
                0 <= i < n && record_at(b, base, i) == Some(#[trigger] parsed(b, base, n)[k]) && (
                parsed(b, base, n)[k].ready() <==> le32(
                    b,
                    i * RECORD_SIZE as int + STATUS_OFFSET as int,
                ) == 0),
    decreases n,
{
    if n > 0 {
        lemma_readiness_per_record(b, base, (n - 1) as nat);
        let prev = parsed(b, base, (n - 1) as nat);
        let cur = parsed(b, base, n);
        assert forall|k: int| 0 <= k < cur.len() implies exists|i: int|
            0 <= i < n && record_at(b, base, i) == Some(#[trigger] cur[k]) && (cur[k].ready()
                <==> le32(b, i * RECORD_SIZE as int + STATUS_OFFSET as int) == 0) by {
            if k < prev.len() {
                assert(cur[k] == prev[k]);
                let i = choose|i: int|
                    0 <= i < n - 1 && record_at(b, base, i) == Some(#[trigger] prev[k]) && (
                    prev[k].ready() <==> le32(b, i * RECORD_SIZE as int + STATUS_OFFSET as int)
                        == 0);
                assert(0 <= i < n && record_at(b, base, i) == Some(cur[k]));
            } else {
                let i = n - 1;
                assert(record_at(b, base, i) == Some(cur[k]));
                let v = le32(b, i * RECORD_SIZE as int + STATUS_OFFSET as int);
                assert(0 <= v < 4294967296) by {
                    let o = i * RECORD_SIZE as int + STATUS_OFFSET as int;
                    assert(0 <= le16(b, o) < 65536);
                    assert(0 <= le16(b, o + 2) < 65536);
                }
            }
        }
    }
}

/// A string ends at one place only.
proof fn lemma_terminated_unique(b: Seq<u8>, start: int, n1: int, n2: int)
    requires
        terminated_at(b, start, n1),
        terminated_at(b, start, n2),
    ensures
        n1 == n2,
{
    if n1 < n2 {
        assert(le16(b, start + 2 * n1) != 0);
    } else if n2 < n1 {
        assert(le16(b, start + 2 * n2) != 0);
    }
}

/// Reads the null-terminated string at byte offset `start`.
pub fn scan_name(b: &[u8], start: usize) -> (r: Option<Vec<u16>>)
    ensures
        match r {
            Some(v) => name_at(b@, start as int) == Some(v@),
            None => name_at(b@, start as int) is None,
        },
{
    let len = b.len();
    let mut units: Vec<u16> = Vec::new();
    let mut pos: usize = start;
    while pos <= len && len - pos >= 2
        invariant
            len == b@.len(),
            start <= pos,
            pos - start == 2 * units@.len(),
            forall|k: int| 0 <= k < units@.len() ==> le16(b@, #[trigger] (start + 2 * k)) != 0,
            units@ == units_at(b@, start as int, units@.len() as int),
        decreases len - pos,
    {
        let u = read_u16_le(b, pos);
        if u == 0 {
            let ghost n = units@.len() as int;
            proof {
                assert(terminated_at(b@, start as int, n));
                let m = choose|m: int| terminated_at(b@, start as int, m);
                lemma_terminated_unique(b@, start as int, n, m);
            }
            return Some(units);
        }
        let ghost old_units = units@;
        units.push(u);
        pos = pos + 2;
        proof {
            assert forall|k: int| 0 <= k < units@.len() implies le16(
                b@,
                #[trigger] (start + 2 * k),
            ) != 0 by {
                if k < old_units.len() {
                    assert(le16(b@, start + 2 * k) != 0);
                }
            }
            assert(units@ =~= units_at(b@, start as int, units@.len() as int));
        }
    }
    proof {
        assert forall|n: int| !terminated_at(b@, start as int, n) by {
            if terminated_at(b@, start as int, n) && n < units@.len() {
                assert(le16(b@, start + 2 * n) != 0);
            }
        }
    }
    None
}

/// Reads record `index` of the buffer whose first byte lies at address
/// `base`; `None` where the record is malformed.
pub fn parse_record(buffer: &[u8], base: u64, index: usize) -> (r: Option<WindowsPrinter>)
    ensures
        match r {
            Some(p) => p.wf() && p.cached_name() is None && record_at(
                buffer@,
                base as int,
                index as int,
            ) == Some(p@),
            None => record_at(buffer@, base as int, index as int) is None,
        },
{
    let len = buffer.len();
    let fit = len / RECORD_SIZE;
    if index >= fit {
        assert(index * RECORD_SIZE + RECORD_SIZE > len) by (nonlinear_arith)
            requires
                index >= fit,
                fit == len / 136,
                RECORD_SIZE == 136,
        ;
        return None;
    }
    assert(index * RECORD_SIZE + RECORD_SIZE <= len) by (nonlinear_arith)
        requires
            index < fit,
            fit == len / 136,
            RECORD_SIZE == 136,
    ;
    let off = index * RECORD_SIZE;
    let ptr = read_u64_le(buffer, off + NAME_POINTER_OFFSET);
    let status = read_u32_le(buffer, off + STATUS_OFFSET);
    let attributes = read_u32_le(buffer, off + ATTRIBUTES_OFFSET);
    if ptr < base || ptr - base >= len as u64 {
        proof {
            let start = ptr - base;
            assert forall|n: int| !terminated_at(buffer@, start, n) by {}
        }
        return None;
    }
    let start = (ptr - base) as usize;
    match scan_name(buffer, start) {
        Some(name) => {
            if name.len() == 0 {
                return None;
            }
            proof {
                let m = choose|m: int| terminated_at(buffer@, start as int, m);
                assert(terminated_at(buffer@, start as int, m));
                assert forall|k: int| 0 <= k < name@.len() implies name@[k] != 0 by {
                    assert(le16(buffer@, start + 2 * k) != 0);
                }
            }
            let p = WindowsPrinter::new(name.as_slice(), status, attributes);
            Some(p)
        },
        None => None,
    }
}

/// Reads the first `returned` records of the buffer whose first byte lies at
/// address `base`. Malformed records are skipped and mark the result partial.
pub fn parse_records(buffer: &[u8], returned: u32, base: u64) -> (r: Enumeration)
    ensures
        views(r.printers@) == parsed(buffer@, base as int, returned as nat),
        r.partial == any_malformed(buffer@, base as int, returned as nat),
        forall|k: int|
            0 <= k < r.printers@.len() ==> (#[trigger] r.printers@[k]).wf()
                && r.printers@[k].cached_name() is None,
{
    let mut printers: Vec<WindowsPrinter> = Vec::new();
    let mut partial = false;
    let mut i: u32 = 0;
    while i < returned
        invariant
            i <= returned,
            views(printers@) == parsed(buffer@, base as int, i as nat),
            partial == any_malformed(buffer@, base as int, i as nat),
            forall|k: int|
                0 <= k < printers@.len() ==> (#[trigger] printers@[k]).wf()
                    && printers@[k].cached_name() is None,
        decreases returned - i,
    {
        let ghost before = printers@;
        match parse_record(buffer, base, i as usize) {
            Some(p) => {
                printers.push(p);
                proof {
                    assert(views(printers@) =~= views(before).push(p@));
                }
            },
            None => {
                partial = true;
            },
        }
        proof {
            if !partial {
                assert forall|j: int| 0 <= j < i + 1 implies !(#[trigger] record_at(
                    buffer@,
                    base as int,
                    j,
                ) is None) by {
                    if j < i {
                        assert(!any_malformed(buffer@, base as int, i as nat));
                    }
                }
            } else if record_at(buffer@, base as int, i as int) is Some {
                let j = choose|j: int|
                    0 <= j < i && #[trigger] record_at(buffer@, base as int, j) is None;
                assert(0 <= j < i + 1 && record_at(buffer@, base as int, j) is None);
            } else {
                assert(record_at(buffer@, base as int, i as int) is None);
            }
        }
        i = i + 1;
    }
    Enumeration { printers, partial }
}

} // verus!
