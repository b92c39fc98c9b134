//! The native record layout (level-2 printer information on a 64-bit host)
//! and little-endian field reads over a byte buffer.
use vstd::prelude::*;

verus! {

/// Size in bytes of one native printer record.
pub const RECORD_SIZE: usize = 136;

/// Offset of the pointer to the record's printer name.
pub const NAME_POINTER_OFFSET: usize = 8;

/// Offset of the record's attribute flags.
pub const ATTRIBUTES_OFFSET: usize = 104;

/// Offset of the record's status flags.
pub const STATUS_OFFSET: usize = 124;

/// The 16-bit little-endian value at `off`.
pub open spec fn le16(b: Seq<u8>, off: int) -> int {
    b[off] as int + 256 * b[off + 1] as int
}

/// The 32-bit little-endian value at `off`.
pub open spec fn le32(b: Seq<u8>, off: int) -> int {
    le16(b, off) + 65536 * le16(b, off + 2)
}

/// The 64-bit little-endian value at `off`.
pub open spec fn le64(b: Seq<u8>, off: int) -> int {
    le32(b, off) + 4294967296 * le32(b, off + 4)
}

/// Reads the 16-bit little-endian value at `off`.
pub fn read_u16_le(b: &[u8], off: usize) -> (r: u16)
    requires
        off + 2 <= b@.len(),
    ensures
        r as int == le16(b@, off as int),
{
    let lo = b[off] as u16;
    let hi = b[off + 1] as u16;
    assert(hi * 256 <= 65280) by (nonlinear_arith)
        requires hi <= 255;
    lo + hi * 256
}

/// Reads the 32-bit little-endian value at `off`.
pub fn read_u32_le(b: &[u8], off: usize) -> (r: u32)
    requires
        off + 4 <= b@.len(),
    ensures
        r as int == le32(b@, off as int),
{
    let n = b.len();
    assert(off + 4 <= n);
    let lo = read_u16_le(b, off) as u32;
    let hi = read_u16_le(b, off + 2) as u32;
    assert(hi * 65536 <= 4294901760) by (nonlinear_arith)
        requires hi <= 65535;
    lo + hi * 65536
}

/// Reads the 64-bit little-endian value at `off`.
pub fn read_u64_le(b: &[u8], off: usize) -> (r: u64)
    requires
        off + 8 <= b@.len(),
    ensures
        r as int == le64(b@, off as int),
{
    let n = b.len();
    assert(off + 8 <= n);
    let lo = read_u32_le(b, off) as u64;
    let hi = read_u32_le(b, off + 4) as u64;
    assert(hi * 4294967296 <= 18446744069414584320) by (nonlinear_arith)
        requires hi <= 4294967295;
    lo + hi * 4294967296
}

} // verus!
