//! Layout of the page-flag table: one little-endian 64-bit record per PFN.
use vstd::prelude::*;
use byteorder::ByteOrder;

verus! {

/// Size in bytes of one record.
pub const RECORD_SIZE: u64 = 8;

/// Value of the first eight bytes of `b` read as a little-endian integer.
pub open spec fn le_u64_value(b: Seq<u8>) -> int {
    b[0] as int + 0x100 * (b[1] as int + 0x100 * (b[2] as int + 0x100 * (b[3] as int + 0x100 * (
    b[4] as int + 0x100 * (b[5] as int + 0x100 * (b[6] as int + 0x100 * (b[7] as int)))))))
}

/// Relies on byteorder's `LittleEndian::read_u64`: the first eight bytes of
/// the buffer as a little-endian integer. It panics on fewer than eight bytes,
/// which `requires` leaves out.
#[verifier::external_body]
fn read_le_u64(bytes: &[u8]) -> (v: u64)
    requires
        bytes@.len() >= 8,
    ensures
        v as int == le_u64_value(bytes@),
{
    byteorder::LittleEndian::read_u64(bytes)
}

/// The record held by the bytes read at a record's offset: `None` when fewer
/// than eight bytes could be read, as past the end of the table.
pub fn decode_record(bytes: &[u8]) -> (r: Option<u64>)
    ensures
        bytes@.len() < 8 ==> r is None,
        bytes@.len() >= 8 ==> (r matches Some(v) && v as int == le_u64_value(bytes@)),
{
    if bytes.len() >= 8 {
        Some(read_le_u64(bytes))
    } else {
        None
    }
}

/// Byte offset of the record of `pfn`, or `None` when it lies beyond a 64-bit offset.
pub fn record_offset(pfn: u64) -> (off: Option<u64>)
    ensures
        pfn * RECORD_SIZE <= u64::MAX ==> off == Some((pfn * RECORD_SIZE) as u64),
        pfn * RECORD_SIZE > u64::MAX ==> off is None,
{
    pfn.checked_mul(RECORD_SIZE)
}

} // verus!
