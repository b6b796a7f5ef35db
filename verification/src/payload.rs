use vstd::prelude::*;
use crate::error::ErrorKind;

verus! {

/// The unsigned 64-bit value that eight little-endian bytes encode.
pub open spec fn le_bytes_to_u64(s: Seq<u8>) -> int
    recommends
        s.len() == 8,
{
    s[0] + s[1] * 0x100 + s[2] * 0x1_0000 + s[3] * 0x100_0000
        + s[4] * 0x1_0000_0000 + s[5] * 0x100_0000_0000
        + s[6] * 0x1_0000_0000_0000 + s[7] * 0x100_0000_0000_0000
}

/// Eight little-endian bytes never encode more than a u64 holds.
pub proof fn lemma_le_bytes_to_u64_bounds(s: Seq<u8>)
    requires
        s.len() == 8,
    ensures
        0 <= le_bytes_to_u64(s) < 0x1_0000_0000_0000_0000,
{
}

/// Decodes the requested transfer amount from the raw instruction payload.
/// The payload must be exactly eight bytes of little-endian unsigned
/// integer; no other instruction shape is recognized.
pub fn parse_transfer_amount(payload: &[u8]) -> (r: Result<u64, ErrorKind>)
    ensures
        payload@.len() == 8 ==> r == Ok::<u64, ErrorKind>(le_bytes_to_u64(payload@) as u64),
        payload@.len() != 8 ==> r == Err::<u64, ErrorKind>(ErrorKind::InvalidInstructionData),
{
    if payload.len() != 8 {
        return Err(ErrorKind::InvalidInstructionData);
    }
    proof {
        // The cast in the postcondition is lossless.
        lemma_le_bytes_to_u64_bounds(payload@);
    }
    let amount: u64 = payload[0] as u64
        + payload[1] as u64 * 0x100
        + payload[2] as u64 * 0x1_0000
        + payload[3] as u64 * 0x100_0000
        + payload[4] as u64 * 0x1_0000_0000
        + payload[5] as u64 * 0x100_0000_0000
        + payload[6] as u64 * 0x1_0000_0000_0000
        + payload[7] as u64 * 0x100_0000_0000_0000;
    Ok(amount)
}

} // verus!
