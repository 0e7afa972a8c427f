//! Digests that spread work and shorten log lines.

use vstd::prelude::*;
use vstd::string::*;

verus! {

/// One step of the 64-bit FNV-1a digest: fold a byte in, multiply by the prime.
pub open spec fn fnv1a_step(h: u64, b: u8) -> u64 {
    (((h ^ (b as u64)) * 0x100_0000_01b3) % 0x1_0000_0000_0000_0000) as u64
}

/// The 64-bit FNV-1a digest of some bytes, from the standard offset basis.
pub open spec fn fnv1a(bytes: Seq<u8>) -> u64
    decreases bytes.len(),
{
    if bytes.len() == 0 {
        0xcbf2_9ce4_8422_2325
    } else {
        fnv1a_step(fnv1a(bytes.drop_last()), bytes.last())
    }
}

/// The digit for a number below 16.
pub open spec fn hex_digit(d: u32) -> char {
    seq!['0', '1', '2', '3', '4', '5', '6', '7', '8', '9', 'a', 'b', 'c', 'd', 'e', 'f'][d as int]
}

/// A number as eight hexadecimal digits.
pub open spec fn hex8(x: u32) -> Seq<char> {
    Seq::new(8, |i: int| hex_digit((x >> ((28 - 4 * i) as u32)) & 15))
}

/// The two halves of a digest, folded into one.
pub open spec fn folded(h: u64) -> u32 {
    ((h & 0xffff_ffff) as u32) ^ ((h >> 32) as u32)
}

/// `ff_core::hash::fnv1a_u64`: the 64-bit FNV-1a digest of the bytes.
#[verifier::external_body]
fn fnv1a_u64(bytes: &[u8]) -> (r: u64)
    ensures
        r == fnv1a(bytes@),
{
    ff_core::hash::fnv1a_u64(bytes)
}

/// `ff_core::hash::fnv1a_xor8hex`: the halves of the FNV-1a digest of the text's
/// bytes, folded into one and written as eight hexadecimal digits.
#[verifier::external_body]
pub(crate) fn fnv1a_xor8hex(s: &str) -> (r: String)
    ensures
        r@ == hex8(folded(fnv1a(s.spec_bytes()))),
{
    ff_core::hash::fnv1a_xor8hex(s)
}

/// The place in `0..num_partitions` from which a worker process starts to scan.
pub open spec fn scan_seed(instance: Seq<char>, num_partitions: usize) -> usize {
    if num_partitions == 0 {
        0
    } else {
        let h = fnv1a(vstd::utf8::encode_utf8(instance)) & (usize::MAX as u64);
        (h as int % num_partitions as int) as usize
    }
}

/// Where a worker process starts to scan. Distinct processes mostly start at
/// distinct places, so that idle ones spread over the partitions from their
/// first poll on.
pub fn scan_cursor_seed(worker_instance_id: &str, num_partitions: usize) -> (r: usize)
    ensures
        r == scan_seed(worker_instance_id@, num_partitions),
        num_partitions > 0 ==> r < num_partitions,
{
    if num_partitions == 0 {
        return 0;
    }
    let h: u64 = fnv1a_u64(worker_instance_id.as_bytes());
    let mask: u64 = usize::MAX as u64;
    let low: u64 = h & mask;
    assert(low <= mask) by (bit_vector)
        requires
            low == h & mask,
    ;
    (low as usize) % num_partitions
}

} // verus!
