//! Wire format of a probe datagram: the first eight bytes carry the
//! probe's sequence number as a little-endian `u64`; the bytes after
//! them are zero filler up to the configured packet size.

use vstd::bytes::lemma_auto_spec_u64_to_from_le_bytes;
use vstd::bytes::spec_u64_from_le_bytes;
use vstd::bytes::spec_u64_to_le_bytes;
use vstd::bytes::u64_from_le_bytes;
use vstd::bytes::u64_to_le_bytes;
use vstd::prelude::*;
use vstd::slice::slice_subrange;

verus! {

/// Number of leading payload bytes that carry the sequence number.
pub const SEQUENCE_WIDTH: u16 = 8;

/// Build a probe payload of `packet_size` bytes: the sequence number in
/// the first eight bytes, zero filler after them.
pub fn encode_sequence(sequence: u64, packet_size: u16) -> (buf: Vec<u8>)
    requires
        packet_size >= SEQUENCE_WIDTH,
    ensures
        buf@.len() == packet_size,
        buf@.subrange(0, SEQUENCE_WIDTH as int) == spec_u64_to_le_bytes(sequence),
        forall|i: int| SEQUENCE_WIDTH <= i < packet_size ==> buf@[i] == 0,
{
    let mut buf = u64_to_le_bytes(sequence);
    while buf.len() < packet_size as usize
        invariant
            8 <= buf@.len() <= packet_size,
            buf@.subrange(0, 8) == spec_u64_to_le_bytes(sequence),
            forall|i: int| 8 <= i < buf@.len() ==> buf@[i] == 0,
        decreases packet_size - buf.len(),
    {
        let ghost before = buf@;
        buf.push(0);
        proof {
            assert(buf@.subrange(0, 8) =~= before.subrange(0, 8));
        }
    }
    buf
}

/// Read the sequence number back out of a datagram.  A datagram too
/// short to hold the full prefix is malformed and decodes to nothing.
pub fn decode_sequence(data: &[u8]) -> (r: Option<u64>)
    ensures
        data@.len() >= SEQUENCE_WIDTH ==> r == Some(
            spec_u64_from_le_bytes(data@.subrange(0, SEQUENCE_WIDTH as int)),
        ),
        data@.len() < SEQUENCE_WIDTH ==> r is None,
{
    if data.len() < SEQUENCE_WIDTH as usize {
        None
    } else {
        let head = slice_subrange(data, 0, SEQUENCE_WIDTH as usize);
        Some(u64_from_le_bytes(head))
    }
}

/// Encoding a sequence number and decoding it back yields the same
/// number, for every `u64`.
pub proof fn lemma_sequence_round_trip(k: u64)
    ensures
        spec_u64_from_le_bytes(spec_u64_to_le_bytes(k)) == k,
        spec_u64_to_le_bytes(k).len() == SEQUENCE_WIDTH,
{
    lemma_auto_spec_u64_to_from_le_bytes();
}

} // verus!
