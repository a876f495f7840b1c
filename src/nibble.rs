use vstd::prelude::*;

verus! {

/// Length in bytes of the manufacturer payload that the decoder reads.
pub const PACKET_LEN: usize = 27;

/// Length of a payload once split into nibbles.
pub const NIBBLE_LEN: usize = 54;

/// The raw manufacturer payload.
pub type Packet = [u8; 27];

/// A payload split into 4-bit values, one per element, high nibble first.
pub type PacketNibble = [u8; 54];

/// Every element of `n` is a 4-bit value.
pub open spec fn is_nibbles(n: Seq<u8>) -> bool {
    forall|k: int| 0 <= k < n.len() ==> #[trigger] n[k] < 16
}

/// The nibbles of the bytes `p`: element `2i` is the high half of byte `i`,
/// element `2i + 1` its low half.
pub open spec fn nibbles_of(p: Seq<u8>) -> Seq<u8> {
    Seq::new(
        2 * p.len(),
        |k: int|
            if k % 2 == 0 {
                (p[k / 2] / 16) as u8
            } else {
                (p[k / 2] % 16) as u8
            },
    )
}

/// The bytes put back together from the nibble pairs of `n`.
pub open spec fn bytes_of(n: Seq<u8>) -> Seq<u8> {
    Seq::new(n.len() / 2, |i: int| (16 * n[2 * i] + n[2 * i + 1]) as u8)
}

/// Splits each byte of the payload into its high and its low nibble.
pub fn split_u8_to_u4_array(input: &Packet) -> (output: PacketNibble)
    ensures
        output@ == nibbles_of(input@),
        is_nibbles(output@),
{
    let mut output: PacketNibble = [0u8; 54];
    let mut i: usize = 0;
    while i < PACKET_LEN
        invariant
            i <= PACKET_LEN,
            forall|k: int| 0 <= k < 2 * i ==> #[trigger] output@[k] == nibbles_of(input@)[k],
            forall|k: int| 0 <= k < NIBBLE_LEN ==> #[trigger] output@[k] < 16,
        decreases PACKET_LEN - i,
    {
        let byte = input[i];
        let hi = byte >> 4;
        let lo = byte & 0x0F;
        assert(hi == byte / 16 && lo == byte % 16) by (bit_vector)
            requires
                hi == byte >> 4,
                lo == byte & 0x0F,
        ;
        output[i * 2] = hi;
        output[i * 2 + 1] = lo;
        i += 1;
    }
    assert(output@ =~= nibbles_of(input@));
    output
}

/// Splitting a payload into nibbles and joining each pair again gives the
/// payload back, and every part is a 4-bit value.
pub proof fn lemma_split_round_trip(p: Seq<u8>)
    ensures
        is_nibbles(nibbles_of(p)),
        nibbles_of(p).len() == 2 * p.len(),
        bytes_of(nibbles_of(p)) == p,
        forall|i: int|
            0 <= i < p.len() ==> 16 * nibbles_of(p)[2 * i] + nibbles_of(p)[2 * i + 1] == p[i],
{
    let n = nibbles_of(p);
    assert forall|i: int| 0 <= i < p.len() implies 16 * n[2 * i] + n[2 * i + 1] == p[i] by {
        assert((2 * i) % 2 == 0 && (2 * i) / 2 == i);
        assert((2 * i + 1) % 2 == 1 && (2 * i + 1) / 2 == i);
    }
    assert(bytes_of(n) =~= p);
}

} // verus!
