use vstd::prelude::*;

use crate::packet::{Packet, PacketModel};

verus! {

/// The 8-bit Fletcher checksum of `s`: `A` is the running sum of the bytes
/// and `B` the running sum of the successive values of `A`, both modulo 256.
pub open spec fn fletcher(s: Seq<u8>) -> (u8, u8)
    decreases s.len(),
{
    if s.len() == 0 {
        (0u8, 0u8)
    } else {
        let prev = fletcher(s.drop_last());
        let a = ((prev.0 + s.last()) % 256) as u8;
        let b = ((prev.1 + a) % 256) as u8;
        (a, b)
    }
}

/// The bytes of a frame that its checksum covers: class, id, the
/// little-endian length field and the payload.
pub open spec fn checksum_input(p: PacketModel) -> Seq<u8> {
    seq![
        p.header.class,
        p.header.id,
        (p.header.length % 256) as u8,
        (p.header.length / 256) as u8,
    ] + p.payload
}

/// Whether a packet's checksum bytes are the checksum of what they cover.
pub open spec fn checksum_matches(p: PacketModel) -> bool {
    fletcher(checksum_input(p)) == (p.header.ck_a, p.header.ck_b)
}

/// Computes the 8-bit Fletcher checksum of `data`.
pub fn fletcher8(data: &[u8]) -> (r: (u8, u8))
    ensures
        r == fletcher(data@),
{
    let mut a: u8 = 0;
    let mut b: u8 = 0;
    let mut i: usize = 0;
    while i < data.len()
        invariant
            i <= data@.len(),
            (a, b) == fletcher(data@.subrange(0, i as int)),
        decreases data@.len() - i,
    {
        assert(data@.subrange(0, i + 1).drop_last() =~= data@.subrange(0, i as int));
        a = ((a as u16 + data[i] as u16) % 256) as u8;
        b = ((b as u16 + a as u16) % 256) as u8;
        i = i + 1;
    }
    assert(data@.subrange(0, i as int) =~= data@);
    (a, b)
}

impl Packet {
    /// Checks the packet's checksum bytes against the checksum of its class,
    /// id, length field and payload. Decoding does not make this check.
    pub fn checksum_ok(&self) -> (r: bool)
        ensures
            r == checksum_matches(self@),
    {
        let mut covered: Vec<u8> = Vec::new();
        covered.push(self.header.class);
        covered.push(self.header.id);
        covered.push((self.header.length % 256) as u8);
        covered.push((self.header.length / 256) as u8);
        let mut i: usize = 0;
        while i < self.payload.len()
            invariant
                i <= self.payload@.len(),
                covered@ == checksum_input(self@).subrange(0, 4 + i),
            decreases self.payload@.len() - i,
        {
            covered.push(self.payload[i]);
            i = i + 1;
            assert(covered@ =~= checksum_input(self@).subrange(0, 4 + i));
        }
        assert(covered@ =~= checksum_input(self@));
        let (a, b) = fletcher8(covered.as_slice());
        a == self.header.ck_a && b == self.header.ck_b
    }
}

} // verus!
