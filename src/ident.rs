use vstd::prelude::*;

verus! {

/// Big-endian value of four bytes.
pub open spec fn be32(b: Seq<u8>) -> u32 {
    ((b[0] as u32) << 24u32) | ((b[1] as u32) << 16u32) | ((b[2] as u32) << 8u32) | (b[3] as u32)
}

/// The four big-endian bytes of a 32-bit value.
pub open spec fn be32_bytes(x: u32) -> Seq<u8> {
    seq![(x >> 24u32) as u8, (x >> 16u32) as u8, (x >> 8u32) as u8, x as u8]
}

/// The 128-bit key laid out from its four parts; the top 32 bits stay zero.
pub open spec fn pack_parts(local: u32, remote: u32, local_port: u16, remote_port: u16) -> u128 {
    ((local as u128) << 64u128) | ((remote as u128) << 32u128) | ((remote_port as u128) << 16u128)
        | (local_port as u128)
}

/// The fields of a connection: both addresses and both ports.
#[derive(Clone, Copy, Debug, PartialEq, Eq, Hash)]
pub struct IdentifyingTCB {
    pub local_address: [u8; 4],
    pub remote_address: [u8; 4],
    pub local_port: u16,
    pub remote_port: u16,
}

impl IdentifyingTCB {
    /// The packed key of this identifier.
    pub open spec fn packed(self) -> u128 {
        pack_parts(
            be32(self.local_address@),
            be32(self.remote_address@),
            self.local_port,
            self.remote_port,
        )
    }

    /// `self` is what the key `p` holds, field by field.
    pub open spec fn unpacked_from(self, p: u128) -> bool {
        &&& self.local_address@ == be32_bytes(((p >> 64u128) & 0xFFFF_FFFFu128) as u32)
        &&& self.remote_address@ == be32_bytes(((p >> 32u128) & 0xFFFF_FFFFu128) as u32)
        &&& self.remote_port == ((p >> 16u128) & 0xFFFFu128) as u16
        &&& self.local_port == (p & 0xFFFFu128) as u16
    }

    pub fn new(local_address: [u8; 4], remote_address: [u8; 4], local_port: u16, remote_port: u16)
        -> (r: IdentifyingTCB)
        ensures
            r.local_address == local_address,
            r.remote_address == remote_address,
            r.local_port == local_port,
            r.remote_port == remote_port,
    {
        IdentifyingTCB { local_address, remote_address, local_port, remote_port }
    }

    /// Packs the identifier into one integer key (addresses read big-endian).
    pub fn pack_tcb(&self) -> (r: u128)
        ensures
            r == self.packed(),
            r < 0x1_0000_0000_0000_0000_0000_0000u128,
    {
        let local = read_be32(&self.local_address) as u128;
        let remote = read_be32(&self.remote_address) as u128;
        let local_port = self.local_port as u128;
        let remote_port = self.remote_port as u128;
        let r = (local << 64u128) | (remote << 32u128) | (remote_port << 16u128) | local_port;
        proof {
            let (a, b, c, d) = (
                be32(self.local_address@),
                be32(self.remote_address@),
                self.local_port,
                self.remote_port,
            );
            assert(pack_parts(a, b, c, d) < 0x1_0000_0000_0000_0000_0000_0000u128) by (bit_vector);
        }
        r
    }

    /// Rebuilds the identifier that a key holds.
    pub fn unpack_tcb(packed: u128) -> (r: IdentifyingTCB)
        ensures
            r.unpacked_from(packed),
    {
        let local = ((packed >> 64u128) & 0xFFFF_FFFFu128) as u32;
        let remote = ((packed >> 32u128) & 0xFFFF_FFFFu128) as u32;
        let remote_port = ((packed >> 16u128) & 0xFFFFu128) as u16;
        let local_port = (packed & 0xFFFFu128) as u16;
        IdentifyingTCB {
            local_address: write_be32(local),
            remote_address: write_be32(remote),
            local_port,
            remote_port,
        }
    }
}

impl Default for IdentifyingTCB {
    fn default() -> (r: IdentifyingTCB)
        ensures
            r.local_address@ == seq![0u8, 0, 0, 0],
            r.remote_address@ == seq![0u8, 0, 0, 0],
            r.local_port == 0,
            r.remote_port == 0,
    {
        IdentifyingTCB {
            local_address: [0, 0, 0, 0],
            remote_address: [0, 0, 0, 0],
            local_port: 0,
            remote_port: 0,
        }
    }
}

/// Reads four bytes as a big-endian integer.
pub fn read_be32(b: &[u8; 4]) -> (r: u32)
    ensures
        r == be32(b@),
{
    ((b[0] as u32) << 24u32) | ((b[1] as u32) << 16u32) | ((b[2] as u32) << 8u32) | (b[3] as u32)
}

/// Writes an integer as four big-endian bytes.
pub fn write_be32(x: u32) -> (r: [u8; 4])
    ensures
        r@ == be32_bytes(x),
{
    let r = [(x >> 24u32) as u8, (x >> 16u32) as u8, (x >> 8u32) as u8, x as u8];
    assert(r@ =~= be32_bytes(x));
    r
}

proof fn lemma_be32_round_trip(b: Seq<u8>)
    requires
        b.len() == 4,
    ensures
        be32_bytes(be32(b)) == b,
{
    let (b0, b1, b2, b3) = (b[0], b[1], b[2], b[3]);
    let x = be32(b);
    assert(x == ((b0 as u32) << 24u32) | ((b1 as u32) << 16u32) | ((b2 as u32) << 8u32) | (b3 as u32));
    assert((x >> 24u32) as u8 == b0 && (x >> 16u32) as u8 == b1 && (x >> 8u32) as u8 == b2
        && x as u8 == b3) by (bit_vector)
        requires
            x == ((b0 as u32) << 24u32) | ((b1 as u32) << 16u32) | ((b2 as u32) << 8u32) | (b3 as u32),
    ;
    assert(be32_bytes(x) =~= b);
}

/// Unpacking the key of an identifier gives back that identifier: packing
/// loses nothing.
pub proof fn lemma_unpack_pack(id: IdentifyingTCB, r: IdentifyingTCB)
    requires
        r.unpacked_from(id.packed()),
    ensures
        r == id,
{
    let (a, b, c, d) = (
        be32(id.local_address@),
        be32(id.remote_address@),
        id.local_port,
        id.remote_port,
    );
    let p = pack_parts(a, b, c, d);
    assert(((p >> 64u128) & 0xFFFF_FFFFu128) as u32 == a && ((p >> 32u128) & 0xFFFF_FFFFu128) as u32
        == b && ((p >> 16u128) & 0xFFFFu128) as u16 == d && (p & 0xFFFFu128) as u16 == c)
        by (bit_vector)
        requires
            p == pack_parts(a, b, c, d),
    ;
    lemma_be32_round_trip(id.local_address@);
    lemma_be32_round_trip(id.remote_address@);
    assert(r.local_address@ == id.local_address@);
    assert(r.remote_address@ == id.remote_address@);
    assert(r.local_address == id.local_address);
    assert(r.remote_address == id.remote_address);
}

} // verus!
