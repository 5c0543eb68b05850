use vstd::prelude::*;
use crate::ident::be32;

verus! {

/// Big-endian value of the two bytes of `b` at `i`.
pub open spec fn be16_at(b: Seq<u8>, i: int) -> u16 {
    ((b[i] as u16) << 8u16) | (b[i + 1] as u16)
}

/// Big-endian value of the four bytes of `b` at `i`.
pub open spec fn be32_at(b: Seq<u8>, i: int) -> u32 {
    be32(b.subrange(i, i + 4))
}

/// Lower-case hexadecimal digit of a value below 16.
pub open spec fn hex_digit(n: u8) -> char {
    seq!['0', '1', '2', '3', '4', '5', '6', '7', '8', '9', 'a', 'b', 'c', 'd', 'e', 'f'][n as int]
}

/// Two lower-case hexadecimal digits per byte, high digit first.
pub open spec fn hex_lower(b: Seq<u8>) -> Seq<char>
    decreases b.len(),
{
    if b.len() == 0 {
        Seq::empty()
    } else {
        seq![hex_digit(b[0] / 16), hex_digit(b[0] % 16)] + hex_lower(b.drop_first())
    }
}

/// Relies on hex::encode: two lower-case digits for each byte, in order.
#[verifier::external_body]
fn hex_encode(b: &[u8]) -> (r: String)
    ensures
        r@ == hex_lower(b@),
{
    hex::encode(b)
}

/// Relies on etherparse's IpNumber::keyword_str: the IANA keyword of a
/// protocol number, which is "TCP" for 6 and for no other number.
#[verifier::external_body]
fn protocol_keyword(protocol: u8) -> (r: Option<&'static str>)
    ensures
        (r is Some && r->0@ == seq!['T', 'C', 'P']) <==> protocol == 6,
{
    etherparse::IpNumber(protocol).keyword_str()
}

/// Whether a frame's two ethertype bytes name IPv4 (0x0800), judged on
/// their hexadecimal spelling.
pub fn is_ipv4_ethertype(hi: u8, lo: u8) -> (r: bool)
    ensures
        r == (hi == 0x08 && lo == 0x00),
{
    let bytes: [u8; 2] = [hi, lo];
    let tag = hex_encode(&bytes);
    proof {
        let b = bytes@;
        reveal_with_fuel(hex_lower, 3);
        assert(b.drop_first().drop_first() =~= Seq::<u8>::empty());
        assert(hex_lower(b) =~= seq![hex_digit(hi / 16), hex_digit(hi % 16), hex_digit(lo / 16), hex_digit(lo % 16)]);
        lemma_hex_digit(hi / 16);
        lemma_hex_digit(hi % 16);
        lemma_hex_digit(lo / 16);
        lemma_hex_digit(lo % 16);
    }
    let s = tag.as_str();
    s.unicode_len() == 4 && s.get_char(0) == '0' && s.get_char(1) == '8' && s.get_char(2) == '0'
        && s.get_char(3) == '0'
}

proof fn lemma_hex_digit(n: u8)
    requires
        n < 16,
    ensures
        hex_digit(n) == '0' <==> n == 0,
        hex_digit(n) == '8' <==> n == 8,
{
    let d = seq!['0', '1', '2', '3', '4', '5', '6', '7', '8', '9', 'a', 'b', 'c', 'd', 'e', 'f'];
    assert(d[0] == '0' && d[8] == '8');
    assert(forall|i: int| 0 <= i < 16 && i != 0 ==> d[i] != '0');
    assert(forall|i: int| 0 <= i < 16 && i != 8 ==> d[i] != '8');
}

/// Whether an IPv4 protocol number names TCP, judged on its keyword.
pub fn is_tcp_protocol(protocol: u8) -> (r: bool)
    ensures
        r == (protocol == 6),
{
    match protocol_keyword(protocol) {
        Some(k) => {
            let r = k.unicode_len() == 3 && k.get_char(0) == 'T' && k.get_char(1) == 'C'
                && k.get_char(2) == 'P';
            proof {
                if r {
                    assert(k@ =~= seq!['T', 'C', 'P']);
                }
            }
            r
        },
        None => false,
    }
}

#[verifier::external_type_specification]
#[verifier::external_body]
pub struct ExIpv4HeaderSliceError(etherparse::err::ipv4::HeaderSliceError);

#[verifier::external_type_specification]
#[verifier::external_body]
pub struct ExTcpHeaderSliceError(etherparse::err::tcp::HeaderSliceError);

/// What is read of an inbound IPv4 header.
#[derive(Clone, Copy, Debug, PartialEq, Eq)]
pub struct Ipv4Fields {
    pub source: [u8; 4],
    pub destination: [u8; 4],
    pub protocol: u8,
    pub total_len: u16,
}

/// What is read of an inbound TCP header.
#[derive(Clone, Copy, Debug, PartialEq, Eq, Structural)]
pub struct TcpFields {
    pub source_port: u16,
    pub destination_port: u16,
    pub sequence_number: u32,
    pub acknowledgment_number: u32,
    pub syn: bool,
    pub ack: bool,
    pub fin: bool,
    pub rst: bool,
    pub window_size: u16,
}

/// Length in bytes of the IPv4 header at the start of `b` (IHL words).
pub open spec fn ipv4_header_len(b: Seq<u8>) -> int {
    (b[0] & 0x0Fu8) as int * 4
}

/// `b` starts with a version-4 header of at least five words that `b` holds whole.
pub open spec fn ipv4_ok(b: Seq<u8>) -> bool {
    &&& b.len() >= 20
    &&& b[0] >> 4u8 == 4
    &&& b[0] & 0x0Fu8 >= 5
    &&& b.len() >= ipv4_header_len(b)
}

pub open spec fn ipv4_fields_of(b: Seq<u8>) -> Ipv4Fields {
    Ipv4Fields {
        source: [b[12], b[13], b[14], b[15]],
        destination: [b[16], b[17], b[18], b[19]],
        protocol: b[9],
        total_len: be16_at(b, 2),
    }
}

/// Length in bytes of the TCP header at the start of `b` (data offset words).
pub open spec fn tcp_header_len(b: Seq<u8>) -> int {
    (b[12] >> 4u8) as int * 4
}

/// `b` starts with a TCP header of at least five words that `b` holds whole.
pub open spec fn tcp_ok(b: Seq<u8>) -> bool {
    &&& b.len() >= 20
    &&& b[12] >> 4u8 >= 5
    &&& b.len() >= tcp_header_len(b)
}

pub open spec fn tcp_fields_of(b: Seq<u8>) -> TcpFields {
    TcpFields {
        source_port: be16_at(b, 0),
        destination_port: be16_at(b, 2),
        sequence_number: be32_at(b, 4),
        acknowledgment_number: be32_at(b, 8),
        fin: b[13] & 1u8 != 0,
        syn: b[13] & 2u8 != 0,
        rst: b[13] & 4u8 != 0,
        ack: b[13] & 16u8 != 0,
        window_size: be16_at(b, 14),
    }
}

/// Relies on etherparse's Ipv4Header::from_slice: it accepts exactly the
/// slices that `ipv4_ok` describes, reads the fields at their fixed offsets
/// and hands back what follows the header.
#[verifier::external_body]
pub(crate) fn parse_ipv4_header(b: &[u8]) -> (r: Result<(Ipv4Fields, &[u8]), etherparse::err::ipv4::HeaderSliceError>)
    ensures
        r is Ok <==> ipv4_ok(b@),
        match r {
            Ok((h, rest)) => h == ipv4_fields_of(b@) && rest@ == b@.subrange(ipv4_header_len(b@), b@.len() as int),
            Err(_) => true,
        },
{
    let (h, rest) = etherparse::Ipv4Header::from_slice(b)?;
    let fields = Ipv4Fields {
        source: h.source,
        destination: h.destination,
        protocol: h.protocol.0,
        total_len: h.total_len,
    };
    Ok((fields, rest))
}

/// Relies on etherparse's TcpHeader::from_slice: it accepts exactly the
/// slices that `tcp_ok` describes, reads the fields at their fixed offsets
/// and hands back what follows the header.
#[verifier::external_body]
pub(crate) fn parse_tcp_header(b: &[u8]) -> (r: Result<(TcpFields, &[u8]), etherparse::err::tcp::HeaderSliceError>)
    ensures
        r is Ok <==> tcp_ok(b@),
        match r {
            Ok((h, rest)) => h == tcp_fields_of(b@) && rest@ == b@.subrange(tcp_header_len(b@), b@.len() as int),
            Err(_) => true,
        },
{
    let (h, rest) = etherparse::TcpHeader::from_slice(b)?;
    let fields = TcpFields {
        source_port: h.source_port,
        destination_port: h.destination_port,
        sequence_number: h.sequence_number,
        acknowledgment_number: h.acknowledgment_number,
        syn: h.syn,
        ack: h.ack,
        fin: h.fin,
        rst: h.rst,
        window_size: h.window_size,
    };
    Ok((fields, rest))
}

/// The fields of an outgoing IPv4 header.
#[derive(Clone, Copy, Debug, PartialEq, Eq)]
pub struct OutgoingIpv4 {
    pub source: [u8; 4],
    pub destination: [u8; 4],
    pub time_to_live: u8,
    pub protocol: u8,
    pub payload_len: u16,
}

/// The fields of an outgoing TCP header without options.
#[derive(Clone, Copy, Debug, PartialEq, Eq, Structural)]
pub struct OutgoingTcp {
    pub source_port: u16,
    pub destination_port: u16,
    pub sequence_number: u32,
    pub acknowledgment_number: u32,
    pub syn: bool,
    pub ack: bool,
    pub fin: bool,
    pub window_size: u16,
}

/// The IPv4 header checksum over a header whose checksum bytes are zero.
pub uninterp spec fn ipv4_checksum(header: Seq<u8>) -> u16;

/// The TCP checksum over the IPv4 pseudo header of the two addresses and a
/// segment whose checksum bytes are zero.
pub uninterp spec fn tcp_checksum_ipv4(source: Seq<u8>, destination: Seq<u8>, segment: Seq<u8>) -> u16;

/// `b` with its two bytes at `i` set to zero.
pub open spec fn zero_at(b: Seq<u8>, i: int) -> Seq<u8> {
    b.update(i, 0u8).update(i + 1, 0u8)
}

/// `r` is the 20-byte IPv4 header of `h` but for its checksum: no options, don't-fragment set,
/// identification zero, the total length counting the header.
pub open spec fn ipv4_header_layout(r: Seq<u8>, h: OutgoingIpv4) -> bool {
    &&& r.len() == 20
    &&& r[0] == 0x45u8
    &&& r[1] == 0u8
    &&& be16_at(r, 2) == h.payload_len + 20
    &&& r[4] == 0u8 && r[5] == 0u8
    &&& r[6] == 0x40u8 && r[7] == 0u8
    &&& r[8] == h.time_to_live
    &&& r[9] == h.protocol
    &&& r.subrange(12, 16) == h.source@
    &&& r.subrange(16, 20) == h.destination@
}

/// The flags byte of an outgoing TCP header.
pub open spec fn tcp_flags_byte(h: OutgoingTcp) -> u8 {
    ((if h.fin { 1u8 } else { 0u8 }) | (if h.syn { 2u8 } else { 0u8 }) | (if h.ack { 16u8 } else { 0u8 }))
}

/// `r` is the 20-byte TCP header of `h` but for its checksum: no options,
/// urgent pointer zero.
pub open spec fn tcp_header_layout(r: Seq<u8>, h: OutgoingTcp) -> bool {
    &&& r.len() == 20
    &&& be16_at(r, 0) == h.source_port
    &&& be16_at(r, 2) == h.destination_port
    &&& be32_at(r, 4) == h.sequence_number
    &&& be32_at(r, 8) == h.acknowledgment_number
    &&& r[12] == 0x50u8
    &&& r[13] == tcp_flags_byte(h)
    &&& be16_at(r, 14) == h.window_size
    &&& r[18] == 0u8 && r[19] == 0u8
}

/// Relies on etherparse's Ipv4Header::new, calc_header_checksum and
/// to_bytes: a header without options whose checksum is filled in.
/// Ipv4Header::new refuses a payload longer than 65515 bytes.
#[verifier::external_body]
pub(crate) fn ipv4_header_bytes(h: &OutgoingIpv4) -> (r: Vec<u8>)
    requires
        h.payload_len <= 65515,
    ensures
        ipv4_header_layout(r@, *h),
        be16_at(r@, 10) == ipv4_checksum(zero_at(r@, 10)),
{
    let protocol = etherparse::IpNumber(h.protocol);
    let mut header = etherparse::Ipv4Header::new(h.payload_len, h.time_to_live, protocol, h.source, h.destination).unwrap();
    header.header_checksum = header.calc_header_checksum();
    header.to_bytes().to_vec()
}

/// Relies on etherparse's TcpHeader::new, calc_checksum_ipv4_raw and
/// to_bytes: a header without options whose checksum is filled in for an
/// empty payload, which calc_checksum_ipv4_raw never refuses.
#[verifier::external_body]
pub(crate) fn tcp_header_bytes(h: &OutgoingTcp, source: [u8; 4], destination: [u8; 4]) -> (r: Vec<u8>)
    ensures
        tcp_header_layout(r@, *h),
        be16_at(r@, 16) == tcp_checksum_ipv4(source@, destination@, zero_at(r@, 16)),
{
    let mut header = etherparse::TcpHeader::new(h.source_port, h.destination_port, h.sequence_number, h.window_size);
    header.acknowledgment_number = h.acknowledgment_number;
    header.syn = h.syn;
    header.ack = h.ack;
    header.fin = h.fin;
    header.checksum = header.calc_checksum_ipv4_raw(source, destination, &[]).unwrap();
    header.to_bytes().to_vec()
}

} // verus!
