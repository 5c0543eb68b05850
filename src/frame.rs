use vstd::prelude::*;
use vstd::slice::slice_subrange;
use crate::ident::IdentifyingTCB;
use crate::table::{entry_for, stored, ConnectionTable};
use crate::tcb::{step, Reply, Segment, TCB};
use crate::wire::{
    be16_at, ipv4_checksum, ipv4_fields_of, ipv4_header_bytes, ipv4_header_layout, ipv4_header_len,
    ipv4_ok, is_ipv4_ethertype, is_tcp_protocol, parse_ipv4_header, parse_tcp_header, tcp_checksum_ipv4,
    tcp_fields_of, tcp_header_bytes, tcp_header_layout, tcp_header_len, tcp_ok, zero_at, Ipv4Fields,
    OutgoingIpv4, OutgoingTcp, TcpFields,
};

verus! {

/// Time to live of the IPv4 headers this side sends.
pub const DEFAULT_TTL: u8 = 64;

/// IPv4 protocol number of TCP.
pub const TCP_PROTOCOL: u8 = 6;

/// Length of a TCP header without options.
pub const TCP_HEADER_LEN: u16 = 20;

/// The 4-byte prefix of a tunnel frame carrying IPv4: flags zero, then
/// ethertype 0x0800, both big-endian.
pub open spec fn ipv4_frame_prefix() -> Seq<u8> {
    seq![0u8, 0u8, 0x08u8, 0x00u8]
}

/// Why a frame was dropped.
#[derive(Clone, Copy, Debug, PartialEq, Eq, Structural)]
pub enum DropReason {
    /// Shorter than the 4-byte tunnel header.
    Truncated,
    /// An ethertype other than IPv4.
    UnsupportedEthertype,
    /// The IPv4 header does not parse.
    MalformedIpv4,
    /// A transport other than TCP.
    UnsupportedTransport,
    /// The TCP header does not parse.
    MalformedTcp,
}

/// What became of one frame.
#[derive(Debug)]
pub enum FrameOutcome {
    /// Dropped, with no connection touched.
    Dropped(DropReason),
    /// Applied to its connection, with the frame to send back, if any.
    Handled(Option<Vec<u8>>),
}

/// The IPv4 packet of a tunnel frame.
pub open spec fn ip_part(f: Seq<u8>) -> Seq<u8> {
    f.subrange(4, f.len() as int)
}

/// The TCP segment of a tunnel frame: what follows the IPv4 header.
pub open spec fn tcp_part(f: Seq<u8>) -> Seq<u8> {
    let ip = ip_part(f);
    ip.subrange(ipv4_header_len(ip), ip.len() as int)
}

/// The payload of a tunnel frame: what follows the TCP header.
pub open spec fn payload_part(f: Seq<u8>) -> Seq<u8> {
    let t = tcp_part(f);
    t.subrange(tcp_header_len(t), t.len() as int)
}

/// Why the frame `f` is dropped, checked in order; `None` for a TCP segment
/// over IPv4 whose headers parse.
pub open spec fn drop_reason(f: Seq<u8>) -> Option<DropReason> {
    if f.len() < 4 {
        Some(DropReason::Truncated)
    } else if !(f[2] == 0x08u8 && f[3] == 0x00u8) {
        Some(DropReason::UnsupportedEthertype)
    } else if !ipv4_ok(ip_part(f)) {
        Some(DropReason::MalformedIpv4)
    } else if ip_part(f)[9] != TCP_PROTOCOL {
        Some(DropReason::UnsupportedTransport)
    } else if !tcp_ok(tcp_part(f)) {
        Some(DropReason::MalformedTcp)
    } else {
        None
    }
}

/// The segment descriptor of a TCP header carrying `payload_len` bytes; the
/// length is kept modulo 2^32, as sequence numbers are.
pub open spec fn segment_from(t: TcpFields, payload_len: nat) -> Segment {
    Segment {
        syn: t.syn,
        ack: t.ack,
        fin: t.fin,
        rst: t.rst,
        sequence_number: t.sequence_number,
        acknowledgment_number: t.acknowledgment_number,
        window_size: t.window_size,
        payload_len: payload_len as u32,
    }
}

/// The connection a frame belongs to, seen from this side: the local end
/// is the frame's destination.
pub open spec fn frame_identifier(f: Seq<u8>) -> IdentifyingTCB {
    let ip = ipv4_fields_of(ip_part(f));
    let t = tcp_fields_of(tcp_part(f));
    IdentifyingTCB {
        local_address: ip.destination,
        remote_address: ip.source,
        local_port: t.destination_port,
        remote_port: t.source_port,
    }
}

pub open spec fn frame_segment(f: Seq<u8>) -> Segment {
    segment_from(tcp_fields_of(tcp_part(f)), payload_part(f).len())
}

/// The headers answering an inbound segment: addresses and ports swapped,
/// numbers and window from the block after its transition, flags from the
/// reply, no payload.
pub open spec fn reply_headers(t: TCB, rp: Reply, ip: Ipv4Fields, tcp: TcpFields) -> (OutgoingIpv4, OutgoingTcp) {
    (
        OutgoingIpv4 {
            source: ip.destination,
            destination: ip.source,
            time_to_live: DEFAULT_TTL,
            protocol: TCP_PROTOCOL,
            payload_len: TCP_HEADER_LEN,
        },
        OutgoingTcp {
            source_port: tcp.destination_port,
            destination_port: tcp.source_port,
            sequence_number: t.sequence_number,
            acknowledgment_number: t.acknowledgment_number,
            syn: rp.syn,
            ack: rp.ack,
            fin: rp.fin,
            window_size: t.window_size,
        },
    )
}

/// `r` is a tunnel frame carrying the IPv4 header `ip` and the TCP header
/// `tcp`, with their checksums.
pub open spec fn frame_layout(r: Seq<u8>, ip: OutgoingIpv4, tcp: OutgoingTcp) -> bool {
    let iph = r.subrange(4, 24);
    let tcph = r.subrange(24, 44);
    &&& r.len() == 44
    &&& r.subrange(0, 4) == ipv4_frame_prefix()
    &&& ipv4_header_layout(iph, ip)
    &&& be16_at(iph, 10) == ipv4_checksum(zero_at(iph, 10))
    &&& tcp_header_layout(tcph, tcp)
    &&& be16_at(tcph, 16) == tcp_checksum_ipv4(ip.source@, ip.destination@, zero_at(tcph, 16))
}

/// The segment descriptor of a parsed TCP header and its payload length.
pub fn segment_of(tcp: &TcpFields, payload_len: usize) -> (r: Segment)
    ensures
        r == segment_from(*tcp, payload_len as nat),
{
    Segment {
        syn: tcp.syn,
        ack: tcp.ack,
        fin: tcp.fin,
        rst: tcp.rst,
        sequence_number: tcp.sequence_number,
        acknowledgment_number: tcp.acknowledgment_number,
        window_size: tcp.window_size,
        payload_len: payload_len as u32,
    }
}

/// Builds the headers of a reply; the block is only read.
pub fn build_reply(tcb: &TCB, reply: &Reply, ip: &Ipv4Fields, tcp: &TcpFields) -> (r: (OutgoingIpv4, OutgoingTcp))
    ensures
        r == reply_headers(*tcb, *reply, *ip, *tcp),
{
    let out_ip = OutgoingIpv4 {
        source: ip.destination,
        destination: ip.source,
        time_to_live: DEFAULT_TTL,
        protocol: TCP_PROTOCOL,
        payload_len: TCP_HEADER_LEN,
    };
    let out_tcp = OutgoingTcp {
        source_port: tcp.destination_port,
        destination_port: tcp.source_port,
        sequence_number: tcb.sequence_number,
        acknowledgment_number: tcb.acknowledgment_number,
        syn: reply.syn,
        ack: reply.ack,
        fin: reply.fin,
        window_size: tcb.window_size,
    };
    (out_ip, out_tcp)
}

/// Serialises two headers into a tunnel frame.
pub fn reply_frame(ip: &OutgoingIpv4, tcp: &OutgoingTcp) -> (r: Vec<u8>)
    requires
        ip.payload_len <= 65515,
    ensures
        frame_layout(r@, *ip, *tcp),
{
    let mut out: Vec<u8> = vec![0u8, 0u8, 0x08u8, 0x00u8];
    let mut ip_bytes = ipv4_header_bytes(ip);
    let ghost iph = ip_bytes@;
    out.append(&mut ip_bytes);
    let mut tcp_bytes = tcp_header_bytes(tcp, ip.source, ip.destination);
    let ghost tcph = tcp_bytes@;
    out.append(&mut tcp_bytes);
    assert(out@.subrange(0, 4) =~= ipv4_frame_prefix());
    assert(out@.subrange(4, 24) =~= iph);
    assert(out@.subrange(24, 44) =~= tcph);
    out
}

/// Processes one tunnel frame: drops what is not a well-formed TCP segment
/// over IPv4, and otherwise applies the segment to its connection's block,
/// created in Listen on first sight, and frames the reply it calls for.
pub fn process_frame(table: &mut ConnectionTable, frame: &[u8]) -> (r: FrameOutcome)
    ensures
        match r {
            FrameOutcome::Dropped(why) => drop_reason(frame@) == Some(why) && final(table)@ == old(table)@,
            FrameOutcome::Handled(out) => {
                let id = frame_identifier(frame@);
                let (t, rep) = step(entry_for(old(table)@, id), frame_segment(frame@));
                &&& drop_reason(frame@) is None
                &&& final(table)@ == stored(old(table)@, id, t)
                &&& match rep {
                    None => out is None,
                    Some(rp) => match out {
                        Some(bytes) => {
                            let (oi, ot) = reply_headers(
                                t,
                                rp,
                                ipv4_fields_of(ip_part(frame@)),
                                tcp_fields_of(tcp_part(frame@)),
                            );
                            frame_layout(bytes@, oi, ot)
                        },
                        None => false,
                    },
                }
            },
        },
{
    if frame.len() < 4 {
        return FrameOutcome::Dropped(DropReason::Truncated);
    }
    if !is_ipv4_ethertype(frame[2], frame[3]) {
        return FrameOutcome::Dropped(DropReason::UnsupportedEthertype);
    }
    let ip_bytes = slice_subrange(frame, 4, frame.len());
    assert(ip_bytes@ == ip_part(frame@));
    let (ip, ip_payload) = match parse_ipv4_header(ip_bytes) {
        Ok(parsed) => parsed,
        Err(_) => {
            return FrameOutcome::Dropped(DropReason::MalformedIpv4);
        },
    };
    if !is_tcp_protocol(ip.protocol) {
        return FrameOutcome::Dropped(DropReason::UnsupportedTransport);
    }
    let (tcp, payload) = match parse_tcp_header(ip_payload) {
        Ok(parsed) => parsed,
        Err(_) => {
            return FrameOutcome::Dropped(DropReason::MalformedTcp);
        },
    };
    let id = IdentifyingTCB::new(ip.destination, ip.source, tcp.destination_port, tcp.source_port);
    assert(id == frame_identifier(frame@));
    let seg = segment_of(&tcp, payload.len());
    let tcb = table.get_or_create(&id);
    match tcb.on_packet(&seg) {
        None => FrameOutcome::Handled(None),
        Some(reply) => {
            let (out_ip, out_tcp) = build_reply(tcb, &reply, &ip, &tcp);
            FrameOutcome::Handled(Some(reply_frame(&out_ip, &out_tcp)))
        },
    }
}

} // verus!
