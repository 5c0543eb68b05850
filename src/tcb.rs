use vstd::prelude::*;
use crate::ident::IdentifyingTCB;

verus! {

/// The initial sequence number this side picks when it answers a SYN.
pub const INITIAL_SEQUENCE: u32 = 0;

/// Connection states of RFC 793.
#[derive(Clone, Copy, Debug, PartialEq, Eq, Structural)]
pub enum TcpState {
    Closed,
    Listen,
    SynSent,
    SynReceived,
    Established,
    FinWait1,
    FinWait2,
    CloseWait,
    Closing,
    LastAck,
    TimeWait,
}

impl Default for TcpState {
    fn default() -> (r: TcpState)
        ensures
            r == TcpState::Listen,
    {
        TcpState::Listen
    }
}

/// What the state machine reads of an inbound TCP segment.
#[derive(Clone, Copy, Debug, PartialEq, Eq, Structural)]
pub struct Segment {
    pub syn: bool,
    pub ack: bool,
    pub fin: bool,
    pub rst: bool,
    pub sequence_number: u32,
    pub acknowledgment_number: u32,
    pub window_size: u16,
    /// Payload length modulo 2^32.
    pub payload_len: u32,
}

/// The control flags of a segment to send back. Its sequence and
/// acknowledgment numbers and its window are those of the connection's
/// block after the transition.
#[derive(Clone, Copy, Debug, PartialEq, Eq, Structural)]
pub struct Reply {
    pub syn: bool,
    pub ack: bool,
    pub fin: bool,
}

/// Transmission control block: the state of one connection.
#[derive(Clone, Copy, Debug)]
pub struct TCB {
    pub identifier: IdentifyingTCB,
    /// Next sequence number this side sends.
    pub sequence_number: u32,
    /// Next sequence number expected from the peer.
    pub acknowledgment_number: u32,
    pub window_size: u16,
    pub state: TcpState,
}

pub open spec fn syn_ack() -> Reply {
    Reply { syn: true, ack: true, fin: false }
}

pub open spec fn ack_only() -> Reply {
    Reply { syn: false, ack: true, fin: false }
}

pub open spec fn fin_ack() -> Reply {
    Reply { syn: false, ack: true, fin: true }
}

/// The sequence number that follows a segment: its payload and its FIN (or
/// SYN) take one number each, modulo 2^32.
pub open spec fn after_control(s: Segment) -> u32 {
    s.sequence_number.wrapping_add(s.payload_len).wrapping_add(1)
}

/// `t` moved to state `st` with the given numbers.
pub open spec fn moved(t: TCB, st: TcpState, seq: u32, ack: u32) -> TCB {
    TCB { state: st, sequence_number: seq, acknowledgment_number: ack, ..t }
}

/// The transition taken on an inbound segment: the block afterwards and the
/// reply to send, if any. A segment that is no trigger of the current state
/// leaves the block as it was and gets no reply; so does a SYN in any state
/// but Listen and SynSent.
pub open spec fn step(t: TCB, s: Segment) -> (TCB, Option<Reply>) {
    let unchanged = (t, None::<Reply>);
    match t.state {
        TcpState::Listen => if s.syn && !s.ack {
            (
                moved(t, TcpState::SynReceived, INITIAL_SEQUENCE, s.sequence_number.wrapping_add(1)),
                Some(syn_ack()),
            )
        } else {
            unchanged
        },
        TcpState::SynSent => if s.syn && s.ack {
            (
                moved(t, TcpState::Established, s.acknowledgment_number, s.sequence_number.wrapping_add(1)),
                Some(ack_only()),
            )
        } else {
            unchanged
        },
        _ => if s.syn {
            unchanged
        } else {
            match t.state {
                TcpState::SynReceived => if s.ack && s.acknowledgment_number
                    == t.sequence_number.wrapping_add(1) {
                    (
                        moved(t, TcpState::Established, t.sequence_number.wrapping_add(1), t.acknowledgment_number),
                        None,
                    )
                } else {
                    unchanged
                },
                TcpState::Established => if s.fin {
                    (moved(t, TcpState::CloseWait, t.sequence_number, after_control(s)), Some(ack_only()))
                } else {
                    unchanged
                },
                TcpState::FinWait1 => if s.fin {
                    (moved(t, TcpState::Closing, t.sequence_number, after_control(s)), Some(ack_only()))
                } else if s.ack {
                    (moved(t, TcpState::FinWait2, t.sequence_number, t.acknowledgment_number), None)
                } else {
                    unchanged
                },
                TcpState::FinWait2 => if s.fin {
                    (moved(t, TcpState::TimeWait, t.sequence_number, after_control(s)), Some(ack_only()))
                } else {
                    unchanged
                },
                TcpState::Closing => if s.ack {
                    (moved(t, TcpState::TimeWait, t.sequence_number, t.acknowledgment_number), None)
                } else {
                    unchanged
                },
                TcpState::LastAck => if s.ack {
                    (moved(t, TcpState::Closed, t.sequence_number, t.acknowledgment_number), None)
                } else {
                    unchanged
                },
                _ => unchanged,
            }
        },
    }
}

/// The transition on a local close request: Established and CloseWait send
/// a FIN; every other state ignores the request.
pub open spec fn close_step(t: TCB) -> (TCB, Option<Reply>) {
    match t.state {
        TcpState::Established => (
            moved(t, TcpState::FinWait1, t.sequence_number, t.acknowledgment_number),
            Some(fin_ack()),
        ),
        TcpState::CloseWait => (
            moved(t, TcpState::LastAck, t.sequence_number, t.acknowledgment_number),
            Some(fin_ack()),
        ),
        _ => (t, None),
    }
}

impl TCB {
    /// A block with zero numbers, the default identifier, in Listen.
    pub fn new() -> (r: TCB)
        ensures
            r.identifier.local_address@ == seq![0u8, 0, 0, 0],
            r.identifier.remote_address@ == seq![0u8, 0, 0, 0],
            r.identifier.local_port == 0,
            r.identifier.remote_port == 0,
            r.sequence_number == 0,
            r.acknowledgment_number == 0,
            r.window_size == 0,
            r.state == TcpState::Listen,
    {
        TCB {
            identifier: IdentifyingTCB::default(),
            sequence_number: 0,
            acknowledgment_number: 0,
            window_size: 0,
            state: TcpState::default(),
        }
    }

    pub fn with_values(
        identifier: IdentifyingTCB,
        sequence_number: u32,
        acknowledgment_number: u32,
        window_size: u16,
        state: TcpState,
    ) -> (r: TCB)
        ensures
            r == (TCB { identifier, sequence_number, acknowledgment_number, window_size, state }),
    {
        TCB { identifier, sequence_number, acknowledgment_number, window_size, state }
    }

    fn move_to(&mut self, state: TcpState, sequence_number: u32, acknowledgment_number: u32)
        ensures
            *final(self) == moved(*old(self), state, sequence_number, acknowledgment_number),
    {
        self.state = state;
        self.sequence_number = sequence_number;
        self.acknowledgment_number = acknowledgment_number;
    }

    /// Applies an inbound segment and returns the reply it calls for.
    pub fn on_packet(&mut self, seg: &Segment) -> (r: Option<Reply>)
        ensures
            (*final(self), r) == step(*old(self), *seg),
    {
        let seq = self.sequence_number;
        let ack = self.acknowledgment_number;
        match self.state {
            TcpState::Listen => {
                if seg.syn && !seg.ack {
                    self.move_to(
                        TcpState::SynReceived,
                        INITIAL_SEQUENCE,
                        seg.sequence_number.wrapping_add(1),
                    );
                    return Some(Reply { syn: true, ack: true, fin: false });
                }
                return None;
            },
            TcpState::SynSent => {
                if seg.syn && seg.ack {
                    self.move_to(
                        TcpState::Established,
                        seg.acknowledgment_number,
                        seg.sequence_number.wrapping_add(1),
                    );
                    return Some(Reply { syn: false, ack: true, fin: false });
                }
                return None;
            },
            _ => {},
        }
        if seg.syn {
            return None;
        }
        let fin_next = seg.sequence_number.wrapping_add(seg.payload_len).wrapping_add(1);
        match self.state {
            TcpState::SynReceived => {
                if seg.ack && seg.acknowledgment_number == seq.wrapping_add(1) {
                    self.move_to(TcpState::Established, seq.wrapping_add(1), ack);
                }
                None
            },
            TcpState::Established => {
                if seg.fin {
                    self.move_to(TcpState::CloseWait, seq, fin_next);
                    Some(Reply { syn: false, ack: true, fin: false })
                } else {
                    None
                }
            },
            TcpState::FinWait1 => {
                if seg.fin {
                    self.move_to(TcpState::Closing, seq, fin_next);
                    Some(Reply { syn: false, ack: true, fin: false })
                } else {
                    if seg.ack {
                        self.move_to(TcpState::FinWait2, seq, ack);
                    }
                    None
                }
            },
            TcpState::FinWait2 => {
                if seg.fin {
                    self.move_to(TcpState::TimeWait, seq, fin_next);
                    Some(Reply { syn: false, ack: true, fin: false })
                } else {
                    None
                }
            },
            TcpState::Closing => {
                if seg.ack {
                    self.move_to(TcpState::TimeWait, seq, ack);
                }
                None
            },
            TcpState::LastAck => {
                if seg.ack {
                    self.move_to(TcpState::Closed, seq, ack);
                }
                None
            },
            _ => None,
        }
    }

    /// Applies a local close request and returns the FIN it calls for.
    pub fn close(&mut self) -> (r: Option<Reply>)
        ensures
            (*final(self), r) == close_step(*old(self)),
    {
        let seq = self.sequence_number;
        let ack = self.acknowledgment_number;
        match self.state {
            TcpState::Established => {
                self.move_to(TcpState::FinWait1, seq, ack);
                Some(Reply { syn: false, ack: true, fin: true })
            },
            TcpState::CloseWait => {
                self.move_to(TcpState::LastAck, seq, ack);
                Some(Reply { syn: false, ack: true, fin: true })
            },
            _ => None,
        }
    }

    /// Ends the TimeWait period: TimeWait moves to Closed, any other state
    /// stays as it is.
    pub fn on_timeout(&mut self)
        ensures
            *final(self) == (if old(self).state == TcpState::TimeWait {
                moved(*old(self), TcpState::Closed, old(self).sequence_number, old(self).acknowledgment_number)
            } else {
                *old(self)
            }),
    {
        if let TcpState::TimeWait = self.state {
            self.state = TcpState::Closed;
        }
    }
}

impl Default for TCB {
    fn default() -> (r: TCB)
        ensures
            r.sequence_number == 0,
            r.acknowledgment_number == 0,
            r.window_size == 0,
            r.state == TcpState::Listen,
    {
        TCB::new()
    }
}

/// A SYN without ACK in Listen moves to SynReceived and is answered by one
/// SYN+ACK that acknowledges the SYN's sequence number plus one.
pub proof fn lemma_listen_answers_syn(t: TCB, s: Segment)
    requires
        t.state == TcpState::Listen,
        s.syn,
        !s.ack,
    ensures
        step(t, s).0.state == TcpState::SynReceived,
        step(t, s).1 == Some(syn_ack()),
        step(t, s).0.acknowledgment_number == s.sequence_number.wrapping_add(1),
{
}

/// A segment without SYN in Listen changes nothing and gets no reply.
pub proof fn lemma_listen_ignores_non_syn(t: TCB, s: Segment)
    requires
        t.state == TcpState::Listen,
        !s.syn,
    ensures
        step(t, s) == (t, None::<Reply>),
{
}

/// In SynReceived, an ACK whose number is not the initial sequence number
/// plus one changes nothing; the one that is moves to Established, silently.
pub proof fn lemma_syn_received_needs_matching_ack(t: TCB, s: Segment)
    requires
        t.state == TcpState::SynReceived,
        !s.syn,
        s.ack,
    ensures
        s.acknowledgment_number != t.sequence_number.wrapping_add(1) ==> step(t, s) == (t, None::<Reply>),
        s.acknowledgment_number == t.sequence_number.wrapping_add(1) ==> step(t, s).0.state
            == TcpState::Established && step(t, s).1 == None::<Reply>,
{
}

/// A FIN in Established moves to CloseWait and is answered by one ACK.
pub proof fn lemma_established_acknowledges_fin(t: TCB, s: Segment)
    requires
        t.state == TcpState::Established,
        !s.syn,
        s.fin,
    ensures
        step(t, s).0.state == TcpState::CloseWait,
        step(t, s).1 == Some(ack_only()),
{
}

} // verus!
