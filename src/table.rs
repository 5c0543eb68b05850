use vstd::prelude::*;
use std::collections::HashMap;
use crate::ident::IdentifyingTCB;
use crate::tcb::{TcpState, TCB};

verus! {

/// The block that a connection first seen gets: its identifier, zero
/// numbers, in Listen.
pub open spec fn fresh(id: IdentifyingTCB) -> TCB {
    TCB {
        identifier: id,
        sequence_number: 0,
        acknowledgment_number: 0,
        window_size: 0,
        state: TcpState::Listen,
    }
}

/// The block that a lookup of `id` in the table `m` hands out: the stored
/// one, or a fresh one where the key is absent.
pub open spec fn entry_for(m: Map<u128, TCB>, id: IdentifyingTCB) -> TCB {
    if m.contains_key(id.packed()) {
        m[id.packed()]
    } else {
        fresh(id)
    }
}

/// The table after a lookup of `id` whose block was left as `t`.
pub open spec fn stored(m: Map<u128, TCB>, id: IdentifyingTCB, t: TCB) -> Map<u128, TCB> {
    m.insert(id.packed(), t)
}

/// Connections by packed identifier, one block each.
pub struct ConnectionTable {
    connections: HashMap<u128, TCB>,
}

impl View for ConnectionTable {
    type V = Map<u128, TCB>;

    closed spec fn view(&self) -> Map<u128, TCB> {
        self.connections@
    }
}

impl ConnectionTable {
    pub fn new() -> (r: ConnectionTable)
        ensures
            r@ == Map::<u128, TCB>::empty(),
    {
        ConnectionTable { connections: HashMap::new() }
    }

    pub fn len(&self) -> (r: usize)
        ensures
            r == self@.len(),
    {
        self.connections.len()
    }

    /// The block of `id`, if the table holds one.
    pub fn get(&self, id: &IdentifyingTCB) -> (r: Option<&TCB>)
        ensures
            match r {
                Some(t) => self@.contains_key(id.packed()) && *t == self@[id.packed()],
                None => !self@.contains_key(id.packed()),
            },
    {
        let key = id.pack_tcb();
        self.connections.get(&key)
    }

    /// The block of `id`, created in Listen if the table holds none. The
    /// table keeps whatever is done through the returned reference.
    pub fn get_or_create(&mut self, id: &IdentifyingTCB) -> (r: &mut TCB)
        ensures
            *r == entry_for(old(self)@, *id),
            final(self)@ == stored(old(self)@, *id, *final(r)),
    {
        let key = id.pack_tcb();
        let fresh = TCB::with_values(*id, 0, 0, 0, TcpState::Listen);
        self.connections.entry(key).or_insert(fresh)
    }
}

/// A second lookup of the same identifier finds the block that the first
/// one handed out, as it was left through that reference, and the table
/// still holds one entry for the connection.
pub proof fn lemma_lookup_twice(m: Map<u128, TCB>, id: IdentifyingTCB, first: TCB, second: TCB)
    ensures
        entry_for(stored(m, id, first), id) == first,
        stored(stored(m, id, first), id, second) == stored(m, id, second),
        stored(m, id, first).dom() == m.dom().insert(id.packed()),
{
    assert(stored(stored(m, id, first), id, second) =~= stored(m, id, second));
    assert(stored(m, id, first).dom() =~= m.dom().insert(id.packed()));
}

} // verus!
