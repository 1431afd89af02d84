//! Matching completion events against waiting requests.
//!
//! When the controller reports a completion TRB, the event layer looks for
//! the request waiting on it. A wait condition constrains any of the TRB
//! type, the slot id and the event's TRB address; a record matches when it
//! satisfies every constraint that is present.

use crate::trb::trb_type_value;
use crate::trb::TrbBase;
use crate::trb::TrbType;
use vstd::prelude::*;

verus! {

/// What a waiter demands of a completion TRB: any subset of its type, its
/// parameter (the TRB address the completion points at) and its slot id.
pub struct EventWaitCond {
    trb_type: Option<TrbType>,
    trb_addr: Option<u64>,
    slot: Option<u8>,
}

impl EventWaitCond {
    /// The demanded TRB type, if any.
    pub closed spec fn spec_trb_type(&self) -> Option<TrbType> {
        self.trb_type
    }

    /// The demanded TRB address, if any.
    pub closed spec fn spec_trb_addr(&self) -> Option<u64> {
        self.trb_addr
    }

    /// The demanded slot id, if any.
    pub closed spec fn spec_slot(&self) -> Option<u8> {
        self.slot
    }

    /// A condition from its three optional constraints.
    pub fn new(trb_type: Option<TrbType>, trb_addr: Option<u64>, slot: Option<u8>) -> (r: Self)
        ensures
            r.spec_trb_type() == trb_type,
            r.spec_trb_addr() == trb_addr,
            r.spec_slot() == slot,
    {
        EventWaitCond { trb_type, trb_addr, slot }
    }
}

/// Whether the record `trb` satisfies every constraint of `cond` that is
/// present.
pub open spec fn spec_matches(cond: EventWaitCond, trb: TrbBase) -> bool {
    &&& (cond.spec_trb_type() matches Some(t) ==> trb.spec_trb_type() == trb_type_value(t))
    &&& (cond.spec_slot() matches Some(s) ==> trb.spec_slot_id() == s)
    &&& (cond.spec_trb_addr() matches Some(a) ==> trb.spec_buffer() == a)
}

/// A waiting request: its condition, and the matching completion TRBs
/// collected for it so far.
pub struct EventWaitInfo {
    cond: EventWaitCond,
    trbs: Vec<TrbBase>,
}

impl EventWaitInfo {
    /// The wait condition.
    pub closed spec fn spec_cond(&self) -> EventWaitCond {
        self.cond
    }

    /// The completion TRBs collected so far.
    pub closed spec fn spec_trbs(&self) -> Seq<TrbBase> {
        self.trbs@
    }

    /// A waiter for `cond` with nothing collected yet.
    pub fn new(cond: EventWaitCond) -> (r: Self)
        ensures
            r.spec_cond() == cond,
            r.spec_trbs().len() == 0,
    {
        EventWaitInfo { cond, trbs: Vec::new() }
    }

    /// Whether `trb` satisfies every constraint of this waiter's condition
    /// that is present.
    pub fn matches(&self, trb: &TrbBase) -> (r: bool)
        ensures
            r == spec_matches(self.spec_cond(), *trb),
    {
        match self.cond.trb_type {
            Some(trb_type) => {
                if trb.trb_type() != trb_type.value() {
                    return false;
                }
            },
            None => {},
        }
        match self.cond.slot {
            Some(slot) => {
                if trb.slot_id() != slot {
                    return false;
                }
            },
            None => {},
        }
        match self.cond.trb_addr {
            Some(trb_addr) => {
                if trb.data() != trb_addr {
                    return false;
                }
            },
            None => {},
        }
        true
    }

    /// How many completion TRBs have been collected.
    pub fn trb_count(&self) -> (r: usize)
        ensures
            r == self.spec_trbs().len(),
    {
        self.trbs.len()
    }

    /// Collect a completion TRB for this waiter.
    pub fn push_trb(&mut self, trb: TrbBase)
        ensures
            final(self).spec_cond() == old(self).spec_cond(),
            final(self).spec_trbs() == old(self).spec_trbs().push(trb),
    {
        self.trbs.push(trb);
    }
}

} // verus!
