//! The ring buffers shared with the host controller.
//!
//! A ring is an array of exactly [`NUM_TRB`] TRB slots at a fixed, page-
//! aligned physical base address, plus a cursor. The last slot always holds
//! a Link TRB pointing back at slot 0 with its toggle-cycle bit set, so the
//! usable capacity is `NUM_TRB - 1`. Each slot's cycle bit says which party
//! — software or hardware — owns the slot, relative to the owning ring's
//! `cycle_state_ours` flag; flipping that bit is the only synchronization
//! signal between the two parties, so content fields are always written
//! before the cycle bit.

use crate::trb::only_cycle_bit_changed;
use crate::trb::trb_type_value;
use crate::trb::NormalTrb;
use crate::trb::TrbBase;
use crate::trb::TrbType;
use crate::volatile::bit32;
use crate::volatile::bits32;
use vstd::prelude::*;

verus! {

broadcast use crate::trb::lemma_raw_spec_fields;

/// Number of TRB slots in every ring of this driver.
pub const NUM_TRB: usize = 16;

/// A circular array of [`NUM_TRB`] TRB slots at a fixed physical address,
/// with a cursor. On the machine the slot array is pinned, DMA-visible
/// memory; here the physical base address is carried as a plain value and
/// slot `i` sits at `base + 16 * i`.
pub struct TrbRing {
    base: u64,
    trb: Vec<TrbBase>,
    current_index: usize,
}

impl TrbRing {
    /// Physical address of slot 0.
    pub closed spec fn spec_base(&self) -> u64 {
        self.base
    }

    /// The slot records, in ring order.
    pub closed spec fn slots(&self) -> Seq<TrbBase> {
        self.trb@
    }

    /// The cursor.
    pub closed spec fn spec_current_index(&self) -> int {
        self.current_index as int
    }

    /// Well-formed ring: exactly [`NUM_TRB`] slots, cursor in range, and a
    /// page-aligned base address with room for the slot array behind it.
    pub open spec fn wf(&self) -> bool {
        &&& self.slots().len() == NUM_TRB
        &&& 0 <= self.spec_current_index() < NUM_TRB
        &&& self.spec_base() % 4096 == 0
        &&& self.spec_base() + 4095 <= u64::MAX
    }

    /// A fresh ring: every slot entirely zero, cursor on slot 0.
    pub fn new(base: u64) -> (r: Self)
        requires
            base % 4096 == 0,
            base + 4095 <= u64::MAX,
        ensures
            r.wf(),
            r.spec_base() == base,
            r.spec_current_index() == 0,
            forall|i: int|
                0 <= i < NUM_TRB ==> {
                    &&& (#[trigger] r.slots()[i]).spec_control() == 0
                    &&& r.slots()[i].spec_buffer() == 0
                    &&& r.slots()[i].spec_transfer_info() == 0
                },
    {
        let mut trb: Vec<TrbBase> = Vec::new();
        let mut i: usize = 0;
        while i < NUM_TRB
            invariant
                i <= NUM_TRB,
                trb@.len() == i,
                forall|j: int|
                    0 <= j < i ==> {
                        &&& (#[trigger] trb@[j]).spec_control() == 0
                        &&& trb@[j].spec_buffer() == 0
                        &&& trb@[j].spec_transfer_info() == 0
                    },
            decreases NUM_TRB - i,
        {
            trb.push(TrbBase::from_raw(0, 0, 0));
            i = i + 1;
        }
        TrbRing { base, trb, current_index: 0 }
    }

    /// Move the cursor back to slot 0 and clear every slot's cycle bit to
    /// the initial owner; all other bits of every slot are kept.
    pub fn reset(&mut self)
        requires
            old(self).wf(),
        ensures
            final(self).wf(),
            final(self).spec_base() == old(self).spec_base(),
            final(self).spec_current_index() == 0,
            forall|i: int|
                0 <= i < NUM_TRB ==> only_cycle_bit_changed(
                    old(self).slots()[i],
                    #[trigger] final(self).slots()[i],
                    false,
                ),
    {
        self.current_index = 0;
        let mut i: usize = 0;
        while i < NUM_TRB
            invariant
                i <= NUM_TRB,
                self.base == old(self).base,
                self.current_index == 0,
                self.trb@.len() == NUM_TRB,
                forall|j: int|
                    0 <= j < i ==> only_cycle_bit_changed(
                        old(self).slots()[j],
                        #[trigger] self.trb@[j],
                        false,
                    ),
                forall|j: int| i <= j < NUM_TRB ==> #[trigger] self.trb@[j] == old(self).slots()[j],
            decreases NUM_TRB - i,
        {
            let mut t = self.trb[i];
            t.set_cycle_bit_state(false);
            self.trb[i] = t;
            i = i + 1;
        }
    }

    /// Physical base address of the slot array, as installed in Link TRBs
    /// and controller registers.
    pub fn phys_addr(&self) -> (r: u64)
        ensures
            r == self.spec_base(),
    {
        self.base
    }

    /// The fixed slot count of the ring.
    pub fn num_trbs(&self) -> (r: usize)
        ensures
            r == NUM_TRB,
    {
        NUM_TRB
    }

    /// A copy of the record in slot `index`.
    pub fn trb(&self, index: usize) -> (r: TrbBase)
        requires
            self.wf(),
            index < NUM_TRB,
        ensures
            r == self.slots()[index as int],
    {
        self.trb[index]
    }

    /// A copy of the record under the cursor.
    pub fn current(&self) -> (r: TrbBase)
        requires
            self.wf(),
        ensures
            r == self.slots()[self.spec_current_index()],
    {
        self.trb[self.current_index]
    }

    /// Whether `advance_index(new_cycle)` is allowed here: the cycle bit of
    /// the slot under the cursor must differ from `new_cycle`, else the
    /// advance would be a double-advance logic error.
    pub fn can_advance_index(&self, new_cycle: bool) -> (r: bool)
        requires
            self.wf(),
        ensures
            r == (self.slots()[self.spec_current_index()].spec_cycle_bit() != new_cycle),
    {
        self.current().cycle_bit_state() != new_cycle
    }

    /// Hand the slot under the cursor to the other party: write its cycle
    /// bit to `new_cycle` — which must flip it — and advance the cursor by
    /// one, wrapping. This is the sole mechanism by which slot ownership
    /// changes side; content fields are always written before this flip.
    pub fn advance_index(&mut self, new_cycle: bool)
        requires
            old(self).wf(),
            old(self).slots()[old(self).spec_current_index()].spec_cycle_bit() != new_cycle,
        ensures
            final(self).wf(),
            final(self).spec_base() == old(self).spec_base(),
            final(self).spec_current_index() == (old(self).spec_current_index() + 1) % (
            NUM_TRB as int),
            only_cycle_bit_changed(
                old(self).slots()[old(self).spec_current_index()],
                final(self).slots()[old(self).spec_current_index()],
                new_cycle,
            ),
            forall|i: int|
                0 <= i < NUM_TRB && i != old(self).spec_current_index()
                    ==> final(self).slots()[i] == old(self).slots()[i],
    {
        let i = self.current_index;
        let mut t = self.trb[i];
        t.set_cycle_bit_state(new_cycle);
        self.trb[i] = t;
        self.current_index = (i + 1) % NUM_TRB;
    }

    /// Advance the cursor past a slot whose cycle bit must equal
    /// `cycle_ours` — confirming consumption without producing; no slot is
    /// modified.
    pub fn advance_index_notoggle(&mut self, cycle_ours: bool)
        requires
            old(self).wf(),
            old(self).slots()[old(self).spec_current_index()].spec_cycle_bit() == cycle_ours,
        ensures
            final(self).wf(),
            final(self).spec_base() == old(self).spec_base(),
            final(self).spec_current_index() == (old(self).spec_current_index() + 1) % (
            NUM_TRB as int),
            final(self).slots() == old(self).slots(),
    {
        self.current_index = (self.current_index + 1) % NUM_TRB;
    }

    /// The cursor position.
    pub fn current_index(&self) -> (r: usize)
        ensures
            r == self.spec_current_index(),
    {
        self.current_index
    }

    /// Physical address of the slot under the cursor.
    pub fn current_ptr(&self) -> (r: u64)
        requires
            self.wf(),
        ensures
            r == self.spec_base() + 16 * self.spec_current_index(),
    {
        self.base + 16 * (self.current_index as u64)
    }

    /// Physical address of slot `index`.
    pub fn trb_ptr(&self, index: usize) -> (r: u64)
        requires
            self.wf(),
            index < NUM_TRB,
        ensures
            r == self.spec_base() + 16 * index,
    {
        self.base + 16 * (index as u64)
    }

    /// Store a whole record into slot `index`; the cursor does not move.
    pub fn write(&mut self, index: usize, trb: TrbBase)
        requires
            old(self).wf(),
            index < NUM_TRB,
        ensures
            final(self).wf(),
            final(self).spec_base() == old(self).spec_base(),
            final(self).spec_current_index() == old(self).spec_current_index(),
            final(self).slots() == old(self).slots().update(index as int, trb),
    {
        self.trb[index] = trb;
    }

    /// Store a whole record into the slot under the cursor.
    pub fn write_current(&mut self, trb: TrbBase)
        requires
            old(self).wf(),
        ensures
            final(self).wf(),
            final(self).spec_base() == old(self).spec_base(),
            final(self).spec_current_index() == old(self).spec_current_index(),
            final(self).slots() == old(self).slots().update(old(self).spec_current_index(), trb),
    {
        let i = self.current_index;
        self.trb[i] = trb;
    }
}

/// The protocol-relevant state of a ring together with its owner's cycle
/// flag: each slot's cycle bit and type code, the cursor, and which bit
/// value currently means software-owned.
#[verifier::ext_equal]
pub struct RingProtocolState {
    /// The cycle bit of each slot.
    pub cycles: Seq<bool>,
    /// The TRB type code of each slot.
    pub types: Seq<u32>,
    /// The cursor.
    pub index: int,
    /// The cycle-bit value that currently means software-owned.
    pub ours: bool,
}

impl RingProtocolState {
    /// Both sequences cover the ring and the cursor is in range.
    pub open spec fn wf(self) -> bool {
        &&& self.cycles.len() == NUM_TRB
        &&& self.types.len() == NUM_TRB
        &&& 0 <= self.index < NUM_TRB
    }

    /// Whether the slot under the cursor is on the Link TRB.
    pub open spec fn on_link(self) -> bool {
        self.types[self.index] == trb_type_value(TrbType::Link)
    }

    /// Guard of one producer advance: the slot under the cursor must still
    /// be software-owned, so that handing it over flips its cycle bit.
    pub open spec fn can_advance(self) -> bool {
        self.cycles[self.index] == self.ours
    }

    /// One producer advance: the slot under the cursor is handed to the
    /// hardware and the cursor moves on, wrapping.
    pub open spec fn advance(self) -> RingProtocolState {
        RingProtocolState {
            cycles: self.cycles.update(self.index, !self.ours),
            index: (self.index + 1) % (NUM_TRB as int),
            ..self
        }
    }

    /// Guard of one dequeue step: the advance is allowed and, if it lands on
    /// the Link TRB, so is the advance past it.
    pub open spec fn can_step(self) -> bool {
        &&& self.can_advance()
        &&& (self.advance().on_link() ==> self.advance().can_advance())
    }

    /// One dequeue step: advance; if the cursor then sits on the Link TRB,
    /// advance past it as well and flip the meaning of software-owned.
    pub open spec fn step(self) -> RingProtocolState {
        let a = self.advance();
        if a.on_link() {
            RingProtocolState { ours: !self.ours, ..a.advance() }
        } else {
            a
        }
    }
}

/// The ring buffer on which the driver issues commands to the controller:
/// software appends TRBs, the controller consumes them. Created once, reset
/// on controller reset; its last slot always holds the Link TRB installed at
/// construction.
pub struct CommandRing {
    ring: TrbRing,
    cycle_state_ours: bool,
}

impl CommandRing {
    /// The underlying slot ring.
    pub closed spec fn spec_ring(&self) -> TrbRing {
        self.ring
    }

    /// Which cycle-bit value currently means software-owned.
    pub closed spec fn spec_cycle_state_ours(&self) -> bool {
        self.cycle_state_ours
    }

    /// Well-formed command ring.
    pub open spec fn wf(&self) -> bool {
        self.spec_ring().wf()
    }

    /// Build a command ring whose slot array sits at physical address
    /// `base`: all slots zeroed, except the last, which holds the Link TRB
    /// pointing back at `base` with its toggle-cycle bit set.
    pub fn new(base: u64) -> (r: Self)
        requires
            base % 4096 == 0,
            base + 4095 <= u64::MAX,
        ensures
            r.wf(),
            !r.spec_cycle_state_ours(),
            r.spec_ring().spec_base() == base,
            r.spec_ring().spec_current_index() == 0,
            r.spec_ring().slots()[NUM_TRB - 1].spec_trb_type() == trb_type_value(TrbType::Link),
            r.spec_ring().slots()[NUM_TRB - 1].spec_buffer() == base,
            r.spec_ring().slots()[NUM_TRB - 1].spec_toggle_cycle(),
            !r.spec_ring().slots()[NUM_TRB - 1].spec_cycle_bit(),
            forall|i: int|
                0 <= i < NUM_TRB - 1 ==> {
                    &&& (#[trigger] r.spec_ring().slots()[i]).spec_control() == 0
                    &&& r.spec_ring().slots()[i].spec_buffer() == 0
                    &&& r.spec_ring().slots()[i].spec_transfer_info() == 0
                },
    {
        let mut ring = TrbRing::new(base);
        let link_trb = TrbBase::trb_link(&ring);
        ring.write(NUM_TRB - 1, link_trb);
        CommandRing { ring, cycle_state_ours: false }
    }

    /// Reset ring contents and cycle-state flag together: the cursor returns
    /// to slot 0, every cycle bit is cleared, and `false` again means
    /// software-owned. The two must never be reset independently, or the
    /// flag would desynchronize from the slot bits.
    pub fn reset(&mut self)
        requires
            old(self).wf(),
        ensures
            final(self).wf(),
            !final(self).spec_cycle_state_ours(),
            final(self).spec_ring().spec_base() == old(self).spec_ring().spec_base(),
            final(self).spec_ring().spec_current_index() == 0,
            forall|i: int|
                0 <= i < NUM_TRB ==> only_cycle_bit_changed(
                    old(self).spec_ring().slots()[i],
                    #[trigger] final(self).spec_ring().slots()[i],
                    false,
                ),
    {
        self.cycle_state_ours = false;
        self.ring.reset();
    }

    /// Physical base address of the ring, as installed in the controller's
    /// command-ring-control register.
    pub fn ring_phys_addr(&self) -> (r: u64)
        ensures
            r == self.spec_ring().spec_base(),
    {
        self.ring.phys_addr()
    }

    /// Read access to the underlying ring.
    pub fn ring(&self) -> (r: &TrbRing)
        ensures
            *r == self.spec_ring(),
    {
        &self.ring
    }

    /// Which cycle-bit value currently means software-owned.
    pub fn cycle_state_ours(&self) -> (r: bool)
        ensures
            r == self.spec_cycle_state_ours(),
    {
        self.cycle_state_ours
    }
}

/// Distance from slot `from` forward to slot `to`, walking the ring.
pub open spec fn ring_distance(from: int, to: int) -> int {
    (to - from) % (NUM_TRB as int)
}

/// The cursor position at which `fill_ring` stops: the position whose next
/// usable index (counted modulo the usable capacity) is `NUM_TRB - 4`,
/// leaving a safety margin of free slots before the wraparound.
pub open spec fn fill_stop_index() -> int {
    (NUM_TRB - 5) as int
}

/// The ring buffer through which data travels between software and a USB
/// device: software appends TRBs, the controller consumes them and reports
/// completions. Owns one fixed 4096-byte pinned buffer per usable slot,
/// allocated at construction and associated with its slot for the ring's
/// lifetime.
pub struct TransferRingInner {
    ring: TrbRing,
    cycle_state_ours: bool,
    dequeue_index: usize,
    buffers: Vec<u64>,
}

impl TransferRingInner {
    /// The underlying slot ring.
    pub closed spec fn spec_ring(&self) -> TrbRing {
        self.ring
    }

    /// Which cycle-bit value currently means software-owned.
    pub closed spec fn spec_cycle_state_ours(&self) -> bool {
        self.cycle_state_ours
    }

    /// The consumer cursor, counted over the usable slots.
    pub closed spec fn spec_dequeue_index(&self) -> int {
        self.dequeue_index as int
    }

    /// Physical addresses of the per-slot data buffers.
    pub closed spec fn spec_buffers(&self) -> Seq<u64> {
        self.buffers@
    }

    /// Well-formed transfer ring.
    pub open spec fn wf(&self) -> bool {
        &&& self.spec_ring().wf()
        &&& 0 <= self.spec_dequeue_index() < NUM_TRB - 1
        &&& self.spec_buffers().len() == NUM_TRB - 1
    }

    /// The cycle-bit protocol state of this ring.
    pub open spec fn protocol(&self) -> RingProtocolState {
        RingProtocolState {
            cycles: Seq::new(
                NUM_TRB as nat,
                |i: int| self.spec_ring().slots()[i].spec_cycle_bit(),
            ),
            types: Seq::new(NUM_TRB as nat, |i: int| self.spec_ring().slots()[i].spec_trb_type()),
            index: self.spec_ring().spec_current_index(),
            ours: self.spec_cycle_state_ours(),
        }
    }

    /// Build a transfer ring whose slot array sits at physical address
    /// `base`, with one pre-allocated buffer address per usable slot. The
    /// buffers are the fixed 4096-byte DMA pages of the ring: each address
    /// nonzero and page-aligned, no two the same, each associated with its
    /// slot for the ring's lifetime. Every usable slot is pre-populated
    /// with a Normal TRB of `transfer_size` bytes pointing at its buffer;
    /// the last slot holds the Link TRB back to `base`.
    pub fn new(transfer_size: usize, base: u64, buffers: Vec<u64>) -> (r: Self)
        requires
            base % 4096 == 0,
            base + 4095 <= u64::MAX,
            buffers@.len() == NUM_TRB - 1,
            forall|i: int| 0 <= i < NUM_TRB - 1 ==> buffers@[i] != 0,
            forall|i: int| 0 <= i < NUM_TRB - 1 ==> (#[trigger] buffers@[i]) % 4096 == 0,
            forall|i: int, j: int| 0 <= i < j < NUM_TRB - 1 ==> buffers@[i] != buffers@[j],
        ensures
            r.wf(),
            !r.spec_cycle_state_ours(),
            r.spec_dequeue_index() == 0,
            r.spec_ring().spec_base() == base,
            r.spec_ring().spec_current_index() == 0,
            r.spec_buffers() == buffers@,
            r.spec_ring().slots()[NUM_TRB - 1].spec_trb_type() == trb_type_value(TrbType::Link),
            r.spec_ring().slots()[NUM_TRB - 1].spec_buffer() == base,
            r.spec_ring().slots()[NUM_TRB - 1].spec_toggle_cycle(),
            !r.spec_ring().slots()[NUM_TRB - 1].spec_cycle_bit(),
            forall|i: int|
                0 <= i < NUM_TRB - 1 ==> {
                    &&& (#[trigger] r.spec_ring().slots()[i]).spec_control() == 0x424u32
                    &&& r.spec_ring().slots()[i].spec_buffer() == buffers@[i]
                    &&& r.spec_ring().slots()[i].spec_transfer_info() == (transfer_size as u16)
                        as u32
                    &&& r.spec_ring().slots()[i].spec_trb_type() == trb_type_value(TrbType::Normal)
                    &&& !r.spec_ring().slots()[i].spec_cycle_bit()
                },
    {
        let mut ring = TrbRing::new(base);
        let link_trb = TrbBase::trb_link(&ring);
        let num_trbs = ring.num_trbs();
        ring.write(num_trbs - 1, link_trb);
        proof {
            assert(bits32(0x424u32, 10, 6) == 1 && !bit32(0x424u32, 0)) by (bit_vector);
        }
        let mut i: usize = 0;
        while i < NUM_TRB - 1
            invariant
                i <= NUM_TRB - 1,
                buffers@.len() == NUM_TRB - 1,
                ring.wf(),
                ring.spec_base() == base,
                ring.spec_current_index() == 0,
                ring.slots()[NUM_TRB - 1].spec_trb_type() == trb_type_value(TrbType::Link),
                ring.slots()[NUM_TRB - 1].spec_buffer() == base,
                ring.slots()[NUM_TRB - 1].spec_toggle_cycle(),
                !ring.slots()[NUM_TRB - 1].spec_cycle_bit(),
                forall|j: int|
                    0 <= j < i ==> {
                        &&& (#[trigger] ring.slots()[j]).spec_control() == 0x424u32
                        &&& ring.slots()[j].spec_buffer() == buffers@[j]
                        &&& ring.slots()[j].spec_transfer_info() == (transfer_size as u16) as u32
                    },
            decreases NUM_TRB - 1 - i,
        {
            let nt = NormalTrb::new(buffers[i], transfer_size as u16);
            ring.write(i, TrbBase::from(nt));
            i = i + 1;
        }
        proof {
            assert(bits32(0x424u32, 10, 6) == 1 && !bit32(0x424u32, 0)) by (bit_vector);
        }
        TransferRingInner { ring, cycle_state_ours: false, dequeue_index: 0, buffers }
    }

    /// Hand usable slots to the hardware, advancing the enqueue cursor one
    /// slot at a time, but stop as soon as the next usable position would
    /// reach `NUM_TRB - 4` — a fixed safety margin of free slots kept
    /// against overrunning the hardware's read pointer. Every slot on the
    /// cursor's path must still be software-owned.
    #[verifier::rlimit(60)]
    pub fn fill_ring(&mut self)
        requires
            old(self).wf(),
            forall|i: int|
                0 <= i < NUM_TRB && ring_distance(old(self).protocol().index, i) < ring_distance(
                    old(self).protocol().index,
                    fill_stop_index(),
                ) ==> old(self).protocol().cycles[i] == old(self).protocol().ours,
        ensures
            final(self).wf(),
            final(self).spec_ring().spec_base() == old(self).spec_ring().spec_base(),
            final(self).spec_cycle_state_ours() == old(self).spec_cycle_state_ours(),
            final(self).spec_dequeue_index() == old(self).spec_dequeue_index(),
            final(self).spec_buffers() == old(self).spec_buffers(),
            final(self).spec_ring().spec_current_index() == fill_stop_index(),
            forall|i: int|
                0 <= i < NUM_TRB && ring_distance(old(self).protocol().index, i) < ring_distance(
                    old(self).protocol().index,
                    fill_stop_index(),
                ) ==> only_cycle_bit_changed(
                    old(self).spec_ring().slots()[i],
                    #[trigger] final(self).spec_ring().slots()[i],
                    !old(self).spec_cycle_state_ours(),
                ),
            forall|i: int|
                0 <= i < NUM_TRB && ring_distance(old(self).protocol().index, i) >= ring_distance(
                    old(self).protocol().index,
                    fill_stop_index(),
                ) ==> final(self).spec_ring().slots()[i] == old(self).spec_ring().slots()[i],
    {
        let ghost orig = *old(self);
        let ghost i0 = orig.protocol().index;
        let ghost total = ring_distance(i0, fill_stop_index());
        loop
            invariant
                self.wf(),
                orig.wf(),
                i0 == orig.protocol().index,
                total == ring_distance(i0, fill_stop_index()),
                forall|i: int|
                    0 <= i < NUM_TRB && ring_distance(i0, i) < total ==> orig.protocol().cycles[i]
                        == orig.protocol().ours,
                self.cycle_state_ours == orig.spec_cycle_state_ours(),
                self.spec_dequeue_index() == orig.spec_dequeue_index(),
                self.spec_buffers() == orig.spec_buffers(),
                self.spec_ring().spec_base() == orig.spec_ring().spec_base(),
                ring_distance(i0, self.spec_ring().spec_current_index()) <= total,
                self.spec_ring().spec_current_index() == (i0 + ring_distance(
                    i0,
                    self.spec_ring().spec_current_index(),
                )) % (NUM_TRB as int),
                forall|i: int|
                    0 <= i < NUM_TRB && ring_distance(i0, i) < ring_distance(
                        i0,
                        self.spec_ring().spec_current_index(),
                    ) ==> only_cycle_bit_changed(
                        orig.spec_ring().slots()[i],
                        #[trigger] self.spec_ring().slots()[i],
                        !orig.spec_cycle_state_ours(),
                    ),
                forall|i: int|
                    0 <= i < NUM_TRB && ring_distance(i0, i) >= ring_distance(
                        i0,
                        self.spec_ring().spec_current_index(),
                    ) ==> #[trigger] self.spec_ring().slots()[i] == orig.spec_ring().slots()[i],
            ensures
                self.wf(),
                self.cycle_state_ours == orig.spec_cycle_state_ours(),
                self.spec_dequeue_index() == orig.spec_dequeue_index(),
                self.spec_buffers() == orig.spec_buffers(),
                self.spec_ring().spec_base() == orig.spec_ring().spec_base(),
                self.spec_ring().spec_current_index() == fill_stop_index(),
                forall|i: int|
                    0 <= i < NUM_TRB && ring_distance(i0, i) < total ==> only_cycle_bit_changed(
                        orig.spec_ring().slots()[i],
                        #[trigger] self.spec_ring().slots()[i],
                        !orig.spec_cycle_state_ours(),
                    ),
                forall|i: int|
                    0 <= i < NUM_TRB && ring_distance(i0, i) >= total
                        ==> #[trigger] self.spec_ring().slots()[i] == orig.spec_ring().slots()[i],
            decreases total - ring_distance(i0, self.spec_ring().spec_current_index()),
        {
            let next_enqueue_index = (self.ring.current_index() + 1) % (self.ring.num_trbs() - 1);
            proof {
                let c = self.spec_ring().spec_current_index();
                assert(0 <= c < 16);
                if c + 1 < 15 {
                    assert((c + 1) % 15 == c + 1);
                } else if c + 1 == 15 {
                    assert((c + 1) % 15 == 0);
                } else {
                    assert(c + 1 == 16 && 16int % 15 == 1);
                }
                assert(next_enqueue_index == (c + 1) % 15);
                assert(next_enqueue_index == 12 <==> c == fill_stop_index());
            }
            if next_enqueue_index == self.ring.num_trbs() - 4 {
                proof {
                    let c = self.spec_ring().spec_current_index();
                    assert(c == fill_stop_index());
                    assert(ring_distance(i0, c) == total);
                }
                break ;
            }
            proof {
                let c = self.spec_ring().spec_current_index();
                let d = ring_distance(i0, c);
                assert(c != fill_stop_index());
                assert(ring_distance(i0, c) < total) by {
                    if d == total {
                        assert(c == (i0 + total) % (NUM_TRB as int));
                        assert(fill_stop_index() == (i0 + ring_distance(i0, fill_stop_index())) % (
                        NUM_TRB as int));
                    }
                }
                assert(self.spec_ring().slots()[c] == orig.spec_ring().slots()[c]);
                assert(orig.protocol().cycles[c] == orig.protocol().ours);
            }
            self.ring.advance_index(!self.cycle_state_ours);
        }
    }

    /// Consume one completion: the completion's TRB address must be the
    /// slot under the dequeue cursor — anything else means driver and
    /// hardware have desynchronized, which the driver treats as fatal and
    /// this contract excludes. The dequeue cursor advances over the usable
    /// slots; the enqueue cursor performs one protocol step, re-arming the
    /// consumed slot for the hardware and, when it lands on the Link TRB,
    /// advancing past it and flipping the meaning of software-owned.
    pub fn dequeue_trb(&mut self, trb_ptr: u64)
        requires
            old(self).wf(),
            trb_ptr == old(self).spec_ring().spec_base() + 16 * old(self).spec_dequeue_index(),
            old(self).protocol().can_step(),
        ensures
            final(self).wf(),
            final(self).spec_ring().spec_base() == old(self).spec_ring().spec_base(),
            final(self).spec_buffers() == old(self).spec_buffers(),
            final(self).spec_dequeue_index() == (old(self).spec_dequeue_index() + 1) % ((NUM_TRB
                - 1) as int),
            final(self).protocol() == old(self).protocol().step(),
            forall|i: int|
                0 <= i < NUM_TRB ==> {
                    &&& (#[trigger] final(self).spec_ring().slots()[i]).spec_buffer() == old(
                        self,
                    ).spec_ring().slots()[i].spec_buffer()
                    &&& final(self).spec_ring().slots()[i].spec_transfer_info() == old(
                        self,
                    ).spec_ring().slots()[i].spec_transfer_info()
                    &&& final(self).spec_ring().slots()[i].spec_toggle_cycle() == old(
                        self,
                    ).spec_ring().slots()[i].spec_toggle_cycle()
                    &&& final(self).spec_ring().slots()[i].spec_trb_type() == old(
                        self,
                    ).spec_ring().slots()[i].spec_trb_type()
                },
    {
        let ghost p0 = old(self).protocol();
        self.dequeue_index = self.dequeue_index + 1;
        if self.dequeue_index == NUM_TRB - 1 {
            self.dequeue_index = 0;
        }
        self.ring.advance_index(!self.cycle_state_ours);
        let ghost pa = p0.advance();
        proof {
            assert forall|j: int| 0 <= j < NUM_TRB implies self.protocol().cycles[j]
                == pa.cycles[j] && self.protocol().types[j] == pa.types[j] by {}
            assert(self.protocol().cycles =~= pa.cycles);
            assert(self.protocol().types =~= pa.types);
            assert(self.protocol() =~= pa);
        }
        if self.ring.current().trb_type() == TrbType::Link.value() {
            proof {
                assert(pa.on_link());
                assert(pa.can_advance());
            }
            self.ring.advance_index(!self.cycle_state_ours);
            self.cycle_state_ours = !self.cycle_state_ours;
            proof {
                let pb = pa.advance();
                assert forall|j: int| 0 <= j < NUM_TRB implies self.protocol().cycles[j]
                    == pb.cycles[j] && self.protocol().types[j] == pb.types[j] by {}
                assert(self.protocol().cycles =~= pb.cycles);
                assert(self.protocol().types =~= pb.types);
                assert(self.protocol() =~= p0.step());
            }
        } else {
            proof {
                assert(!pa.on_link());
                assert(self.protocol() =~= p0.step());
            }
        }
    }

    /// A copy of the record under the enqueue cursor.
    pub fn current(&self) -> (r: TrbBase)
        requires
            self.wf(),
        ensures
            r == self.spec_ring().slots()[self.spec_ring().spec_current_index()],
    {
        self.ring.current()
    }

    /// Physical base address of the ring.
    pub fn ring_phys_addr(&self) -> (r: u64)
        ensures
            r == self.spec_ring().spec_base(),
    {
        self.ring.phys_addr()
    }

    /// Read access to the underlying ring.
    pub fn ring(&self) -> (r: &TrbRing)
        ensures
            *r == self.spec_ring(),
    {
        &self.ring
    }

    /// Which cycle-bit value currently means software-owned.
    pub fn cycle_state_ours(&self) -> (r: bool)
        ensures
            r == self.spec_cycle_state_ours(),
    {
        self.cycle_state_ours
    }

    /// The consumer cursor.
    pub fn dequeue_index(&self) -> (r: usize)
        ensures
            r == self.spec_dequeue_index(),
    {
        self.dequeue_index
    }
}

/// Ring layouts whose Link TRB sits in the last slot and nowhere else — the
/// shape every ring of this driver is built with.
pub open spec fn link_only_at_end(types: Seq<u32>) -> bool {
    &&& types.len() == NUM_TRB
    &&& types[NUM_TRB - 1] == trb_type_value(TrbType::Link)
    &&& forall|i: int| 0 <= i < NUM_TRB - 1 ==> types[i] != trb_type_value(TrbType::Link)
}

/// The protocol state after `k` dequeue steps, iterated.
pub open spec fn iterate_step(p: RingProtocolState, k: nat) -> RingProtocolState
    decreases k,
{
    if k == 0 {
        p
    } else {
        iterate_step(p, (k - 1) as nat).step()
    }
}

/// Whether each of the first `k` iterated dequeue steps satisfies its guard.
pub open spec fn all_steps_allowed(p: RingProtocolState, k: nat) -> bool
    decreases k,
{
    k > 0 ==> all_steps_allowed(p, (k - 1) as nat) && iterate_step(p, (k - 1) as nat).can_step()
}

/// The cycle bits after `pos` steps of a traversal: the slots already
/// passed this lap carry the flipped value, the rest still carry the lap's
/// starting value, and the Link slot flips only at the lap boundary.
pub open spec fn traversal_cycles(lap_odd: bool, pos: int) -> Seq<bool> {
    Seq::new(
        NUM_TRB as nat,
        |i: int|
            if i == NUM_TRB - 1 {
                lap_odd
            } else if i < pos {
                !lap_odd
            } else {
                lap_odd
            },
    )
}

/// Closed form of the protocol state reached after `k` dequeue steps from a
/// freshly reset ring: each lap of `NUM_TRB - 1` steps flips every slot
/// once (the Link slot on the lap's last step) and toggles the meaning of
/// software-owned.
pub open spec fn traversal_state(types: Seq<u32>, k: nat) -> RingProtocolState {
    RingProtocolState {
        cycles: traversal_cycles(
            (k / ((NUM_TRB - 1) as nat)) % 2 == 1,
            (k % ((NUM_TRB - 1) as nat)) as int,
        ),
        types: types,
        index: (k % ((NUM_TRB - 1) as nat)) as int,
        ours: (k / ((NUM_TRB - 1) as nat)) % 2 == 1,
    }
}

/// One dequeue step takes the closed-form traversal state `k` to the state
/// `k + 1`, and its guard holds.
proof fn lemma_traversal_step(types: Seq<u32>, k: nat)
    requires
        link_only_at_end(types),
        k < 2 * (NUM_TRB - 1),
    ensures
        traversal_state(types, k).can_step(),
        traversal_state(types, k).step() == traversal_state(types, (k + 1) as nat),
{
    let p = traversal_state(types, k);
    let lap = k / ((NUM_TRB - 1) as nat);
    let pos = (k % ((NUM_TRB - 1) as nat)) as int;
    vstd::arithmetic::div_mod::lemma_fundamental_div_mod(k as int, 15);
    assert(k == 15 * lap + pos);
    assert(0 <= pos < 15);
    let a = p.advance();
    if pos < NUM_TRB - 2 {
        assert((k + 1) / ((NUM_TRB - 1) as nat) == lap && (k + 1) % ((NUM_TRB - 1) as nat) == pos
            + 1) by {
            assert(k + 1 == 15 * lap + (pos + 1));
        }
        assert(a.index == pos + 1);
        assert(!a.on_link());
        assert(p.step().cycles =~= traversal_state(types, (k + 1) as nat).cycles);
        assert(p.step() =~= traversal_state(types, (k + 1) as nat));
    } else {
        assert(pos == NUM_TRB - 2);
        assert((k + 1) / ((NUM_TRB - 1) as nat) == lap + 1 && (k + 1) % ((NUM_TRB - 1) as nat)
            == 0) by {
            assert(k + 1 == 15 * (lap + 1) + 0);
        }
        assert(a.index == NUM_TRB - 1);
        assert(a.on_link());
        assert(a.can_advance());
        assert(p.step().cycles =~= traversal_state(types, (k + 1) as nat).cycles);
        assert(p.step() =~= traversal_state(types, (k + 1) as nat));
    }
}

/// Iterating from the fresh state follows the closed form.
proof fn lemma_traversal_iterate(types: Seq<u32>, k: nat)
    requires
        link_only_at_end(types),
        k <= 2 * (NUM_TRB - 1),
    ensures
        all_steps_allowed(traversal_state(types, 0), k),
        iterate_step(traversal_state(types, 0), k) == traversal_state(types, k),
    decreases k,
{
    if k > 0 {
        lemma_traversal_iterate(types, (k - 1) as nat);
        lemma_traversal_step(types, (k - 1) as nat);
    }
}

/// Two full traversals restore the ring's cycle state: starting from a
/// freshly built or reset ring — cursor on slot 0, every cycle bit clear,
/// `false` meaning software-owned, the Link TRB closing the ring — exactly
/// `2 * (NUM_TRB - 1)` successful dequeue steps (one `advance_index` per
/// usable slot, with the Link slot crossed by a second advance on each
/// lap's last step) bring every slot's cycle bit, the cursor and
/// `cycle_state_ours` back to their initial values, and every one of those
/// steps satisfies its guard.
pub proof fn lemma_two_traversals_restore_cycle_state(p: RingProtocolState)
    requires
        p.wf(),
        link_only_at_end(p.types),
        p.index == 0,
        !p.ours,
        forall|i: int| 0 <= i < NUM_TRB ==> !p.cycles[i],
    ensures
        all_steps_allowed(p, (2 * (NUM_TRB - 1)) as nat),
        iterate_step(p, (2 * (NUM_TRB - 1)) as nat) == p,
{
    assert(p.cycles =~= traversal_cycles(false, 0));
    assert(p =~= traversal_state(p.types, 0));
    lemma_traversal_iterate(p.types, (2 * (NUM_TRB - 1)) as nat);
    assert(traversal_state(p.types, (2 * (NUM_TRB - 1)) as nat).cycles =~= traversal_cycles(
        false,
        0,
    ));
    assert(traversal_state(p.types, (2 * (NUM_TRB - 1)) as nat) =~= p);
}

/// Calling `advance_index` twice in a row with the same `new_cycle` value
/// fails whenever the slot the cursor moves onto already carries that
/// value: the first call writes `new_cycle` and advances, and the second
/// call's guard — the current slot's cycle bit must differ from
/// `new_cycle` — is then violated. Here `r2` stands for the ring after the
/// first call, exactly as `advance_index` ensures it.
pub proof fn lemma_double_advance_same_cycle_rejected(r1: TrbRing, r2: TrbRing, new_cycle: bool)
    requires
        r1.wf(),
        r1.slots()[r1.spec_current_index()].spec_cycle_bit() != new_cycle,
        r1.slots()[(r1.spec_current_index() + 1) % (NUM_TRB as int)].spec_cycle_bit() == new_cycle,
        r2.wf(),
        r2.spec_current_index() == (r1.spec_current_index() + 1) % (NUM_TRB as int),
        only_cycle_bit_changed(
            r1.slots()[r1.spec_current_index()],
            r2.slots()[r1.spec_current_index()],
            new_cycle,
        ),
        forall|i: int|
            0 <= i < NUM_TRB && i != r1.spec_current_index() ==> r2.slots()[i] == r1.slots()[i],
    ensures
        !(r2.slots()[r2.spec_current_index()].spec_cycle_bit() != new_cycle),
{
    let c = r1.spec_current_index();
    let n = (c + 1) % (NUM_TRB as int);
    assert(n != c);
    assert(r2.slots()[n] == r1.slots()[n]);
}

/// Filling never overruns the consumer: starting from a freshly built
/// transfer ring — both cursors on slot 0, every slot software-owned —
/// `fill_ring` hands exactly the slots before `fill_stop_index()` to the
/// hardware and parks the enqueue cursor there, which leaves at least 3
/// usable slots of separation before the cursor would wrap onto the
/// dequeue cursor; and because the cursor already stands at the stop
/// position, every further `fill_ring` call leaves the ring unchanged.
/// Here `t2` stands for the ring after the call, exactly as `fill_ring`
/// ensures it.
pub proof fn lemma_fill_ring_no_overrun(t1: TransferRingInner, t2: TransferRingInner)
    requires
        t1.wf(),
        t1.spec_ring().spec_current_index() == 0,
        t1.spec_dequeue_index() == 0,
        forall|i: int| 0 <= i < NUM_TRB ==> t1.protocol().cycles[i] == t1.protocol().ours,
        t2.wf(),
        t2.spec_cycle_state_ours() == t1.spec_cycle_state_ours(),
        t2.spec_dequeue_index() == t1.spec_dequeue_index(),
        t2.spec_ring().spec_current_index() == fill_stop_index(),
        forall|i: int|
            0 <= i < NUM_TRB && ring_distance(t1.spec_ring().spec_current_index(), i)
                < ring_distance(t1.spec_ring().spec_current_index(), fill_stop_index())
                ==> only_cycle_bit_changed(
                t1.spec_ring().slots()[i],
                #[trigger] t2.spec_ring().slots()[i],
                !t1.spec_cycle_state_ours(),
            ),
        forall|i: int|
            0 <= i < NUM_TRB && ring_distance(t1.spec_ring().spec_current_index(), i)
                >= ring_distance(t1.spec_ring().spec_current_index(), fill_stop_index())
                ==> t2.spec_ring().slots()[i] == t1.spec_ring().slots()[i],
    ensures
        forall|i: int|
            0 <= i < fill_stop_index() ==> #[trigger] t2.protocol().cycles[i]
                == !t2.protocol().ours,
        forall|i: int|
            fill_stop_index() <= i < NUM_TRB ==> #[trigger] t2.protocol().cycles[i]
                == t2.protocol().ours,
        (t2.spec_dequeue_index() - t2.spec_ring().spec_current_index()) % ((NUM_TRB - 1) as int)
            >= 3,
        ring_distance(t2.spec_ring().spec_current_index(), fill_stop_index()) == 0,
{
    assert forall|i: int| 0 <= i < NUM_TRB implies (ring_distance(0, i) == i) by {
        assert(i % 16 == i);
    }
    assert forall|i: int| fill_stop_index() <= i < NUM_TRB implies #[trigger] t2.protocol().cycles[i]
        == t2.protocol().ours by {
        assert(ring_distance(0, i) == i);
        assert(t2.spec_ring().slots()[i] == t1.spec_ring().slots()[i]);
        assert(t1.protocol().cycles[i] == t1.protocol().ours);
    }
    assert((0 - 11) % 15int == 4);
}

} // verus!
