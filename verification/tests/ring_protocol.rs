//! Tests of the ring buffers and the cycle-bit producer/consumer protocol.

use xhci_core::rings::CommandRing;
use xhci_core::rings::TransferRingInner;
use xhci_core::rings::TrbRing;
use xhci_core::trb::TrbBase;

const NUM_TRB: usize = 16;

fn fresh_transfer_ring() -> TransferRingInner {
    let mut buffers: Vec<u64> = Vec::new();
    for i in 0..NUM_TRB - 1 {
        buffers.push(0x10_0000 + (i as u64) * 4096);
    }
    TransferRingInner::new(4096, 0x1000, buffers)
}

#[test]
fn new_ring_is_zeroed() {
    let ring = TrbRing::new(0x1000);
    assert_eq!(ring.phys_addr(), 0x1000);
    assert_eq!(ring.num_trbs(), NUM_TRB);
    assert_eq!(ring.current_index(), 0);
    for i in 0..NUM_TRB {
        assert_eq!(ring.trb(i).control(), 0);
        assert_eq!(ring.trb(i).data(), 0);
        assert!(!ring.trb(i).cycle_bit_state());
    }
}

#[test]
fn slot_addresses_are_sixteen_bytes_apart() {
    let ring = TrbRing::new(0x1000);
    assert_eq!(ring.trb_ptr(0), 0x1000);
    assert_eq!(ring.trb_ptr(5), 0x1000 + 5 * 16);
    assert_eq!(ring.current_ptr(), 0x1000);
}

#[test]
fn advance_index_flips_the_slot_and_moves_on() {
    let mut ring = TrbRing::new(0x1000);
    assert!(ring.can_advance_index(true));
    ring.advance_index(true);
    assert_eq!(ring.current_index(), 1);
    assert!(ring.trb(0).cycle_bit_state());
    assert!(!ring.trb(1).cycle_bit_state());
}

#[test]
fn advance_index_with_same_cycle_fails_after_a_full_lap() {
    // On a freshly reset ring every slot carries the opposite value, so
    // repeated advances with one fixed value are allowed — the guard
    // compares the slot the cursor moved onto. Once the lap completes,
    // every slot already carries the value, and the very next call with
    // the same value violates the guard.
    let mut ring = TrbRing::new(0x1000);
    for _ in 0..NUM_TRB - 1 {
        assert!(ring.can_advance_index(true));
        ring.advance_index(true);
    }
    // cursor on the last slot: one more in-a-row call still succeeds ...
    assert_eq!(ring.current_index(), NUM_TRB - 1);
    assert!(ring.can_advance_index(true));
    ring.advance_index(true);
    // ... and the next call in a row with the same value must fail.
    assert_eq!(ring.current_index(), 0);
    assert!(!ring.can_advance_index(true));
    // The opposite value is accepted again.
    assert!(ring.can_advance_index(false));
}

#[test]
fn advance_index_notoggle_moves_without_writing() {
    let mut ring = TrbRing::new(0x1000);
    ring.advance_index_notoggle(false);
    assert_eq!(ring.current_index(), 1);
    for i in 0..NUM_TRB {
        assert!(!ring.trb(i).cycle_bit_state());
    }
}

#[test]
fn reset_clears_cycle_bits_and_keeps_content() {
    let mut ring = TrbRing::new(0x1000);
    ring.write(3, TrbBase::from_raw(0xabcd, 9, (23 << 10) | 1));
    ring.advance_index(true);
    ring.advance_index(true);
    ring.reset();
    assert_eq!(ring.current_index(), 0);
    for i in 0..NUM_TRB {
        assert!(!ring.trb(i).cycle_bit_state());
    }
    // the written record kept everything but its cycle bit
    assert_eq!(ring.trb(3).data(), 0xabcd);
    assert_eq!(ring.trb(3).transfer_info(), 9);
    assert_eq!(ring.trb(3).trb_type(), 23);
}

#[test]
fn write_current_stores_under_the_cursor() {
    let mut ring = TrbRing::new(0x1000);
    ring.advance_index_notoggle(false);
    ring.write_current(TrbBase::from_raw(0x77, 0, 0));
    assert_eq!(ring.trb(1).data(), 0x77);
    assert_eq!(ring.trb(0).data(), 0);
}

#[test]
fn command_ring_installs_the_link_trb() {
    let ring = CommandRing::new(0x2000);
    assert_eq!(ring.ring_phys_addr(), 0x2000);
    assert!(!ring.cycle_state_ours());
    let link = ring.ring().trb(NUM_TRB - 1);
    assert_eq!(link.trb_type(), 6);
    assert_eq!(link.data(), 0x2000);
    assert!(link.toggle_cycle());
    assert!(!link.cycle_bit_state());
    for i in 0..NUM_TRB - 1 {
        assert_eq!(ring.ring().trb(i).control(), 0);
    }
}

#[test]
fn command_ring_reset_clears_cycles_and_keeps_the_link() {
    let mut ring = CommandRing::new(0x2000);
    ring.reset();
    assert!(!ring.cycle_state_ours());
    assert_eq!(ring.ring().current_index(), 0);
    let link = ring.ring().trb(NUM_TRB - 1);
    assert_eq!(link.trb_type(), 6);
    assert_eq!(link.data(), 0x2000);
    assert!(link.toggle_cycle());
}

#[test]
fn transfer_ring_prepopulates_normal_trbs() {
    let ring = fresh_transfer_ring();
    assert_eq!(ring.ring_phys_addr(), 0x1000);
    assert!(!ring.cycle_state_ours());
    assert_eq!(ring.dequeue_index(), 0);
    for i in 0..NUM_TRB - 1 {
        let slot = ring.ring().trb(i);
        assert_eq!(slot.trb_type(), 1);
        assert_eq!(slot.data(), 0x10_0000 + (i as u64) * 4096);
        assert_eq!(slot.transfer_info(), 4096);
        assert!(!slot.cycle_bit_state());
    }
    let link = ring.ring().trb(NUM_TRB - 1);
    assert_eq!(link.trb_type(), 6);
    assert_eq!(link.data(), 0x1000);
}

#[test]
fn fill_ring_stops_short_of_the_safety_margin() {
    let mut ring = fresh_transfer_ring();
    ring.fill_ring();
    // The cursor parks where the next usable position would be
    // NUM_TRB - 4: slots 0..=10 are handed to the hardware, the rest —
    // more than the 3-slot margin before the dequeue cursor — stay ours.
    assert_eq!(ring.ring().current_index(), NUM_TRB - 5);
    for i in 0..NUM_TRB - 5 {
        assert!(ring.ring().trb(i).cycle_bit_state());
    }
    for i in NUM_TRB - 5..NUM_TRB {
        assert!(!ring.ring().trb(i).cycle_bit_state());
    }
    assert_eq!(ring.dequeue_index(), 0);
}

#[test]
fn fill_ring_again_changes_nothing() {
    let mut ring = fresh_transfer_ring();
    ring.fill_ring();
    ring.fill_ring();
    assert_eq!(ring.ring().current_index(), NUM_TRB - 5);
    for i in 0..NUM_TRB - 5 {
        assert!(ring.ring().trb(i).cycle_bit_state());
    }
    for i in NUM_TRB - 5..NUM_TRB {
        assert!(!ring.ring().trb(i).cycle_bit_state());
    }
}

#[test]
fn dequeue_trb_advances_both_cursors() {
    let mut ring = fresh_transfer_ring();
    let ptr = ring.ring_phys_addr();
    ring.dequeue_trb(ptr);
    assert_eq!(ring.dequeue_index(), 1);
    assert_eq!(ring.ring().current_index(), 1);
    assert!(ring.ring().trb(0).cycle_bit_state());
    assert!(!ring.cycle_state_ours());
}

#[test]
fn dequeue_trb_crosses_the_link_and_flips_ownership() {
    let mut ring = fresh_transfer_ring();
    for _ in 0..NUM_TRB - 1 {
        let ptr = ring.ring_phys_addr() + 16 * ring.dequeue_index() as u64;
        ring.dequeue_trb(ptr);
    }
    // One full lap: the Link slot was crossed on the last step, so every
    // slot (the Link slot included) was handed over once and the meaning
    // of software-owned flipped.
    assert_eq!(ring.dequeue_index(), 0);
    assert_eq!(ring.ring().current_index(), 0);
    assert!(ring.cycle_state_ours());
    for i in 0..NUM_TRB {
        assert!(ring.ring().trb(i).cycle_bit_state());
    }
}

#[test]
fn two_traversals_restore_cycle_state() {
    // After exactly 2 * (NUM_TRB - 1) successful dequeue steps the ring's
    // cycle_state_ours and every slot's cycle bit return to their initial
    // values: two full traversals restore parity.
    let mut ring = fresh_transfer_ring();
    for _ in 0..2 * (NUM_TRB - 1) {
        let ptr = ring.ring_phys_addr() + 16 * ring.dequeue_index() as u64;
        ring.dequeue_trb(ptr);
    }
    assert_eq!(ring.dequeue_index(), 0);
    assert_eq!(ring.ring().current_index(), 0);
    assert!(!ring.cycle_state_ours());
    for i in 0..NUM_TRB {
        assert!(!ring.ring().trb(i).cycle_bit_state());
    }
    // The types survived both laps too.
    for i in 0..NUM_TRB - 1 {
        assert_eq!(ring.ring().trb(i).trb_type(), 1);
    }
    assert_eq!(ring.ring().trb(NUM_TRB - 1).trb_type(), 6);
}

#[test]
fn current_returns_the_slot_under_the_cursor() {
    let ring = fresh_transfer_ring();
    let current = ring.current();
    assert_eq!(current.trb_type(), 1);
    assert_eq!(current.data(), 0x10_0000);
}
