//! Tests of the register blocks, the controller lifecycle decisions, the
//! event matcher, and the pinned-memory primitive.

use xhci_core::contexts::DeviceContextBaseAddressArray;
use xhci_core::events::EventWaitCond;
use xhci_core::events::EventWaitInfo;
use xhci_core::memory::IoBox;
use xhci_core::memory::IoBoxInner;
use xhci_core::registers::reset_xhc_step;
use xhci_core::registers::start_xhc_step;
use xhci_core::registers::CapabilityRegisters;
use xhci_core::registers::DoorbellRegisters;
use xhci_core::registers::OperationalRegisters;
use xhci_core::registers::ResetPhase;
use xhci_core::registers::StartPhase;
use xhci_core::rings::CommandRing;
use xhci_core::trb::TrbBase;
use xhci_core::trb::TrbType;

fn caps(hcsparams1: u32, hcsparams2: u32) -> CapabilityRegisters {
    CapabilityRegisters::new(0x20, 0x0110, hcsparams1, hcsparams2, 0, 0, 0x88, 0x1000, 0)
}

#[test]
fn capability_offsets() {
    let c = caps(0, 0);
    assert_eq!(c.length(), 0x20);
    assert_eq!(c.dboff(), 0x88);
    assert_eq!(c.rtsoff(), 0x1000);
}

#[test]
fn capability_counts_come_from_hcsparams1() {
    let c = caps((4 << 24) | (8 << 8) | 32, 0);
    assert_eq!(c.num_of_device_slots(), 32);
    assert_eq!(c.num_of_interrupters(), 8);
    assert_eq!(c.num_of_ports(), 4);
}

#[test]
fn scratchpad_count_reassembles_the_split_spans() {
    // high half 2 at bits 21-25, low half 3 at bits 27-31: 2 << 5 | 3
    let c = caps(0, (2 << 21) | (3 << 27));
    assert_eq!(c.num_of_scratch_pad_buffers(), (2 << 5) | 3);
}

#[test]
fn page_size_shifts_the_single_bit() {
    let op = OperationalRegisters::new(0, 0, 0x0001, 0, 0, 0);
    assert_eq!(op.page_size(), 4096);
    let op = OperationalRegisters::new(0, 0, 0x0008, 0, 0, 0);
    assert_eq!(op.page_size(), 1 << 15);
}

#[test]
fn set_num_device_slots_touches_only_the_low_byte() {
    let mut op = OperationalRegisters::new(0, 0, 1, 0, 0, 0xabcd_00ff);
    op.set_num_device_slots(8);
    assert_eq!(op.config(), 0xabcd_0008);
}

#[test]
fn set_cmd_ring_ctrl_ors_in_the_cycle_state() {
    let ring = CommandRing::new(0x3000);
    let mut op = OperationalRegisters::new(0, 0, 1, 0, 0, 0);
    op.set_cmd_ring_ctrl(&ring);
    assert_eq!(op.cmd_ring_ctrl(), 0x3001);
}

#[test]
fn set_dcbaa_ptr_publishes_the_base_address() {
    let dcbaa = DeviceContextBaseAddressArray::new(0x4000);
    assert_eq!(dcbaa.base_addr(), 0x4000);
    let mut op = OperationalRegisters::new(0, 0, 1, 0, 0, 0);
    op.set_dcbaa_ptr(&dcbaa);
    assert_eq!(op.dcbaap(), 0x4000);
}

#[test]
fn command_bit_operations_are_read_modify_write() {
    let mut op = OperationalRegisters::new(0b1010, 0, 1, 0, 0, 0);
    op.set_command_bits(0b0001);
    assert_eq!(op.command(), 0b1011);
    op.clear_command_bits(0b0010);
    assert_eq!(op.command(), 0b1001);
    assert_eq!(op.status(), 0);
}

#[test]
fn reset_sequence_decisions() {
    // Clear run/stop first.
    let (phase, write) = reset_xhc_step(ResetPhase::Begin, 0b0001, 0);
    assert_eq!(phase, ResetPhase::AwaitHalted);
    assert_eq!(write, Some(0b0000));
    // Wait while the hardware has not halted.
    let (phase, write) = reset_xhc_step(ResetPhase::AwaitHalted, 0, 0);
    assert_eq!(phase, ResetPhase::AwaitHalted);
    assert_eq!(write, None);
    // Once halted, assert the reset bit.
    let (phase, write) = reset_xhc_step(ResetPhase::AwaitHalted, 0, 0b0001);
    assert_eq!(phase, ResetPhase::AwaitResetCleared);
    assert_eq!(write, Some(0b0010));
    // Wait while the hardware still shows the reset bit.
    let (phase, write) = reset_xhc_step(ResetPhase::AwaitResetCleared, 0b0010, 0b0001);
    assert_eq!(phase, ResetPhase::AwaitResetCleared);
    assert_eq!(write, None);
    // The hardware cleared it: done.
    let (phase, write) = reset_xhc_step(ResetPhase::AwaitResetCleared, 0, 0b0001);
    assert_eq!(phase, ResetPhase::Complete);
    assert_eq!(write, None);
}

#[test]
fn start_sequence_decisions() {
    let (phase, write) = start_xhc_step(StartPhase::Begin, 0, 0b0001);
    assert_eq!(phase, StartPhase::AwaitRunning);
    assert_eq!(write, Some(0b0001));
    let (phase, write) = start_xhc_step(StartPhase::AwaitRunning, 0b0001, 0b0001);
    assert_eq!(phase, StartPhase::AwaitRunning);
    assert_eq!(write, None);
    let (phase, write) = start_xhc_step(StartPhase::AwaitRunning, 0b0001, 0);
    assert_eq!(phase, StartPhase::Complete);
    assert_eq!(write, None);
}

#[test]
fn doorbell_writes_target_in_the_low_byte() {
    let mut db = DoorbellRegisters::new();
    db.notify(1, 0);
    assert_eq!(db.last_write(), 0x0000_0001);
}

#[test]
fn doorbell_writes_stream_id_in_the_high_half() {
    let mut db = DoorbellRegisters::new();
    db.notify(0, 5);
    assert_eq!(db.last_write(), 0x0005_0000);
}

#[test]
fn doorbell_packs_both_fields() {
    let mut db = DoorbellRegisters::new();
    db.notify(3, 0x1234);
    assert_eq!(db.last_write(), 0x1234_0003);
}

fn transfer_event_trb(addr: u64, slot: u8) -> TrbBase {
    TrbBase::from_raw(addr, 0, (32 << 10) | ((slot as u32) << 24))
}

#[test]
fn event_matcher_checks_every_present_constraint() {
    let cond = EventWaitCond::new(Some(TrbType::TransferEvent), Some(0x5000), Some(3));
    let info = EventWaitInfo::new(cond);
    assert!(info.matches(&transfer_event_trb(0x5000, 3)));
    // wrong slot
    assert!(!info.matches(&transfer_event_trb(0x5000, 4)));
    // wrong address
    assert!(!info.matches(&transfer_event_trb(0x5010, 3)));
    // wrong type
    let wrong_type = TrbBase::from_raw(0x5000, 0, (33 << 10) | (3 << 24));
    assert!(!info.matches(&wrong_type));
}

#[test]
fn event_matcher_ignores_absent_constraints() {
    let cond = EventWaitCond::new(None, None, None);
    let info = EventWaitInfo::new(cond);
    assert!(info.matches(&transfer_event_trb(0x9999, 200)));

    let cond = EventWaitCond::new(Some(TrbType::TransferEvent), None, None);
    let info = EventWaitInfo::new(cond);
    assert!(info.matches(&transfer_event_trb(0x9999, 200)));
    assert!(!info.matches(&TrbBase::from_raw(0, 0, 33 << 10)));
}

#[test]
fn event_waiter_collects_matching_trbs() {
    let cond = EventWaitCond::new(Some(TrbType::TransferEvent), None, None);
    let mut info = EventWaitInfo::new(cond);
    let event = transfer_event_trb(0x5000, 3);
    assert!(info.matches(&event));
    assert_eq!(info.trb_count(), 0);
    info.push_trb(event);
    info.push_trb(transfer_event_trb(0x6000, 3));
    assert_eq!(info.trb_count(), 2);
}

#[test]
fn io_box_holds_its_value_in_place() {
    let inner = IoBoxInner::new(7u64);
    let _ = inner;
    let mut pinned: IoBox<u64> = IoBox::new(7);
    assert_eq!(*pinned.as_ref(), 7);
    pinned.set(9);
    assert_eq!(*pinned.as_ref(), 9);
}
