//! Tests of the TRB codec: every variant's control word, and the shared
//! accessors.

use xhci_core::rings::TrbRing;
use xhci_core::trb::DataStageTrb;
use xhci_core::trb::NormalTrb;
use xhci_core::trb::SetupStageTrb;
use xhci_core::trb::StatusStageTrb;
use xhci_core::trb::TrbBase;
use xhci_core::trb::TrbType;

#[test]
fn trb_type_codes() {
    assert_eq!(TrbType::Normal.value(), 1);
    assert_eq!(TrbType::SetupStage.value(), 2);
    assert_eq!(TrbType::DataStage.value(), 3);
    assert_eq!(TrbType::StatusStage.value(), 4);
    assert_eq!(TrbType::Link.value(), 6);
    assert_eq!(TrbType::EnableSlotCommand.value(), 9);
    assert_eq!(TrbType::AddressDeviceCommand.value(), 11);
    assert_eq!(TrbType::ConfigureEndpointCommand.value(), 12);
    assert_eq!(TrbType::EvaluateContextCommand.value(), 13);
    assert_eq!(TrbType::NoOpCommand.value(), 23);
    assert_eq!(TrbType::TransferEvent.value(), 32);
    assert_eq!(TrbType::CommandCompletionEvent.value(), 33);
    assert_eq!(TrbType::PortStatusChangeEvent.value(), 34);
    assert_eq!(TrbType::HostControllerEvent.value(), 37);
}

#[test]
fn base_accessors_read_the_packed_control_word() {
    // slot id 5 at bits 24-31, type 32 at bits 10-15, toggle bit 1, cycle bit 0
    let control: u32 = (5 << 24) | (32 << 10) | 0b10 | 0b1;
    let trb = TrbBase::from_raw(0x5000, 7, control);
    assert_eq!(trb.data(), 0x5000);
    assert_eq!(trb.transfer_info(), 7);
    assert_eq!(trb.control(), control);
    assert!(trb.cycle_bit_state());
    assert!(trb.toggle_cycle());
    assert_eq!(trb.trb_type(), 32);
    assert_eq!(trb.slot_id(), 5);
}

#[test]
fn base_setters_touch_only_their_span() {
    let mut trb = TrbBase::from_raw(0, 0, 0);
    trb.set_trb_type(TrbType::NoOpCommand);
    assert_eq!(trb.trb_type(), 23);
    assert!(!trb.cycle_bit_state());
    trb.set_cycle_bit_state(true);
    assert!(trb.cycle_bit_state());
    assert_eq!(trb.trb_type(), 23);
    assert!(!trb.toggle_cycle());
    trb.set_toggle_cycle(true);
    assert!(trb.toggle_cycle());
    assert!(trb.cycle_bit_state());
    assert_eq!(trb.trb_type(), 23);
    trb.set_cycle_bit_state(false);
    assert!(!trb.cycle_bit_state());
    assert!(trb.toggle_cycle());
    assert_eq!(trb.control(), (23 << 10) | 0b10);
}

#[test]
fn link_trb_points_back_at_the_ring() {
    let ring = TrbRing::new(0x1000);
    let link = TrbBase::trb_link(&ring);
    assert_eq!(link.trb_type(), 6);
    assert_eq!(link.data(), ring.phys_addr());
    assert!(link.toggle_cycle());
    assert!(!link.cycle_bit_state());
    assert_eq!(link.control(), 0x1802);
}

#[test]
fn normal_trb_control_word() {
    let trb = NormalTrb::new(0x2000, 512);
    assert_eq!(trb.buffer(), 0x2000);
    assert_eq!(trb.transfer_info(), 512);
    // type 1 at bits 10-15, interrupt-on-completion (bit 5),
    // interrupt-on-short-packet (bit 2)
    assert_eq!(trb.control(), (1 << 10) | (1 << 5) | (1 << 2));
    assert_eq!(trb.control(), 0x424);
}

#[test]
fn normal_trb_converts_to_base_field_for_field() {
    let base = TrbBase::from(NormalTrb::new(0x2000, 512));
    assert_eq!(base.data(), 0x2000);
    assert_eq!(base.transfer_info(), 512);
    assert_eq!(base.trb_type(), 1);
    assert!(!base.cycle_bit_state());
}

#[test]
fn setup_stage_no_data_transfer_type() {
    // wLength == 0 selects the no-data stage, whatever the direction bit.
    let trb = SetupStageTrb::new(0x80, 9, 1, 0, 0);
    assert_eq!(trb.transfer_type(), 0);
    let trb = SetupStageTrb::new(0x00, 9, 1, 0, 0);
    assert_eq!(trb.transfer_type(), 0);
}

#[test]
fn setup_stage_out_data_transfer_type() {
    // wLength > 0 with the direction bit clear selects the out-data stage.
    let trb = SetupStageTrb::new(0x21, 9, 1, 0, 8);
    assert_eq!(trb.transfer_type(), 2);
}

#[test]
fn setup_stage_in_data_transfer_type() {
    // GET_DESCRIPTOR, device-to-host, 18 bytes: the in-data stage.
    let trb = SetupStageTrb::new(0x80, 6, 0x0100, 0, 18);
    assert_eq!(trb.transfer_type(), 3);
}

#[test]
fn setup_stage_control_word_and_length() {
    let trb = SetupStageTrb::new(0x80, 6, 0x0100, 0, 18);
    // transfer type 3 at bits 16-17, type 2 at bits 10-15, immediate data
    // (bit 6); the status field carries the fixed setup-packet length 8.
    assert_eq!(trb.control(), (3 << 16) | (2 << 10) | (1 << 6));
    assert_eq!(trb.transfer_info(), 8);
}

#[test]
fn data_stage_control_words() {
    let trb_in = DataStageTrb::new_in(0x3000, 18);
    assert_eq!(trb_in.buffer(), 0x3000);
    assert_eq!(trb_in.transfer_info(), 18);
    assert_eq!(trb_in.control(), (3 << 10) | (1 << 16) | (1 << 5) | (1 << 2));

    let trb_out = DataStageTrb::new_out(0x3000, 18);
    assert_eq!(trb_out.control(), (3 << 10) | (1 << 5) | (1 << 2));
}

#[test]
fn status_stage_control_words() {
    let trb_out = StatusStageTrb::new_out();
    assert_eq!(trb_out.control(), 4 << 10);
    assert_eq!(trb_out.transfer_info(), 0);

    let trb_in = StatusStageTrb::new_in();
    assert_eq!(trb_in.control(), (4 << 10) | (1 << 16) | (1 << 5) | (1 << 2));
    assert_eq!(trb_in.transfer_info(), 0);
}
