//! The TRB codec.
//!
//! The Transfer Request Block is the 16-byte, 16-byte-aligned record out of
//! which all command, transfer and event traffic with the host controller is
//! built: an 8-byte parameter/buffer field, a 4-byte transfer-status field
//! and a 4-byte control field. The control field packs the cycle bit (bit 0),
//! the toggle-cycle bit (bit 1, Link TRBs only), the TRB type (bits 10–15),
//! the slot id (bits 24–31) and variant-specific bits. Each variant
//! constructor here computs its control word from those fixed positions, and
//! the contracts state every bit of it.

use crate::rings::TrbRing;
use crate::volatile::bit32;
use crate::volatile::bits32;
use crate::volatile::set_bits32;
use crate::volatile::Volatile;
use vstd::prelude::*;

verus! {

/// Interrupt-on-short-packet control bit.
pub const CTRL_BIT_INTERRUPT_ON_SHORT_PACKET: u32 = 1u32 << 2;

/// Interrupt-on-completion control bit.
pub const CTRL_BIT_INTERRUPT_ON_COMPLETION: u32 = 1u32 << 5;

/// Immediate-data control bit: the parameter field carries the data itself.
pub const CTRL_BIT_IMMEDIATE_DATA: u32 = 1u32 << 6;

/// Data-direction control bit, clear for out (host to device).
pub const CTRL_BIT_DATA_DIR_OUT: u32 = 0u32 << 16;

/// Data-direction control bit, set for in (device to host).
pub const CTRL_BIT_DATA_DIR_IN: u32 = 1u32 << 16;

/// The TRB types used by this driver, by their numeric codes in the control
/// field's type span (bits 10–15).
#[derive(Debug, Clone, Copy, PartialEq, Eq, Structural)]
pub enum TrbType {
    Normal,
    SetupStage,
    DataStage,
    StatusStage,
    Link,
    EnableSlotCommand,
    AddressDeviceCommand,
    ConfigureEndpointCommand,
    EvaluateContextCommand,
    NoOpCommand,
    TransferEvent,
    CommandCompletionEvent,
    PortStatusChangeEvent,
    HostControllerEvent,
}

/// The numeric code of a TRB type.
pub open spec fn trb_type_value(t: TrbType) -> u32 {
    match t {
        TrbType::Normal => 1,
        TrbType::SetupStage => 2,
        TrbType::DataStage => 3,
        TrbType::StatusStage => 4,
        TrbType::Link => 6,
        TrbType::EnableSlotCommand => 9,
        TrbType::AddressDeviceCommand => 11,
        TrbType::ConfigureEndpointCommand => 12,
        TrbType::EvaluateContextCommand => 13,
        TrbType::NoOpCommand => 23,
        TrbType::TransferEvent => 32,
        TrbType::CommandCompletionEvent => 33,
        TrbType::PortStatusChangeEvent => 34,
        TrbType::HostControllerEvent => 37,
    }
}

impl TrbType {
    /// The numeric code of this TRB type.
    pub fn value(self) -> (r: u32)
        ensures
            r == trb_type_value(self),
    {
        match self {
            TrbType::Normal => 1,
            TrbType::SetupStage => 2,
            TrbType::DataStage => 3,
            TrbType::StatusStage => 4,
            TrbType::Link => 6,
            TrbType::EnableSlotCommand => 9,
            TrbType::AddressDeviceCommand => 11,
            TrbType::ConfigureEndpointCommand => 12,
            TrbType::EvaluateContextCommand => 13,
            TrbType::NoOpCommand => 23,
            TrbType::TransferEvent => 32,
            TrbType::CommandCompletionEvent => 33,
            TrbType::PortStatusChangeEvent => 34,
            TrbType::HostControllerEvent => 37,
        }
    }
}

/// One 16-byte TRB record, as it sits in a ring slot. The hardware agent may
/// read or write a slot concurrently, so on the machine each field access is
/// volatile; the cycle bit is the only ownership signal between the two
/// parties.
#[derive(Clone, Copy)]
pub struct TrbBase {
    buffer: Volatile<u64>,
    transfer_info: Volatile<u32>,
    control: Volatile<u32>,
}

impl TrbBase {
    /// The 8-byte parameter/buffer-pointer field.
    pub closed spec fn spec_buffer(&self) -> u64 {
        self.buffer@
    }

    /// The 4-byte transfer-status field.
    pub closed spec fn spec_transfer_info(&self) -> u32 {
        self.transfer_info@
    }

    /// The 4-byte control field.
    pub closed spec fn spec_control(&self) -> u32 {
        self.control@
    }

    /// Cycle bit: control bit 0.
    pub open spec fn spec_cycle_bit(&self) -> bool {
        bit32(self.spec_control(), 0)
    }

    /// Toggle-cycle bit: control bit 1.
    pub open spec fn spec_toggle_cycle(&self) -> bool {
        bit32(self.spec_control(), 1)
    }

    /// TRB type code: control bits 10–15.
    pub open spec fn spec_trb_type(&self) -> u32 {
        bits32(self.spec_control(), 10, 6)
    }

    /// Slot id: control bits 24–31.
    pub open spec fn spec_slot_id(&self) -> u8 {
        bits32(self.spec_control(), 24, 8) as u8
    }

    /// The record with the given raw fields, at the specification level.
    pub closed spec fn raw_spec(buffer: u64, transfer_info: u32, control: u32) -> TrbBase {
        TrbBase {
            buffer: Volatile::cell(buffer),
            transfer_info: Volatile::cell(transfer_info),
            control: Volatile::cell(control),
        }
    }

    /// Build a TRB directly from its three raw fields.
    pub fn from_raw(buffer: u64, transfer_info: u32, control: u32) -> (r: Self)
        ensures
            r.spec_buffer() == buffer,
            r.spec_transfer_info() == transfer_info,
            r.spec_control() == control,
            r == TrbBase::raw_spec(buffer, transfer_info, control),
    {
        TrbBase {
            buffer: Volatile::new(buffer),
            transfer_info: Volatile::new(transfer_info),
            control: Volatile::new(control),
        }
    }

    /// The parameter/buffer-pointer field.
    pub fn data(&self) -> (r: u64)
        ensures
            r == self.spec_buffer(),
    {
        self.buffer.read()
    }

    /// Whether the cycle bit is set.
    pub fn cycle_bit_state(&self) -> (r: bool)
        ensures
            r == self.spec_cycle_bit(),
    {
        let r = self.control.read_bits(0, 1) != 0;
        proof {
            let c = self.spec_control();
            assert(((c >> 0) & (((1u32 << 1) - 1) as u32) != 0) == ((c >> 0) & 1 == 1))
                by (bit_vector);
        }
        r
    }

    /// Write the cycle bit, leaving every other bit of the record unchanged.
    pub fn set_cycle_bit_state(&mut self, cycle: bool)
        ensures
            final(self).spec_control() == set_bits32(
                old(self).spec_control(),
                0,
                1,
                (if cycle {
                    1u32
                } else {
                    0u32
                }),
            ),
            final(self).spec_cycle_bit() == cycle,
            final(self).spec_toggle_cycle() == old(self).spec_toggle_cycle(),
            final(self).spec_trb_type() == old(self).spec_trb_type(),
            final(self).spec_slot_id() == old(self).spec_slot_id(),
            final(self).spec_buffer() == old(self).spec_buffer(),
            final(self).spec_transfer_info() == old(self).spec_transfer_info(),
            forall|i: usize|
                1 <= i < 32 ==> bit32(final(self).spec_control(), i) == bit32(
                    old(self).spec_control(),
                    i,
                ),
    {
        let v: u32 = if cycle {
            1
        } else {
            0
        };
        self.control.write_bits(0, 1, v);
        proof {
            let c = old(self).spec_control();
            lemma_set_low_control_bit(c, 0, v);
        }
    }

    /// Write the toggle-cycle bit, leaving every other bit unchanged.
    pub fn set_toggle_cycle(&mut self, value: bool)
        ensures
            final(self).spec_control() == set_bits32(
                old(self).spec_control(),
                1,
                1,
                (if value {
                    1u32
                } else {
                    0u32
                }),
            ),
            final(self).spec_toggle_cycle() == value,
            final(self).spec_cycle_bit() == old(self).spec_cycle_bit(),
            final(self).spec_trb_type() == old(self).spec_trb_type(),
            final(self).spec_slot_id() == old(self).spec_slot_id(),
            final(self).spec_buffer() == old(self).spec_buffer(),
            final(self).spec_transfer_info() == old(self).spec_transfer_info(),
    {
        let v: u32 = if value {
            1
        } else {
            0
        };
        self.control.write_bits(1, 1, v);
        proof {
            let c = old(self).spec_control();
            lemma_set_low_control_bit(c, 1, v);
        }
    }

    /// Whether the toggle-cycle bit is set.
    pub fn toggle_cycle(&self) -> (r: bool)
        ensures
            r == self.spec_toggle_cycle(),
    {
        let r = self.control.read_bits(1, 1) != 0;
        proof {
            let c = self.spec_control();
            assert(((c >> 1) & (((1u32 << 1) - 1) as u32) != 0) == ((c >> 1) & 1 == 1))
                by (bit_vector);
        }
        r
    }

    /// The raw control field.
    pub fn control(&self) -> (r: u32)
        ensures
            r == self.spec_control(),
    {
        self.control.read()
    }

    /// The raw transfer-status field.
    pub fn transfer_info(&self) -> (r: u32)
        ensures
            r == self.spec_transfer_info(),
    {
        self.transfer_info.read()
    }

    /// The TRB type code.
    pub fn trb_type(&self) -> (r: u32)
        ensures
            r == self.spec_trb_type(),
    {
        self.control.read_bits(10, 6)
    }

    /// Write the TRB type span, leaving every other bit unchanged.
    pub fn set_trb_type(&mut self, trb_type: TrbType)
        ensures
            final(self).spec_control() == set_bits32(
                old(self).spec_control(),
                10,
                6,
                trb_type_value(trb_type),
            ),
            final(self).spec_trb_type() == trb_type_value(trb_type),
            final(self).spec_cycle_bit() == old(self).spec_cycle_bit(),
            final(self).spec_toggle_cycle() == old(self).spec_toggle_cycle(),
            final(self).spec_slot_id() == old(self).spec_slot_id(),
            final(self).spec_buffer() == old(self).spec_buffer(),
            final(self).spec_transfer_info() == old(self).spec_transfer_info(),
    {
        let v = trb_type.value();
        self.control.write_bits(10, 6, v);
        proof {
            let c = old(self).spec_control();
            assert(bits32(set_bits32(c, 10, 6, v), 10, 6) == v && bit32(set_bits32(c, 10, 6, v), 0)
                == bit32(c, 0) && bit32(set_bits32(c, 10, 6, v), 1) == bit32(c, 1) && bits32(
                set_bits32(c, 10, 6, v),
                24,
                8,
            ) == bits32(c, 24, 8)) by (bit_vector)
                requires
                    v < 64,
            ;
        }
    }

    /// The slot id.
    pub fn slot_id(&self) -> (r: u8)
        ensures
            r == self.spec_slot_id(),
    {
        let r = self.control.read_bits(24, 8);
        proof {
            let c = self.spec_control();
            assert((c >> 24) & (((1u32 << 8) - 1) as u32) < 256) by (bit_vector);
        }
        r as u8
    }

    /// The Link TRB that closes a ring: type 6, parameter field holding the
    /// ring's physical base address, toggle-cycle bit set, cycle bit clear.
    pub fn trb_link(ring: &TrbRing) -> (r: Self)
        requires
            ring.wf(),
        ensures
            r.spec_trb_type() == trb_type_value(TrbType::Link),
            r.spec_buffer() == ring.spec_base(),
            r.spec_toggle_cycle(),
            !r.spec_cycle_bit(),
            r.spec_transfer_info() == 0,
            r.spec_control() == 0x1802u32,
    {
        let mut trb = TrbBase::from_raw(0, 0, 0);
        trb.set_trb_type(TrbType::Link);
        trb.buffer.write(ring.phys_addr());
        trb.set_toggle_cycle(true);
        proof {
            assert(set_bits32(set_bits32(0u32, 10, 6, 6u32), 1, 1, 1u32) == 0x1802u32)
                by (bit_vector);
            assert(bits32(0x1802u32, 10, 6) == 6 && bit32(0x1802u32, 1) && !bit32(0x1802u32, 0))
                by (bit_vector);
        }
        trb
    }
}

/// The record `b` is the record `a` with its cycle bit set to `cycle` and
/// every other bit of the 16 bytes unchanged.
pub open spec fn only_cycle_bit_changed(a: TrbBase, b: TrbBase, cycle: bool) -> bool {
    &&& b.spec_cycle_bit() == cycle
    &&& b.spec_control() == set_bits32(
        a.spec_control(),
        0,
        1,
        (if cycle {
            1u32
        } else {
            0u32
        }),
    )
    &&& b.spec_toggle_cycle() == a.spec_toggle_cycle()
    &&& b.spec_trb_type() == a.spec_trb_type()
    &&& b.spec_slot_id() == a.spec_slot_id()
    &&& b.spec_buffer() == a.spec_buffer()
    &&& b.spec_transfer_info() == a.spec_transfer_info()
}

/// What the raw-field record holds.
pub broadcast proof fn lemma_raw_spec_fields(buffer: u64, transfer_info: u32, control: u32)
    ensures
        (#[trigger] TrbBase::raw_spec(buffer, transfer_info, control)).spec_buffer() == buffer,
        TrbBase::raw_spec(buffer, transfer_info, control).spec_transfer_info() == transfer_info,
        TrbBase::raw_spec(buffer, transfer_info, control).spec_control() == control,
{
    crate::volatile::lemma_cell_view(buffer);
    crate::volatile::lemma_cell_view(transfer_info);
    crate::volatile::lemma_cell_view(control);
}

/// A Normal TRB: one unit of data transfer on a bulk or interrupt endpoint.
/// Type 1, with interrupt-on-completion and interrupt-on-short-packet set.
#[derive(Clone, Copy)]
pub struct NormalTrb {
    buffer: u64,
    transfer_info: u32,
    control: u32,
}

impl NormalTrb {
    /// The buffer-pointer field.
    pub closed spec fn spec_buffer(&self) -> u64 {
        self.buffer
    }

    /// The transfer-status field: the transfer length.
    pub closed spec fn spec_transfer_info(&self) -> u32 {
        self.transfer_info
    }

    /// The control field.
    pub closed spec fn spec_control(&self) -> u32 {
        self.control
    }

    /// A Normal TRB pointing at the data buffer with physical address
    /// `buffer`, for `transfer_info` bytes.
    pub fn new(buffer: u64, transfer_info: u16) -> (r: Self)
        ensures
            r.spec_buffer() == buffer,
            r.spec_transfer_info() == transfer_info as u32,
            r.spec_control() == 0x424u32,
    {
        proof {
            assert(((1u32 << 10) | (1u32 << 5)) | (1u32 << 2) == 0x424u32) by (bit_vector);
        }
        NormalTrb {
            buffer,
            transfer_info: transfer_info as u32,
            control: ((1u32 << 10) | CTRL_BIT_INTERRUPT_ON_COMPLETION)
                | CTRL_BIT_INTERRUPT_ON_SHORT_PACKET,
        }
    }

    /// The buffer-pointer field.
    pub fn buffer(&self) -> (r: u64)
        ensures
            r == self.spec_buffer(),
    {
        self.buffer
    }

    /// The transfer-status field.
    pub fn transfer_info(&self) -> (r: u32)
        ensures
            r == self.spec_transfer_info(),
    {
        self.transfer_info
    }

    /// The control field.
    pub fn control(&self) -> (r: u32)
        ensures
            r == self.spec_control(),
    {
        self.control
    }
}

impl From<NormalTrb> for TrbBase {
    /// Reinterpret a Normal TRB as a plain 16-byte record, field for field.
    fn from(trb: NormalTrb) -> (r: TrbBase) {
        TrbBase::from_raw(trb.buffer, trb.transfer_info, trb.control)
    }
}

impl vstd::std_specs::convert::FromSpecImpl<NormalTrb> for TrbBase {
    open spec fn obeys_from_spec() -> bool {
        true
    }

    open spec fn from_spec(trb: NormalTrb) -> TrbBase {
        TrbBase::raw_spec(trb.spec_buffer(), trb.spec_transfer_info(), trb.spec_control())
    }
}

/// The transfer-type span of a Setup Stage control word (bits 16–17):
/// no-data when `w_length` is zero, in-data when the direction bit of the
/// request type says device-to-host, out-data otherwise.
pub open spec fn setup_transfer_type(bm_request_type: u8, w_length: u16) -> u32 {
    if w_length == 0 {
        0
    } else if bm_request_type & 0x80 != 0 {
        3
    } else {
        2
    }
}

/// A Setup Stage TRB: carries the 8-byte USB setup packet of a control
/// transfer inline (immediate data), with the 2-bit transfer type derived
/// from `wLength` and the direction bit of `bmRequestType`.
#[derive(Clone, Copy)]
pub struct SetupStageTrb {
    bm_request_type: u8,
    b_request: u8,
    w_value: u16,
    w_index: u16,
    w_length: u16,
    transfer_info: u32,
    control: u32,
}

// bmRequestType bit 7: data transfer direction, set for device-to-host.
/// Direction bit of `bmRequestType`: device to host.
pub const REQ_TYPE_DIR_DEVICE_TO_HOST: u8 = 1u8 << 7;

/// Direction bit of `bmRequestType` clear: host to device.
pub const REQ_TYPE_DIR_HOST_TO_DEVICE: u8 = 0u8 << 7;

/// Request type span of `bmRequestType` (bits 5–6): class request.
pub const REQ_TYPE_TYPE_CLASS: u8 = 1u8 << 5;

/// Request type span of `bmRequestType` (bits 5–6): vendor request.
pub const REQ_TYPE_TYPE_VENDOR: u8 = 2u8 << 5;

/// Recipient span of `bmRequestType` (bits 0–4): the device.
pub const REQ_TYPE_TO_DEVICE: u8 = 0;

/// Recipient span of `bmRequestType` (bits 0–4): an interface.
pub const REQ_TYPE_TO_INTERFACE: u8 = 1;

/// Standard request code: GET_REPORT.
pub const REQ_GET_REPORT: u8 = 1;

/// Standard request code: GET_DESCRIPTOR.
pub const REQ_GET_DESCRIPTOR: u8 = 6;

/// Standard request code: SET_CONFIGURATION.
pub const REQ_SET_CONFIGURATION: u8 = 9;

/// Standard request code: SET_INTERFACE.
pub const REQ_SET_INTERFACE: u8 = 11;

/// Standard request code: SET_PROTOCOL.
pub const REQ_SET_PROTOCOL: u8 = 0x0b;

impl SetupStageTrb {
    /// The control field.
    pub closed spec fn spec_control(&self) -> u32 {
        self.control
    }

    /// The transfer-status field.
    pub closed spec fn spec_transfer_info(&self) -> u32 {
        self.transfer_info
    }

    /// The `bmRequestType` byte of the setup packet.
    pub closed spec fn spec_bm_request_type(&self) -> u8 {
        self.bm_request_type
    }

    /// The `bRequest` byte of the setup packet.
    pub closed spec fn spec_b_request(&self) -> u8 {
        self.b_request
    }

    /// The `wValue` word of the setup packet.
    pub closed spec fn spec_w_value(&self) -> u16 {
        self.w_value
    }

    /// The `wIndex` word of the setup packet.
    pub closed spec fn spec_w_index(&self) -> u16 {
        self.w_index
    }

    /// The `wLength` word of the setup packet.
    pub closed spec fn spec_w_length(&self) -> u16 {
        self.w_length
    }

    /// Encode a USB setup packet. The transfer-status field holds the fixed
    /// setup-packet length 8; the control field packs the transfer type at
    /// bits 16–17, type 2 at bits 10–15, and the immediate-data bit, since
    /// the packet rides in the record itself.
    pub fn new(bm_request_type: u8, b_request: u8, w_value: u16, w_index: u16, w_length: u16) -> (r:
        Self)
        ensures
            r.spec_bm_request_type() == bm_request_type,
            r.spec_b_request() == b_request,
            r.spec_w_value() == w_value,
            r.spec_w_index() == w_index,
            r.spec_w_length() == w_length,
            r.spec_transfer_info() == 8,
            r.spec_control() == (setup_transfer_type(bm_request_type, w_length) << 16) | 0x840u32,
            bits32(r.spec_control(), 16, 2) == setup_transfer_type(bm_request_type, w_length),
    {
        let transfer_type: u32 = if w_length == 0 {
            0
        } else if bm_request_type & REQ_TYPE_DIR_DEVICE_TO_HOST != 0 {
            3
        } else {
            2
        };
        proof {
            let tt = setup_transfer_type(bm_request_type, w_length);
            assert(bm_request_type & (1u8 << 7) == bm_request_type & 0x80u8) by (bit_vector);
            assert(transfer_type == tt);
            assert((2u32 << 10) | (1u32 << 6) == 0x840u32) by (bit_vector);
            assert((tt << 16) | ((2u32 << 10) | (1u32 << 6)) == (tt << 16) | 0x840u32
                && bits32((tt << 16) | 0x840u32, 16, 2) == tt) by (bit_vector)
                requires
                    tt == 0 || tt == 2 || tt == 3,
            ;
        }
        SetupStageTrb {
            bm_request_type,
            b_request,
            w_value,
            w_index,
            w_length,
            transfer_info: 8,
            control: (transfer_type << 16) | ((2u32 << 10) | CTRL_BIT_IMMEDIATE_DATA),
        }
    }

    /// The 2-bit transfer type packed at control bits 16–17.
    pub fn transfer_type(&self) -> (r: u32)
        ensures
            r == bits32(self.spec_control(), 16, 2),
    {
        proof {
            let c = self.control;
            assert((c >> 16) & 3 == (c >> 16) & (((1u32 << 2) - 1) as u32)) by (bit_vector);
        }
        (self.control >> 16) & 3
    }

    /// The control field.
    pub fn control(&self) -> (r: u32)
        ensures
            r == self.spec_control(),
    {
        self.control
    }

    /// The transfer-status field.
    pub fn transfer_info(&self) -> (r: u32)
        ensures
            r == self.spec_transfer_info(),
    {
        self.transfer_info
    }
}

/// A Data Stage TRB: the data transaction of a USB control transfer. Type 3,
/// with the direction bit at control bit 16 and the interrupt bits set.
#[derive(Clone, Copy)]
pub struct DataStageTrb {
    buffer: u64,
    transfer_info: u32,
    control: u32,
}

impl DataStageTrb {
    /// The buffer-pointer field.
    pub closed spec fn spec_buffer(&self) -> u64 {
        self.buffer
    }

    /// The transfer-status field: the transfer length in bytes.
    pub closed spec fn spec_transfer_info(&self) -> u32 {
        self.transfer_info
    }

    /// The control field.
    pub closed spec fn spec_control(&self) -> u32 {
        self.control
    }

    /// An inbound (device-to-host) Data Stage TRB for the pinned buffer with
    /// physical address `buffer` and `transfer_length` bytes.
    pub fn new_in(buffer: u64, transfer_length: u32) -> (r: Self)
        ensures
            r.spec_buffer() == buffer,
            r.spec_transfer_info() == transfer_length,
            r.spec_control() == 0x10c24u32,
    {
        proof {
            assert((((3u32 << 10) | (1u32 << 16)) | (1u32 << 5)) | (1u32 << 2) == 0x10c24u32)
                by (bit_vector);
        }
        DataStageTrb {
            buffer,
            transfer_info: transfer_length,
            control: (((3u32 << 10) | CTRL_BIT_DATA_DIR_IN) | CTRL_BIT_INTERRUPT_ON_COMPLETION)
                | CTRL_BIT_INTERRUPT_ON_SHORT_PACKET,
        }
    }

    /// An outbound (host-to-device) Data Stage TRB for the pinned buffer
    /// with physical address `buffer` and `transfer_length` bytes.
    pub fn new_out(buffer: u64, transfer_length: u32) -> (r: Self)
        ensures
            r.spec_buffer() == buffer,
            r.spec_transfer_info() == transfer_length,
            r.spec_control() == 0xc24u32,
    {
        proof {
            assert((((3u32 << 10) | (0u32 << 16)) | (1u32 << 5)) | (1u32 << 2) == 0xc24u32)
                by (bit_vector);
        }
        DataStageTrb {
            buffer,
            transfer_info: transfer_length,
            control: (((3u32 << 10) | CTRL_BIT_DATA_DIR_OUT) | CTRL_BIT_INTERRUPT_ON_COMPLETION)
                | CTRL_BIT_INTERRUPT_ON_SHORT_PACKET,
        }
    }

    /// The buffer-pointer field.
    pub fn buffer(&self) -> (r: u64)
        ensures
            r == self.spec_buffer(),
    {
        self.buffer
    }

    /// The transfer-status field.
    pub fn transfer_info(&self) -> (r: u32)
        ensures
            r == self.spec_transfer_info(),
    {
        self.transfer_info
    }

    /// The control field.
    pub fn control(&self) -> (r: u32)
        ensures
            r == self.spec_control(),
    {
        self.control
    }
}

/// A Status Stage TRB: the closing transaction of a USB control transfer.
/// Type 4; the inbound form also sets direction and interrupt bits,
/// mirroring the Data Stage encoding.
#[derive(Clone, Copy)]
pub struct StatusStageTrb {
    reserved: u64,
    transfer_info: u32,
    control: u32,
}

impl StatusStageTrb {
    /// The (reserved) parameter field.
    pub closed spec fn spec_reserved(&self) -> u64 {
        self.reserved
    }

    /// The transfer-status field.
    pub closed spec fn spec_transfer_info(&self) -> u32 {
        self.transfer_info
    }

    /// The control field.
    pub closed spec fn spec_control(&self) -> u32 {
        self.control
    }

    /// An outbound Status Stage TRB: only the type span is set.
    pub fn new_out() -> (r: Self)
        ensures
            r.spec_reserved() == 0,
            r.spec_transfer_info() == 0,
            r.spec_control() == 0x1000u32,
    {
        proof {
            assert(4u32 << 10 == 0x1000u32) by (bit_vector);
        }
        StatusStageTrb { reserved: 0, transfer_info: 0, control: 4u32 << 10 }
    }

    /// An inbound Status Stage TRB: type span plus direction-in and the
    /// interrupt bits.
    pub fn new_in() -> (r: Self)
        ensures
            r.spec_reserved() == 0,
            r.spec_transfer_info() == 0,
            r.spec_control() == 0x11024u32,
    {
        proof {
            assert((((4u32 << 10) | (1u32 << 16)) | (1u32 << 5)) | (1u32 << 2) == 0x11024u32)
                by (bit_vector);
        }
        StatusStageTrb {
            reserved: 0,
            transfer_info: 0,
            control: (((4u32 << 10) | CTRL_BIT_DATA_DIR_IN) | CTRL_BIT_INTERRUPT_ON_COMPLETION)
                | CTRL_BIT_INTERRUPT_ON_SHORT_PACKET,
        }
    }

    /// The transfer-status field.
    pub fn transfer_info(&self) -> (r: u32)
        ensures
            r == self.spec_transfer_info(),
    {
        self.transfer_info
    }

    /// The control field.
    pub fn control(&self) -> (r: u32)
        ensures
            r == self.spec_control(),
    {
        self.control
    }
}

/// Writing a single low control bit (cycle or toggle-cycle) changes exactly
/// that bit.
proof fn lemma_set_low_control_bit(c: u32, pos: usize, v: u32)
    requires
        pos < 2,
        v == 0 || v == 1,
    ensures
        bit32(set_bits32(c, pos, 1, v), pos) == (v == 1),
        forall|i: usize| i < 32 && i != pos ==> bit32(set_bits32(c, pos, 1, v), i) == bit32(c, i),
        bits32(set_bits32(c, pos, 1, v), 10, 6) == bits32(c, 10, 6),
        bits32(set_bits32(c, pos, 1, v), 24, 8) == bits32(c, 24, 8),
{
    assert(bit32(set_bits32(c, pos, 1, v), pos) == (v == 1)) by (bit_vector)
        requires
            pos < 2 && (v == 0 || v == 1),
    ;
    assert forall|i: usize| i < 32 && i != pos implies bit32(set_bits32(c, pos, 1, v), i) == bit32(
        c,
        i,
    ) by {
        assert(bit32(set_bits32(c, pos, 1, v), i) == bit32(c, i)) by (bit_vector)
            requires
                pos < 2 && i < 32 && i != pos,
        ;
    }
    assert(bits32(set_bits32(c, pos, 1, v), 10, 6) == bits32(c, 10, 6) && bits32(
        set_bits32(c, pos, 1, v),
        24,
        8,
    ) == bits32(c, 24, 8)) by (bit_vector)
        requires
            pos < 2,
    ;
}

} // verus!
