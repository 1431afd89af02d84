//! The MMIO register blocks of the host controller.
//!
//! On the machine these structures lie over memory-mapped hardware
//! registers, at the byte offsets the xHCI specification fixes, and every
//! access is volatile; here each register holds its word as a plain value
//! and the contracts state exactly which bits every operation reads or
//! writes. The controller's reset/start lifecycle alternates register
//! writes with busy-waiting on bits that only the hardware changes; the
//! decisions of that state machine stand here as step functions over the
//! observed words, while the caller performs the actual volatile accesses
//! and the waiting.

use crate::contexts::DeviceContextBaseAddressArray;
use crate::rings::CommandRing;
use crate::volatile::bits32;
use crate::volatile::Volatile;
use vstd::prelude::*;

verus! {

/// Run/stop bit of the command register.
pub const CMD_RUN_STOP: u32 = 0b0001;

/// Host-controller-reset bit of the command register; the hardware clears
/// it when the reset is done.
pub const CMD_HC_RESET: u32 = 0b0010;

/// Halted bit of the status register; the hardware sets it once it has
/// stopped.
pub const STATUS_HC_HALTED: u32 = 0b0001;

/// The read-only capability registers: the limits and capacities of the
/// host controller implementation.
pub struct CapabilityRegisters {
    caplength: Volatile<u8>,
    rsvd: Volatile<u8>,
    hciversion: Volatile<u16>,
    hcsparams1: Volatile<u32>,
    hcsparams2: Volatile<u32>,
    hcsparams3: Volatile<u32>,
    hccparams1: Volatile<u32>,
    dboff: Volatile<u32>,
    rtsoff: Volatile<u32>,
    hccparams2: Volatile<u32>,
}

impl CapabilityRegisters {
    /// The CAPLENGTH register word.
    pub closed spec fn spec_caplength(&self) -> u8 {
        self.caplength@
    }

    /// The HCSPARAMS1 register word.
    pub closed spec fn spec_hcsparams1(&self) -> u32 {
        self.hcsparams1@
    }

    /// The HCSPARAMS2 register word.
    pub closed spec fn spec_hcsparams2(&self) -> u32 {
        self.hcsparams2@
    }

    /// The DBOFF register word.
    pub closed spec fn spec_dboff(&self) -> u32 {
        self.dboff@
    }

    /// The RTSOFF register word.
    pub closed spec fn spec_rtsoff(&self) -> u32 {
        self.rtsoff@
    }

    /// A capability block holding the given register words, as read from
    /// the controller at the capability base.
    pub fn new(
        caplength: u8,
        hciversion: u16,
        hcsparams1: u32,
        hcsparams2: u32,
        hcsparams3: u32,
        hccparams1: u32,
        dboff: u32,
        rtsoff: u32,
        hccparams2: u32,
    ) -> (r: Self)
        ensures
            r.spec_caplength() == caplength,
            r.spec_hcsparams1() == hcsparams1,
            r.spec_hcsparams2() == hcsparams2,
            r.spec_dboff() == dboff,
            r.spec_rtsoff() == rtsoff,
    {
        CapabilityRegisters {
            caplength: Volatile::new(caplength),
            rsvd: Volatile::new(0),
            hciversion: Volatile::new(hciversion),
            hcsparams1: Volatile::new(hcsparams1),
            hcsparams2: Volatile::new(hcsparams2),
            hcsparams3: Volatile::new(hcsparams3),
            hccparams1: Volatile::new(hccparams1),
            dboff: Volatile::new(dboff),
            rtsoff: Volatile::new(rtsoff),
            hccparams2: Volatile::new(hccparams2),
        }
    }

    /// Length of the capability block: the offset of the operational
    /// registers.
    pub fn length(&self) -> (r: usize)
        ensures
            r == self.spec_caplength() as usize,
    {
        self.caplength.read() as usize
    }

    /// Offset of the runtime registers.
    pub fn rtsoff(&self) -> (r: usize)
        ensures
            r == self.spec_rtsoff() as usize,
    {
        self.rtsoff.read() as usize
    }

    /// Offset of the doorbell array.
    pub fn dboff(&self) -> (r: usize)
        ensures
            r == self.spec_dboff() as usize,
    {
        self.dboff.read() as usize
    }

    /// Number of device slots: HCSPARAMS1 bits 0–7.
    pub fn num_of_device_slots(&self) -> (r: usize)
        ensures
            r == bits32(self.spec_hcsparams1(), 0, 8) as usize,
    {
        self.hcsparams1.read_bits(0, 8) as usize
    }

    /// Number of interrupters: HCSPARAMS1 bits 8–18.
    pub fn num_of_interrupters(&self) -> (r: usize)
        ensures
            r == bits32(self.spec_hcsparams1(), 8, 11) as usize,
    {
        self.hcsparams1.read_bits(8, 11) as usize
    }

    /// Number of ports: HCSPARAMS1 bits 24–31.
    pub fn num_of_ports(&self) -> (r: usize)
        ensures
            r == bits32(self.spec_hcsparams1(), 24, 8) as usize,
    {
        self.hcsparams1.read_bits(24, 8) as usize
    }

    /// Number of scratchpad buffers the controller demands: split across
    /// two non-contiguous HCSPARAMS2 spans — high half at bits 21–25, low
    /// half at bits 27–31 — and reassembled.
    pub fn num_of_scratch_pad_buffers(&self) -> (r: usize)
        ensures
            r == ((bits32(self.spec_hcsparams2(), 21, 5) << 5) | bits32(
                self.spec_hcsparams2(),
                27,
                5,
            )) as usize,
    {
        ((self.hcsparams2.read_bits(21, 5) << 5) | self.hcsparams2.read_bits(27, 5)) as usize
    }
}

/// The operational registers: the writable block that drives the
/// controller. The device-context-array and command-ring pointers hold
/// physical addresses, carried here as plain values.
pub struct OperationalRegisters {
    command: Volatile<u32>,
    status: Volatile<u32>,
    page_size: Volatile<u32>,
    notification_ctrl: Volatile<u32>,
    cmd_ring_ctrl: Volatile<u64>,
    dcbaap: Volatile<u64>,
    config: Volatile<u64>,
}

impl OperationalRegisters {
    /// The USBCMD register word.
    pub closed spec fn spec_command(&self) -> u32 {
        self.command@
    }

    /// The USBSTS register word.
    pub closed spec fn spec_status(&self) -> u32 {
        self.status@
    }

    /// The PAGESIZE register word.
    pub closed spec fn spec_page_size(&self) -> u32 {
        self.page_size@
    }

    /// The command-ring-control register word.
    pub closed spec fn spec_cmd_ring_ctrl(&self) -> u64 {
        self.cmd_ring_ctrl@
    }

    /// The device-context-base-address-array pointer register.
    pub closed spec fn spec_dcbaap(&self) -> u64 {
        self.dcbaap@
    }

    /// The CONFIG register word.
    pub closed spec fn spec_config(&self) -> u64 {
        self.config@
    }

    /// An operational block holding the given register words, as mapped at
    /// the operational base in a given hardware state.
    pub fn new(command: u32, status: u32, page_size: u32, cmd_ring_ctrl: u64, dcbaap: u64, config: u64) -> (r:
        Self)
        ensures
            r.spec_command() == command,
            r.spec_status() == status,
            r.spec_page_size() == page_size,
            r.spec_cmd_ring_ctrl() == cmd_ring_ctrl,
            r.spec_dcbaap() == dcbaap,
            r.spec_config() == config,
    {
        OperationalRegisters {
            command: Volatile::new(command),
            status: Volatile::new(status),
            page_size: Volatile::new(page_size),
            notification_ctrl: Volatile::new(0),
            cmd_ring_ctrl: Volatile::new(cmd_ring_ctrl),
            dcbaap: Volatile::new(dcbaap),
            config: Volatile::new(config),
        }
    }

    /// The USBCMD register word.
    pub fn command(&self) -> (r: u32)
        ensures
            r == self.spec_command(),
    {
        self.command.read()
    }

    /// The USBSTS register word.
    pub fn status(&self) -> (r: u32)
        ensures
            r == self.spec_status(),
    {
        self.status.read()
    }

    /// The command-ring-control register word.
    pub fn cmd_ring_ctrl(&self) -> (r: u64)
        ensures
            r == self.spec_cmd_ring_ctrl(),
    {
        self.cmd_ring_ctrl.read()
    }

    /// The device-context-base-address-array pointer register.
    pub fn dcbaap(&self) -> (r: u64)
        ensures
            r == self.spec_dcbaap(),
    {
        self.dcbaap.read()
    }

    /// The CONFIG register word.
    pub fn config(&self) -> (r: u64)
        ensures
            r == self.spec_config(),
    {
        self.config.read()
    }

    /// Clear the given bits of the command register, read-modify-write;
    /// every other register keeps its word.
    pub fn clear_command_bits(&mut self, bits: u32)
        ensures
            final(self).spec_command() == (old(self).spec_command() & !bits),
            final(self).spec_status() == old(self).spec_status(),
            final(self).spec_page_size() == old(self).spec_page_size(),
            final(self).spec_cmd_ring_ctrl() == old(self).spec_cmd_ring_ctrl(),
            final(self).spec_dcbaap() == old(self).spec_dcbaap(),
            final(self).spec_config() == old(self).spec_config(),
    {
        let c = self.command.read();
        self.command.write(c & !bits);
    }

    /// Set the given bits of the command register, read-modify-write;
    /// every other register keeps its word.
    pub fn set_command_bits(&mut self, bits: u32)
        ensures
            final(self).spec_command() == (old(self).spec_command() | bits),
            final(self).spec_status() == old(self).spec_status(),
            final(self).spec_page_size() == old(self).spec_page_size(),
            final(self).spec_cmd_ring_ctrl() == old(self).spec_cmd_ring_ctrl(),
            final(self).spec_dcbaap() == old(self).spec_dcbaap(),
            final(self).spec_config() == old(self).spec_config(),
    {
        let c = self.command.read();
        self.command.write(c | bits);
    }

    /// The controller's page size in bytes: the PAGESIZE register's low 16
    /// bits hold exactly one set bit, at position `n` for a page size of
    /// `2^(n + 12)` — which is the low half shifted up 12. More than one
    /// set bit would be a malformed controller, which the driver treats as
    /// fatal and this contract excludes.
    pub fn page_size(&self) -> (r: usize)
        requires
            self.spec_page_size() & 0xffff != 0,
            (self.spec_page_size() & 0xffff) & (((self.spec_page_size() & 0xffff) - 1) as u32)
                == 0,
        ensures
            r == ((self.spec_page_size() & 0xffff) as usize) << 12,
    {
        let page_size_bits = self.page_size.read() & 0xffff;
        (page_size_bits as usize) << 12
    }

    /// Write the device-slot count into the low byte of CONFIG, keeping
    /// the rest of the word; every other register keeps its word.
    pub fn set_num_device_slots(&mut self, num: usize)
        requires
            num <= 0xff,
        ensures
            final(self).spec_config() == ((old(self).spec_config() & !0xff) | num as u64),
            final(self).spec_command() == old(self).spec_command(),
            final(self).spec_status() == old(self).spec_status(),
            final(self).spec_page_size() == old(self).spec_page_size(),
            final(self).spec_cmd_ring_ctrl() == old(self).spec_cmd_ring_ctrl(),
            final(self).spec_dcbaap() == old(self).spec_dcbaap(),
    {
        let c = self.config.read();
        let c = c & !0xff;
        let c = c | (num as u64);
        self.config.write(c);
    }

    /// Publish the device context base address array to the controller:
    /// write its physical base address into the DCBAAP register.
    pub fn set_dcbaa_ptr(&mut self, dcbaa: &DeviceContextBaseAddressArray)
        ensures
            final(self).spec_dcbaap() == dcbaa.spec_base_addr(),
            final(self).spec_command() == old(self).spec_command(),
            final(self).spec_status() == old(self).spec_status(),
            final(self).spec_page_size() == old(self).spec_page_size(),
            final(self).spec_cmd_ring_ctrl() == old(self).spec_cmd_ring_ctrl(),
            final(self).spec_config() == old(self).spec_config(),
    {
        self.dcbaap.write(dcbaa.base_addr());
    }

    /// Publish the command ring to the controller: its physical base
    /// address OR'd with bit 0 set — the consumer-ring-cycle-state the
    /// controller starts expecting.
    pub fn set_cmd_ring_ctrl(&mut self, ring: &CommandRing)
        ensures
            final(self).spec_cmd_ring_ctrl() == (ring.spec_ring().spec_base() | 1),
            final(self).spec_command() == old(self).spec_command(),
            final(self).spec_status() == old(self).spec_status(),
            final(self).spec_page_size() == old(self).spec_page_size(),
            final(self).spec_dcbaap() == old(self).spec_dcbaap(),
            final(self).spec_config() == old(self).spec_config(),
    {
        self.cmd_ring_ctrl.write(ring.ring_phys_addr() | 1);
    }
}

/// The phases of the controller reset sequence: clear run/stop, busy-wait
/// until the hardware reports halted, assert the reset bit, busy-wait
/// until the hardware clears it.
#[derive(Debug, Clone, Copy, PartialEq, Eq, Structural)]
pub enum ResetPhase {
    /// Nothing done yet: the run/stop bit is still to be cleared.
    Begin,
    /// Stop requested; waiting for the hardware to set the halted bit.
    AwaitHalted,
    /// Reset asserted; waiting for the hardware to clear the reset bit.
    AwaitResetCleared,
    /// The controller has come out of reset.
    Complete,
}

/// The phases of the controller start sequence: set run/stop, busy-wait
/// until the hardware clears the halted bit.
#[derive(Debug, Clone, Copy, PartialEq, Eq, Structural)]
pub enum StartPhase {
    /// Nothing done yet: the run/stop bit is still to be set.
    Begin,
    /// Start requested; waiting for the hardware to clear the halted bit.
    AwaitRunning,
    /// The controller is running.
    Complete,
}

/// One decision of the reset state machine, from the freshly observed
/// command and status words: the next phase, and the command word to write
/// back, if any.
pub open spec fn spec_reset_xhc_step(phase: ResetPhase, command: u32, status: u32) -> (
    ResetPhase,
    Option<u32>,
) {
    match phase {
        ResetPhase::Begin => (ResetPhase::AwaitHalted, Some(command & !CMD_RUN_STOP)),
        ResetPhase::AwaitHalted => if status & STATUS_HC_HALTED != 0 {
            (ResetPhase::AwaitResetCleared, Some(command | CMD_HC_RESET))
        } else {
            (ResetPhase::AwaitHalted, None)
        },
        ResetPhase::AwaitResetCleared => if command & CMD_HC_RESET == 0 {
            (ResetPhase::Complete, None)
        } else {
            (ResetPhase::AwaitResetCleared, None)
        },
        ResetPhase::Complete => (ResetPhase::Complete, None),
    }
}

/// One decision of the start state machine, from the freshly observed
/// command and status words.
pub open spec fn spec_start_xhc_step(phase: StartPhase, command: u32, status: u32) -> (
    StartPhase,
    Option<u32>,
) {
    match phase {
        StartPhase::Begin => (StartPhase::AwaitRunning, Some(command | CMD_RUN_STOP)),
        StartPhase::AwaitRunning => if status & STATUS_HC_HALTED == 0 {
            (StartPhase::Complete, None)
        } else {
            (StartPhase::AwaitRunning, None)
        },
        StartPhase::Complete => (StartPhase::Complete, None),
    }
}

/// The decision logic of the controller reset sequence. The caller runs
/// the busy-wait: it reads the command and status registers (volatile, the
/// hardware mutates them), calls this step, performs the returned write if
/// there is one, and relaxes the CPU until the phase is `Complete`. The
/// hardware gives no progress bound, so a production caller should bound
/// the loop and report an unresponsive controller.
pub fn reset_xhc_step(phase: ResetPhase, command: u32, status: u32) -> (r: (ResetPhase, Option<
    u32,
>))
    ensures
        r == spec_reset_xhc_step(phase, command, status),
{
    match phase {
        ResetPhase::Begin => (ResetPhase::AwaitHalted, Some(command & !CMD_RUN_STOP)),
        ResetPhase::AwaitHalted => if status & STATUS_HC_HALTED != 0 {
            (ResetPhase::AwaitResetCleared, Some(command | CMD_HC_RESET))
        } else {
            (ResetPhase::AwaitHalted, None)
        },
        ResetPhase::AwaitResetCleared => if command & CMD_HC_RESET == 0 {
            (ResetPhase::Complete, None)
        } else {
            (ResetPhase::AwaitResetCleared, None)
        },
        ResetPhase::Complete => (ResetPhase::Complete, None),
    }
}

/// The decision logic of the controller start sequence; the caller runs
/// the busy-wait as for [`reset_xhc_step`].
pub fn start_xhc_step(phase: StartPhase, command: u32, status: u32) -> (r: (StartPhase, Option<
    u32,
>))
    ensures
        r == spec_start_xhc_step(phase, command, status),
{
    match phase {
        StartPhase::Begin => (StartPhase::AwaitRunning, Some(command | CMD_RUN_STOP)),
        StartPhase::AwaitRunning => if status & STATUS_HC_HALTED == 0 {
            (StartPhase::Complete, None)
        } else {
            (StartPhase::AwaitRunning, None)
        },
        StartPhase::Complete => (StartPhase::Complete, None),
    }
}

/// One doorbell register: a write-only word that tells the controller new
/// work is waiting on the addressed ring. On the machine access to the
/// shared register is serialized by a lock around this structure; the
/// model keeps the last word written so the contract can name it.
pub struct DoorbellRegisters {
    doorbell: Volatile<u32>,
}

impl DoorbellRegisters {
    /// The last word written to the register.
    pub closed spec fn spec_last_write(&self) -> u32 {
        self.doorbell@
    }

    /// A doorbell register with nothing rung yet.
    pub fn new() -> (r: Self)
        ensures
            r.spec_last_write() == 0,
    {
        DoorbellRegisters { doorbell: Volatile::new(0) }
    }

    /// Ring the doorbell: write the single word `target | stream_id << 16`.
    /// Target byte 0 addresses the command ring; targets 1–255 address
    /// device slots, with the stream id selecting the endpoint's stream.
    pub fn notify(&mut self, target: u8, stream_id: u16)
        ensures
            final(self).spec_last_write() == ((target as u32) | ((stream_id as u32) << 16)),
    {
        let value = (target as u32) | ((stream_id as u32) << 16);
        self.doorbell.write(value);
    }

    /// The last word written, for inspection.
    pub fn last_write(&self) -> (r: u32)
        ensures
            r == self.spec_last_write(),
    {
        self.doorbell.read()
    }
}

} // verus!
