//! The Device Context Base Address Array (DCBAA).
//!
//! The controller looks up per-device state through a 64-byte-aligned
//! array of 256 eight-byte pointers whose physical base address software
//! writes into the operational registers. The array is allocated zeroed
//! and pinned; the model carries its physical base address as a plain
//! value.

use vstd::prelude::*;

verus! {

/// Number of entries of the DCBAA, fixed by the xHCI layout.
pub const DCBAA_ENTRIES: usize = 256;

/// The in-memory layout of the DCBAA: 256 physical addresses, 64-byte
/// aligned and pinned on the machine.
pub struct RawDeviceContextBaseAddressArray {
    context: Vec<u64>,
}

impl RawDeviceContextBaseAddressArray {
    /// The entries.
    pub closed spec fn spec_context(&self) -> Seq<u64> {
        self.context@
    }

    /// Exactly 256 entries.
    pub open spec fn wf(&self) -> bool {
        self.spec_context().len() == DCBAA_ENTRIES
    }

    /// A zeroed array.
    fn new() -> (r: Self)
        ensures
            r.wf(),
            forall|i: int| 0 <= i < DCBAA_ENTRIES ==> r.spec_context()[i] == 0,
    {
        let mut context: Vec<u64> = Vec::new();
        let mut i: usize = 0;
        while i < DCBAA_ENTRIES
            invariant
                i <= DCBAA_ENTRIES,
                context@.len() == i,
                forall|j: int| 0 <= j < i ==> context@[j] == 0,
            decreases DCBAA_ENTRIES - i,
        {
            context.push(0);
            i = i + 1;
        }
        RawDeviceContextBaseAddressArray { context }
    }
}

/// The pinned DCBAA together with the physical base address at which the
/// hardware sees it.
pub struct DeviceContextBaseAddressArray {
    inner: RawDeviceContextBaseAddressArray,
    base_addr: u64,
}

impl DeviceContextBaseAddressArray {
    /// The entries.
    pub closed spec fn spec_context(&self) -> Seq<u64> {
        self.inner.spec_context()
    }

    /// The physical base address published to the hardware.
    pub closed spec fn spec_base_addr(&self) -> u64 {
        self.base_addr
    }

    /// Well-formed array: full length and the 64-byte alignment the
    /// controller demands of the base address.
    pub open spec fn wf(&self) -> bool {
        &&& self.spec_context().len() == DCBAA_ENTRIES
        &&& self.spec_base_addr() % 64 == 0
    }

    /// A zeroed, pinned DCBAA whose storage sits at physical address
    /// `base_addr`.
    pub fn new(base_addr: u64) -> (r: Self)
        requires
            base_addr % 64 == 0,
        ensures
            r.wf(),
            r.spec_base_addr() == base_addr,
            forall|i: int| 0 <= i < DCBAA_ENTRIES ==> r.spec_context()[i] == 0,
    {
        DeviceContextBaseAddressArray { inner: RawDeviceContextBaseAddressArray::new(), base_addr }
    }

    /// The physical base address, as written into the DCBAAP register.
    pub fn base_addr(&self) -> (r: u64)
        ensures
            r == self.spec_base_addr(),
    {
        self.base_addr
    }
}

} // verus!
