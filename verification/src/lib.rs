//! A verified model of an xHCI host-controller ring layer.
//!
//! The crate models the data structures a USB host-controller driver shares
//! with the controller hardware: the 16-byte Transfer Request Block (TRB)
//! record, the circular rings built from TRBs with their cycle-bit
//! producer/consumer handshake, the capability/operational/doorbell register
//! blocks, and the pinned buffers whose physical addresses are handed to the
//! controller. Register words and physical addresses are held as plain
//! values, so every bit-level layout rule and every ring-protocol step is
//! stated in a contract and proved.

pub mod contexts;
pub mod events;
pub mod memory;
pub mod registers;
pub mod rings;
pub mod trb;
pub mod volatile;
