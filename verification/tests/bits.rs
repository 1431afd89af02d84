//! Tests of the bitfield register accessor.

use xhci_core::volatile::Volatile;

#[test]
fn read_returns_written_word() {
    let mut v: Volatile<u32> = Volatile::new(0);
    assert_eq!(v.read(), 0);
    v.write(0xdead_beef);
    assert_eq!(v.read(), 0xdead_beef);
}

#[test]
fn read_works_at_every_width() {
    let b: Volatile<u8> = Volatile::new(0xab);
    let h: Volatile<u16> = Volatile::new(0xabcd);
    let q: Volatile<u64> = Volatile::new(0xdead_beef_0123_4567);
    assert_eq!(b.read(), 0xab);
    assert_eq!(h.read(), 0xabcd);
    assert_eq!(q.read(), 0xdead_beef_0123_4567);
}

#[test]
fn write_bits_then_read_bits_round_trips() {
    let mut v: Volatile<u32> = Volatile::new(0);
    v.write_bits(8, 8, 0xab);
    assert_eq!(v.read_bits(8, 8), 0xab);
    assert_eq!(v.read(), 0x0000_ab00);
}

#[test]
fn write_bits_reduces_value_modulo_width() {
    // A value wider than the span comes back reduced modulo 2^width.
    let mut v: Volatile<u32> = Volatile::new(0);
    v.write_bits(8, 8, 0x1ab);
    assert_eq!(v.read_bits(8, 8), 0xab);
    assert_eq!(v.read(), 0x0000_ab00);
}

#[test]
fn write_bits_preserves_bits_outside_the_span() {
    let mut v: Volatile<u32> = Volatile::new(0xffff_ffff);
    v.write_bits(8, 8, 0xab);
    assert_eq!(v.read(), 0xffff_abff);
    assert_eq!(v.read_bits(0, 8), 0xff);
    assert_eq!(v.read_bits(16, 16), 0xffff);
}

#[test]
fn write_bits_full_word_span() {
    let mut v: Volatile<u32> = Volatile::new(0x1234_5678);
    v.write_bits(0, 32, 0x9abc_def0);
    assert_eq!(v.read(), 0x9abc_def0);
    assert_eq!(v.read_bits(0, 32), 0x9abc_def0);
}

#[test]
fn write_bits_empty_span_changes_nothing() {
    let mut v: Volatile<u32> = Volatile::new(0x1234_5678);
    v.write_bits(16, 0, 0xffff);
    assert_eq!(v.read(), 0x1234_5678);
    assert_eq!(v.read_bits(16, 0), 0);
}

#[test]
fn read_bits_extracts_the_span() {
    let v: Volatile<u32> = Volatile::new(0xcafe_f00d);
    assert_eq!(v.read_bits(0, 4), 0xd);
    assert_eq!(v.read_bits(16, 16), 0xcafe);
    assert_eq!(v.read_bits(31, 1), 1);
}

#[test]
fn write_bits_single_bit_positions() {
    let mut v: Volatile<u32> = Volatile::new(0);
    v.write_bits(0, 1, 1);
    v.write_bits(31, 1, 1);
    assert_eq!(v.read(), 0x8000_0001);
    v.write_bits(0, 1, 0);
    assert_eq!(v.read(), 0x8000_0000);
}
