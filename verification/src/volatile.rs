//! The bitfield register accessor.
//!
//! Hardware register words and TRB fields are read and written through
//! [`Volatile`], which models one register cell. On hardware every access to
//! such a cell is a single volatile load or store, because an autonomous
//! controller may observe or mutate the cell concurrently; here the cell holds
//! the word as a plain value, and the contracts pin down exactly which bits
//! each access touches.

use vstd::arithmetic::div_mod::lemma_small_mod;
use vstd::arithmetic::power2::lemma2_to64;
use vstd::arithmetic::power2::pow2;
use vstd::bits::lemma_low_bits_mask_unfold;
use vstd::bits::lemma_low_bits_mask_values;
use vstd::bits::lemma_u32_low_bits_mask_is_mod;
use vstd::bits::lemma_u32_pow2_no_overflow;
use vstd::bits::low_bits_mask;
use vstd::prelude::*;

verus! {

/// Mask with the low `width` bits of a 32-bit word set.
pub open spec fn mask32(width: usize) -> u32 {
    if width >= 32 {
        0xffff_ffffu32
    } else {
        ((1u32 << width) - 1) as u32
    }
}

/// The bit span `[shift, shift + width)` of `w`, moved down to the low bits.
pub open spec fn bits32(w: u32, shift: usize, width: usize) -> u32 {
    (w >> shift) & mask32(width)
}

/// `w` with the bit span `[shift, shift + width)` replaced by the low `width`
/// bits of `v`, all bits outside the span kept.
pub open spec fn set_bits32(w: u32, shift: usize, width: usize, v: u32) -> u32 {
    ((v & mask32(width)) << shift) | (w & !(mask32(width) << shift))
}

/// Bit `i` of `w`.
pub open spec fn bit32(w: u32, i: usize) -> bool {
    (w >> i) & 1 == 1
}

/// One hardware register cell holding a value of type `T`.
///
/// On the machine this wraps a memory-mapped word and every access is a
/// single volatile operation; the model holds the word directly.
#[derive(Clone, Copy)]
pub struct Volatile<T> {
    value: T,
}

impl<T> View for Volatile<T> {
    type V = T;

    closed spec fn view(&self) -> T {
        self.value
    }
}

impl<T> Volatile<T> {
    /// The cell holding `value`, at the specification level.
    pub closed spec fn cell(value: T) -> Volatile<T> {
        Volatile { value }
    }

    /// Wrap an initial register value.
    pub fn new(value: T) -> (r: Self)
        ensures
            r@ == value,
            r == Volatile::cell(value),
    {
        Volatile { value }
    }

    /// Store a whole new word (a single volatile store on hardware).
    pub fn write(&mut self, new_value: T)
        ensures
            final(self)@ == new_value,
    {
        self.value = new_value;
    }
}

impl<T: Copy> Volatile<T> {
    /// Load the whole word (a single volatile load on hardware).
    pub fn read(&self) -> (r: T)
        ensures
            r == self@,
    {
        self.value
    }
}

impl Volatile<u32> {
    /// Extract the bit span `[shift, shift + width)` of the stored word.
    pub fn read_bits(&self, shift: usize, width: usize) -> (r: u32)
        requires
            shift + width <= 32,
        ensures
            r == bits32(self@, shift, width),
    {
        if width == 0 {
            proof {
                let w = self.value;
                assert((w >> shift) & ((1u32 << 0) - 1) as u32 == 0) by (bit_vector);
            }
            0
        } else {
            let mask: u32 = if width >= 32 {
                0xffff_ffff
            } else {
                proof {
                    assert(1u32 << width >= 1) by (bit_vector)
                        requires
                            width < 32,
                    ;
                }
                (1u32 << width) - 1
            };
            (self.read() >> shift) & mask
        }
    }

    /// Replace exactly the bit span `[shift, shift + width)` of the stored
    /// word with the low `width` bits of `value`, preserving all other bits,
    /// via a read-modify-write.
    pub fn write_bits(&mut self, shift: usize, width: usize, value: u32)
        requires
            shift + width <= 32,
        ensures
            final(self)@ == set_bits32(old(self)@, shift, width, value),
    {
        if width == 0 {
            proof {
                let w = self.value;
                let v = value;
                let s = shift;
                assert(((v & (((1u32 << 0) - 1) as u32)) << s) | (w & !((((1u32 << 0) - 1) as u32)
                    << s)) == w) by (bit_vector);
            }
            return ;
        }
        let mask: u32 = if width >= 32 {
            0xffff_ffff
        } else {
            proof {
                assert(1u32 << width >= 1) by (bit_vector)
                    requires
                        width < 32,
                ;
            }
            (1u32 << width) - 1
        };
        let cur = self.read();
        self.write(((value & mask) << shift) | (cur & !(mask << shift)));
    }
}

/// What a spec-level cell holds.
pub broadcast proof fn lemma_cell_view<T>(value: T)
    ensures
        (#[trigger] Volatile::cell(value))@ == value,
{
}

/// The low-bits mask of this module agrees with the one of `vstd::bits`.
proof fn lemma_mask32_eq_low_bits_mask(width: usize)
    requires
        width < 32,
    ensures
        mask32(width) as nat == low_bits_mask(width as nat),
    decreases width,
{
    if width == 0 {
        lemma_low_bits_mask_values();
        assert((1u32 << 0) - 1 == 0) by (bit_vector);
    } else {
        let wm1 = (width - 1) as usize;
        lemma_mask32_eq_low_bits_mask(wm1);
        lemma_low_bits_mask_unfold(width as nat);
        assert(1u32 << width >= 1 && 1u32 << wm1 >= 1 && (1u32 << width) - 1 == 2 * ((1u32 << wm1)
            - 1) + 1) by (bit_vector)
            requires
                1 <= width && width < 32 && wm1 == width - 1,
        ;
        assert(mask32(width) as nat == 2 * (mask32(wm1) as nat) + 1);
    }
}

/// Keeping the low `width` bits of a 32-bit word is reduction modulo
/// 2^`width`.
pub proof fn lemma_mask32_is_mod(width: usize, v: u32)
    requires
        width <= 32,
    ensures
        (v & mask32(width)) as nat == (v as nat) % pow2(width as nat),
{
    lemma2_to64();
    if width == 32 {
        assert(v & 0xffff_ffffu32 == v) by (bit_vector);
        lemma_small_mod(v as nat, pow2(32));
    } else {
        lemma_u32_low_bits_mask_is_mod(v, width as nat);
        lemma_mask32_eq_low_bits_mask(width);
        lemma_u32_pow2_no_overflow(width as nat);
    }
}

/// Replacing a bit span and then extracting the same span returns the written
/// value reduced modulo 2^`width`, and every bit outside the span keeps its
/// old value — for every word, every value and every span that fits in the
/// 32-bit storage.
pub proof fn lemma_write_bits_then_read_bits(w: u32, shift: usize, width: usize, v: u32)
    requires
        shift + width <= 32,
    ensures
        bits32(set_bits32(w, shift, width, v), shift, width) == v & mask32(width),
        (bits32(set_bits32(w, shift, width, v), shift, width)) as nat == (v as nat) % pow2(
            width as nat,
        ),
        forall|i: usize|
            i < 32 && !(shift <= i < shift + width) ==> bit32(set_bits32(w, shift, width, v), i)
                == bit32(w, i),
{
    assert(bits32(set_bits32(w, shift, width, v), shift, width) == v & mask32(width))
        by (bit_vector)
        requires
            shift + width <= 32,
    ;
    lemma_mask32_is_mod(width, v);
    assert forall|i: usize|
        i < 32 && !(shift <= i < shift + width) implies bit32(set_bits32(w, shift, width, v), i)
        == bit32(w, i) by {
        assert(bit32(set_bits32(w, shift, width, v), i) == bit32(w, i)) by (bit_vector)
            requires
                shift + width <= 32 && i < 32 && !(shift <= i && i < shift + width),
        ;
    }
}

} // verus!
