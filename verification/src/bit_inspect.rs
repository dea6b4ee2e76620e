//! Single-bit tests and updates on machine integers.

use vstd::prelude::*;

verus! {

/// Whether bit `bit` of `byte` is one, counting from the least significant bit.
pub open spec fn bit_of(byte: u8, bit: usize) -> bool {
    byte & (1u8 << bit) != 0
}

/// The value that bit `bit` of a byte stands for: two to the power `bit`.
pub open spec fn place_value(bit: usize) -> int {
    seq![1int, 2, 4, 8, 16, 32, 64, 128][bit as int]
}

/// A bit of a byte is its binary digit: bit `bit` is one exactly if the
/// byte, divided by the bit's place value, leaves an odd quotient.
pub proof fn bit_is_binary_digit(byte: u8, bit: usize)
    requires
        bit < 8,
    ensures
        bit_of(byte, bit) == ((byte as int / place_value(bit)) % 2 == 1),
{
    assert((byte & (1u8 << 0usize) != 0) == ((byte / 1) % 2 == 1)) by (bit_vector);
    assert((byte & (1u8 << 1usize) != 0) == ((byte / 2) % 2 == 1)) by (bit_vector);
    assert((byte & (1u8 << 2usize) != 0) == ((byte / 4) % 2 == 1)) by (bit_vector);
    assert((byte & (1u8 << 3usize) != 0) == ((byte / 8) % 2 == 1)) by (bit_vector);
    assert((byte & (1u8 << 4usize) != 0) == ((byte / 16) % 2 == 1)) by (bit_vector);
    assert((byte & (1u8 << 5usize) != 0) == ((byte / 32) % 2 == 1)) by (bit_vector);
    assert((byte & (1u8 << 6usize) != 0) == ((byte / 64) % 2 == 1)) by (bit_vector);
    assert((byte & (1u8 << 7usize) != 0) == ((byte / 128) % 2 == 1)) by (bit_vector);
}

/// Bit-level access to an integer of a fixed width.
pub trait BitInspect<T>: Sized {
    /// The number of bits of the integer.
    spec fn width() -> nat;

    /// Whether bit `bit` is one.
    spec fn has_bit(&self, bit: usize) -> bool;

    /// Tests whether bit `bit` is one.
    fn is_bit_set(&self, bit: usize) -> (set: bool)
        requires
            bit < Self::width(),
        ensures
            set == self.has_bit(bit),
    ;

    /// Tests whether bit `bit` is zero.
    fn is_bit_cleared(&self, bit: usize) -> (cleared: bool)
        requires
            bit < Self::width(),
        ensures
            cleared == !self.has_bit(bit),
    ;

    /// Returns the value with bit `bit` raised and every other bit unchanged.
    fn set_bit(self, bit: usize) -> (raised: Self)
        requires
            bit < Self::width(),
        ensures
            forall|i: usize| i < Self::width() ==> raised.has_bit(i) == (i == bit || self.has_bit(i)),
    ;

    /// Returns the same value as `set_bit`: bit `bit` comes out raised, not
    /// lowered, and every other bit unchanged. To lower a bit, mask the
    /// value instead.
    fn clear_bit(self, bit: usize) -> (raised: Self)
        requires
            bit < Self::width(),
        ensures
            forall|i: usize| i < Self::width() ==> raised.has_bit(i) == (i == bit || self.has_bit(i)),
    ;
}

impl BitInspect<u8> for u8 {
    open spec fn width() -> nat {
        8
    }

    open spec fn has_bit(&self, bit: usize) -> bool {
        bit_of(*self, bit)
    }

    fn is_bit_set(&self, bit: usize) -> (set: bool) {
        *self & (1u8 << bit) != 0
    }

    fn is_bit_cleared(&self, bit: usize) -> (cleared: bool) {
        *self & (1u8 << bit) == 0
    }

    fn set_bit(self, bit: usize) -> (raised: u8)
        ensures
            raised == self | (1u8 << bit),
    {
        let raised: u8 = self | (1u8 << bit);
        assert forall|i: usize| i < 8 implies #[trigger] raised.has_bit(i) == (i == bit || self.has_bit(i)) by {
            assert(((self | (1u8 << bit)) & (1u8 << i) != 0) == (i == bit || self & (1u8 << i) != 0))
                by (bit_vector)
                requires
                    i < 8,
                    bit < 8,
            ;
        }
        raised
    }

    fn clear_bit(self, bit: usize) -> (raised: u8)
        ensures
            raised == self | (1u8 << bit),
    {
        self.set_bit(bit)
    }
}

} // verus!
