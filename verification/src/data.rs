//! The data registers that all pins share, one bit per pin.
use vstd::prelude::*;

verus! {

/// The number of bits, and so of pins, in one data register.
pub const PINS: u32 = 32;

/// The word with the bit of pin `pin` set and no other.
pub open spec fn pin_mask(pin: u32) -> u32 {
    1u32 << pin
}

/// Whether the bit of pin `pin` is set in `word`.
pub open spec fn bit(word: u32, pin: u32) -> bool {
    word & (1u32 << pin) != 0
}

/// The word to write for pin `pin`: exactly one bit, at the pin's position.
pub fn mask(pin: u32) -> (m: u32)
    requires
        pin < PINS,
    ensures
        m == pin_mask(pin),
        bit(m, pin),
        forall|other: u32| other < PINS && other != pin ==> !#[trigger] bit(m, other),
{
    let m: u32 = 1u32 << pin;
    proof {
        lemma_mask_has_one_bit(pin);
    }
    m
}

/// Tests the bit of pin `pin` in `word`.
pub fn test_bit(word: u32, pin: u32) -> (set: bool)
    requires
        pin < PINS,
    ensures
        set == bit(word, pin),
{
    word & (1u32 << pin) != 0
}

/// The contents of the data registers.
///
/// The three write-only registers (set, clear, toggle) hold nothing: a write
/// to one of them changes, in the output register, the bits that are 1 in
/// the word written, and no others.
#[derive(PartialEq, Eq, Structural, Debug)]
pub struct Gpio {
    /// Output enable, one bit per pin.
    pub doe31_0: u32,
    /// The levels at the pins.
    pub din31_0: u32,
    /// The output levels last commanded.
    pub dout31_0: u32,
}

impl Gpio {
    /// Writes the output-enable register.
    pub fn write_doe(&mut self, word: u32)
        ensures
            final(self).doe31_0 == word,
            final(self).din31_0 == old(self).din31_0,
            final(self).dout31_0 == old(self).dout31_0,
    {
        self.doe31_0 = word;
    }

    /// Writes the output-set register: the outputs named in `word` go high.
    pub fn write_doutset(&mut self, word: u32)
        ensures
            final(self).dout31_0 == old(self).dout31_0 | word,
            final(self).doe31_0 == old(self).doe31_0,
            final(self).din31_0 == old(self).din31_0,
    {
        self.dout31_0 = self.dout31_0 | word;
    }

    /// Writes the output-clear register: the outputs named in `word` go low.
    pub fn write_doutclr(&mut self, word: u32)
        ensures
            final(self).dout31_0 == old(self).dout31_0 & !word,
            final(self).doe31_0 == old(self).doe31_0,
            final(self).din31_0 == old(self).din31_0,
    {
        self.dout31_0 = self.dout31_0 & !word;
    }

    /// Writes the output-toggle register: the outputs named in `word` flip.
    pub fn write_douttgl(&mut self, word: u32)
        ensures
            final(self).dout31_0 == old(self).dout31_0 ^ word,
            final(self).doe31_0 == old(self).doe31_0,
            final(self).din31_0 == old(self).din31_0,
    {
        self.dout31_0 = self.dout31_0 ^ word;
    }

    /// Whether the level at pin `pin` is high.
    pub fn input_is_high(&self, pin: u32) -> (high: bool)
        requires
            pin < PINS,
        ensures
            high == bit(self.din31_0, pin),
    {
        test_bit(self.din31_0, pin)
    }

    /// Whether the output of pin `pin` was last commanded high.
    pub fn output_is_high(&self, pin: u32) -> (high: bool)
        requires
            pin < PINS,
        ensures
            high == bit(self.dout31_0, pin),
    {
        test_bit(self.dout31_0, pin)
    }

    /// Drives pin `pin` high by a write of its one bit to the output-set
    /// register. No other pin's output changes.
    pub fn set_pin(&mut self, pin: u32)
        requires
            pin < PINS,
        ensures
            final(self).dout31_0 == old(self).dout31_0 | pin_mask(pin),
            bit(final(self).dout31_0, pin),
            forall|other: u32|
                other < PINS && other != pin ==> #[trigger] bit(final(self).dout31_0, other)
                    == bit(old(self).dout31_0, other),
            final(self).doe31_0 == old(self).doe31_0,
            final(self).din31_0 == old(self).din31_0,
    {
        let m: u32 = mask(pin);
        proof {
            let word = self.dout31_0;
            assert forall|other: u32| other < PINS && other != pin implies #[trigger] bit(
                word | m,
                other,
            ) == bit(word, other) by {
                lemma_set_one_bit(word, pin, other);
            }
            lemma_set_one_bit(word, pin, pin);
        }
        self.write_doutset(m);
    }

    /// Drives pin `pin` low by a write of its one bit to the output-clear
    /// register. No other pin's output changes.
    pub fn clear_pin(&mut self, pin: u32)
        requires
            pin < PINS,
        ensures
            final(self).dout31_0 == old(self).dout31_0 & !pin_mask(pin),
            !bit(final(self).dout31_0, pin),
            forall|other: u32|
                other < PINS && other != pin ==> #[trigger] bit(final(self).dout31_0, other)
                    == bit(old(self).dout31_0, other),
            final(self).doe31_0 == old(self).doe31_0,
            final(self).din31_0 == old(self).din31_0,
    {
        let m: u32 = mask(pin);
        proof {
            let word = self.dout31_0;
            assert forall|other: u32| other < PINS && other != pin implies #[trigger] bit(
                word & !m,
                other,
            ) == bit(word, other) by {
                lemma_clear_one_bit(word, pin, other);
            }
            lemma_clear_one_bit(word, pin, pin);
        }
        self.write_doutclr(m);
    }

    /// Flips the output of pin `pin` by a write of its one bit to the
    /// output-toggle register. No other pin's output changes.
    pub fn toggle_pin(&mut self, pin: u32)
        requires
            pin < PINS,
        ensures
            final(self).dout31_0 == old(self).dout31_0 ^ pin_mask(pin),
            bit(final(self).dout31_0, pin) == !bit(old(self).dout31_0, pin),
            forall|other: u32|
                other < PINS && other != pin ==> #[trigger] bit(final(self).dout31_0, other)
                    == bit(old(self).dout31_0, other),
            final(self).doe31_0 == old(self).doe31_0,
            final(self).din31_0 == old(self).din31_0,
    {
        let m: u32 = mask(pin);
        proof {
            let word = self.dout31_0;
            assert forall|other: u32| other < PINS && other != pin implies #[trigger] bit(
                word ^ m,
                other,
            ) == bit(word, other) by {
                lemma_toggle_one_bit(word, pin, other);
            }
            lemma_toggle_one_bit(word, pin, pin);
        }
        self.write_douttgl(m);
    }
}

/// The mask of a pin has that pin's bit and no other.
pub proof fn lemma_mask_has_one_bit(pin: u32)
    by (bit_vector)
    requires
        pin < 32,
    ensures
        bit(pin_mask(pin), pin),
        forall|other: u32| other < 32 && other != pin ==> !#[trigger] bit(pin_mask(pin), other),
{
}

/// A write of one pin's mask to the set register raises that pin's output
/// bit and leaves each other bit as it was.
pub proof fn lemma_set_one_bit(word: u32, pin: u32, other: u32)
    by (bit_vector)
    requires
        pin < 32,
        other < 32,
    ensures
        bit(word | pin_mask(pin), other) == (other == pin || bit(word, other)),
{
}

/// A write of one pin's mask to the clear register lowers that pin's output
/// bit and leaves each other bit as it was.
pub proof fn lemma_clear_one_bit(word: u32, pin: u32, other: u32)
    by (bit_vector)
    requires
        pin < 32,
        other < 32,
    ensures
        bit(word & !pin_mask(pin), other) == (other != pin && bit(word, other)),
{
}

/// A write of one pin's mask to the toggle register flips that pin's output
/// bit and leaves each other bit as it was.
pub proof fn lemma_toggle_one_bit(word: u32, pin: u32, other: u32)
    by (bit_vector)
    requires
        pin < 32,
        other < 32,
    ensures
        bit(word ^ pin_mask(pin), other) == (if other == pin {
            !bit(word, other)
        } else {
            bit(word, other)
        }),
{
}

/// Two toggles of a pin in a row give back the output word that stood
/// before them, and so the pin's output bit.
pub proof fn lemma_toggle_twice(word: u32, pin: u32)
    by (bit_vector)
    ensures
        (word ^ pin_mask(pin)) ^ pin_mask(pin) == word,
        bit((word ^ pin_mask(pin)) ^ pin_mask(pin), pin) == bit(word, pin),
{
}

} // verus!
