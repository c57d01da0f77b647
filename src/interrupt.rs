//! The keypad interrupt condition: which buttons take part, whether all of
//! them or any of them must be held, and whether the interrupt is enabled.
//!
//! This only encodes the condition that the key interrupt control register
//! holds. For an interrupt to happen at all, the platform's interrupt master
//! enable and the keypad's interrupt enable flag must also be set elsewhere.

use vstd::prelude::*;
use crate::bits::{bit_set, get_bit, lemma_with_bit, put_bit, with_bit};
use crate::button::Button;

verus! {

/// Bit position of the interrupt enable flag.
pub const IRQ_ENABLE_POSITION: u16 = 14;

/// Bit position of the combination mode: set for AND, clear for OR.
pub const IRQ_AND_POSITION: u16 = 15;

/// A keypad interrupt condition, as the key interrupt control register holds
/// it. Bits 0 to 9 select the buttons that take part, bit 14 enables the
/// interrupt, and bit 15 chooses the combination: when set, all the selected
/// buttons must be held together (AND); when clear, any one of them is
/// enough (OR). The bits are independent and any combination is valid.
#[derive(Debug, Clone, Copy, PartialEq, Eq, Structural)]
pub struct KeyInterruptSetting(pub u16);

impl KeyInterruptSetting {
    /// True when button `b` takes part in the condition.
    pub open spec fn selects(self, b: Button) -> bool {
        bit_set(self.0, b.position())
    }

    /// True when the interrupt is enabled.
    pub open spec fn enabled(self) -> bool {
        bit_set(self.0, IRQ_ENABLE_POSITION)
    }

    /// True when all selected buttons are required (AND mode).
    pub open spec fn all_required(self) -> bool {
        bit_set(self.0, IRQ_AND_POSITION)
    }

    /// The condition with the participation of `b` set to `on`.
    pub open spec fn with_button(self, b: Button, on: bool) -> Self {
        KeyInterruptSetting(with_bit(self.0, b.position(), on))
    }

    /// The condition with no button selected, OR mode, interrupt disabled.
    pub fn new() -> (r: Self)
        ensures
            r.0 == 0,
    {
        KeyInterruptSetting(0)
    }

    /// The condition that the 16-bit register value `bits` encodes.
    pub fn from_bits(bits: u16) -> (r: Self)
        ensures
            r.0 == bits,
    {
        KeyInterruptSetting(bits)
    }

    /// The 16-bit register value that encodes the condition.
    pub fn bits(self) -> (r: u16)
        ensures
            r == self.0,
    {
        self.0
    }

    /// True when button `b` takes part in the condition.
    pub fn pressed(self, b: Button) -> (r: bool)
        ensures
            r == self.selects(b),
    {
        get_bit(self.0, b.position())
    }

    /// Sets whether button `b` takes part in the condition; every other bit
    /// is kept.
    pub fn set_pressed(&mut self, b: Button, on: bool)
        ensures
            *final(self) == old(self).with_button(b, on),
    {
        self.0 = put_bit(self.0, b.position(), on);
    }

    /// True when the interrupt is enabled.
    pub fn irq_enabled(self) -> (r: bool)
        ensures
            r == self.enabled(),
    {
        get_bit(self.0, IRQ_ENABLE_POSITION)
    }

    /// Enables or disables the interrupt; every other bit is kept.
    pub fn set_irq_enabled(&mut self, on: bool)
        ensures
            final(self).0 == with_bit(old(self).0, IRQ_ENABLE_POSITION, on),
            final(self).enabled() == on,
            final(self).all_required() == old(self).all_required(),
            forall|b: Button| final(self).selects(b) == old(self).selects(b),
    {
        let ghost v = self.0;
        self.0 = put_bit(self.0, IRQ_ENABLE_POSITION, on);
        proof {
            lemma_with_bit(v, IRQ_ENABLE_POSITION, on, IRQ_ENABLE_POSITION);
            lemma_with_bit(v, IRQ_ENABLE_POSITION, on, IRQ_AND_POSITION);
            assert forall|b: Button| final(self).selects(b) == old(self).selects(b) by {
                lemma_with_bit(v, IRQ_ENABLE_POSITION, on, b.position());
            }
        }
    }

    /// True when all selected buttons must be held together (AND mode);
    /// false when any one of them is enough (OR mode).
    pub fn irq_logical_and(self) -> (r: bool)
        ensures
            r == self.all_required(),
    {
        get_bit(self.0, IRQ_AND_POSITION)
    }

    /// Chooses AND mode (`on`) or OR mode; every other bit is kept.
    pub fn set_irq_logical_and(&mut self, on: bool)
        ensures
            final(self).0 == with_bit(old(self).0, IRQ_AND_POSITION, on),
            final(self).all_required() == on,
            final(self).enabled() == old(self).enabled(),
            forall|b: Button| final(self).selects(b) == old(self).selects(b),
    {
        let ghost v = self.0;
        self.0 = put_bit(self.0, IRQ_AND_POSITION, on);
        proof {
            lemma_with_bit(v, IRQ_AND_POSITION, on, IRQ_AND_POSITION);
            lemma_with_bit(v, IRQ_AND_POSITION, on, IRQ_ENABLE_POSITION);
            assert forall|b: Button| final(self).selects(b) == old(self).selects(b) by {
                lemma_with_bit(v, IRQ_AND_POSITION, on, b.position());
            }
        }
    }

    pub fn a_pressed(self) -> (r: bool)
        ensures
            r == self.selects(Button::A),
    {
        self.pressed(Button::A)
    }

    pub fn set_a_pressed(&mut self, on: bool)
        ensures
            *final(self) == old(self).with_button(Button::A, on),
    {
        self.set_pressed(Button::A, on)
    }

    pub fn b_pressed(self) -> (r: bool)
        ensures
            r == self.selects(Button::B),
    {
        self.pressed(Button::B)
    }

    pub fn set_b_pressed(&mut self, on: bool)
        ensures
            *final(self) == old(self).with_button(Button::B, on),
    {
        self.set_pressed(Button::B, on)
    }

    pub fn select_pressed(self) -> (r: bool)
        ensures
            r == self.selects(Button::Select),
    {
        self.pressed(Button::Select)
    }

    pub fn set_select_pressed(&mut self, on: bool)
        ensures
            *final(self) == old(self).with_button(Button::Select, on),
    {
        self.set_pressed(Button::Select, on)
    }

    pub fn start_pressed(self) -> (r: bool)
        ensures
            r == self.selects(Button::Start),
    {
        self.pressed(Button::Start)
    }

    pub fn set_start_pressed(&mut self, on: bool)
        ensures
            *final(self) == old(self).with_button(Button::Start, on),
    {
        self.set_pressed(Button::Start, on)
    }

    pub fn right_pressed(self) -> (r: bool)
        ensures
            r == self.selects(Button::Right),
    {
        self.pressed(Button::Right)
    }

    pub fn set_right_pressed(&mut self, on: bool)
        ensures
            *final(self) == old(self).with_button(Button::Right, on),
    {
        self.set_pressed(Button::Right, on)
    }

    pub fn left_pressed(self) -> (r: bool)
        ensures
            r == self.selects(Button::Left),
    {
        self.pressed(Button::Left)
    }

    pub fn set_left_pressed(&mut self, on: bool)
        ensures
            *final(self) == old(self).with_button(Button::Left, on),
    {
        self.set_pressed(Button::Left, on)
    }

    pub fn up_pressed(self) -> (r: bool)
        ensures
            r == self.selects(Button::Up),
    {
        self.pressed(Button::Up)
    }

    pub fn set_up_pressed(&mut self, on: bool)
        ensures
            *final(self) == old(self).with_button(Button::Up, on),
    {
        self.set_pressed(Button::Up, on)
    }

    pub fn down_pressed(self) -> (r: bool)
        ensures
            r == self.selects(Button::Down),
    {
        self.pressed(Button::Down)
    }

    pub fn set_down_pressed(&mut self, on: bool)
        ensures
            *final(self) == old(self).with_button(Button::Down, on),
    {
        self.set_pressed(Button::Down, on)
    }

    pub fn r_pressed(self) -> (r: bool)
        ensures
            r == self.selects(Button::R),
    {
        self.pressed(Button::R)
    }

    pub fn set_r_pressed(&mut self, on: bool)
        ensures
            *final(self) == old(self).with_button(Button::R, on),
    {
        self.set_pressed(Button::R, on)
    }

    pub fn l_pressed(self) -> (r: bool)
        ensures
            r == self.selects(Button::L),
    {
        self.pressed(Button::L)
    }

    pub fn set_l_pressed(&mut self, on: bool)
        ensures
            *final(self) == old(self).with_button(Button::L, on),
    {
        self.set_pressed(Button::L, on)
    }
}

impl Default for KeyInterruptSetting {
    /// The condition with no button selected, OR mode, interrupt disabled.
    fn default() -> (r: Self)
        ensures
            r.0 == 0,
    {
        KeyInterruptSetting(0)
    }
}

/// The default condition is inert: interrupt disabled, OR mode, and no
/// button selected.
pub proof fn lemma_default_inert()
    ensures
        !KeyInterruptSetting(0).enabled(),
        !KeyInterruptSetting(0).all_required(),
        forall|b: Button| !KeyInterruptSetting(0).selects(b),
{
    assert forall|i: u16| i < 16 implies !bit_set(0u16, i) by {
        assert(!bit_set(0u16, i)) by (bit_vector);
    }
}

/// Selecting a button makes it read as selected; clearing it afterwards
/// makes it read as not selected; and neither touches the other buttons,
/// the interrupt enable flag or the combination mode.
pub proof fn lemma_set_button(s: KeyInterruptSetting, b: Button, on: bool, other: Button)
    ensures
        s.with_button(b, true).selects(b),
        !s.with_button(b, true).with_button(b, false).selects(b),
        s.with_button(b, on).selects(b) == on,
        other != b ==> s.with_button(b, on).selects(other) == s.selects(other),
        s.with_button(b, on).enabled() == s.enabled(),
        s.with_button(b, on).all_required() == s.all_required(),
{
    let i = b.position();
    lemma_with_bit(s.0, i, true, i);
    lemma_with_bit(with_bit(s.0, i, true), i, false, i);
    lemma_with_bit(s.0, i, on, i);
    lemma_with_bit(s.0, i, on, other.position());
    lemma_with_bit(s.0, i, on, IRQ_ENABLE_POSITION);
    lemma_with_bit(s.0, i, on, IRQ_AND_POSITION);
}

/// Encoding a condition as its register value and decoding that value gives
/// the same condition, and decoding then encoding gives the same value.
pub proof fn lemma_encoding_round_trip(s: KeyInterruptSetting, v: u16)
    ensures
        KeyInterruptSetting(s.0) == s,
        KeyInterruptSetting(v).0 == v,
{
}

} // verus!
