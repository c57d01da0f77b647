//! The ten buttons and their bit positions, shared by the key input register
//! and the key interrupt control register.

use vstd::prelude::*;

verus! {

/// One of the ten buttons of the keypad.
#[derive(Debug, Clone, Copy, PartialEq, Eq, Structural)]
pub enum Button {
    A,
    B,
    Select,
    Start,
    Right,
    Left,
    Up,
    Down,
    R,
    L,
}

impl Button {
    /// Bit position of the button in both keypad registers.
    pub open spec fn spec_position(self) -> u16 {
        match self {
            Button::A => 0,
            Button::B => 1,
            Button::Select => 2,
            Button::Start => 3,
            Button::Right => 4,
            Button::Left => 5,
            Button::Up => 6,
            Button::Down => 7,
            Button::R => 8,
            Button::L => 9,
        }
    }

    /// Bit position of the button in both keypad registers: `A` is bit 0,
    /// then `B`, `Select`, `Start`, `Right`, `Left`, `Up`, `Down`, `R`, and
    /// `L` is bit 9.
    #[verifier::when_used_as_spec(spec_position)]
    pub fn position(self) -> (r: u16)
        ensures
            r == self.spec_position(),
            r < 10,
    {
        match self {
            Button::A => 0,
            Button::B => 1,
            Button::Select => 2,
            Button::Start => 3,
            Button::Right => 4,
            Button::Left => 5,
            Button::Up => 6,
            Button::Down => 7,
            Button::R => 8,
            Button::L => 9,
        }
    }

    /// The single-bit mask of the button.
    pub fn mask(self) -> (r: u16)
        ensures
            r == 1u16 << self.position(),
    {
        1u16 << self.position()
    }
}

} // verus!
