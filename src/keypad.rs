//! The key input snapshot and its directional readings.

use vstd::prelude::*;
use crate::bits::{bit_set, get_bit, lemma_with_bit};
use crate::button::Button;

verus! {

/// The bits of the key input register that hold buttons (bits 0 to 9).
pub const KEY_MASK: u16 = 0b0000_0011_1111_1111;

/// The bits of the key input register that never hold a button.
pub const UNUSED_MASK: u16 = 0b1111_1100_0000_0000;

/// A reading of one axis of the arrow pad.
#[derive(Debug, Clone, Copy, PartialEq, Eq, Structural)]
pub enum TriBool {
    Minus,
    Neutral,
    Plus,
}

impl TriBool {
    /// The reading as a number: `Minus` is -1, `Neutral` 0 and `Plus` 1.
    pub fn value(self) -> (r: i32)
        ensures
            r == match self {
                TriBool::Minus => -1i32,
                TriBool::Neutral => 0i32,
                TriBool::Plus => 1i32,
            },
    {
        match self {
            TriBool::Minus => -1,
            TriBool::Neutral => 0,
            TriBool::Plus => 1,
        }
    }
}

/// The reading of an axis from its two opposing buttons: the "plus" button
/// wins over the "minus" button when both are held.
pub open spec fn tribool_of(plus: bool, minus: bool) -> TriBool {
    if plus {
        TriBool::Plus
    } else if minus {
        TriBool::Minus
    } else {
        TriBool::Neutral
    }
}

/// The high-active form of a low-active key input register value: the ten
/// button bits are flipped, the six others kept.
pub open spec fn logical(raw: u16) -> u16 {
    raw ^ KEY_MASK
}

/// A key press combination, high-active: a bit is set when its button is
/// held down.
#[derive(Debug, Clone, Copy, PartialEq, Eq, Structural)]
pub struct KeyInput(pub u16);

impl KeyInput {
    /// True when button `b` is held in this snapshot.
    pub open spec fn holds(self, b: Button) -> bool {
        bit_set(self.0, b.position())
    }

    /// The buttons on which two snapshots disagree: their exclusive or.
    pub open spec fn spec_difference(self, other: Self) -> Self {
        KeyInput(self.0 ^ other.0)
    }

    /// The snapshot with no button held.
    pub fn new() -> (r: Self)
        ensures
            r.0 == 0,
    {
        KeyInput(0)
    }

    /// The snapshot whose bits are `bits`.
    pub fn from_bits(bits: u16) -> (r: Self)
        ensures
            r.0 == bits,
    {
        KeyInput(bits)
    }

    /// The bits of the snapshot.
    pub fn bits(self) -> (r: u16)
        ensures
            r == self.0,
    {
        self.0
    }

    /// True when button `b` is held.
    pub fn pressed(self, b: Button) -> (r: bool)
        ensures
            r == self.holds(b),
    {
        get_bit(self.0, b.position())
    }

    pub fn a_pressed(self) -> (r: bool)
        ensures
            r == self.holds(Button::A),
    {
        self.pressed(Button::A)
    }

    pub fn b_pressed(self) -> (r: bool)
        ensures
            r == self.holds(Button::B),
    {
        self.pressed(Button::B)
    }

    pub fn select_pressed(self) -> (r: bool)
        ensures
            r == self.holds(Button::Select),
    {
        self.pressed(Button::Select)
    }

    pub fn start_pressed(self) -> (r: bool)
        ensures
            r == self.holds(Button::Start),
    {
        self.pressed(Button::Start)
    }

    pub fn right_pressed(self) -> (r: bool)
        ensures
            r == self.holds(Button::Right),
    {
        self.pressed(Button::Right)
    }

    pub fn left_pressed(self) -> (r: bool)
        ensures
            r == self.holds(Button::Left),
    {
        self.pressed(Button::Left)
    }

    pub fn up_pressed(self) -> (r: bool)
        ensures
            r == self.holds(Button::Up),
    {
        self.pressed(Button::Up)
    }

    pub fn down_pressed(self) -> (r: bool)
        ensures
            r == self.holds(Button::Down),
    {
        self.pressed(Button::Down)
    }

    pub fn r_pressed(self) -> (r: bool)
        ensures
            r == self.holds(Button::R),
    {
        self.pressed(Button::R)
    }

    pub fn l_pressed(self) -> (r: bool)
        ensures
            r == self.holds(Button::L),
    {
        self.pressed(Button::L)
    }

    /// The buttons whose state differs between the two snapshots.
    ///
    /// Despite the name this is not set subtraction: it is the bitwise
    /// exclusive or of the two snapshots, so a bit is set wherever the two
    /// disagree, in either direction. Combine the result with one of the
    /// snapshots to tell presses from releases.
    pub fn difference(self, other: Self) -> (r: Self)
        ensures
            r == self.spec_difference(other),
            forall|b: Button| r.holds(b) == (self.holds(b) != other.holds(b)),
    {
        let r = KeyInput(self.0 ^ other.0);
        assert forall|b: Button| r.holds(b) == (self.holds(b) != other.holds(b)) by {
            let x = self.0;
            let y = other.0;
            let i = b.position();
            assert(bit_set(x ^ y, i) == (bit_set(x, i) != bit_set(y, i))) by (bit_vector)
                requires
                    i < 16,
            ;
        }
        r
    }

    /// The arrow pad's horizontal reading, `Plus` towards the right: `Plus`
    /// when Right is held (whatever Left is), `Minus` when only Left is
    /// held, `Neutral` when neither is.
    pub fn column_direction(self) -> (r: TriBool)
        ensures
            r == tribool_of(self.holds(Button::Right), self.holds(Button::Left)),
    {
        if self.right_pressed() {
            TriBool::Plus
        } else if self.left_pressed() {
            TriBool::Minus
        } else {
            TriBool::Neutral
        }
    }

    /// The arrow pad's vertical reading, `Plus` downwards: `Plus` when Down
    /// is held (whatever Up is), `Minus` when only Up is held, `Neutral`
    /// when neither is.
    pub fn row_direction(self) -> (r: TriBool)
        ensures
            r == tribool_of(self.holds(Button::Down), self.holds(Button::Up)),
    {
        if self.down_pressed() {
            TriBool::Plus
        } else if self.up_pressed() {
            TriBool::Minus
        } else {
            TriBool::Neutral
        }
    }
}

impl Default for KeyInput {
    /// The snapshot with no button held.
    fn default() -> (r: Self)
        ensures
            r.0 == 0,
    {
        KeyInput(0)
    }
}

/// Converts a value read from the low-active key input register into the
/// high-active snapshot: a button is held exactly when its bit reads 0, and
/// the six unused bits pass through unchanged.
pub fn read_key_input(raw: u16) -> (r: KeyInput)
    ensures
        r.0 == logical(raw),
        forall|b: Button| r.holds(b) == !bit_set(raw, b.position()),
        r.0 & UNUSED_MASK == raw & UNUSED_MASK,
{
    let r = KeyInput(raw ^ KEY_MASK);
    assert forall|b: Button| r.holds(b) == !bit_set(raw, b.position()) by {
        let i = b.position();
        assert(bit_set(raw ^ 0x3ffu16, i) == !bit_set(raw, i)) by (bit_vector)
            requires
                i < 10,
        ;
    }
    assert((raw ^ 0x3ffu16) & 0xfc00u16 == raw & 0xfc00u16) by (bit_vector);
    r
}

/// For a raw value whose bits 10 to 15 are clear, the high-active form
/// flips exactly the ten button bits, keeps bits 10 to 15 clear, and
/// converting twice gives the raw value back.
pub proof fn lemma_logical_involution(raw: u16)
    requires
        raw & UNUSED_MASK == 0,
    ensures
        logical(raw) == raw ^ 0x3ffu16,
        logical(raw) & UNUSED_MASK == 0,
        logical(logical(raw)) == raw,
{
    assert((raw ^ 0x3ffu16) & 0xfc00u16 == 0u16) by (bit_vector)
        requires
            raw & 0xfc00u16 == 0u16,
    ;
    assert((raw ^ 0x3ffu16) ^ 0x3ffu16 == raw) by (bit_vector);
}

/// A button reads as held in every snapshot with its bit set, and as not
/// held in every snapshot with its bit clear, whatever the other bits are.
pub proof fn lemma_pressed_reads_own_bit(v: u16, b: Button)
    ensures
        KeyInput(v | (1u16 << b.position())).holds(b),
        !KeyInput(v & !(1u16 << b.position())).holds(b),
{
    lemma_with_bit(v, b.position(), true, b.position());
    lemma_with_bit(v, b.position(), false, b.position());
}

/// A snapshot differs from itself in no button.
pub proof fn lemma_difference_self(x: KeyInput)
    ensures
        x.spec_difference(x) == KeyInput(0),
{
    let v = x.0;
    assert(v ^ v == 0u16) by (bit_vector);
}

/// The difference of two snapshots does not depend on their order.
pub proof fn lemma_difference_symmetric(x: KeyInput, y: KeyInput)
    ensures
        x.spec_difference(y) == y.spec_difference(x),
{
    let v = x.0;
    let w = y.0;
    assert(v ^ w == w ^ v) by (bit_vector);
}

/// The axis reading from its two buttons: plus alone gives `Plus`, minus
/// alone gives `Minus`, both give `Plus`, neither gives `Neutral`.
pub proof fn lemma_axis_truth_table()
    ensures
        tribool_of(true, false) == TriBool::Plus,
        tribool_of(false, true) == TriBool::Minus,
        tribool_of(true, true) == TriBool::Plus,
        tribool_of(false, false) == TriBool::Neutral,
{
}

} // verus!
