//! Keypad input for a handheld console's memory-mapped I/O: the key input
//! snapshot, its directional readings, and the keypad interrupt condition.

pub mod bits;
pub mod button;
pub mod keypad;
pub mod interrupt;
