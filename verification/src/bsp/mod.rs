//! Board Support Packages (BSP): how each board's devices are wired.
use vstd::prelude::*;

pub mod boards;

verus! {

/// A board capable of creating itself using peripherals.
pub trait Board: Sized {
    type Peripherals;
    type Config;

    fn new(peripherals: Self::Peripherals, config: Option<Self::Config>) -> Self;
}

/// The level of a GPIO pin.
#[derive(Clone, Copy, PartialEq, Eq, Structural, Debug)]
pub enum Level {
    Low,
    High,
}

/// The pull resistor of a GPIO input (`Floating`: none).
#[derive(Clone, Copy, PartialEq, Eq, Structural, Debug)]
pub enum Pull {
    Floating,
    Up,
    Down,
}

/// The level at which a LED lights or a button reads as pressed.
#[derive(Clone, Copy, PartialEq, Eq, Structural, Debug)]
pub enum Active {
    High,
    Low,
}

/// The bytes of an ASCII text.
pub open spec fn ascii(text: Seq<char>) -> Seq<u8> {
    text.map_values(|c: char| c as u8)
}

} // verus!
