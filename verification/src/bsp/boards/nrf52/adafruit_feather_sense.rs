//! The Adafruit Feather nRF52840 Sense: a red LED and a user button.
use vstd::prelude::*;
use crate::bsp::{Active, Level, Pull};

verus! {

/// The GPIO pins of the nRF52840 that the board's devices use.
#[derive(Clone, Copy, PartialEq, Eq, Structural, Debug)]
pub enum Pin {
    P1_02,
    P1_10,
}

/// The drive of a GPIO output: standard, high or disconnected, for a low
/// level (the first part of a two-part name) and for a high level.
#[derive(Clone, Copy, PartialEq, Eq, Structural, Debug)]
pub enum OutputDrive {
    Standard,
    HighDrive0Standard1,
    Standard0HighDrive1,
    HighDrive,
    Disconnect0Standard1,
    Disconnect0HighDrive1,
    Standard0Disconnect1,
    HighDrive0Disconnect1,
}

/// How a LED is driven: its output pin, the level the pin starts at, the
/// pin's drive strength, and the level at which the LED lights.
#[derive(Clone, Copy, PartialEq, Eq, Structural, Debug)]
pub struct LedWiring {
    pub pin: Pin,
    pub initial_level: Level,
    pub drive: OutputDrive,
    pub active: Active,
}

/// How a button is read: its input pin, the pin's pull resistor, and the
/// level at which the button reads as pressed.
#[derive(Clone, Copy, PartialEq, Eq, Structural, Debug)]
pub struct ButtonWiring {
    pub pin: Pin,
    pub pull: Pull,
    pub active: Active,
}

/// The board's devices and how each is wired.
#[derive(Clone, Copy, PartialEq, Eq, Structural, Debug)]
pub struct AdafruitFeatherSense {
    pub led_red: LedWiring,
    pub user_button: ButtonWiring,
}

impl AdafruitFeatherSense {
    /// The board's wiring; the board takes no configuration.
    pub fn new(_config: Option<()>) -> (board: Self)
        ensures
            board.led_red == (LedWiring {
                pin: Pin::P1_10,
                initial_level: Level::Low,
                drive: OutputDrive::Standard,
                active: Active::High,
            }),
            board.user_button == (ButtonWiring { pin: Pin::P1_02, pull: Pull::Up, active: Active::Low }),
    {
        AdafruitFeatherSense {
            led_red: LedWiring {
                pin: Pin::P1_10,
                initial_level: Level::Low,
                drive: OutputDrive::Standard,
                active: Active::High,
            },
            user_button: ButtonWiring { pin: Pin::P1_02, pull: Pull::Up, active: Active::Low },
        }
    }
}

} // verus!
