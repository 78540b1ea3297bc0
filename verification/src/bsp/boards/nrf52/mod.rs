//! Boards with an nRF52 microcontroller.
pub mod adafruit_feather_sense;
