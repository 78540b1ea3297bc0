//! The supported boards.
pub mod nrf52;
pub mod stm32f0;
