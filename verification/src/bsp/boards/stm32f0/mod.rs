//! Boards with an STM32F0 microcontroller.
pub mod stm32f072b_disco;
