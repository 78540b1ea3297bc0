//! The STM32F072B Discovery board: four user LEDs, a user button and USART1
//! on one of two pin pairs.
use vstd::prelude::*;
use crate::bsp::{ascii, Active, Level, Pull};

verus! {

/// The GPIO pins of the STM32F072B that the board's devices use.
#[derive(Clone, Copy, PartialEq, Eq, Structural, Debug)]
pub enum Pin {
    PA0,
    PA9,
    PA10,
    PB6,
    PB7,
    PC6,
    PC7,
    PC8,
    PC9,
}

/// The slew speed of a GPIO output of the STM32F0.
#[derive(Clone, Copy, PartialEq, Eq, Structural, Debug)]
pub enum Speed {
    Low,
    Medium,
    VeryHigh,
}

/// How a LED is driven: its output pin, the level the pin starts at, the
/// pin's speed, and the level at which the LED lights.
#[derive(Clone, Copy, PartialEq, Eq, Structural, Debug)]
pub struct LedWiring {
    pub pin: Pin,
    pub initial_level: Level,
    pub speed: Speed,
    pub active: Active,
}

/// How the button is read: its input pin, the pin's pull resistor, and the
/// external interrupt line that reports its edges.
#[derive(Clone, Copy, PartialEq, Eq, Structural, Debug)]
pub struct ButtonWiring {
    pub pin: Pin,
    pub pull: Pull,
    pub exti_line: u8,
}

/// The pins of a UART.
#[derive(Clone, Copy, PartialEq, Eq, Structural, Debug)]
pub struct UartWiring {
    pub rx: Pin,
    pub tx: Pin,
}

/// The board's devices and how each is wired.
#[derive(Clone, Copy, PartialEq, Eq, Structural, Debug)]
pub struct Stm32f072bDisco {
    pub led_red: LedWiring,
    pub led_blue: LedWiring,
    pub led_orange: LedWiring,
    pub led_green: LedWiring,
    pub user_button: ButtonWiring,
    pub usart1: Option<UartWiring>,
}

/// The pins that USART1 is routed to.
#[derive(Clone, Copy, PartialEq, Eq, Structural, Debug)]
pub enum UartConfig {
    Uart1PortA,
    Uart1PortB,
}

/// The board's configuration.
#[derive(Clone, Copy, PartialEq, Eq, Structural, Debug)]
pub struct Stm32f072bDiscoConfig {
    pub uart_config: UartConfig,
}

impl Default for Stm32f072bDiscoConfig {
    fn default() -> (config: Self)
        ensures
            config.uart_config == UartConfig::Uart1PortA,
    {
        Self { uart_config: UartConfig::Uart1PortA }
    }
}

/// The pins USART1 uses under each configuration.
pub open spec fn uart_wiring(uart_config: UartConfig) -> UartWiring {
    match uart_config {
        UartConfig::Uart1PortA => UartWiring { rx: Pin::PA10, tx: Pin::PA9 },
        UartConfig::Uart1PortB => UartWiring { rx: Pin::PB7, tx: Pin::PB6 },
    }
}

/// A user LED, active high, on `pin`, which starts high at low speed.
pub open spec fn user_led(pin: Pin) -> LedWiring {
    LedWiring { pin, initial_level: Level::High, speed: Speed::Low, active: Active::High }
}

/// The name of a pin, as printed.
pub open spec fn pin_name(pin: Pin) -> Seq<u8> {
    match pin {
        Pin::PA0 => ascii("PA0"@),
        Pin::PA9 => ascii("PA9"@),
        Pin::PA10 => ascii("PA10"@),
        Pin::PB6 => ascii("PB6"@),
        Pin::PB7 => ascii("PB7"@),
        Pin::PC6 => ascii("PC6"@),
        Pin::PC7 => ascii("PC7"@),
        Pin::PC8 => ascii("PC8"@),
        Pin::PC9 => ascii("PC9"@),
    }
}

/// The line that describes each USART1 configuration.
pub open spec fn uart_description_spec(uart_config: UartConfig) -> Seq<u8> {
    match uart_config {
        UartConfig::Uart1PortA => ascii("UART1 Tx: PA9, Rx: PA10\r\n"@),
        UartConfig::Uart1PortB => ascii("UART1 Tx: PB6, Rx: PB7 \r\n"@),
    }
}

/// "UART1 Tx: PA9, Rx: PA10\r\n"
const UART1_PORT_A_DESCRIPTION: [u8; 25] = [
    85, 65, 82, 84, 49, 32, 84, 120, 58, 32, 80, 65, 57, 44, 32, 82, 120, 58, 32, 80, 65, 49, 48, 13, 10,
];

/// "UART1 Tx: PB6, Rx: PB7 \r\n"
const UART1_PORT_B_DESCRIPTION: [u8; 25] = [
    85, 65, 82, 84, 49, 32, 84, 120, 58, 32, 80, 66, 54, 44, 32, 82, 120, 58, 32, 80, 66, 55, 32, 13, 10,
];

impl Stm32f072bDisco {
    /// The board's wiring under `config`: USART1 is set up only when a
    /// configuration is given, on the pins that it selects; the LEDs and the
    /// button are always set up.
    pub fn new(config: Option<Stm32f072bDiscoConfig>) -> (board: Self)
        ensures
            board.usart1 == (match config {
                None => None,
                Some(c) => Some(uart_wiring(c.uart_config)),
            }),
            board.led_red == user_led(Pin::PC6),
            board.led_blue == user_led(Pin::PC7),
            board.led_orange == user_led(Pin::PC8),
            board.led_green == user_led(Pin::PC9),
            board.user_button == (ButtonWiring { pin: Pin::PA0, pull: Pull::Up, exti_line: 0 }),
    {
        let usart1 = match config {
            None => None,
            Some(board_config) => match board_config.uart_config {
                UartConfig::Uart1PortA => Some(UartWiring { rx: Pin::PA10, tx: Pin::PA9 }),
                UartConfig::Uart1PortB => Some(UartWiring { rx: Pin::PB7, tx: Pin::PB6 }),
            },
        };
        let led_red = LedWiring {
            pin: Pin::PC6,
            initial_level: Level::High,
            speed: Speed::Low,
            active: Active::High,
        };
        let led_blue = LedWiring { pin: Pin::PC7, ..led_red };
        let led_orange = LedWiring { pin: Pin::PC8, ..led_red };
        let led_green = LedWiring { pin: Pin::PC9, ..led_red };
        let user_button = ButtonWiring { pin: Pin::PA0, pull: Pull::Up, exti_line: 0 };
        Stm32f072bDisco { led_red, led_blue, led_orange, led_green, user_button, usart1 }
    }

    /// The line that describes the USART1 configuration `uart_config`.
    pub fn uart_description<'a>(uart_config: &UartConfig) -> (desc: &'a [u8])
        ensures
            desc@ == uart_description_spec(*uart_config),
    {
        proof {
            reveal_strlit("UART1 Tx: PA9, Rx: PA10\r\n");
            reveal_strlit("UART1 Tx: PB6, Rx: PB7 \r\n");
        }
        let desc: &'a [u8] = match *uart_config {
            UartConfig::Uart1PortA => {
                assert(UART1_PORT_A_DESCRIPTION@ =~= uart_description_spec(*uart_config));
                &UART1_PORT_A_DESCRIPTION
            },
            UartConfig::Uart1PortB => {
                assert(UART1_PORT_B_DESCRIPTION@ =~= uart_description_spec(*uart_config));
                &UART1_PORT_B_DESCRIPTION
            },
        };
        desc
    }
}

/// The description of a USART1 configuration names the pins that the board
/// wires USART1 to under it: the transmit pin after "UART1 Tx: ", the
/// receive pin after ", Rx: ".
pub proof fn lemma_description_names_uart_pins(uart_config: UartConfig)
    ensures
        uart_description_spec(uart_config).subrange(0, 10) == ascii("UART1 Tx: "@),
        uart_description_spec(uart_config).subrange(10, 13) == pin_name(uart_wiring(uart_config).tx),
        uart_description_spec(uart_config).subrange(13, 19) == ascii(", Rx: "@),
        uart_description_spec(uart_config).subrange(19, 19 + pin_name(uart_wiring(uart_config).rx).len() as int)
            == pin_name(uart_wiring(uart_config).rx),
{
    reveal_strlit("UART1 Tx: PA9, Rx: PA10\r\n");
    reveal_strlit("UART1 Tx: PB6, Rx: PB7 \r\n");
    reveal_strlit("UART1 Tx: ");
    reveal_strlit(", Rx: ");
    reveal_strlit("PA9");
    reveal_strlit("PA10");
    reveal_strlit("PB6");
    reveal_strlit("PB7");
    let d = uart_description_spec(uart_config);
    let w = uart_wiring(uart_config);
    assert(d.subrange(0, 10) =~= ascii("UART1 Tx: "@));
    assert(d.subrange(10, 13) =~= pin_name(w.tx));
    assert(d.subrange(13, 19) =~= ascii(", Rx: "@));
    assert(d.subrange(19, 19 + pin_name(w.rx).len() as int) =~= pin_name(w.rx));
}

} // verus!
