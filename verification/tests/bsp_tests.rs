use drogue_device::bsp::boards::nrf52::adafruit_feather_sense::{
    AdafruitFeatherSense, OutputDrive, Pin as NrfPin,
};
use drogue_device::bsp::boards::stm32f0::stm32f072b_disco::{
    Pin, Speed, Stm32f072bDisco, Stm32f072bDiscoConfig, UartConfig, UartWiring,
};
use drogue_device::bsp::{Active, Level, Pull};

#[test]
fn default_config_routes_uart1_to_port_a() {
    let config = Stm32f072bDiscoConfig::default();
    assert_eq!(config.uart_config, UartConfig::Uart1PortA);
}

#[test]
fn uart_description_port_a() {
    assert_eq!(
        Stm32f072bDisco::uart_description(&UartConfig::Uart1PortA),
        b"UART1 Tx: PA9, Rx: PA10\r\n"
    );
}

#[test]
fn uart_description_port_b() {
    assert_eq!(
        Stm32f072bDisco::uart_description(&UartConfig::Uart1PortB),
        b"UART1 Tx: PB6, Rx: PB7 \r\n"
    );
}

#[test]
fn description_names_the_wired_pins() {
    for (config, tx, rx) in [
        (UartConfig::Uart1PortA, "PA9", "PA10"),
        (UartConfig::Uart1PortB, "PB6", "PB7"),
    ] {
        let desc = Stm32f072bDisco::uart_description(&config);
        assert_eq!(&desc[..10], b"UART1 Tx: ");
        assert_eq!(&desc[10..13], tx.as_bytes());
        assert_eq!(&desc[13..19], b", Rx: ");
        assert_eq!(&desc[19..19 + rx.len()], rx.as_bytes());
        let board = Stm32f072bDisco::new(Some(Stm32f072bDiscoConfig { uart_config: config }));
        let uart = board.usart1.unwrap();
        assert_eq!(format!("{:?}", uart.tx), tx);
        assert_eq!(format!("{:?}", uart.rx), rx);
    }
}

#[test]
fn no_config_leaves_uart1_unset() {
    let board = Stm32f072bDisco::new(None);
    assert_eq!(board.usart1, None);
}

#[test]
fn port_b_config_wires_uart1_to_pb7_pb6() {
    let board = Stm32f072bDisco::new(Some(Stm32f072bDiscoConfig {
        uart_config: UartConfig::Uart1PortB,
    }));
    assert_eq!(board.usart1, Some(UartWiring { rx: Pin::PB7, tx: Pin::PB6 }));
}

#[test]
fn default_config_wires_uart1_to_pa10_pa9() {
    let board = Stm32f072bDisco::new(Some(Stm32f072bDiscoConfig::default()));
    assert_eq!(board.usart1, Some(UartWiring { rx: Pin::PA10, tx: Pin::PA9 }));
}

#[test]
fn stm32_leds_and_button() {
    let board = Stm32f072bDisco::new(None);
    let leds = [board.led_red, board.led_blue, board.led_orange, board.led_green];
    let pins = [Pin::PC6, Pin::PC7, Pin::PC8, Pin::PC9];
    for (led, pin) in leds.iter().zip(pins.iter()) {
        assert_eq!(led.pin, *pin);
        assert_eq!(led.initial_level, Level::High);
        assert_eq!(led.speed, Speed::Low);
        assert_eq!(led.active, Active::High);
    }
    assert_eq!(board.user_button.pin, Pin::PA0);
    assert_eq!(board.user_button.pull, Pull::Up);
    assert_eq!(board.user_button.exti_line, 0);
}

#[test]
fn feather_sense_wiring() {
    let board = AdafruitFeatherSense::new(None);
    assert_eq!(board.led_red.pin, NrfPin::P1_10);
    assert_eq!(board.led_red.initial_level, Level::Low);
    assert_eq!(board.led_red.drive, OutputDrive::Standard);
    assert_eq!(board.led_red.active, Active::High);
    assert_eq!(board.user_button.pin, NrfPin::P1_02);
    assert_eq!(board.user_button.pull, Pull::Up);
    assert_eq!(board.user_button.active, Active::Low);
    assert_eq!(AdafruitFeatherSense::new(Some(())), board);
}
