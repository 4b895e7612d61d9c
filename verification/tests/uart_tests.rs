use lib::uart::{
    print_dec, print_hex, putchar_bytes, uart_getchar, uart_init_default, uart_printf, uart_putchar,
    uart_puts, wire_bytes, Uart, UartArg, UartConfig, UartDataBits, UartParity, UartPort,
    UartStopBits,
};

#[test]
fn default_config_is_console_115200_8n1() {
    let c = UartConfig::default();
    assert_eq!(c.port, UartPort::Uart1);
    assert_eq!(c.baud_rate, 115_200);
    assert_eq!(c.data_bits, UartDataBits::Bits8);
    assert_eq!(c.stop_bits, UartStopBits::Bits1);
    assert_eq!(c.parity, UartParity::NoParity);
    assert_eq!(c.rx_fifo_trigger, 1);
}

#[test]
fn port_offsets() {
    assert_eq!(UartPort::Uart0.offset(), 0);
    assert_eq!(UartPort::Uart1.offset(), 0x100);
}

#[test]
fn init_register_values() {
    let mut c = UartConfig::default();
    c.parity = UartParity::Even;
    c.stop_bits = UartStopBits::Bits2;
    c.rx_fifo_trigger = 8;
    let (u, regs) = Uart::init(&c, 0, 0xFFFF_FFFF, 0);
    assert_eq!(u.port(), UartPort::Uart1);
    assert_eq!(regs.baud, (0x30 << 24) | (12_000_000 / 115_200 - 2));
    assert_eq!(regs.lcr, 0x18 | 0x03 | 0x04);
    assert_eq!(regs.tor, 0xA0);
    assert_eq!(regs.fcr, (2 << 4) | 1);
    // an unknown trigger level selects 14 bytes
    c.rx_fifo_trigger = 5;
    let (_, regs) = Uart::init(&c, 0, 0, 0);
    assert_eq!(regs.fcr, (3 << 4) | 1);
}

#[test]
fn default_init_matches_config_init() {
    let (_, a) = Uart::init(&UartConfig::default(), 0x1234, 0x5678, 0x9ABC);
    let b = uart_init_default(0x100, 0x1234, 0x5678, 0x9ABC);
    assert_eq!(a, b);
}

#[test]
fn line_feed_gets_carriage_return_first() {
    assert_eq!(putchar_bytes(b'a'), vec![b'a']);
    assert_eq!(uart_putchar(b'\n'), vec![b'\r', b'\n']);
    assert_eq!(uart_puts("a\nb"), vec![b'a', b'\r', b'\n', b'b']);
    assert_eq!(wire_bytes(b""), Vec::<u8>::new());
}

#[test]
fn decimal_and_hex_digits() {
    assert_eq!(print_dec(0), b"0".to_vec());
    assert_eq!(print_dec(4_294_967_295), b"4294967295".to_vec());
    assert_eq!(print_hex(0, true), b"0".to_vec());
    assert_eq!(print_hex(0xDEAD_BEEF, true), b"DEADBEEF".to_vec());
    assert_eq!(print_hex(0xbeef, false), b"beef".to_vec());
}

#[test]
fn printf_conversions() {
    let (u, _) = Uart::init(&UartConfig::default(), 0, 0, 0);
    let out = u.printf("n=%d h=%x H=%X c=%c s=%s\n", &[
        UartArg::U32(42),
        UartArg::U32(0xab),
        UartArg::U32(0xab),
        UartArg::U32(b'Z' as u32),
        UartArg::Str("ok"),
    ]);
    assert_eq!(out, b"n=42 h=ab H=AB c=Z s=ok\r\n".to_vec());
}

#[test]
fn console_printf_hex_is_upper_case() {
    let out = uart_printf("%x", &[UartArg::U32(0xab)]);
    assert_eq!(out, b"AB".to_vec());
}

#[test]
fn printf_stops_when_arguments_run_out() {
    assert_eq!(uart_printf("a%db%d", &[UartArg::U32(1)]), b"a1b".to_vec());
    assert_eq!(uart_printf("100%", &[]), b"100%".to_vec());
    assert_eq!(uart_printf("%%q%d", &[UartArg::U32(5)]), b"%%q5".to_vec());
}

#[test]
fn printf_mismatched_argument_prints_nothing() {
    assert_eq!(uart_printf("[%d][%s]", &[UartArg::Str("x"), UartArg::U32(3)]), b"[][]".to_vec());
}

#[test]
fn getchar_only_when_fifo_not_empty() {
    assert_eq!(uart_getchar(0x1, b'k'), Some(b'k'));
    assert_eq!(uart_getchar(0x0, b'k'), None);
    let (u, _) = Uart::init(&UartConfig::default(), 0, 0, 0);
    assert_eq!(u.getchar(0x3, 7), Some(7));
}

#[test]
fn plain_text_printed_verbatim() {
    assert_eq!(uart_printf("hello\n", &[UartArg::U32(1)]), b"hello\r\n".to_vec());
    let (u, _) = Uart::init(&UartConfig::default(), 0, 0, 0);
    assert_eq!(u.printf("abc", &[]), b"abc".to_vec());
}
