//! UART0 (high-speed, GPD[2:1]) and UART1 (console, GPA[11:10]):
//! initialisation register values and the bytes that go on the wire for
//! characters, strings and formatted output.
//!
//! Every byte is sent as is, except that a line feed goes out as a
//! carriage return followed by the line feed.

use vstd::prelude::*;
use vstd::string::StringSliceAdditionalSpecFns;
use crate::registers::{
    BAUD_RATE_DIVISOR, EXTERNAL_CRYSTAL_CLOCK, MF_GPA10, MF_GPA11, MF_GPD1, MF_GPD2, UART0_CKE,
    UART0_N, UART1_CKE, UART1_N, UART_FIFO_TRIG_14BYTE, UART_FIFO_TRIG_1BYTE, UART_FIFO_TRIG_4BYTE,
    UART_FIFO_TRIG_8BYTE, WL_8BIT, RX_NOT_EMPTY,
};

verus! {

// ============================================================================
// Public Types
// ============================================================================

/// UART port selection
#[derive(Clone, Copy, PartialEq, Eq, Debug, Structural)]
pub enum UartPort {
    /// High-speed UART (pins GPD2=RX, GPD1=TX)
    Uart0,
    /// Normal-speed UART (pins GPA10=RX, GPA11=TX) — default console
    Uart1,
}

impl UartPort {
    /// Base offset within the UART register block
    pub fn offset(self) -> (r: u32)
        ensures
            r == (if self == UartPort::Uart0 { 0u32 } else { 0x100u32 }),
    {
        match self {
            UartPort::Uart0 => 0x000,
            UartPort::Uart1 => 0x100,
        }
    }
}

/// Parity selection
#[derive(Clone, Copy, PartialEq, Eq, Debug, Structural)]
pub enum UartParity {
    NoParity,
    Odd,
    Even,
}

impl UartParity {
    /// LCR bits of the parity setting (PBE, EPE).
    pub fn bits(self) -> (r: u32)
        ensures
            r == spec_parity_bits(self),
    {
        match self {
            UartParity::NoParity => 0,
            UartParity::Odd => 0x08,
            UartParity::Even => 0x18,
        }
    }
}

pub open spec fn spec_parity_bits(p: UartParity) -> u32 {
    match p {
        UartParity::NoParity => 0,
        UartParity::Odd => 0x08,
        UartParity::Even => 0x18,
    }
}

/// Data bits
#[derive(Clone, Copy, PartialEq, Eq, Debug, Structural)]
pub enum UartDataBits {
    Bits5,
    Bits6,
    Bits7,
    Bits8,
}

impl UartDataBits {
    /// LCR word-length field.
    pub fn bits(self) -> (r: u32)
        ensures
            r == spec_data_bits(self),
    {
        match self {
            UartDataBits::Bits5 => 0x00,
            UartDataBits::Bits6 => 0x01,
            UartDataBits::Bits7 => 0x02,
            UartDataBits::Bits8 => 0x03,
        }
    }
}

pub open spec fn spec_data_bits(d: UartDataBits) -> u32 {
    match d {
        UartDataBits::Bits5 => 0x00,
        UartDataBits::Bits6 => 0x01,
        UartDataBits::Bits7 => 0x02,
        UartDataBits::Bits8 => 0x03,
    }
}

/// Stop bits
#[derive(Clone, Copy, PartialEq, Eq, Debug, Structural)]
pub enum UartStopBits {
    Bits1,
    Bits2,
}

impl UartStopBits {
    /// LCR stop-bit field (NSB).
    pub fn bits(self) -> (r: u32)
        ensures
            r == spec_stop_bits(self),
    {
        match self {
            UartStopBits::Bits1 => 0x00,
            UartStopBits::Bits2 => 0x04,
        }
    }
}

pub open spec fn spec_stop_bits(s: UartStopBits) -> u32 {
    match s {
        UartStopBits::Bits1 => 0x00,
        UartStopBits::Bits2 => 0x04,
    }
}

/// UART configuration
#[derive(Clone, Copy, Debug)]
pub struct UartConfig {
    /// Which UART peripheral to use
    pub port: UartPort,
    /// Baud rate (e.g. 115200, 9600)
    pub baud_rate: u32,
    /// Data bits (5-8)
    pub data_bits: UartDataBits,
    /// Stop bits (1 or 2)
    pub stop_bits: UartStopBits,
    /// Parity
    pub parity: UartParity,
    /// Reference clock in Hz (typically external crystal = 12 MHz)
    pub ref_clock_hz: u32,
    /// RX FIFO trigger level (1, 4, 8, or 14 bytes)
    pub rx_fifo_trigger: u8,
}

impl Default for UartConfig {
    /// UART1, 115200 baud, 8N1, crystal reference, 1-byte RX trigger.
    fn default() -> (c: Self)
        ensures
            c.port == UartPort::Uart1,
            c.baud_rate == 115_200,
            c.data_bits == UartDataBits::Bits8,
            c.stop_bits == UartStopBits::Bits1,
            c.parity == UartParity::NoParity,
            c.ref_clock_hz == EXTERNAL_CRYSTAL_CLOCK,
            c.rx_fifo_trigger == 1,
    {
        UartConfig {
            port: UartPort::Uart1,
            baud_rate: 115_200,
            data_bits: UartDataBits::Bits8,
            stop_bits: UartStopBits::Bits1,
            parity: UartParity::NoParity,
            ref_clock_hz: EXTERNAL_CRYSTAL_CLOCK,
            rx_fifo_trigger: 1,
        }
    }
}

/// Argument type for formatted output
#[derive(Clone, Copy)]
pub enum UartArg<'a> {
    U32(u32),
    Str(&'a str),
}

/// An initialised UART instance.
pub struct Uart {
    port: UartPort,
    ref_clock: u32,
}

/// Register values that bring up a UART, in the order they are written
/// after the pin, clock-divider and clock-enable registers: FCR reset
/// (0x07), BAUD, LCR, TOR, FCR.
#[derive(Clone, Copy, Debug, PartialEq, Eq)]
pub struct UartInitRegs {
    /// New multifunction register value (GPDFUN for UART0, GPAFUN for UART1)
    pub mfp: u32,
    pub clkdiv3: u32,
    pub apbclk: u32,
    pub baud: u32,
    pub lcr: u32,
    pub tor: u32,
    pub fcr: u32,
}

/// Multifunction, clock-divider and clock-enable values that route a port
/// to its pins and clock it from the crystal.
pub open spec fn port_pin_regs(port: UartPort, mfp: u32, clkdiv3: u32, apbclk: u32) -> (u32, u32, u32) {
    match port {
        UartPort::Uart0 => (
            (mfp & !(MF_GPD1 | MF_GPD2)) | (0x5u32 | (0x5u32 << 2)),
            clkdiv3 & !UART0_N,
            apbclk | UART0_CKE,
        ),
        UartPort::Uart1 => (mfp | MF_GPA10 | MF_GPA11, clkdiv3 & !UART1_N, apbclk | UART1_CKE),
    }
}

fn port_pins(port: UartPort, mfp: u32, clkdiv3: u32, apbclk: u32) -> (r: (u32, u32, u32))
    ensures
        r == port_pin_regs(port, mfp, clkdiv3, apbclk),
{
    match port {
        UartPort::Uart0 => (
            (mfp & !(MF_GPD1 | MF_GPD2)) | (0x5u32 | (0x5u32 << 2)),
            clkdiv3 & !UART0_N,
            apbclk | UART0_CKE,
        ),
        UartPort::Uart1 => (mfp | MF_GPA10 | MF_GPA11, clkdiv3 & !UART1_N, apbclk | UART1_CKE),
    }
}

/// RX FIFO trigger code for a trigger level: 1, 4 and 8 bytes have their
/// own codes, anything else selects 14 bytes.
pub open spec fn fifo_trigger_code(level: u8) -> u32 {
    if level == 1 {
        UART_FIFO_TRIG_1BYTE
    } else if level == 4 {
        UART_FIFO_TRIG_4BYTE
    } else if level == 8 {
        UART_FIFO_TRIG_8BYTE
    } else {
        UART_FIFO_TRIG_14BYTE
    }
}

impl Uart {
    pub closed spec fn port_spec(&self) -> UartPort {
        self.port
    }

    pub closed spec fn ref_clock_spec(&self) -> u32 {
        self.ref_clock
    }

    /// Create a UART for `config` and compute the register values that
    /// initialise it, from the current multifunction (GPDFUN for UART0,
    /// GPAFUN for UART1), CLKDIV3 and APBCLK values.  The baud divisor is
    /// `ref_clock / baud - 2` (mode 3).
    pub fn init(config: &UartConfig, mfp: u32, clkdiv3: u32, apbclk: u32) -> (r: (Uart, UartInitRegs))
        requires
            config.baud_rate > 0,
            config.ref_clock_hz / config.baud_rate >= 2,
        ensures
            r.0.port_spec() == config.port,
            r.0.ref_clock_spec() == config.ref_clock_hz,
            (r.1.mfp, r.1.clkdiv3, r.1.apbclk) == port_pin_regs(config.port, mfp, clkdiv3, apbclk),
            r.1.baud == (0x30u32 << 24) | (((config.ref_clock_hz / config.baud_rate - 2) as u32)
                & BAUD_RATE_DIVISOR),
            r.1.lcr == spec_parity_bits(config.parity) | spec_data_bits(config.data_bits)
                | spec_stop_bits(config.stop_bits),
            r.1.tor == 0x80 + 0x20,
            r.1.fcr == (fifo_trigger_code(config.rx_fifo_trigger) << 4) | 0x01,
    {
        let (m, c3, a) = port_pins(config.port, mfp, clkdiv3, apbclk);
        let baud_div = config.ref_clock_hz / config.baud_rate - 2;
        let lcr = config.parity.bits() | config.data_bits.bits() | config.stop_bits.bits();
        let fcr_val = if config.rx_fifo_trigger == 1 {
            UART_FIFO_TRIG_1BYTE
        } else if config.rx_fifo_trigger == 4 {
            UART_FIFO_TRIG_4BYTE
        } else if config.rx_fifo_trigger == 8 {
            UART_FIFO_TRIG_8BYTE
        } else {
            UART_FIFO_TRIG_14BYTE
        };
        (
            Uart { port: config.port, ref_clock: config.ref_clock_hz },
            UartInitRegs {
                mfp: m,
                clkdiv3: c3,
                apbclk: a,
                baud: (0x30 << 24) | (baud_div & BAUD_RATE_DIVISOR),
                lcr,
                tor: 0x80 + 0x20,
                fcr: (fcr_val << 4) | 0x01,
            },
        )
    }

    /// The port this UART drives.
    pub fn port(&self) -> (r: UartPort)
        ensures
            r == self.port_spec(),
    {
        self.port
    }

    /// Bytes sent for one character.
    pub fn putchar(&self, c: u8) -> (r: Vec<u8>)
        ensures
            r@ == wire_byte(c),
    {
        putchar_bytes(c)
    }

    /// The byte received, from the FIFO status (`fsr`) and receive buffer
    /// (`rbr`) readings: the buffer's byte when the receive FIFO is not
    /// empty, else nothing.
    pub fn getchar(&self, fsr: u32, rbr: u8) -> (r: Option<u8>)
        ensures
            r == rx_byte(fsr, rbr),
    {
        uart_getchar(fsr, rbr)
    }

    /// Bytes sent for a byte slice.
    pub fn write(&self, data: &[u8]) -> (r: Vec<u8>)
        ensures
            r@ == wire(data@),
    {
        wire_bytes(data)
    }

    /// Bytes sent for a string.
    pub fn puts(&self, s: &str) -> (r: Vec<u8>)
        ensures
            r@ == wire(s.spec_bytes()),
    {
        wire_bytes(s.as_bytes())
    }

    /// Bytes sent for formatted output (supports `%s`, `%d`, `%x`, `%X`,
    /// `%c`; `%x` prints lowercase hex, `%X` uppercase).
    pub fn printf(&self, fmt: &str, args: &[UartArg]) -> (r: Vec<u8>)
        ensures
            r@ == wire(format_spec(fmt.spec_bytes(), args@, 0, 0, true)),
    {
        let logical = format_bytes(fmt, args, true);
        wire_bytes(logical.as_slice())
    }
}

/// The byte a receive poll yields: `rbr` when the receive FIFO is not
/// empty.
pub open spec fn rx_byte(fsr: u32, rbr: u8) -> Option<u8> {
    if fsr & RX_NOT_EMPTY != 0 {
        Some(rbr)
    } else {
        None
    }
}

/// The byte received on the selected port, from its FIFO status and
/// receive buffer readings.
pub fn uart_getchar(fsr: u32, rbr: u8) -> (r: Option<u8>)
    ensures
        r == rx_byte(fsr, rbr),
{
    if fsr & RX_NOT_EMPTY != 0 {
        Some(rbr)
    } else {
        None
    }
}

/// Register values that bring up the port at `port_offset` (0x100 for
/// UART1, anything else UART0) at 115200 baud, 8N1, 1-byte RX trigger.
pub fn uart_init_default(port_offset: u32, mfp: u32, clkdiv3: u32, apbclk: u32) -> (r: UartInitRegs)
    ensures
        (r.mfp, r.clkdiv3, r.apbclk) == port_pin_regs(
            if port_offset == 0x100 {
                UartPort::Uart1
            } else {
                UartPort::Uart0
            },
            mfp,
            clkdiv3,
            apbclk,
        ),
        r.baud == (0x30u32 << 24) | ((EXTERNAL_CRYSTAL_CLOCK / 115_200 - 2) as u32),
        r.lcr == WL_8BIT,
        r.tor == 0x80 + 0x20,
        r.fcr == 0x01,
{
    let port = if port_offset == 0x100 {
        UartPort::Uart1
    } else {
        UartPort::Uart0
    };
    let (m, c3, a) = port_pins(port, mfp, clkdiv3, apbclk);
    let baud_val = EXTERNAL_CRYSTAL_CLOCK / 115_200 - 2;
    UartInitRegs {
        mfp: m,
        clkdiv3: c3,
        apbclk: a,
        baud: (0x30 << 24) | baud_val,
        lcr: WL_8BIT,
        tor: 0x80 + 0x20,
        fcr: 0x01,
    }
}

// ============================================================================
// Wire bytes
// ============================================================================

/// Bytes sent for one character: a line feed goes out as carriage return
/// then line feed (`\n` -> `\r\n`).
pub open spec fn wire_byte(c: u8) -> Seq<u8> {
    if c == 10 {
        seq![13u8, 10u8]
    } else {
        seq![c]
    }
}

/// Bytes sent for a sequence of characters.
pub open spec fn wire(s: Seq<u8>) -> Seq<u8>
    decreases s.len(),
{
    if s.len() == 0 {
        Seq::empty()
    } else {
        wire(s.drop_last()) + wire_byte(s.last())
    }
}

/// Bytes sent for one character via the console.
pub fn putchar_bytes(c: u8) -> (r: Vec<u8>)
    ensures
        r@ == wire_byte(c),
{
    let mut v: Vec<u8> = Vec::new();
    if c == 10 {
        v.push(13);
    }
    v.push(c);
    assert(v@ =~= wire_byte(c));
    v
}

/// Bytes sent for a slice.
pub fn wire_bytes(data: &[u8]) -> (r: Vec<u8>)
    ensures
        r@ == wire(data@),
{
    let mut out: Vec<u8> = Vec::new();
    let mut i: usize = 0;
    while i < data.len()
        invariant
            i <= data@.len(),
            out@ == wire(data@.subrange(0, i as int)),
        decreases data@.len() - i,
    {
        let c = data[i];
        let ghost before = out@;
        if c == 10 {
            out.push(13);
        }
        out.push(c);
        assert(out@ =~= before + wire_byte(c));
        proof {
            let s = data@.subrange(0, i + 1);
            assert(s.drop_last() == data@.subrange(0, i as int));
            assert(s.last() == c);
        }
        i = i + 1;
    }
    assert(data@.subrange(0, data@.len() as int) == data@);
    out
}

/// The wire form of a concatenation is the concatenation of wire forms.
pub proof fn lemma_wire_append(a: Seq<u8>, b: Seq<u8>)
    ensures
        wire(a + b) == wire(a) + wire(b),
    decreases b.len(),
{
    if b.len() == 0 {
        assert(a + b == a);
    } else {
        lemma_wire_append(a, b.drop_last());
        assert((a + b).drop_last() == a + b.drop_last());
        assert((a + b).last() == b.last());
    }
}

/// On the wire, every line feed is immediately preceded by an inserted
/// carriage return, and the other bytes are the characters sent, in
/// order: dropping the carriage return of each carriage return / line feed
/// pair gives back the characters.
pub open spec fn unwire(w: Seq<u8>) -> Seq<u8>
    decreases w.len(),
{
    if w.len() == 0 {
        Seq::empty()
    } else if w[0] == 13 && w.len() >= 2 && w[1] == 10 {
        seq![10u8] + unwire(w.subrange(2, w.len() as int))
    } else {
        seq![w[0]] + unwire(w.subrange(1, w.len() as int))
    }
}

proof fn lemma_wire_prepend(c: u8, s: Seq<u8>)
    ensures
        wire(seq![c] + s) == wire_byte(c) + wire(s),
    decreases s.len(),
{
    if s.len() == 0 {
        assert(seq![c] + s == seq![c]);
        assert(seq![c].drop_last() == Seq::<u8>::empty());
        assert(wire(seq![c]) == wire(Seq::<u8>::empty()) + wire_byte(c));
    } else {
        lemma_wire_prepend(c, s.drop_last());
        assert((seq![c] + s).drop_last() == seq![c] + s.drop_last());
        assert((seq![c] + s).last() == s.last());
    }
}

/// Line-feed expansion loses nothing: the characters can be recovered
/// from the bytes on the wire.
pub proof fn lemma_unwire_wire(s: Seq<u8>)
    ensures
        unwire(wire(s)) == s,
    decreases s.len(),
{
    if s.len() > 0 {
        let c = s[0];
        let rest = s.subrange(1, s.len() as int);
        assert(s == seq![c] + rest);
        lemma_wire_prepend(c, rest);
        lemma_unwire_wire(rest);
        let w = wire(s);
        if rest.len() > 0 {
            let c2 = rest[0];
            let rest2 = rest.subrange(1, rest.len() as int);
            assert(rest == seq![c2] + rest2);
            lemma_wire_prepend(c2, rest2);
            assert(wire(rest)[0] != 10);
        }
        if c == 10 {
            assert(w == seq![13u8, 10u8] + wire(rest));
            assert(w.subrange(2, w.len() as int) == wire(rest));
        } else {
            assert(w == seq![c] + wire(rest));
            assert(w.subrange(1, w.len() as int) == wire(rest));
        }
    }
}

// ============================================================================
// Number formatting
// ============================================================================

/// Decimal digits of `v`, most significant first, no leading zeros
/// (`"0"` for zero).
pub open spec fn dec_digits(v: nat) -> Seq<u8>
    decreases v,
{
    if v < 10 {
        seq![(48 + v) as u8]
    } else {
        dec_digits(v / 10).push((48 + v % 10) as u8)
    }
}

/// Hex digit character of a nibble.
pub open spec fn hex_char(d: nat, upper: bool) -> u8 {
    if d < 10 {
        (48 + d) as u8
    } else if upper {
        (65 + d - 10) as u8
    } else {
        (97 + d - 10) as u8
    }
}

/// Hexadecimal digits of `v`, most significant first, no leading zeros
/// (`"0"` for zero).
pub open spec fn hex_digits(v: nat, upper: bool) -> Seq<u8>
    decreases v,
{
    if v < 16 {
        seq![hex_char(v, upper)]
    } else {
        hex_digits(v / 16, upper).push(hex_char(v % 16, upper))
    }
}

/// Value of a string of decimal digits.
pub open spec fn parse_dec(s: Seq<u8>) -> nat
    decreases s.len(),
{
    if s.len() == 0 {
        0
    } else {
        parse_dec(s.drop_last()) * 10 + (s.last() - 48) as nat
    }
}

/// Value of a hex digit character (either case).
pub open spec fn hex_value(c: u8) -> nat {
    if 48 <= c <= 57 {
        (c - 48) as nat
    } else if 65 <= c <= 70 {
        (c - 55) as nat
    } else {
        (c - 87) as nat
    }
}

/// Value of a string of hex digits.
pub open spec fn parse_hex(s: Seq<u8>) -> nat
    decreases s.len(),
{
    if s.len() == 0 {
        0
    } else {
        parse_hex(s.drop_last()) * 16 + hex_value(s.last())
    }
}

/// Printing a number in decimal loses nothing: its digits are decimal
/// digit characters and read back as the number.
pub proof fn lemma_dec_round_trip(v: nat)
    ensures
        parse_dec(dec_digits(v)) == v,
        forall|i: int| 0 <= i < dec_digits(v).len() ==> 48 <= #[trigger] dec_digits(v)[i] <= 57,
        dec_digits(v).len() >= 1,
    decreases v,
{
    let s = dec_digits(v);
    if v >= 10 {
        lemma_dec_round_trip(v / 10);
        assert(s.drop_last() == dec_digits(v / 10));
        assert(s.last() == (48 + v % 10) as u8);
        assert(parse_dec(s) == parse_dec(dec_digits(v / 10)) * 10 + v % 10);
        assert(parse_dec(s) == v);
    } else {
        assert(s.drop_last() == Seq::<u8>::empty());
        assert(s.last() == (48 + v) as u8);
        assert(parse_dec(Seq::<u8>::empty()) == 0);
        assert(parse_dec(s) == v);
    }
}

/// Printing a number in hex (either case) loses nothing: its digits are
/// hex digit characters and read back as the number.
pub proof fn lemma_hex_round_trip(v: nat, upper: bool)
    ensures
        parse_hex(hex_digits(v, upper)) == v,
        hex_digits(v, upper).len() >= 1,
    decreases v,
{
    let s = hex_digits(v, upper);
    if v >= 16 {
        lemma_hex_round_trip(v / 16, upper);
        assert(s.drop_last() == hex_digits(v / 16, upper));
        assert(s.last() == hex_char(v % 16, upper));
        assert(hex_value(hex_char(v % 16, upper)) == v % 16);
        assert(parse_hex(s) == parse_hex(hex_digits(v / 16, upper)) * 16 + v % 16);
        assert(parse_hex(s) == v);
    } else {
        assert(s.drop_last() == Seq::<u8>::empty());
        assert(s.last() == hex_char(v, upper));
        assert(hex_value(hex_char(v, upper)) == v);
        assert(parse_hex(Seq::<u8>::empty()) == 0);
        assert(parse_hex(s) == v);
    }
}

/// `base` to the power `n`.
pub open spec fn power_of(base: nat, n: nat) -> nat
    decreases n,
{
    if n == 0 {
        1
    } else {
        base * power_of(base, (n - 1) as nat)
    }
}

/// A u32 has at most 10 decimal and 8 hex digits.
pub proof fn lemma_digit_counts(v: u32, upper: bool)
    ensures
        dec_digits(v as nat).len() <= 10,
        hex_digits(v as nat, upper).len() <= 8,
{
    assert(power_of(10, 10) == 10_000_000_000) by {
        reveal_with_fuel(power_of, 11);
    }
    assert(power_of(16, 8) == 0x1_0000_0000) by {
        reveal_with_fuel(power_of, 9);
    }
    lemma_dec_len(v as nat, 10);
    lemma_hex_len(v as nat, 8, upper);
}

proof fn lemma_dec_len(v: nat, n: nat)
    requires
        v < power_of(10, n),
        n >= 1,
    ensures
        dec_digits(v).len() <= n,
    decreases v,
{
    if v >= 10 {
        if n == 1 {
            assert(power_of(10, 1) == 10 * power_of(10, 0));
            assert(false);
        }
        assert(v / 10 < power_of(10, (n - 1) as nat));
        lemma_dec_len(v / 10, (n - 1) as nat);
    }
}

proof fn lemma_hex_len(v: nat, n: nat, upper: bool)
    requires
        v < power_of(16, n),
        n >= 1,
    ensures
        hex_digits(v, upper).len() <= n,
    decreases v,
{
    if v >= 16 {
        if n == 1 {
            assert(power_of(16, 1) == 16 * power_of(16, 0));
            assert(false);
        }
        assert(v / 16 < power_of(16, (n - 1) as nat));
        lemma_hex_len(v / 16, (n - 1) as nat, upper);
    }
}

/// Decimal digits of `value`, most significant first.
pub fn print_dec(value: u32) -> (r: Vec<u8>)
    ensures
        r@ == dec_digits(value as nat),
{
    let mut out: Vec<u8> = Vec::new();
    if value == 0 {
        out.push(48);
        return out;
    }
    let mut buf: Vec<u8> = Vec::new();
    let mut v = value;
    while v != 0
        invariant
            v > 0 ==> dec_digits(value as nat) == dec_digits(v as nat) + buf@.reverse(),
            v == 0 ==> dec_digits(value as nat) == buf@.reverse(),
        decreases v,
    {
        let d = (v % 10) as u8;
        proof {
            if v >= 10 {
                assert(dec_digits(v as nat) == dec_digits((v / 10) as nat).push((48 + v % 10) as u8));
            }
            assert(buf@.push((48 + d) as u8).reverse() == seq![(48 + d) as u8] + buf@.reverse());
        }
        buf.push(48 + d);
        v = v / 10;
    }
    let mut idx = buf.len();
    while idx > 0
        invariant
            idx <= buf@.len(),
            out@ == buf@.subrange(idx as int, buf@.len() as int).reverse(),
        decreases idx,
    {
        idx = idx - 1;
        proof {
            assert(buf@.subrange(idx as int, buf@.len() as int) == seq![buf@[idx as int]]
                + buf@.subrange(idx + 1, buf@.len() as int));
        }
        out.push(buf[idx]);
    }
    assert(buf@.subrange(0, buf@.len() as int) == buf@);
    out
}

/// Hex digits of `value`, most significant first, in the chosen case.
pub fn print_hex(value: u32, upper: bool) -> (r: Vec<u8>)
    ensures
        r@ == hex_digits(value as nat, upper),
{
    let mut out: Vec<u8> = Vec::new();
    if value == 0 {
        out.push(48);
        return out;
    }
    let a: u8 = if upper {
        65
    } else {
        97
    };
    let mut buf: Vec<u8> = Vec::new();
    let mut v = value;
    while v != 0
        invariant
            a == (if upper { 65u8 } else { 97u8 }),
            v > 0 ==> hex_digits(value as nat, upper) == hex_digits(v as nat, upper)
                + buf@.reverse(),
            v == 0 ==> hex_digits(value as nat, upper) == buf@.reverse(),
        decreases v,
    {
        assert(v & 0xF == v % 16) by (bit_vector);
        assert(v >> 4 == v / 16) by (bit_vector);
        let digit = (v & 0xF) as u8;
        let ch: u8 = if digit < 10 {
            48 + digit
        } else {
            a + digit - 10
        };
        proof {
            assert(ch == hex_char((v % 16) as nat, upper));
            if v >= 16 {
                assert(hex_digits(v as nat, upper) == hex_digits((v / 16) as nat, upper).push(
                    hex_char((v % 16) as nat, upper),
                ));
            }
            assert(buf@.push(ch).reverse() == seq![ch] + buf@.reverse());
        }
        buf.push(ch);
        v = v >> 4;
    }
    let mut idx = buf.len();
    while idx > 0
        invariant
            idx <= buf@.len(),
            out@ == buf@.subrange(idx as int, buf@.len() as int).reverse(),
        decreases idx,
    {
        idx = idx - 1;
        proof {
            assert(buf@.subrange(idx as int, buf@.len() as int) == seq![buf@[idx as int]]
                + buf@.subrange(idx + 1, buf@.len() as int));
        }
        out.push(buf[idx]);
    }
    assert(buf@.subrange(0, buf@.len() as int) == buf@);
    out
}

// ============================================================================
// Formatted output
// ============================================================================

/// Text that a conversion prints for an argument: `%s` prints a string
/// argument, `%d` a number in decimal, `%x`/`%X` a number in hex (upper
/// case for `%X`, and for `%x` too unless lowercase is allowed), `%c` the
/// low byte of a number; a conversion that does not fit its argument
/// prints nothing.
pub open spec fn arg_text<'a>(a: UartArg<'a>, conv: u8, lower_ok: bool) -> Seq<u8> {
    match a {
        UartArg::Str(s) => if conv == 115 {
            s.spec_bytes()
        } else {
            Seq::empty()
        },
        UartArg::U32(v) => if conv == 100 {
            dec_digits(v as nat)
        } else if conv == 120 || conv == 88 {
            hex_digits(v as nat, !lower_ok || conv == 88)
        } else if conv == 99 {
            seq![v as u8]
        } else {
            Seq::empty()
        },
    }
}

/// Whether `c` is one of the conversion characters `s`, `d`, `x`, `X`, `c`.
pub open spec fn is_conversion(c: u8) -> bool {
    c == 115 || c == 100 || c == 120 || c == 88 || c == 99
}

/// Characters printed for the format `f` from position `i` on, with the
/// arguments from `ai` on.  A `%` followed by a character starts a
/// directive: output stops there when the arguments are used up; a
/// conversion prints its argument and uses it; any other character is
/// printed after the `%` and uses no argument.  A final lone `%` and all
/// other characters are printed as they are.
pub open spec fn format_spec<'a>(
    f: Seq<u8>,
    args: Seq<UartArg<'a>>,
    i: int,
    ai: int,
    lower_ok: bool,
) -> Seq<u8>
    decreases f.len() - i,
{
    if i < 0 || i >= f.len() {
        Seq::empty()
    } else if f[i] == 37 && i + 1 < f.len() {
        if ai >= args.len() || ai < 0 {
            Seq::empty()
        } else if is_conversion(f[i + 1]) {
            arg_text(args[ai], f[i + 1], lower_ok) + format_spec(f, args, i + 2, ai + 1, lower_ok)
        } else {
            seq![37u8, f[i + 1]] + format_spec(f, args, i + 2, ai, lower_ok)
        }
    } else {
        seq![f[i]] + format_spec(f, args, i + 1, ai, lower_ok)
    }
}

/// Text with no `%` in it is printed as it is, whatever the arguments.
pub proof fn lemma_plain_text_verbatim<'a>(f: Seq<u8>, args: Seq<UartArg<'a>>, lower_ok: bool)
    requires
        forall|k: int| 0 <= k < f.len() ==> f[k] != 37,
    ensures
        format_spec(f, args, 0, 0, lower_ok) == f,
{
    lemma_plain_suffix(f, args, 0, lower_ok);
    assert(f.subrange(0, f.len() as int) =~= f);
}

proof fn lemma_plain_suffix<'a>(f: Seq<u8>, args: Seq<UartArg<'a>>, i: int, lower_ok: bool)
    requires
        0 <= i <= f.len(),
        forall|k: int| 0 <= k < f.len() ==> f[k] != 37,
    ensures
        format_spec(f, args, i, 0, lower_ok) == f.subrange(i, f.len() as int),
    decreases f.len() - i,
{
    if i < f.len() {
        lemma_plain_suffix(f, args, i + 1, lower_ok);
        assert(f.subrange(i, f.len() as int) =~= seq![f[i]] + f.subrange(i + 1, f.len() as int));
    } else {
        assert(f.subrange(i, f.len() as int) =~= Seq::<u8>::empty());
    }
}

fn push_all(out: &mut Vec<u8>, src: &[u8])
    ensures
        final(out)@ == old(out)@ + src@,
{
    let mut i: usize = 0;
    while i < src.len()
        invariant
            i <= src@.len(),
            out@ == old(out)@ + src@.subrange(0, i as int),
        decreases src@.len() - i,
    {
        out.push(src[i]);
        proof {
            assert(src@.subrange(0, i + 1) == src@.subrange(0, i as int).push(src@[i as int]));
        }
        i = i + 1;
    }
    assert(src@.subrange(0, src@.len() as int) == src@);
}

/// Characters of the formatted output (before line-feed expansion).
pub fn format_bytes(fmt: &str, args: &[UartArg], lower_ok: bool) -> (r: Vec<u8>)
    ensures
        r@ == format_spec(fmt.spec_bytes(), args@, 0, 0, lower_ok),
{
    let bytes = fmt.as_bytes();
    let ghost f = fmt.spec_bytes();
    let mut out: Vec<u8> = Vec::new();
    let mut arg_idx: usize = 0;
    let mut i: usize = 0;
    while i < bytes.len()
        invariant
            bytes@ == f,
            f == fmt.spec_bytes(),
            i <= f.len(),
            arg_idx <= args@.len(),
            out@ + format_spec(f, args@, i as int, arg_idx as int, lower_ok) == format_spec(
                f,
                args@,
                0,
                0,
                lower_ok,
            ),
        decreases f.len() - i,
    {
        let ghost out0 = out@;
        let ghost i0 = i as int;
        let ghost a0 = arg_idx as int;
        if bytes[i] == 37 && i + 1 < bytes.len() {
            i = i + 1;
            if arg_idx >= args.len() {
                assert(format_spec(f, args@, i0, a0, lower_ok) == Seq::<u8>::empty());
                assert(out@ + Seq::<u8>::empty() == out@);
                return out;
            }
            let c = bytes[i];
            if c == 115 || c == 100 || c == 120 || c == 88 || c == 99 {
                match &args[arg_idx] {
                    UartArg::Str(s) => {
                        if c == 115 {
                            push_all(&mut out, s.as_bytes());
                        }
                    },
                    UartArg::U32(val) => {
                        let v = *val;
                        if c == 100 {
                            let mut d = print_dec(v);
                            out.append(&mut d);
                        } else if c == 120 || c == 88 {
                            let mut h = print_hex(v, !lower_ok || c == 88);
                            out.append(&mut h);
                        } else if c == 99 {
                            out.push(#[verifier::truncate] (v as u8));
                        }
                    },
                }
                proof {
                    assert(out@ == out0 + arg_text(args@[a0], c, lower_ok));
                }
                arg_idx = arg_idx + 1;
            } else {
                out.push(37);
                out.push(c);
                proof {
                    assert(out@ == out0 + seq![37u8, c]);
                }
            }
            proof {
                assert(out0 + format_spec(f, args@, i0, a0, lower_ok) == out@ + format_spec(
                    f,
                    args@,
                    i + 1,
                    arg_idx as int,
                    lower_ok,
                ));
            }
        } else {
            out.push(bytes[i]);
        }
        i = i + 1;
    }
    assert(out@ + Seq::<u8>::empty() == out@);
    out
}

/// Bytes sent for one character via the console port.
pub fn uart_putchar(c: u8) -> (r: Vec<u8>)
    ensures
        r@ == wire_byte(c),
{
    putchar_bytes(c)
}

/// Bytes sent for a string via the console port.
pub fn uart_puts(s: &str) -> (r: Vec<u8>)
    ensures
        r@ == wire(s.spec_bytes()),
{
    wire_bytes(s.as_bytes())
}

/// Bytes sent for formatted output via the console port (supports `%s`,
/// `%d`, `%x`, `%X`, `%c`; hex is always upper case).
pub fn uart_printf(fmt: &str, args: &[UartArg]) -> (r: Vec<u8>)
    ensures
        r@ == wire(format_spec(fmt.spec_bytes(), args@, 0, 0, false)),
{
    let logical = format_bytes(fmt, args, false);
    wire_bytes(logical.as_slice())
}

} // verus!
