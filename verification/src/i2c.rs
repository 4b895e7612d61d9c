//! I2C master: the device state of the sub-addressed transfer API
//! (open, close, ioctl), the address bytes of a transfer, the byte-level
//! steps of a read or a write, the bus clock dividers and the status and
//! command bits of the controller.

use vstd::prelude::*;
use crate::registers::{
    CSR_IE, CSR_IF, I2C_ACK, I2C_AL, I2C_BUSY, I2C_CKE, I2C_EN, I2C_READ, I2C_RXACK, I2C_START,
    I2C_STOP, I2C_TIP, I2C_WRITE, MF_GPB13, MF_GPB14, TX_NUM,
};

verus! {

/// Size of the transfer buffer; a transfer moves at most ten bytes fewer.
pub const I2C_MAX_BUF_LEN: usize = 450;
/// Most data bytes one read or write moves.
pub const I2C_MAX_XFER: usize = 440;
/// Default input clock in kHz.
pub const I2C_INPUT_CLOCK: u32 = 33000;
/// Polls of the transfer-in-progress flag before a wait times out.
pub const I2C_WAIT_LIMIT: u32 = 500;

/// Bus speed.
#[derive(Clone, Copy, PartialEq, Eq, Debug, Structural)]
pub enum I2cSpeed {
    Standard100k,
    Fast400k,
}

impl I2cSpeed {
    /// The speed in kHz.
    pub fn khz(self) -> (r: u32)
        ensures
            r == (match self {
                I2cSpeed::Standard100k => 100u32,
                I2cSpeed::Fast400k => 400u32,
            }),
    {
        match self {
            I2cSpeed::Standard100k => 100,
            I2cSpeed::Fast400k => 400,
        }
    }
}

/// I2C error codes.
#[derive(Clone, Copy, PartialEq, Eq, Debug, Structural)]
pub enum I2cError {
    Success,
    LostArbitration,
    BusBusy,
    Nack,
    SlaveNack,
    NoDev,
    Busy,
    Io,
    NotSupported,
    Timeout,
    WrongLength,
}

pub open spec fn spec_error_code(e: I2cError) -> u32 {
    match e {
        I2cError::Success => 0,
        I2cError::LostArbitration => 0xFFFF1101,
        I2cError::BusBusy => 0xFFFF1102,
        I2cError::Nack => 0xFFFF1103,
        I2cError::SlaveNack => 0xFFFF1104,
        I2cError::NoDev => 0xFFFF1105,
        I2cError::Busy => 0xFFFF1106,
        I2cError::Io => 0xFFFF1107,
        I2cError::NotSupported => 0xFFFF1108,
        I2cError::Timeout => 0xFFFF1109,
        I2cError::WrongLength => 0xFFFF1100,
    }
}

impl I2cError {
    /// The error's numeric code (the I2C module identifier in the high
    /// half).
    pub fn code(self) -> (r: u32)
        ensures
            r == spec_error_code(self),
    {
        match self {
            I2cError::Success => 0,
            I2cError::LostArbitration => 0xFFFF1101,
            I2cError::BusBusy => 0xFFFF1102,
            I2cError::Nack => 0xFFFF1103,
            I2cError::SlaveNack => 0xFFFF1104,
            I2cError::NoDev => 0xFFFF1105,
            I2cError::Busy => 0xFFFF1106,
            I2cError::Io => 0xFFFF1107,
            I2cError::NotSupported => 0xFFFF1108,
            I2cError::Timeout => 0xFFFF1109,
            I2cError::WrongLength => 0xFFFF1100,
        }
    }
}

/// What the device is doing.
#[derive(Clone, Copy, PartialEq, Eq, Debug, Structural)]
pub enum I2cState {
    Nop,
    Read,
    Write,
    Probe,
}

/// Control commands.
#[derive(Clone, Copy, PartialEq, Eq, Debug, Structural)]
pub enum I2cIoctl {
    SetDevAddress,
    SetSubAddress,
    SetSpeed,
}

/// One byte-level step of a transfer.
#[derive(Clone, Copy, PartialEq, Eq, Debug, Structural)]
pub enum I2cOp {
    /// Send `data`, with a START before and a STOP after as asked; check
    /// the slave's ACK when `check_ack`.
    WriteByte { start: bool, data: u8, check_ack: bool, stop: bool },
    /// Receive a byte, with a START before and a STOP after as asked;
    /// answer with ACK when `send_ack`, else NACK.
    ReadByte { start: bool, send_ack: bool, stop: bool },
}

/// A transfer's data byte count and its steps.
pub struct I2cTransfer {
    pub count: usize,
    pub ops: Vec<I2cOp>,
}

/// The state of the I2C device between calls.
pub struct I2cDevice {
    open: bool,
    state: I2cState,
    addr: i32,
    last_error: u32,
    subaddr: u32,
    subaddr_len: i32,
    pos: usize,
    len: usize,
    speed: i32,
}

/// The device state as plain values.
pub struct I2cDeviceView {
    pub open: bool,
    pub state: I2cState,
    pub addr: i32,
    pub last_error: u32,
    pub subaddr: u32,
    pub subaddr_len: i32,
    pub pos: usize,
    pub len: usize,
    /// Bus speed in kHz last asked for.
    pub speed: i32,
}

impl View for I2cDevice {
    type V = I2cDeviceView;

    closed spec fn view(&self) -> I2cDeviceView {
        I2cDeviceView {
            open: self.open,
            state: self.state,
            addr: self.addr,
            last_error: self.last_error,
            subaddr: self.subaddr,
            subaddr_len: self.subaddr_len,
            pos: self.pos,
            len: self.len,
            speed: self.speed,
        }
    }
}

/// A bus speed (kHz) whose divider can be computed: five times it fits
/// 32 bits and is not zero.
pub open spec fn speed_ok(speed: int) -> bool {
    1 <= speed <= 0x3333_3333
}

/// The divider register value for a bus speed in kHz from the APB clock in
/// kHz: APB / (5 · speed) - 1 (wrapping), in 16 bits.
pub open spec fn speed_divider(apb_khz: u32, speed_khz: int) -> u32 {
    let q = apb_khz as int / (speed_khz * 5);
    (if q == 0 {
        u32::MAX
    } else {
        (q - 1) as u32
    }) & 0xFFFF
}

/// The chip address byte: the low seven bits of the address shifted up
/// one, with the read bit (bit 0) set for a read.
pub open spec fn chip_byte(addr: i32, read: bool) -> u8 {
    ((((addr as u32) & 0x7F) * 2) + (if read {
        1u32
    } else {
        0u32
    })) as u8
}

/// The `len` sub-address bytes of `s`, most significant first.
pub open spec fn sub_bytes(s: nat, len: nat) -> Seq<u8>
    decreases len,
{
    if len == 0 {
        seq![]
    } else {
        sub_bytes(s / 256, (len - 1) as nat).push((s % 256) as u8)
    }
}

/// 256 to the power `k`.
pub open spec fn pow256(k: nat) -> nat
    decreases k,
{
    if k == 0 {
        1
    } else {
        256 * pow256((k - 1) as nat)
    }
}

/// The number a byte sequence spells, most significant byte first.
pub open spec fn be_value(b: Seq<u8>) -> nat
    decreases b.len(),
{
    if b.len() == 0 {
        0
    } else {
        be_value(b.drop_last()) * 256 + b.last() as nat
    }
}

/// The address bytes of a transfer: the chip address for writing, the
/// sub-address bytes, and for a read the chip address for reading.
pub open spec fn addr_bytes(v: I2cDeviceView, read: bool) -> Seq<u8> {
    seq![chip_byte(v.addr, false)] + sub_bytes(v.subaddr as nat, v.subaddr_len as nat) + (if read {
        seq![chip_byte(v.addr, true)]
    } else {
        seq![]
    })
}

/// The steps that send the address bytes: each is checked for ACK; the
/// first, and for a read the last, come after a START.
pub open spec fn addr_ops(a: Seq<u8>, read: bool) -> Seq<I2cOp> {
    Seq::new(
        a.len(),
        |i: int|
            I2cOp::WriteByte {
                start: i == 0 || (read && i == a.len() - 1),
                data: a[i],
                check_ack: true,
                stop: false,
            },
    )
}

/// The steps that send data bytes, each checked for ACK, the last one
/// followed by a STOP.
pub open spec fn write_data_ops(d: Seq<u8>) -> Seq<I2cOp> {
    Seq::new(
        d.len(),
        |i: int| I2cOp::WriteByte { start: false, data: d[i], check_ack: true, stop: i == d.len() - 1 },
    )
}

/// The steps that receive `n` bytes: ACK after each but the last, which
/// gets a NACK and a STOP.
pub open spec fn read_data_ops(n: nat) -> Seq<I2cOp> {
    Seq::new(
        n,
        |i: int| I2cOp::ReadByte { start: false, send_ack: i != n - 1, stop: i == n - 1 },
    )
}

/// The number of bytes a transfer of `len` asked-for bytes moves.
pub open spec fn clamp_len(len: nat) -> nat {
    if len < I2C_MAX_XFER {
        len
    } else {
        I2C_MAX_XFER as nat
    }
}

fn sub_bytes_exec(s: u32, len: u32) -> (r: Vec<u8>)
    ensures
        r@ == sub_bytes(s as nat, len as nat),
    decreases len,
{
    if len == 0 {
        let r: Vec<u8> = Vec::new();
        assert(r@ =~= sub_bytes(s as nat, 0));
        r
    } else {
        let mut r = sub_bytes_exec(s / 256, len - 1);
        r.push((s % 256) as u8);
        r
    }
}

/// The sub-address bytes spell the sub-address modulo 256 to the power of
/// their number: no byte is lost or reordered.
pub proof fn lemma_sub_bytes_value(s: nat, len: nat)
    ensures
        sub_bytes(s, len).len() == len,
        be_value(sub_bytes(s, len)) == s % pow256(len),
    decreases len,
{
    if len == 0 {
        assert(s % 1 == 0) by (nonlinear_arith);
    } else {
        let k = (len - 1) as nat;
        lemma_sub_bytes_value(s / 256, k);
        let b = sub_bytes(s, len);
        assert(b.drop_last() =~= sub_bytes(s / 256, k));
        assert(pow256(k) > 0) by {
            lemma_pow256_pos(k);
        }
        vstd::arithmetic::div_mod::lemma_breakdown(s as int, 256, pow256(k) as int);
        assert(((s % 256) as u8) as nat == s % 256);
    }
}

/// A transfer addresses the slave as configured: the write chip byte
/// comes first, the sub-address bytes after it spell the sub-address
/// (modulo 256 to the power of its length), and a read ends its address
/// phase with the read chip byte, sent after a repeated START.
pub proof fn lemma_transfer_addresses(v: I2cDeviceView)
    requires
        0 <= v.subaddr_len <= 4,
    ensures
        addr_bytes(v, false).len() == v.subaddr_len + 1,
        addr_bytes(v, true).len() == v.subaddr_len + 2,
        addr_bytes(v, false)[0] == chip_byte(v.addr, false),
        be_value(addr_bytes(v, false).subrange(1, v.subaddr_len + 1)) == v.subaddr as nat % pow256(
            v.subaddr_len as nat,
        ),
        addr_bytes(v, true)[v.subaddr_len + 1] == chip_byte(v.addr, true),
        addr_ops(addr_bytes(v, true), true)[v.subaddr_len + 1] == (I2cOp::WriteByte {
            start: true,
            data: chip_byte(v.addr, true),
            check_ack: true,
            stop: false,
        }),
{
    let sb = sub_bytes(v.subaddr as nat, v.subaddr_len as nat);
    lemma_sub_bytes_value(v.subaddr as nat, v.subaddr_len as nat);
    assert(addr_bytes(v, false).subrange(1, v.subaddr_len + 1) =~= sb);
}

/// Whether a step is a byte write without START or STOP, checked for ACK.
pub open spec fn plain_write(op: I2cOp) -> bool {
    op matches I2cOp::WriteByte { start: false, check_ack: true, stop: false, .. }
}

/// The address phase of a transfer: the write chip byte comes first, after
/// a START; every sub-address byte follows with no START and no STOP,
/// checked for ACK, carrying the sub-address bytes in order; a read then
/// sends the read chip byte after a repeated START.  No other step of the
/// phase carries a START.
pub proof fn lemma_address_phase(v: I2cDeviceView, read: bool)
    requires
        0 <= v.subaddr_len <= 4,
    ensures
        ({
            let ops = addr_ops(addr_bytes(v, read), read);
            let l = v.subaddr_len as int;
            &&& ops.len() == l + 1 + if read {
                1int
            } else {
                0int
            }
            &&& ops[0] == (I2cOp::WriteByte {
                start: true,
                data: chip_byte(v.addr, false),
                check_ack: true,
                stop: false,
            })
            &&& forall|i: int|
                1 <= i <= l ==> plain_write(#[trigger] ops[i]) && ops[i]->data == sub_bytes(
                    v.subaddr as nat,
                    v.subaddr_len as nat,
                )[i - 1]
            &&& read ==> ops[l + 1] == (I2cOp::WriteByte {
                start: true,
                data: chip_byte(v.addr, true),
                check_ack: true,
                stop: false,
            })
        }),
{
    lemma_sub_bytes_value(v.subaddr as nat, v.subaddr_len as nat);
    let a = addr_bytes(v, read);
    let l = v.subaddr_len as int;
    assert(a.len() == l + 1 + if read {
        1int
    } else {
        0int
    });
    assert forall|i: int| 1 <= i <= l implies a[i] == sub_bytes(
        v.subaddr as nat,
        v.subaddr_len as nat,
    )[i - 1] by {}
}

/// Powers of 256 are positive.
pub proof fn lemma_pow256_pos(k: nat)
    ensures
        pow256(k) > 0,
    decreases k,
{
    if k > 0 {
        lemma_pow256_pos((k - 1) as nat);
    }
}

impl I2cDevice {
    /// The device as it is at reset: closed, idle, no address, 100 kHz.
    pub fn new() -> (r: I2cDevice)
        ensures
            r.wf(),
            r@ == (I2cDeviceView {
                open: false,
                state: I2cState::Nop,
                addr: -1i32,
                last_error: 0,
                subaddr: 0,
                subaddr_len: 0,
                pos: 0,
                len: 0,
                speed: 100,
            }),
    {
        I2cDevice {
            open: false,
            state: I2cState::Nop,
            addr: -1i32,
            last_error: 0,
            subaddr: 0,
            subaddr_len: 0,
            pos: 0,
            len: 0,
            speed: 100,
        }
    }

    /// The device keeps a sub-address of at most four bytes and a bus
    /// speed whose divider can be computed.
    pub open spec fn wf(&self) -> bool {
        &&& 0 <= self@.subaddr_len <= 4
        &&& speed_ok(self@.speed as int)
    }

    /// Whether the device is open.
    pub fn is_open(&self) -> (r: bool)
        ensures
            r == self@.open,
    {
        self.open
    }

    /// The slave address.
    pub fn addr(&self) -> (r: i32)
        ensures
            r == self@.addr,
    {
        self.addr
    }

    /// The sub-address and its length in bytes.
    pub fn subaddr(&self) -> (r: (u32, i32))
        ensures
            r == (self@.subaddr, self@.subaddr_len),
    {
        (self.subaddr, self.subaddr_len)
    }

    /// The bus speed in kHz last asked for.
    pub fn speed(&self) -> (r: i32)
        ensures
            r == self@.speed,
    {
        self.speed
    }

    /// The current transfer: state, position and length.
    pub fn transfer_state(&self) -> (r: (I2cState, usize, usize))
        ensures
            r == (self@.state, self@.pos, self@.len),
    {
        (self.state, self.pos, self.len)
    }

    /// The address bytes of a read (`read`) or write transfer.
    pub fn i2c_calc_addr(&self, read: bool) -> (r: Vec<u8>)
        requires
            self.wf(),
        ensures
            r@ == addr_bytes(self@, read),
    {
        let mut r: Vec<u8> = Vec::new();
        r.push(chip_byte_exec(self.addr, false));
        let mut sub = sub_bytes_exec(self.subaddr, self.subaddr_len as u32);
        r.append(&mut sub);
        if read {
            r.push(chip_byte_exec(self.addr, true));
        }
        assert(r@ =~= addr_bytes(self@, read));
        r
    }

    /// Clear the device state (the state after pin set-up): closed, idle,
    /// address 0, no sub-address.  The bus speed is kept.
    pub fn i2c_init(&mut self)
        requires
            old(self).wf(),
        ensures
            final(self).wf(),
            final(self)@ == (I2cDeviceView {
                open: false,
                state: I2cState::Nop,
                addr: 0,
                last_error: 0,
                subaddr: 0,
                subaddr_len: 0,
                pos: 0,
                len: 0,
                speed: old(self)@.speed,
            }),
    {
        self.open = false;
        self.state = I2cState::Nop;
        self.addr = 0;
        self.last_error = 0;
        self.subaddr = 0;
        self.subaddr_len = 0;
        self.pos = 0;
        self.len = 0;
    }

    /// Reset the addressing state: no slave address (-1), no error, no
    /// sub-address.  Returns the divider for 100 kHz.
    pub fn i2c_reset(&mut self, apb_khz: u32) -> (r: u32)
        requires
            old(self).wf(),
        ensures
            final(self).wf(),
            final(self)@ == (I2cDeviceView {
                addr: -1i32,
                last_error: 0,
                subaddr: 0,
                subaddr_len: 0,
                ..old(self)@
            }),
            r == speed_divider(apb_khz, 100),
    {
        self.addr = -1;
        self.last_error = 0;
        self.subaddr = 0;
        self.subaddr_len = 0;
        i2c_speed_divider(apb_khz, 100)
    }

    /// Open the device: refused with `Busy` when it is open already (and
    /// nothing changes); otherwise the state is cleared, reset and marked
    /// open, and the divider for 100 kHz is returned.
    pub fn i2c_open(&mut self, apb_khz: u32) -> (r: Result<u32, I2cError>)
        requires
            old(self).wf(),
        ensures
            final(self).wf(),
            old(self)@.open ==> r == Err::<u32, I2cError>(I2cError::Busy) && final(self)@ == old(self)@,
            !old(self)@.open ==> r == Ok::<u32, I2cError>(speed_divider(apb_khz, 100)) && final(self)@ == (I2cDeviceView {
                open: true,
                state: I2cState::Nop,
                addr: -1i32,
                last_error: 0,
                subaddr: 0,
                subaddr_len: 0,
                pos: 0,
                len: 0,
                speed: old(self)@.speed,
            }),
    {
        if self.open {
            return Err(I2cError::Busy);
        }
        self.i2c_init();
        let d = self.i2c_reset(apb_khz);
        self.open = true;
        Ok(d)
    }

    /// Close the device.
    pub fn i2c_close(&mut self) -> (r: Result<(), I2cError>)
        requires
            old(self).wf(),
        ensures
            final(self).wf(),
            final(self)@ == (I2cDeviceView { open: false, ..old(self)@ }),
            r is Ok,
    {
        self.open = false;
        Ok(())
    }

    /// Control command on an open device (`Io` on a closed one, nothing
    /// changed): set the slave address (`arg0`), the sub-address (`arg0`,
    /// `arg1` bytes; `NotSupported` above four bytes, nothing changed), or
    /// the bus speed (`arg0` kHz; its divider is returned).
    pub fn i2c_ioctl(&mut self, cmd: I2cIoctl, arg0: u32, arg1: u32, apb_khz: u32) -> (r: Result<
        Option<u32>,
        I2cError,
    >)
        requires
            old(self).wf(),
            cmd == I2cIoctl::SetSpeed ==> speed_ok(arg0 as int),
        ensures
            final(self).wf(),
            !old(self)@.open ==> r == Err::<Option<u32>, I2cError>(I2cError::Io) && final(self)@
                == old(self)@,
            old(self)@.open ==> match cmd {
                I2cIoctl::SetDevAddress => r == Ok::<Option<u32>, I2cError>(None) && final(self)@
                    == (I2cDeviceView { addr: arg0 as i32, ..old(self)@ }),
                I2cIoctl::SetSubAddress => if arg1 > 4 {
                    r == Err::<Option<u32>, I2cError>(I2cError::NotSupported) && final(self)@ == old(self)@
                } else {
                    r == Ok::<Option<u32>, I2cError>(None) && final(self)@ == (I2cDeviceView {
                        subaddr: arg0,
                        subaddr_len: arg1 as i32,
                        ..old(self)@
                    })
                },
                I2cIoctl::SetSpeed => r == Ok::<Option<u32>, I2cError>(
                    Some(speed_divider(apb_khz, arg0 as int)),
                ) && final(self)@ == (I2cDeviceView { speed: arg0 as i32, ..old(self)@ }),
            },
    {
        if !self.open {
            return Err(I2cError::Io);
        }
        match cmd {
            I2cIoctl::SetDevAddress => {
                self.addr = arg0 as i32;
                Ok(None)
            },
            I2cIoctl::SetSpeed => {
                self.speed = arg0 as i32;
                Ok(Some(i2c_speed_divider(apb_khz, arg0 as i32)))
            },
            I2cIoctl::SetSubAddress => {
                if arg1 > 4 {
                    return Err(I2cError::NotSupported);
                }
                self.subaddr = arg0;
                self.subaddr_len = arg1 as i32;
                Ok(None)
            },
        }
    }

    /// The divider a bus reset writes: the one of the speed last asked for.
    pub fn i2c_bus_reset_divider(&self, apb_khz: u32) -> (r: u32)
        requires
            self.wf(),
        ensures
            r == speed_divider(apb_khz, self@.speed as int),
    {
        i2c_speed_divider(apb_khz, self.speed)
    }

    /// Start a write of `buf` to the slave's sub-address: `Io` when the
    /// device is closed, nothing to do for an empty buffer, `Busy` when the
    /// bus is not free; otherwise at most 440 bytes are sent, after the
    /// address bytes, and the device records the transfer.
    pub fn i2c_write(&mut self, buf: &[u8], bus_free: bool) -> (r: Result<I2cTransfer, I2cError>)
        requires
            old(self).wf(),
        ensures
            final(self).wf(),
            !old(self)@.open ==> r is Err && r->Err_0 == I2cError::Io && final(self)@ == old(self)@,
            old(self)@.open && buf@.len() == 0 ==> r is Ok && r->Ok_0.count == 0
                && r->Ok_0.ops@.len() == 0 && final(self)@ == old(self)@,
            old(self)@.open && buf@.len() > 0 && !bus_free ==> r is Err && r->Err_0
                == I2cError::Busy && final(self)@ == old(self)@,
            old(self)@.open && buf@.len() > 0 && bus_free ==> r is Ok && r->Ok_0.count == clamp_len(
                buf@.len(),
            ) && r->Ok_0.ops@ == addr_ops(addr_bytes(old(self)@, false), false) + write_data_ops(
                buf@.subrange(0, clamp_len(buf@.len()) as int),
            ) && final(self)@ == (I2cDeviceView {
                state: I2cState::Write,
                pos: 1,
                len: (old(self)@.subaddr_len + 1 + clamp_len(buf@.len())) as usize,
                last_error: 0,
                ..old(self)@
            }),
            old(self)@.open && buf@.len() > 0 && bus_free ==> r is Ok && ({
                let ops = r->Ok_0.ops@;
                let l = old(self)@.subaddr_len as int;
                let n = clamp_len(buf@.len()) as int;
                &&& ops.len() == l + 1 + n
                &&& ops[0] == (I2cOp::WriteByte {
                    start: true,
                    data: chip_byte(old(self)@.addr, false),
                    check_ack: true,
                    stop: false,
                })
                &&& forall|i: int| 1 <= i <= l ==> plain_write(#[trigger] ops[i])
                &&& forall|k: int|
                    0 <= k < n ==> #[trigger] ops[l + 1 + k] == (I2cOp::WriteByte {
                        start: false,
                        data: buf@[k],
                        check_ack: true,
                        stop: k == n - 1,
                    })
            }),
    {
        if !self.open {
            return Err(I2cError::Io);
        }
        let n0 = buf.len();
        if n0 == 0 {
            return Ok(I2cTransfer { count: 0, ops: Vec::new() });
        }
        if !bus_free {
            return Err(I2cError::Busy);
        }
        let n = if n0 < I2C_MAX_XFER {
            n0
        } else {
            I2C_MAX_XFER
        };
        self.state = I2cState::Write;
        self.pos = 1;
        self.len = self.subaddr_len as usize + 1 + n;
        self.last_error = 0;
        let ghost v0 = self@;
        let a = self.i2c_calc_addr(false);
        let mut ops = address_steps(&a, false);
        let ghost head = ops@;
        let ghost d = buf@.subrange(0, n as int);
        let mut i: usize = 0;
        while i < n
            invariant
                n <= buf@.len(),
                d == buf@.subrange(0, n as int),
                i <= n,
                ops@ == head + write_data_ops(d).subrange(0, i as int),
            decreases n - i,
        {
            ops.push(I2cOp::WriteByte { start: false, data: buf[i], check_ack: true, stop: i == n - 1 });
            i = i + 1;
            assert(ops@ =~= head + write_data_ops(d).subrange(0, i as int));
        }
        assert(write_data_ops(d).subrange(0, n as int) =~= write_data_ops(d));
        proof {
            lemma_address_phase(v0, false);
            let h = addr_ops(addr_bytes(v0, false), false);
            assert forall|k: int| 0 <= k < n implies #[trigger] ops@[h.len() + k] == write_data_ops(
                d,
            )[k] by {}
        }
        Ok(I2cTransfer { count: n, ops })
    }

    /// Start a read of `len` bytes from the slave's sub-address: `Io` when
    /// the device is closed, nothing to do for zero bytes, `Busy` when the
    /// bus is not free; otherwise at most 440 bytes are read after the
    /// address bytes, and the device records the transfer.
    pub fn i2c_read(&mut self, len: usize, bus_free: bool) -> (r: Result<I2cTransfer, I2cError>)
        requires
            old(self).wf(),
        ensures
            final(self).wf(),
            !old(self)@.open ==> r is Err && r->Err_0 == I2cError::Io && final(self)@ == old(self)@,
            old(self)@.open && len == 0 ==> r is Ok && r->Ok_0.count == 0 && r->Ok_0.ops@.len() == 0
                && final(self)@ == old(self)@,
            old(self)@.open && len > 0 && !bus_free ==> r is Err && r->Err_0 == I2cError::Busy
                && final(self)@ == old(self)@,
            old(self)@.open && len > 0 && bus_free ==> r is Ok && r->Ok_0.count == clamp_len(
                len as nat,
            ) && r->Ok_0.ops@ == addr_ops(addr_bytes(old(self)@, true), true) + read_data_ops(
                clamp_len(len as nat),
            ) && final(self)@ == (I2cDeviceView {
                state: I2cState::Read,
                pos: 1,
                len: (old(self)@.subaddr_len + 1 + clamp_len(len as nat) + 1) as usize,
                last_error: 0,
                ..old(self)@
            }),
            old(self)@.open && len > 0 && bus_free ==> r is Ok && ({
                let ops = r->Ok_0.ops@;
                let l = old(self)@.subaddr_len as int;
                let n = clamp_len(len as nat) as int;
                &&& ops.len() == l + 2 + n
                &&& ops[0] == (I2cOp::WriteByte {
                    start: true,
                    data: chip_byte(old(self)@.addr, false),
                    check_ack: true,
                    stop: false,
                })
                &&& forall|i: int| 1 <= i <= l ==> plain_write(#[trigger] ops[i])
                &&& ops[l + 1] == (I2cOp::WriteByte {
                    start: true,
                    data: chip_byte(old(self)@.addr, true),
                    check_ack: true,
                    stop: false,
                })
                &&& forall|k: int|
                    0 <= k < n ==> #[trigger] ops[l + 2 + k] == (I2cOp::ReadByte {
                        start: false,
                        send_ack: k != n - 1,
                        stop: k == n - 1,
                    })
            }),
    {
        if !self.open {
            return Err(I2cError::Io);
        }
        if len == 0 {
            return Ok(I2cTransfer { count: 0, ops: Vec::new() });
        }
        if !bus_free {
            return Err(I2cError::Busy);
        }
        let n = if len < I2C_MAX_XFER {
            len
        } else {
            I2C_MAX_XFER
        };
        self.state = I2cState::Read;
        self.pos = 1;
        self.len = self.subaddr_len as usize + 1 + n + 1;
        self.last_error = 0;
        let ghost v0 = self@;
        let a = self.i2c_calc_addr(true);
        let mut ops = address_steps(&a, true);
        let ghost head = ops@;
        let mut i: usize = 0;
        while i < n
            invariant
                1 <= n <= I2C_MAX_XFER,
                i <= n,
                ops@ == head + read_data_ops(n as nat).subrange(0, i as int),
            decreases n - i,
        {
            ops.push(I2cOp::ReadByte { start: false, send_ack: i != n - 1, stop: i == n - 1 });
            i = i + 1;
            assert(ops@ =~= head + read_data_ops(n as nat).subrange(0, i as int));
        }
        assert(read_data_ops(n as nat).subrange(0, n as int) =~= read_data_ops(n as nat));
        proof {
            lemma_address_phase(v0, true);
            let h = addr_ops(addr_bytes(v0, true), true);
            assert forall|k: int| 0 <= k < n implies #[trigger] ops@[h.len() + k] == read_data_ops(
                n as nat,
            )[k] by {}
        }
        Ok(I2cTransfer { count: n, ops })
    }
}

fn chip_byte_exec(addr: i32, read: bool) -> (r: u8)
    ensures
        r == chip_byte(addr, read),
{
    let a = (addr as u32) & 0x7F;
    proof {
        crate::bits::lemma_and_le(addr as u32, 0x7F);
    }
    if read {
        (a * 2 + 1) as u8
    } else {
        (a * 2) as u8
    }
}

fn address_steps(a: &Vec<u8>, read: bool) -> (r: Vec<I2cOp>)
    ensures
        r@ == addr_ops(a@, read),
{
    let mut ops: Vec<I2cOp> = Vec::new();
    let mut i: usize = 0;
    while i < a.len()
        invariant
            i <= a@.len(),
            ops@ == addr_ops(a@, read).subrange(0, i as int),
        decreases a.len() - i,
    {
        let start = i == 0 || (read && i == a.len() - 1);
        ops.push(I2cOp::WriteByte { start, data: a[i], check_ack: true, stop: false });
        i = i + 1;
        assert(ops@ =~= addr_ops(a@, read).subrange(0, i as int));
    }
    assert(addr_ops(a@, read).subrange(0, a@.len() as int) =~= addr_ops(a@, read));
    ops
}

/// The divider for a bus speed in kHz: APB / (5 · speed) - 1 (wrapping),
/// in 16 bits.
pub fn i2c_speed_divider(apb_khz: u32, speed_khz: i32) -> (r: u32)
    requires
        speed_ok(speed_khz as int),
    ensures
        r == speed_divider(apb_khz, speed_khz as int),
{
    let q = apb_khz / ((speed_khz as u32) * 5);
    q.wrapping_sub(1) & 0xFFFF
}

/// The divider `i2c_hw_open` writes for a bus clock in Hz: APB (kHz) /
/// (5 · clock / 1000) - 1, at least 1.  The clock must be at least 200 Hz
/// and the quotient at least 1.
pub fn i2c_hw_divider(apb_khz: u32, bus_clock_hz: u32) -> (r: u32)
    requires
        200 <= bus_clock_hz <= u32::MAX / 5,
        apb_khz >= 5 * bus_clock_hz / 1000,
    ensures
        ({
            let q = apb_khz as int / (5 * bus_clock_hz as int / 1000);
            r == if q - 1 <= 1 {
                1
            } else {
                q - 1
            }
        }),
{
    let k = 5 * bus_clock_hz / 1000;
    assert(apb_khz / k >= 1) by (nonlinear_arith)
        requires
            k >= 1,
            apb_khz >= k,
    ;
    let d = apb_khz / k - 1;
    if d <= 1 {
        1
    } else {
        d
    }
}

/// Whether a transfer is in progress (status register).
pub fn i2c_hw_is_busy(csr: u32) -> (r: bool)
    ensures
        r == (csr & I2C_TIP != 0),
{
    csr & I2C_TIP != 0
}

/// Whether the bus is busy: a START seen and no STOP yet.
pub fn i2c_hw_is_bus_busy(csr: u32) -> (r: bool)
    ensures
        r == (csr & I2C_BUSY != 0),
{
    csr & I2C_BUSY != 0
}

/// Whether the bus is free: SDA and SCK both high (software register bits
/// 4:3) and the busy flag clear.
pub fn i2c_is_bus_free(swr: u32, csr: u32) -> (r: bool)
    ensures
        r == ((swr & 0x18) == 0x18 && (csr & I2C_BUSY) == 0),
{
    (swr & 0x18) == 0x18 && (csr & I2C_BUSY) == 0
}

/// Whether arbitration was lost; the driver then sends START and STOP to
/// recover.
pub fn i2c_hw_is_arbit_lost(csr: u32) -> (r: bool)
    ensures
        r == (csr & I2C_AL != 0),
{
    csr & I2C_AL != 0
}

/// Status register with a burst count of 1–4 bytes (field bits 5:4 hold
/// count - 1); other counts are refused with `WrongLength`.
pub fn i2c_hw_set_burst_cnt(cnt: u8, csr: u32) -> (r: Result<u32, I2cError>)
    ensures
        (cnt == 0 || cnt > 4) ==> r == Err::<u32, I2cError>(I2cError::WrongLength),
        1 <= cnt <= 4 ==> r == Ok::<u32, I2cError>((csr & !TX_NUM) | (((cnt - 1) as u32) << 4u32)),
{
    if cnt == 0 || cnt > 4 {
        return Err(I2cError::WrongLength);
    }
    Ok((csr & !TX_NUM) | (((cnt - 1) as u32) << 4))
}

/// Whether the slave acknowledged (RXACK clear).
pub fn i2c_hw_is_ack(csr: u32) -> (r: bool)
    ensures
        r == (csr & I2C_RXACK == 0),
{
    csr & I2C_RXACK == 0
}

/// The received byte of a receive register value.
pub fn i2c_hw_get_rx_data(rxr: u32) -> (r: u8)
    ensures
        r as u32 == rxr & 0xFF,
{
    proof {
        crate::bits::lemma_and_le(rxr, 0xFF);
    }
    (rxr & 0xFF) as u8
}

/// Status register with the interrupt enabled.
pub fn i2c_hw_enable_int(csr: u32) -> (r: u32)
    ensures
        r == csr | CSR_IE,
{
    csr | CSR_IE
}

/// Status register with the interrupt disabled.
pub fn i2c_hw_disable_int(csr: u32) -> (r: u32)
    ensures
        r == csr & !CSR_IE,
{
    csr & !CSR_IE
}

/// Whether the interrupt is enabled.
pub fn i2c_hw_is_int_enabled(csr: u32) -> (r: bool)
    ensures
        r == (csr & CSR_IE != 0),
{
    csr & CSR_IE != 0
}

/// Whether the interrupt flag is set.
pub fn i2c_hw_poll_int(csr: u32) -> (r: bool)
    ensures
        r == (csr & CSR_IF != 0),
{
    csr & CSR_IF != 0
}

/// Status register that clears the interrupt flag (write 1 to clear).
pub fn i2c_hw_clear_int(csr: u32) -> (r: u32)
    ensures
        r == csr | CSR_IF,
{
    csr | CSR_IF
}

/// The two status values of pin set-up: core and burst count off, then
/// flag cleared, interrupt and core on.
pub fn i2c_hw_init_sda_sck(csr: u32) -> (r: (u32, u32))
    ensures
        r.0 == csr & !(I2C_EN | TX_NUM),
        r.1 == (csr & !(I2C_EN | TX_NUM)) | CSR_IF | CSR_IE | I2C_EN,
{
    let a = csr & !(I2C_EN | TX_NUM);
    (a, a | CSR_IF | CSR_IE | I2C_EN)
}

/// Status register with burst count cleared and the core enabled, as
/// `i2c_hw_open` leaves it.
pub fn i2c_hw_open_csr(csr: u32) -> (r: u32)
    ensures
        r == (csr & !TX_NUM) | I2C_EN,
{
    (csr & !TX_NUM) | I2C_EN
}

/// APB clock register with the I2C clock enabled or gated.
pub fn i2c_clock_value(apbclk: u32, enable: bool) -> (r: u32)
    ensures
        r == if enable {
            apbclk | I2C_CKE
        } else {
            apbclk & !I2C_CKE
        },
{
    if enable {
        apbclk | I2C_CKE
    } else {
        apbclk & !I2C_CKE
    }
}

/// GPB function register with GPB13 (SDA) and GPB14 (SCL) given to I2C.
pub fn i2c_init_pins(gpbfun: u32) -> (r: u32)
    ensures
        r == gpbfun | MF_GPB13 | MF_GPB14,
{
    gpbfun | MF_GPB13 | MF_GPB14
}

/// Command of a byte write: WRITE, with START and STOP as asked.
pub fn i2c_write_cmd(start: bool, stop: bool) -> (r: u32)
    ensures
        r == (if stop {
            (if start {
                I2C_WRITE | I2C_START
            } else {
                I2C_WRITE
            }) | I2C_STOP
        } else {
            if start {
                I2C_WRITE | I2C_START
            } else {
                I2C_WRITE
            }
        }),
{
    let mut cmd = I2C_WRITE;
    if start {
        cmd = cmd | I2C_START;
    }
    if stop {
        cmd = cmd | I2C_STOP;
    }
    cmd
}

/// Command of a byte read: READ, with START, NACK (the ACK bit set when no
/// acknowledge is to be sent) and STOP as asked.
pub fn i2c_read_cmd(start: bool, send_ack: bool, stop: bool) -> (r: u32)
    ensures
        ({
            let c1 = if start {
                I2C_READ | I2C_START
            } else {
                I2C_READ
            };
            let c2 = if !send_ack {
                c1 | I2C_ACK
            } else {
                c1
            };
            r == if stop {
                c2 | I2C_STOP
            } else {
                c2
            }
        }),
{
    let mut cmd = I2C_READ;
    if start {
        cmd = cmd | I2C_START;
    }
    if !send_ack {
        cmd = cmd | I2C_ACK;
    }
    if stop {
        cmd = cmd | I2C_STOP;
    }
    cmd
}

/// The outcome of waiting for the controller: arbitration lost first, then
/// a timeout when the poll count reached the limit.
pub fn i2c_wait_result(arbit_lost: bool, polls: u32) -> (r: Result<(), I2cError>)
    ensures
        arbit_lost ==> r == Err::<(), I2cError>(I2cError::LostArbitration),
        !arbit_lost && polls == I2C_WAIT_LIMIT ==> r == Err::<(), I2cError>(I2cError::Timeout),
        !arbit_lost && polls != I2C_WAIT_LIMIT ==> r is Ok,
{
    if arbit_lost {
        return Err(I2cError::LostArbitration);
    }
    if polls == I2C_WAIT_LIMIT {
        return Err(I2cError::Timeout);
    }
    Ok(())
}

/// The outcome of a byte write once the controller is ready: `Nack` when
/// the ACK was to be checked and the slave did not give it.
pub fn i2c_write_byte_result(check_ack: bool, acked: bool) -> (r: Result<(), I2cError>)
    ensures
        r == if check_ack && !acked {
            Err::<(), I2cError>(I2cError::Nack)
        } else {
            Ok::<(), I2cError>(())
        },
{
    if check_ack && !acked {
        return Err(I2cError::Nack);
    }
    Ok(())
}

/// What the driver does after performing one step of a transfer.
#[derive(Clone, Copy, PartialEq, Eq, Debug, Structural)]
pub enum I2cNext {
    /// Go on with the next step, after a bus reset when asked.
    Continue { reset_bus: bool },
    /// Stop the transfer with `err`, after a bus reset and a STOP
    /// condition when asked.
    Fail { err: I2cError, reset_bus: bool, send_stop: bool },
}

/// Whether a step ends with a STOP condition.
pub open spec fn op_stops(op: I2cOp) -> bool {
    match op {
        I2cOp::WriteByte { stop, .. } => stop,
        I2cOp::ReadByte { stop, .. } => stop,
    }
}

/// The decision after a step, from its outcome (`failure` is the error of a
/// failed step) and whether the bus is free afterwards: a successful step
/// goes on, with a bus reset after the final (STOP) step when the bus is
/// still held; a failed step ends the transfer with its own error, except
/// the final read, which ends it with `Nack` after resetting a held bus and
/// sending STOP.
pub fn i2c_step_next(op: I2cOp, failure: Option<I2cError>, bus_free: bool) -> (r: I2cNext)
    ensures
        r == match failure {
            None => I2cNext::Continue { reset_bus: op_stops(op) && !bus_free },
            Some(e) => match op {
                I2cOp::ReadByte { stop: true, .. } => I2cNext::Fail {
                    err: I2cError::Nack,
                    reset_bus: !bus_free,
                    send_stop: true,
                },
                _ => I2cNext::Fail { err: e, reset_bus: false, send_stop: false },
            },
        },
{
    let stops = match op {
        I2cOp::WriteByte { stop, .. } => stop,
        I2cOp::ReadByte { stop, .. } => stop,
    };
    match failure {
        None => I2cNext::Continue { reset_bus: stops && !bus_free },
        Some(e) => match op {
            I2cOp::ReadByte { stop: true, .. } => I2cNext::Fail {
                err: I2cError::Nack,
                reset_bus: !bus_free,
                send_stop: true,
            },
            _ => I2cNext::Fail { err: e, reset_bus: false, send_stop: false },
        },
    }
}

/// Whether the interrupt handler runs the installed callback: only with
/// one installed, the interrupt enabled and its flag set.
pub fn i2c_isr_should_call(has_callback: bool, csr: u32) -> (r: bool)
    ensures
        r == (has_callback && csr & CSR_IE != 0 && csr & CSR_IF != 0),
{
    has_callback && csr & CSR_IE != 0 && csr & CSR_IF != 0
}

} // verus!
