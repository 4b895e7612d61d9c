use lib::i2c::{
    i2c_clock_value, i2c_hw_clear_int, i2c_hw_disable_int, i2c_hw_divider, i2c_hw_enable_int,
    i2c_hw_get_rx_data, i2c_hw_init_sda_sck, i2c_hw_is_ack, i2c_hw_is_arbit_lost, i2c_hw_is_bus_busy,
    i2c_hw_is_busy, i2c_hw_is_int_enabled, i2c_hw_open_csr, i2c_hw_poll_int, i2c_hw_set_burst_cnt,
    i2c_init_pins, i2c_is_bus_free, i2c_isr_should_call, i2c_read_cmd, i2c_step_next,
    i2c_speed_divider, i2c_wait_result, i2c_write_byte_result, i2c_write_cmd, I2cDevice, I2cError,
    I2cIoctl, I2cNext, I2cOp, I2cSpeed, I2cState, I2C_MAX_XFER,
};

fn opened() -> I2cDevice {
    let mut d = I2cDevice::new();
    assert_eq!(d.i2c_open(24_000), Ok(47));
    d
}

#[test]
fn new_device_is_closed() {
    let d = I2cDevice::new();
    assert!(!d.is_open());
    assert_eq!(d.addr(), -1);
    assert_eq!(d.speed(), 100);
}

#[test]
fn open_twice_is_busy() {
    let mut d = opened();
    assert!(d.is_open());
    assert_eq!(d.addr(), -1);
    assert_eq!(d.i2c_open(24_000), Err(I2cError::Busy));
    assert!(d.i2c_close().is_ok());
    assert!(!d.is_open());
    assert!(d.i2c_open(24_000).is_ok());
}

#[test]
fn ioctl_on_closed_device_is_io_error() {
    let mut d = I2cDevice::new();
    assert_eq!(d.i2c_ioctl(I2cIoctl::SetDevAddress, 0x50, 0, 24_000), Err(I2cError::Io));
    assert_eq!(d.addr(), -1);
}

#[test]
fn ioctl_sets_address_subaddress_speed() {
    let mut d = opened();
    assert_eq!(d.i2c_ioctl(I2cIoctl::SetDevAddress, 0x50, 0, 24_000), Ok(None));
    assert_eq!(d.addr(), 0x50);
    assert_eq!(d.i2c_ioctl(I2cIoctl::SetSubAddress, 0x1234, 2, 24_000), Ok(None));
    assert_eq!(d.subaddr(), (0x1234, 2));
    assert_eq!(d.i2c_ioctl(I2cIoctl::SetSubAddress, 0x1234, 5, 24_000), Err(I2cError::NotSupported));
    assert_eq!(d.subaddr(), (0x1234, 2));
    assert_eq!(d.i2c_ioctl(I2cIoctl::SetSpeed, 400, 0, 24_000), Ok(Some(11)));
    assert_eq!(d.speed(), 400);
    assert_eq!(d.i2c_bus_reset_divider(24_000), 11);
}

#[test]
fn address_bytes() {
    let mut d = opened();
    d.i2c_ioctl(I2cIoctl::SetDevAddress, 0x50, 0, 24_000).unwrap();
    d.i2c_ioctl(I2cIoctl::SetSubAddress, 0x0102_0304, 3, 24_000).unwrap();
    assert_eq!(d.i2c_calc_addr(false), vec![0xA0, 0x02, 0x03, 0x04]);
    assert_eq!(d.i2c_calc_addr(true), vec![0xA0, 0x02, 0x03, 0x04, 0xA1]);
}

#[test]
fn write_transfer_steps() {
    let mut d = opened();
    d.i2c_ioctl(I2cIoctl::SetDevAddress, 0x50, 0, 24_000).unwrap();
    d.i2c_ioctl(I2cIoctl::SetSubAddress, 0x10, 1, 24_000).unwrap();
    let t = d.i2c_write(&[0xAA, 0xBB], true).unwrap();
    assert_eq!(t.count, 2);
    assert_eq!(t.ops, vec![
        I2cOp::WriteByte { start: true, data: 0xA0, check_ack: true, stop: false },
        I2cOp::WriteByte { start: false, data: 0x10, check_ack: true, stop: false },
        I2cOp::WriteByte { start: false, data: 0xAA, check_ack: true, stop: false },
        I2cOp::WriteByte { start: false, data: 0xBB, check_ack: true, stop: true },
    ]);
    assert_eq!(d.transfer_state(), (I2cState::Write, 1, 4));
}

#[test]
fn read_transfer_steps() {
    let mut d = opened();
    d.i2c_ioctl(I2cIoctl::SetDevAddress, 0x1A, 0, 24_000).unwrap();
    let t = d.i2c_read(3, true).unwrap();
    assert_eq!(t.count, 3);
    assert_eq!(t.ops, vec![
        I2cOp::WriteByte { start: true, data: 0x34, check_ack: true, stop: false },
        I2cOp::WriteByte { start: true, data: 0x35, check_ack: true, stop: false },
        I2cOp::ReadByte { start: false, send_ack: true, stop: false },
        I2cOp::ReadByte { start: false, send_ack: true, stop: false },
        I2cOp::ReadByte { start: false, send_ack: false, stop: true },
    ]);
    assert_eq!(d.transfer_state(), (I2cState::Read, 1, 5));
}

#[test]
fn transfer_refusals() {
    let mut d = I2cDevice::new();
    assert!(matches!(d.i2c_write(&[1], true), Err(I2cError::Io)));
    assert!(matches!(d.i2c_read(1, true), Err(I2cError::Io)));
    let mut d = opened();
    assert!(matches!(d.i2c_write(&[1], false), Err(I2cError::Busy)));
    assert!(matches!(d.i2c_read(1, false), Err(I2cError::Busy)));
    let t = d.i2c_write(&[], false).unwrap();
    assert_eq!(t.count, 0);
    assert!(t.ops.is_empty());
    assert_eq!(d.i2c_read(0, false).unwrap().count, 0);
}

#[test]
fn transfer_length_is_clamped() {
    let mut d = opened();
    let buf = vec![7u8; 500];
    let t = d.i2c_write(&buf, true).unwrap();
    assert_eq!(t.count, I2C_MAX_XFER);
    assert_eq!(t.ops.len(), 1 + I2C_MAX_XFER);
    let t = d.i2c_read(1000, true).unwrap();
    assert_eq!(t.count, 440);
}

#[test]
fn init_and_reset() {
    let mut d = opened();
    d.i2c_ioctl(I2cIoctl::SetDevAddress, 0x50, 0, 24_000).unwrap();
    assert_eq!(d.i2c_reset(33_000), 65);
    assert_eq!(d.addr(), -1);
    d.i2c_init();
    assert!(!d.is_open());
    assert_eq!(d.addr(), 0);
}

#[test]
fn dividers() {
    assert_eq!(i2c_speed_divider(24_000, 100), 47);
    assert_eq!(i2c_speed_divider(100, 100), 0xFFFF);
    assert_eq!(i2c_hw_divider(24_000, 100_000), 47);
    assert_eq!(i2c_hw_divider(1_000, 100_000), 1);
    assert_eq!(I2cSpeed::Fast400k.khz(), 400);
}

#[test]
fn status_bits() {
    assert!(i2c_hw_is_busy(0x100));
    assert!(i2c_hw_is_bus_busy(0x400));
    assert!(i2c_hw_is_arbit_lost(0x200));
    assert!(i2c_hw_is_ack(0));
    assert!(!i2c_hw_is_ack(0x800));
    assert!(i2c_is_bus_free(0x18, 0));
    assert!(!i2c_is_bus_free(0x10, 0));
    assert!(!i2c_is_bus_free(0x18, 0x400));
    assert_eq!(i2c_hw_get_rx_data(0x1234), 0x34);
    assert_eq!(i2c_hw_enable_int(0), 2);
    assert_eq!(i2c_hw_disable_int(0xF), 0xD);
    assert!(i2c_hw_is_int_enabled(2));
    assert!(i2c_hw_poll_int(4));
    assert_eq!(i2c_hw_clear_int(0), 4);
    assert_eq!(i2c_hw_init_sda_sck(0xFF), (0xCE, 0xCF));
    assert_eq!(i2c_hw_open_csr(0xFF), 0xCF);
    assert_eq!(i2c_clock_value(0, true), 2);
    assert_eq!(i2c_clock_value(0xFF, false), 0xFD);
    assert_eq!(i2c_init_pins(0), 0x3C00_0000);
}

#[test]
fn burst_count() {
    assert_eq!(i2c_hw_set_burst_cnt(0, 0), Err(I2cError::WrongLength));
    assert_eq!(i2c_hw_set_burst_cnt(5, 0), Err(I2cError::WrongLength));
    assert_eq!(i2c_hw_set_burst_cnt(4, 0xFF), Ok(0xFF));
    assert_eq!(i2c_hw_set_burst_cnt(1, 0xFF), Ok(0xCF));
}

#[test]
fn commands_and_outcomes() {
    assert_eq!(i2c_write_cmd(true, true), 0x02 | 0x10 | 0x08);
    assert_eq!(i2c_write_cmd(false, false), 0x02);
    assert_eq!(i2c_read_cmd(false, false, true), 0x04 | 0x01 | 0x08);
    assert_eq!(i2c_read_cmd(true, true, false), 0x14);
    assert_eq!(i2c_wait_result(true, 0), Err(I2cError::LostArbitration));
    assert_eq!(i2c_wait_result(false, 500), Err(I2cError::Timeout));
    assert_eq!(i2c_wait_result(false, 3), Ok(()));
    assert_eq!(i2c_write_byte_result(true, false), Err(I2cError::Nack));
    assert_eq!(i2c_write_byte_result(false, false), Ok(()));
    assert!(i2c_isr_should_call(true, 0x6));
    assert!(!i2c_isr_should_call(false, 0x6));
    assert!(!i2c_isr_should_call(true, 0x4));
}

#[test]
fn error_codes() {
    assert_eq!(I2cError::Success.code(), 0);
    assert_eq!(I2cError::WrongLength.code(), 0xFFFF_1100);
    assert_eq!(I2cError::Timeout.code(), 0xFFFF_1109);
}

#[test]
fn step_decisions() {
    let last_read = I2cOp::ReadByte { start: false, send_ack: false, stop: true };
    let read = I2cOp::ReadByte { start: false, send_ack: true, stop: false };
    let last_write = I2cOp::WriteByte { start: false, data: 1, check_ack: true, stop: true };
    assert_eq!(i2c_step_next(read, None, false), I2cNext::Continue { reset_bus: false });
    assert_eq!(i2c_step_next(last_write, None, false), I2cNext::Continue { reset_bus: true });
    assert_eq!(i2c_step_next(last_write, None, true), I2cNext::Continue { reset_bus: false });
    assert_eq!(
        i2c_step_next(last_read, Some(I2cError::Timeout), false),
        I2cNext::Fail { err: I2cError::Nack, reset_bus: true, send_stop: true }
    );
    assert_eq!(
        i2c_step_next(read, Some(I2cError::Timeout), false),
        I2cNext::Fail { err: I2cError::Timeout, reset_bus: false, send_stop: false }
    );
    assert_eq!(
        i2c_step_next(last_write, Some(I2cError::Nack), false),
        I2cNext::Fail { err: I2cError::Nack, reset_bus: false, send_stop: false }
    );
}
