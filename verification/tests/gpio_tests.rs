use lib::gpio::{
    gpio_clear_trigger_source, gpio_configure_pin, gpio_get_debounce, gpio_get_int_mode,
    gpio_get_latch_trigger, gpio_get_latch_value, gpio_get_trigger_source, gpio_open_port,
    gpio_read_port, gpio_set_debounce, gpio_set_direction, gpio_set_int_mode,
    gpio_set_int_source_group, gpio_set_latch_trigger, gpio_set_output, gpio_set_pull,
    GpioDirection, GpioPort,
};

#[test]
fn pin_counts_and_masks() {
    assert_eq!(GpioPort::PortA.pin_count(), 12);
    assert_eq!(GpioPort::PortB.pin_count(), 16);
    assert_eq!(GpioPort::PortE.pin_mask(), 0x0FFF);
    assert_eq!(GpioPort::PortD.pin_mask(), 0xFFFF);
}

#[test]
fn port_registers_are_distinct() {
    let p = [GpioPort::PortA, GpioPort::PortB, GpioPort::PortC, GpioPort::PortD, GpioPort::PortE];
    for i in 0..5 {
        for j in 0..5 {
            if i != j {
                assert_ne!(p[i].omd_reg(), p[j].omd_reg());
                assert_ne!(p[i].dout_reg(), p[j].dout_reg());
            }
        }
    }
    assert_eq!(GpioPort::PortB.puen_reg() - GpioPort::PortB.omd_reg(), 4);
}

#[test]
fn configure_pin_range() {
    assert_eq!(gpio_configure_pin(GpioPort::PortA, 12, 0xFFFF_FFFF), None);
    assert_eq!(gpio_configure_pin(GpioPort::PortA, 3, 0xFFFF_FFFF), Some(0xFFFF_FF3F));
    assert_eq!(gpio_configure_pin(GpioPort::PortB, 15, 0xFFFF_FFFF), Some(0x3FFF_FFFF));
}

#[test]
fn open_port_clears_blocking_functions() {
    assert_eq!(gpio_open_port(GpioPort::PortA, 0xFFFF_FFFF), 0xFF0F_FFFF);
    assert_eq!(gpio_open_port(GpioPort::PortB, 0x1234), 0x1234);
    assert_eq!(gpio_open_port(GpioPort::PortE, 0xFFFF_FFFF), 0xFFFF_F00F);
}

#[test]
fn masked_updates_keep_other_pins() {
    assert_eq!(gpio_set_direction(0x00F0, 0x000F, GpioDirection::Output), 0x00FF);
    assert_eq!(gpio_set_direction(0x00FF, 0x000F, GpioDirection::Input), 0x00F0);
    assert_eq!(gpio_set_output(0xA0A0, 0x00FF, 0x1234), 0xA034);
    assert_eq!(gpio_set_pull(0xFFFF, 0x0F00, 0x0000), 0xF0FF);
}

#[test]
fn read_port_masks_invalid_pins() {
    assert_eq!(gpio_read_port(GpioPort::PortA, 0xFFFF_FFFF), 0x0FFF);
    assert_eq!(gpio_read_port(GpioPort::PortC, 0x1234_5678), 0x5678);
    assert_eq!(gpio_get_latch_value(GpioPort::PortE, 0xFFFF), 0x0FFF);
}

#[test]
fn int_source_group_sets_only_masked_pins() {
    let v = gpio_set_int_source_group(GpioPort::PortB, 0b101, 2, 0).unwrap();
    assert_eq!(v, 0b10_00_10);
    let v = gpio_set_int_source_group(GpioPort::PortB, 0b10, 3, v).unwrap();
    assert_eq!(v, 0b10_11_10);
    assert_eq!(gpio_set_int_source_group(GpioPort::PortB, 1, 4, 0), None);
    assert_eq!(gpio_set_int_source_group(GpioPort::PortA, 0x1000, 1, 0), None);
}

#[test]
fn int_mode_round_trip() {
    let v = gpio_set_int_mode(GpioPort::PortC, 0x00FF, 0x000F, 0x00F0, 0xFFFF_FFFF).unwrap();
    let (falling, rising) = gpio_get_int_mode(v);
    assert_eq!(falling & 0x00FF, 0x000F);
    assert_eq!(rising & 0x00FF, 0x00F0);
    assert_eq!(falling & 0xFF00, 0xFF00);
    assert_eq!(gpio_set_int_mode(GpioPort::PortE, 0x1000, 0, 0, 0), None);
}

#[test]
fn latch_trigger_round_trip() {
    assert_eq!(gpio_set_latch_trigger(16), None);
    let v = gpio_set_latch_trigger(9).unwrap();
    assert_eq!(gpio_get_latch_trigger(v), 9);
}

#[test]
fn trigger_source_halves() {
    assert_eq!(gpio_get_trigger_source(GpioPort::PortA, 0x1234_5678), 0x5678);
    assert_eq!(gpio_get_trigger_source(GpioPort::PortB, 0x1234_5678), 0x1234);
    assert_eq!(gpio_clear_trigger_source(GpioPort::PortD, 0x1234_5678), 0x5678);
    assert_eq!(gpio_clear_trigger_source(GpioPort::PortC, 0x1234_5678), 0x1234_0000);
}

#[test]
fn debounce_round_trip() {
    let v = gpio_set_debounce(256, 5).unwrap();
    assert_eq!(v, (8 << 4) | 5);
    assert_eq!(gpio_get_debounce(v), (256, 5));
    assert_eq!(gpio_set_debounce(3, 5), None);
    assert_eq!(gpio_set_debounce(2, 16), None);
}
