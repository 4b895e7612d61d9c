use lib::registers::{
    RegOp, REG_AHBCLK, REG_APBIPRST, REG_GPBFUN, REG_GPEFUN, REG_LCM_FSADDR, REG_LCM_LCDCCtl,
    REG_LCM_TCON4, REG_LCM_TVCtl,
};
use lib::vpost::{
    int_masks, vpost_clock_disable, vpost_clock_enable, vpost_configure_sync_lcm,
    vpost_configure_tv, vpost_configure_tv_full, vpost_int_clear, vpost_int_disable,
    vpost_int_enable, vpost_int_flags, vpost_int_is_enabled, vpost_lcd_start, vpost_lcd_stop,
    vpost_reset, vpost_set_background_color, vpost_set_data_bus_pins, vpost_set_display_window,
    vpost_set_h_timing, vpost_set_image_source, vpost_set_lcd_config, vpost_set_lcd_enable,
    vpost_set_parallel_bus, vpost_set_signal_polarity, vpost_set_v_timing, vpost_tv_disable,
    vpost_tv_enable, vpost_tv_field, DataBusWidth, DisplayWindow, FrameBufferFormat, HTiming,
    ImageSource, LcdDataInterface, LcmRegs, LcdType, ParallelRgbBus, SignalPolarity, SyncLcmConfig,
    TvConfig, TvFrameBufferSize, TvSystem, VTiming, VpostInt,
};

#[test]
fn defaults() {
    let p = SignalPolarity::default();
    assert!(!p.vsync_active_low && !p.hsync_active_low && !p.vden_active_low && p.dclk_rising_edge);
    let t = TvConfig::default();
    assert_eq!(t.system, TvSystem::Ntsc);
    assert!(t.interlace && t.notch_filter && t.dac_enable && !t.cmm_27mhz);
    assert_eq!(t.fb_size, TvFrameBufferSize::Qvga);
}

#[test]
fn clock_reset_run() {
    assert_eq!(vpost_clock_enable(0), 0x0800_0000);
    assert_eq!(vpost_clock_disable(0xFFFF_FFFF), 0xF7FF_FFFF);
    assert_eq!(vpost_reset(0), (0x400, 0));
    assert_eq!(vpost_lcd_start(0), 1);
    assert_eq!(vpost_lcd_stop(0xF), 0xE);
}

#[test]
fn lcd_control_fields() {
    assert_eq!(vpost_set_lcd_enable(true, FrameBufferFormat::Rgb565, true, 0), 0x0001_0000 | (1 << 1) | 1);
    assert_eq!(vpost_set_lcd_enable(false, FrameBufferFormat::YCrYCb, false, 0xFFFF_FFFF), 0xFFFE_FFFF & !0x1);
    assert_eq!(vpost_set_lcd_config(LcdType::Mpu, LcdDataInterface::RgbThrough, 0xFFFF_FFFF), 0xFFFF_FFF3);
    assert_eq!(vpost_set_lcd_config(LcdType::SyncTft, LcdDataInterface::Ccir656, 0), 0x9);
    assert_eq!(vpost_set_parallel_bus(ParallelRgbBus::Bits24, 0), 0x0020_0000);
    assert_eq!(vpost_set_image_source(ImageSource::ColorBar, 0), 0xC00);
}

#[test]
fn timing_minus_one() {
    let h = HTiming { pulse_width: 1, back_porch: 40, front_porch: 0 };
    assert_eq!(vpost_set_h_timing(&h, 0xFF00_0000), 0xFF00_0000 | (0 << 16) | (39 << 8) | 0xFF);
    let v = VTiming { pulse_width: 3, back_porch: 2, front_porch: 1 };
    assert_eq!(vpost_set_v_timing(&v, 0), (2 << 16) | (1 << 8));
}

#[test]
fn window_and_polarity() {
    let w = DisplayWindow { clock_per_line: 525, line_per_panel: 272, pixel_per_line: 480 };
    assert_eq!(vpost_set_display_window(&w, 0, 0xFF), ((524 << 16) | 272, (480 << 16) | 0xFF));
    let w0 = DisplayWindow { clock_per_line: 0, line_per_panel: 0, pixel_per_line: 0xFFFF };
    assert_eq!(vpost_set_display_window(&w0, 0, 0), (0, 0x7FF << 16));
    let p = SignalPolarity { vsync_active_low: true, hsync_active_low: false, vden_active_low: true, dclk_rising_edge: false };
    assert_eq!(vpost_set_signal_polarity(&p, 0xF0), 0xF0 | 0x8 | 0x2);
}

#[test]
fn tv_control() {
    let c = TvConfig::default();
    assert_eq!(vpost_configure_tv(&c, 0xFFFF_FFFF), 0xFFFE_3000 | 0x400 | 0x100 | 0x20 | 0x10 | 0x8 | 0x80 | 0x40 | 0x2);
    let pal = TvConfig { system: TvSystem::Pal, interlace: false, fb_size: TvFrameBufferSize::D1, lcd_source: ImageSource::LineBuffer, tv_source: ImageSource::RegisterColor, notch_filter: false, dac_enable: false, cmm_27mhz: true };
    assert_eq!(vpost_configure_tv(&pal, 0), 0xC000 | 0x200 | 0x4 | 0x0001_0000);
    assert_eq!(vpost_tv_enable(0xF), 0xE);
    assert_eq!(vpost_tv_disable(0), 1);
    assert!(vpost_tv_field(0x8000_0000));
    assert!(!vpost_tv_field(0x7FFF_FFFF));
}

#[test]
fn data_bus_pins() {
    let ops = vpost_set_data_bus_pins(DataBusWidth::Bits8, 0, 0, 0, 0);
    assert_eq!(ops.len(), 3);
    assert_eq!(ops[0], RegOp::Write { addr: REG_GPBFUN, value: 0xC000_0000 });
    let ops = vpost_set_data_bus_pins(DataBusWidth::Bits24, 0xFFFF_FFFF, 0, 0, 0);
    assert_eq!(ops.len(), 5);
    assert_eq!(ops[3], RegOp::Write { addr: REG_GPEFUN, value: 0xF });
    assert_eq!(ops[4], RegOp::Write { addr: REG_GPBFUN, value: 0xFEAA_BFFF });
}

#[test]
fn interrupts() {
    assert_eq!(int_masks(VpostInt::Vsync), (0x0002_0000, 0x2));
    let v = vpost_int_enable(VpostInt::Hsync, 0);
    assert!(vpost_int_is_enabled(VpostInt::Hsync, v));
    assert!(!vpost_int_is_enabled(VpostInt::Vsync, v));
    let v = vpost_int_disable(VpostInt::Hsync, v);
    assert!(!vpost_int_is_enabled(VpostInt::Hsync, v));
    assert_eq!(vpost_int_clear(VpostInt::MpuComplete, 0xFF), 0xEF);
    assert_eq!(vpost_int_flags(0xFFFF_FFFF), 0x1F);
}

#[test]
fn background_color() {
    assert_eq!(vpost_set_background_color(0x12, 0x34, 0x56), 0x0012_3456);
}

fn sample_lcm() -> SyncLcmConfig {
    SyncLcmConfig {
        lcd_type: LcdType::HighResSync,
        data_interface: LcdDataInterface::Yuv422,
        parallel_bus: ParallelRgbBus::Bits18,
        fb_format: FrameBufferFormat::Rgb565,
        image_source: ImageSource::FrameBuffer,
        h_timing: HTiming { pulse_width: 41, back_porch: 2, front_porch: 2 },
        v_timing: VTiming { pulse_width: 10, back_porch: 2, front_porch: 2 },
        window: DisplayWindow { clock_per_line: 525, line_per_panel: 272, pixel_per_line: 480 },
        polarity: SignalPolarity::default(),
        yuv_big_endian: false,
        fb_address: 0x0050_0000,
    }
}

#[test]
fn sync_lcm_sequence() {
    let regs = LcmRegs { ahbclk: 0, apbiprst: 0, lcdc_ctl: 0, lcdc_prm: 0, tcon1: 0, tcon2: 0, tcon3: 0, tcon4: 0, tv_ctl: 0 };
    let ops = vpost_configure_sync_lcm(&sample_lcm(), regs);
    assert_eq!(ops.len(), 13);
    assert_eq!(ops[0], RegOp::Write { addr: REG_AHBCLK, value: 0x0800_0000 });
    assert_eq!(ops[1], RegOp::Write { addr: REG_APBIPRST, value: 0x400 });
    assert_eq!(ops[2], RegOp::Write { addr: REG_APBIPRST, value: 0 });
    assert_eq!(ops[4], RegOp::Write { addr: REG_LCM_LCDCCtl, value: 0x0010_0000 });
    assert_eq!(ops[8], RegOp::Write { addr: REG_LCM_TCON4, value: 480 << 16 });
    assert_eq!(ops[9], RegOp::Write { addr: REG_LCM_TCON4, value: (480 << 16) | 1 });
    assert_eq!(ops[10], RegOp::Write { addr: REG_LCM_LCDCCtl, value: 0x0010_0000 | 2 });
    assert_eq!(ops[12], RegOp::Write { addr: REG_LCM_FSADDR, value: 0x0050_0000 });
    let mut tft = sample_lcm();
    tft.lcd_type = LcdType::SyncTft;
    assert_eq!(vpost_configure_sync_lcm(&tft, regs).len(), 12);
}

#[test]
fn tv_full_sequence() {
    let regs = LcmRegs { ahbclk: 0, apbiprst: 0, lcdc_ctl: 0, lcdc_prm: 0, tcon1: 0, tcon2: 0, tcon3: 0, tcon4: 0, tv_ctl: 0x1 };
    let ops = vpost_configure_tv_full(&TvConfig::default(), 0x0060_0000, regs);
    assert_eq!(ops.len(), 7);
    assert_eq!(ops[4], RegOp::Write { addr: REG_LCM_FSADDR, value: 0x0060_0000 });
    assert_eq!(ops[5], RegOp::Write { addr: REG_LCM_LCDCCtl, value: 5 << 1 });
    match (ops[3], ops[6]) {
        (RegOp::Write { addr: a3, value: v3 }, RegOp::Write { addr: a6, value: v6 }) => {
            assert_eq!(a3, REG_LCM_TVCtl);
            assert_eq!(a6, REG_LCM_TVCtl);
            assert_eq!(v3 & 1, 0);
            assert_eq!(v6, v3);
        }
        _ => panic!("expected TV control writes"),
    }
}
