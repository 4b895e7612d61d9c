//! Video post-processor (LCD controller and TV encoder): the register
//! values that set the panel type, timing, window, polarities, image
//! sources and interrupts, and the register sequences of a full sync-LCM
//! or TV set-up.

use vstd::prelude::*;
use crate::registers::{
    LCDCCtl_FBDS, LCDCCtl_LCDRUN, LCDCCtl_PRDB_SEL, LCDCCtl_YUVBL, LCDCInt_HINT, LCDCInt_HINTEN,
    LCDCInt_MPUCPL, LCDCInt_MPUCPLINTEN, LCDCInt_TVFIELDINT, LCDCInt_TVFIELDINTEN, LCDCInt_VINT,
    LCDCInt_VINTEN, LCDCPrm_LCDDataSel, LCDCPrm_LCDTYPE, REG_AHBCLK, REG_APBIPRST, REG_GPBFUN,
    REG_GPCFUN, REG_GPDFUN, REG_GPEFUN, REG_LCM_FSADDR, REG_LCM_LCDCCtl, REG_LCM_LCDCPrm,
    REG_LCM_TCON1, REG_LCM_TCON2, REG_LCM_TCON3, REG_LCM_TCON4, REG_LCM_TVCtl, RegOp, TCON1_HBPD,
    TCON1_HFPD, TCON1_HSPW, TCON2_VBPD, TCON2_VFPD, TCON2_VSPW, TCON3_LPP, TCON3_PPL, TCON4_DEP,
    TCON4_HSP, TCON4_PCLKP, TCON4_TAPN, TCON4_VSP, TVCtl_FBSIZE, TVCtl_LCDSrc, TVCtl_NotchE,
    TVCtl_TvCMM, TVCtl_TvField, TVCtl_TvInter, TVCtl_TvSleep, TVCtl_TvSrc, TVCtl_TvSys, TVCtl_Tvdac,
    VPOSTRST, VPOST_CKE,
};

verus! {

/// LCD device type.
#[derive(Clone, Copy, PartialEq, Eq, Debug, Structural)]
pub enum LcdType {
    /// High-resolution sync type (16/18/24-bit parallel)
    HighResSync,
    /// 8-bit serial sync type TFT
    SyncTft,
    /// Sync-type color STN
    SyncStn,
    /// MPU-type LCD
    Mpu,
}

pub open spec fn spec_lcd_type_code(t: LcdType) -> u32 {
    match t {
        LcdType::HighResSync => 0,
        LcdType::SyncTft => 1,
        LcdType::SyncStn => 2,
        LcdType::Mpu => 3,
    }
}

impl LcdType {
    /// The type's code.
    pub fn code(self) -> (r: u32)
        ensures
            r == spec_lcd_type_code(self),
    {
        match self {
            LcdType::HighResSync => 0,
            LcdType::SyncTft => 1,
            LcdType::SyncStn => 2,
            LcdType::Mpu => 3,
        }
    }
}

/// Data interface of an 8-bit serial sync LCM.
#[derive(Clone, Copy, PartialEq, Eq, Debug, Structural)]
pub enum LcdDataInterface {
    /// CCIR601 YUV422
    Yuv422,
    /// RGB dummy serial
    RgbDummy,
    /// CCIR656
    Ccir656,
    /// RGB through mode
    RgbThrough,
}

pub open spec fn spec_data_if_code(d: LcdDataInterface) -> u32 {
    match d {
        LcdDataInterface::Yuv422 => 0,
        LcdDataInterface::RgbDummy => 1,
        LcdDataInterface::Ccir656 => 2,
        LcdDataInterface::RgbThrough => 4,
    }
}

impl LcdDataInterface {
    /// The interface's code.
    pub fn code(self) -> (r: u32)
        ensures
            r == spec_data_if_code(self),
    {
        match self {
            LcdDataInterface::Yuv422 => 0,
            LcdDataInterface::RgbDummy => 1,
            LcdDataInterface::Ccir656 => 2,
            LcdDataInterface::RgbThrough => 4,
        }
    }
}

/// Width of the parallel RGB data bus.
#[derive(Clone, Copy, PartialEq, Eq, Debug, Structural)]
pub enum ParallelRgbBus {
    Bits16,
    Bits18,
    Bits24,
}

pub open spec fn spec_bus_code(b: ParallelRgbBus) -> u32 {
    match b {
        ParallelRgbBus::Bits16 => 0,
        ParallelRgbBus::Bits18 => 1,
        ParallelRgbBus::Bits24 => 2,
    }
}

impl ParallelRgbBus {
    /// The width's code.
    pub fn code(self) -> (r: u32)
        ensures
            r == spec_bus_code(self),
    {
        match self {
            ParallelRgbBus::Bits16 => 0,
            ParallelRgbBus::Bits18 => 1,
            ParallelRgbBus::Bits24 => 2,
        }
    }
}

/// Pixel format of the frame buffer.
#[derive(Clone, Copy, PartialEq, Eq, Debug, Structural)]
pub enum FrameBufferFormat {
    Rgb555,
    Rgb565,
    Rgbx888,
    Rgb888x,
    CbYCrY,
    YCbYCr,
    CrYCbY,
    YCrYCb,
}

pub open spec fn spec_fb_code(f: FrameBufferFormat) -> u32 {
    match f {
        FrameBufferFormat::Rgb555 => 0,
        FrameBufferFormat::Rgb565 => 1,
        FrameBufferFormat::Rgbx888 => 2,
        FrameBufferFormat::Rgb888x => 3,
        FrameBufferFormat::CbYCrY => 4,
        FrameBufferFormat::YCbYCr => 5,
        FrameBufferFormat::CrYCbY => 6,
        FrameBufferFormat::YCrYCb => 7,
    }
}

impl FrameBufferFormat {
    /// The format's code.
    pub fn code(self) -> (r: u32)
        ensures
            r == spec_fb_code(self),
    {
        match self {
            FrameBufferFormat::Rgb555 => 0,
            FrameBufferFormat::Rgb565 => 1,
            FrameBufferFormat::Rgbx888 => 2,
            FrameBufferFormat::Rgb888x => 3,
            FrameBufferFormat::CbYCrY => 4,
            FrameBufferFormat::YCbYCr => 5,
            FrameBufferFormat::CrYCbY => 6,
            FrameBufferFormat::YCrYCb => 7,
        }
    }
}

/// Image source of an output path.
#[derive(Clone, Copy, PartialEq, Eq, Debug, Structural)]
pub enum ImageSource {
    LineBuffer,
    FrameBuffer,
    RegisterColor,
    ColorBar,
}

pub open spec fn spec_source_code(s: ImageSource) -> u32 {
    match s {
        ImageSource::LineBuffer => 0,
        ImageSource::FrameBuffer => 1,
        ImageSource::RegisterColor => 2,
        ImageSource::ColorBar => 3,
    }
}

impl ImageSource {
    /// The source's code.
    pub fn code(self) -> (r: u32)
        ensures
            r == spec_source_code(self),
    {
        match self {
            ImageSource::LineBuffer => 0,
            ImageSource::FrameBuffer => 1,
            ImageSource::RegisterColor => 2,
            ImageSource::ColorBar => 3,
        }
    }
}

/// TV system.
#[derive(Clone, Copy, PartialEq, Eq, Debug, Structural)]
pub enum TvSystem {
    Ntsc,
    Pal,
}

/// Frame buffer size in TV non-interlace mode.
#[derive(Clone, Copy, PartialEq, Eq, Debug, Structural)]
pub enum TvFrameBufferSize {
    /// 320x240
    Qvga,
    /// 640x240
    Hvga,
    /// 640x480
    Vga,
    /// 720x480
    D1,
}

pub open spec fn spec_tv_size_code(s: TvFrameBufferSize) -> u32 {
    match s {
        TvFrameBufferSize::Qvga => 0,
        TvFrameBufferSize::Hvga => 1,
        TvFrameBufferSize::Vga => 2,
        TvFrameBufferSize::D1 => 3,
    }
}

impl TvFrameBufferSize {
    /// The size's code.
    pub fn code(self) -> (r: u32)
        ensures
            r == spec_tv_size_code(self),
    {
        match self {
            TvFrameBufferSize::Qvga => 0,
            TvFrameBufferSize::Hvga => 1,
            TvFrameBufferSize::Vga => 2,
            TvFrameBufferSize::D1 => 3,
        }
    }
}

/// Horizontal timing of a sync-type LCM, in pixel clocks (1–256 each,
/// where 0 stands for 256).
#[derive(Clone, Copy, Debug)]
pub struct HTiming {
    pub pulse_width: u8,
    pub back_porch: u8,
    pub front_porch: u8,
}

/// Vertical timing of a sync-type LCM, in lines (1–256 each, where 0
/// stands for 256).
#[derive(Clone, Copy, Debug)]
pub struct VTiming {
    pub pulse_width: u8,
    pub back_porch: u8,
    pub front_porch: u8,
}

/// Display window and resolution.
#[derive(Clone, Copy, Debug)]
pub struct DisplayWindow {
    /// Total clocks per line (active pixels, porches and sync width)
    pub clock_per_line: u16,
    /// Active lines per panel
    pub line_per_panel: u16,
    /// Active pixels per line
    pub pixel_per_line: u16,
}

/// Signal polarities.
#[derive(Clone, Copy, Debug)]
pub struct SignalPolarity {
    /// true = active low
    pub vsync_active_low: bool,
    /// true = active low
    pub hsync_active_low: bool,
    /// true = active low
    pub vden_active_low: bool,
    /// true = data on the rising edge
    pub dclk_rising_edge: bool,
}

impl Default for SignalPolarity {
    /// All signals active high, data on the rising clock edge.
    fn default() -> (r: Self)
        ensures
            !r.vsync_active_low,
            !r.hsync_active_low,
            !r.vden_active_low,
            r.dclk_rising_edge,
    {
        SignalPolarity {
            vsync_active_low: false,
            hsync_active_low: false,
            vden_active_low: false,
            dclk_rising_edge: true,
        }
    }
}

/// Complete configuration of a sync-type (TFT) LCM.
#[derive(Clone, Copy, Debug)]
pub struct SyncLcmConfig {
    pub lcd_type: LcdType,
    pub data_interface: LcdDataInterface,
    /// Parallel bus width (used by the high-resolution sync type)
    pub parallel_bus: ParallelRgbBus,
    pub fb_format: FrameBufferFormat,
    pub image_source: ImageSource,
    pub h_timing: HTiming,
    pub v_timing: VTiming,
    pub window: DisplayWindow,
    pub polarity: SignalPolarity,
    pub yuv_big_endian: bool,
    /// Physical frame buffer base address
    pub fb_address: u32,
}

/// TV encoder configuration.
#[derive(Clone, Copy, Debug)]
pub struct TvConfig {
    pub system: TvSystem,
    pub interlace: bool,
    pub fb_size: TvFrameBufferSize,
    pub lcd_source: ImageSource,
    pub tv_source: ImageSource,
    pub notch_filter: bool,
    pub dac_enable: bool,
    /// Color modulation clock: true = 27 MHz, false = 13.5 MHz
    pub cmm_27mhz: bool,
}

impl Default for TvConfig {
    /// NTSC, interlaced, QVGA, both paths from the frame buffer, notch
    /// filter and DAC on, 13.5 MHz color modulation.
    fn default() -> (r: Self)
        ensures
            r.system == TvSystem::Ntsc,
            r.interlace,
            r.fb_size == TvFrameBufferSize::Qvga,
            r.lcd_source == ImageSource::FrameBuffer,
            r.tv_source == ImageSource::FrameBuffer,
            r.notch_filter,
            r.dac_enable,
            !r.cmm_27mhz,
    {
        TvConfig {
            system: TvSystem::Ntsc,
            interlace: true,
            fb_size: TvFrameBufferSize::Qvga,
            lcd_source: ImageSource::FrameBuffer,
            tv_source: ImageSource::FrameBuffer,
            notch_filter: true,
            dac_enable: true,
            cmm_27mhz: false,
        }
    }
}

/// VPOST interrupt source.
#[derive(Clone, Copy, PartialEq, Eq, Debug, Structural)]
pub enum VpostInt {
    Hsync,
    Vsync,
    TvField,
    MpuComplete,
}

/// Width of the LCD data bus pins.
#[derive(Clone, Copy, PartialEq, Eq, Debug, Structural)]
pub enum DataBusWidth {
    Bits8,
    Bits9,
    Bits16,
    Bits18,
    Bits24,
}

/// `x` with `m` set when `b` holds.
pub open spec fn set_if(x: u32, b: bool, m: u32) -> u32 {
    if b {
        x | m
    } else {
        x
    }
}

fn set_if_exec(x: u32, b: bool, m: u32) -> (r: u32)
    ensures
        r == set_if(x, b, m),
{
    if b {
        x | m
    } else {
        x
    }
}

/// `x - 1` wrapping in eight bits.
pub open spec fn minus_one(x: u8) -> u32 {
    if x == 0 {
        255
    } else {
        (x - 1) as u32
    }
}

/// AHB clock register with the VPOST clock enabled.
pub fn vpost_clock_enable(ahbclk: u32) -> (r: u32)
    ensures
        r == ahbclk | VPOST_CKE,
{
    ahbclk | VPOST_CKE
}

/// AHB clock register with the VPOST clock gated.
pub fn vpost_clock_disable(ahbclk: u32) -> (r: u32)
    ensures
        r == ahbclk & !VPOST_CKE,
{
    ahbclk & !VPOST_CKE
}

/// The two reset register values of a VPOST reset: reset asserted, then
/// released.
pub fn vpost_reset(apbiprst: u32) -> (r: (u32, u32))
    ensures
        r.0 == apbiprst | VPOSTRST,
        r.1 == (apbiprst | VPOSTRST) & !VPOSTRST,
{
    let a = apbiprst | VPOSTRST;
    (a, a & !VPOSTRST)
}

/// LCD control register with the controller running.
pub fn vpost_lcd_start(ctl: u32) -> (r: u32)
    ensures
        r == ctl | LCDCCtl_LCDRUN,
{
    ctl | LCDCCtl_LCDRUN
}

/// LCD control register with the controller stopped.
pub fn vpost_lcd_stop(ctl: u32) -> (r: u32)
    ensures
        r == ctl & !LCDCCtl_LCDRUN,
{
    ctl & !LCDCCtl_LCDRUN
}

/// LCD control value with YUV endianness, frame buffer format (bits 3:1)
/// and run state set.
pub open spec fn lcd_enable_value(yuv_big_endian: bool, fmt: FrameBufferFormat, run: bool, ctl: u32) -> u32 {
    set_if(
        set_if(ctl & !(LCDCCtl_YUVBL | LCDCCtl_FBDS | LCDCCtl_LCDRUN), yuv_big_endian, LCDCCtl_YUVBL)
            | ((spec_fb_code(fmt) << 1u32) & LCDCCtl_FBDS),
        run,
        LCDCCtl_LCDRUN,
    )
}

/// LCD control register with YUV endianness, frame buffer format and run
/// state set.
pub fn vpost_set_lcd_enable(yuv_big_endian: bool, fb_format: FrameBufferFormat, run: bool, ctl: u32) -> (r:
    u32)
    ensures
        r == lcd_enable_value(yuv_big_endian, fb_format, run, ctl),
{
    let mut val = ctl & !(LCDCCtl_YUVBL | LCDCCtl_FBDS | LCDCCtl_LCDRUN);
    val = set_if_exec(val, yuv_big_endian, LCDCCtl_YUVBL);
    val = val | ((fb_format.code() << 1) & LCDCCtl_FBDS);
    set_if_exec(val, run, LCDCCtl_LCDRUN)
}

/// LCD parameter value with the LCD type (bits 1:0) and data interface
/// (bits 3:2) set.
pub open spec fn lcd_config_value(lcd_type: LcdType, data_if: LcdDataInterface, prm: u32) -> u32 {
    ((prm & !(LCDCPrm_LCDTYPE | LCDCPrm_LCDDataSel)) | (spec_lcd_type_code(lcd_type)
        & LCDCPrm_LCDTYPE)) | ((spec_data_if_code(data_if) << 2u32) & LCDCPrm_LCDDataSel)
}

/// LCD parameter register with type and data interface set.
pub fn vpost_set_lcd_config(lcd_type: LcdType, data_if: LcdDataInterface, prm: u32) -> (r: u32)
    ensures
        r == lcd_config_value(lcd_type, data_if, prm),
{
    let mut val = prm & !(LCDCPrm_LCDTYPE | LCDCPrm_LCDDataSel);
    val = val | (lcd_type.code() & LCDCPrm_LCDTYPE);
    val | ((data_if.code() << 2) & LCDCPrm_LCDDataSel)
}

/// LCD control value with the parallel bus width (bits 21:20) set.
pub open spec fn parallel_bus_value(bus: ParallelRgbBus, ctl: u32) -> u32 {
    (ctl & !LCDCCtl_PRDB_SEL) | ((spec_bus_code(bus) << 20u32) & LCDCCtl_PRDB_SEL)
}

/// LCD control register with the parallel bus width set.
pub fn vpost_set_parallel_bus(bus: ParallelRgbBus, ctl: u32) -> (r: u32)
    ensures
        r == parallel_bus_value(bus, ctl),
        r & LCDCCtl_PRDB_SEL == (spec_bus_code(bus) << 20u32) & LCDCCtl_PRDB_SEL,
        r & !LCDCCtl_PRDB_SEL == ctl & !LCDCCtl_PRDB_SEL,
{
    proof {
        crate::bits::lemma_masked_update(ctl, LCDCCtl_PRDB_SEL, spec_bus_code(bus) << 20u32);
    }
    (ctl & !LCDCCtl_PRDB_SEL) | ((bus.code() << 20) & LCDCCtl_PRDB_SEL)
}

/// TV control value with the LCD image source (bits 11:10) set.
pub open spec fn image_source_value(source: ImageSource, tvctl: u32) -> u32 {
    (tvctl & !TVCtl_LCDSrc) | ((spec_source_code(source) << 10u32) & TVCtl_LCDSrc)
}

/// TV control register with the LCD image source set.
pub fn vpost_set_image_source(source: ImageSource, tvctl: u32) -> (r: u32)
    ensures
        r == image_source_value(source, tvctl),
        r & TVCtl_LCDSrc == (spec_source_code(source) << 10u32) & TVCtl_LCDSrc,
        r & !TVCtl_LCDSrc == tvctl & !TVCtl_LCDSrc,
{
    proof {
        crate::bits::lemma_masked_update(tvctl, TVCtl_LCDSrc, spec_source_code(source) << 10u32);
    }
    (tvctl & !TVCtl_LCDSrc) | ((source.code() << 10) & TVCtl_LCDSrc)
}

/// A timing register value with pulse width (bits 23:16), back porch
/// (bits 15:8) and front porch (bits 7:0), each written as n - 1.
pub open spec fn timing_value(pw: u8, bp: u8, fp: u8, cur: u32) -> u32 {
    (((cur & !(0x00FF_0000u32 | 0x0000_FF00u32 | 0x0000_00FFu32)) | ((minus_one(pw) << 16u32)
        & 0x00FF_0000u32)) | ((minus_one(bp) << 8u32) & 0x0000_FF00u32)) | (minus_one(fp)
        & 0x0000_00FFu32)
}

proof fn lemma_timing_bits(cur: u32, p: u32, b: u32, f: u32)
    by (bit_vector)
    requires
        p <= 0xFF,
        b <= 0xFF,
        f <= 0xFF,
    ensures
        ((((((cur & !(0x00FF_0000u32 | 0x0000_FF00u32 | 0x0000_00FFu32)) | ((p << 16u32)
            & 0x00FF_0000u32)) | ((b << 8u32) & 0x0000_FF00u32)) | (f & 0x0000_00FFu32))
            & 0x00FF_0000u32) >> 16u32) == p,
        ((((((cur & !(0x00FF_0000u32 | 0x0000_FF00u32 | 0x0000_00FFu32)) | ((p << 16u32)
            & 0x00FF_0000u32)) | ((b << 8u32) & 0x0000_FF00u32)) | (f & 0x0000_00FFu32))
            & 0x0000_FF00u32) >> 8u32) == b,
        (((((cur & !(0x00FF_0000u32 | 0x0000_FF00u32 | 0x0000_00FFu32)) | ((p << 16u32)
            & 0x00FF_0000u32)) | ((b << 8u32) & 0x0000_FF00u32)) | (f & 0x0000_00FFu32))
            & 0x0000_00FFu32) == f,
        (((((cur & !(0x00FF_0000u32 | 0x0000_FF00u32 | 0x0000_00FFu32)) | ((p << 16u32)
            & 0x00FF_0000u32)) | ((b << 8u32) & 0x0000_FF00u32)) | (f & 0x0000_00FFu32))
            & 0xFF00_0000u32) == cur & 0xFF00_0000u32,
{
}

/// A timing register holds each of its three counts minus one, as an
/// 8-bit value (a count of 0 stands for 256 and is written as 255): pulse
/// width in bits 23:16, back porch in 15:8, front porch in 7:0; the top
/// byte is kept.
pub proof fn lemma_timing_fields(pw: u8, bp: u8, fp: u8, cur: u32)
    ensures
        (timing_value(pw, bp, fp, cur) & 0x00FF_0000) >> 16u32 == (pw as int - 1) % 256,
        (timing_value(pw, bp, fp, cur) & 0x0000_FF00) >> 8u32 == (bp as int - 1) % 256,
        timing_value(pw, bp, fp, cur) & 0x0000_00FF == (fp as int - 1) % 256,
        timing_value(pw, bp, fp, cur) & 0xFF00_0000 == cur & 0xFF00_0000,
{
    lemma_timing_bits(cur, minus_one(pw), minus_one(bp), minus_one(fp));
}

fn timing_exec(pw: u8, bp: u8, fp: u8, cur: u32) -> (r: u32)
    ensures
        r == timing_value(pw, bp, fp, cur),
{
    let p = pw.wrapping_sub(1) as u32;
    let b = bp.wrapping_sub(1) as u32;
    let f = fp.wrapping_sub(1) as u32;
    let mut val = cur & !(0x00FF_0000u32 | 0x0000_FF00u32 | 0x0000_00FFu32);
    val = val | ((p << 16) & 0x00FF_0000);
    val = val | ((b << 8) & 0x0000_FF00);
    val | (f & 0x0000_00FF)
}

/// TCON1 with the horizontal timing set.
pub fn vpost_set_h_timing(timing: &HTiming, tcon1: u32) -> (r: u32)
    ensures
        r == timing_value(timing.pulse_width, timing.back_porch, timing.front_porch, tcon1),
        (r & 0x00FF_0000) >> 16u32 == (timing.pulse_width as int - 1) % 256,
        (r & 0x0000_FF00) >> 8u32 == (timing.back_porch as int - 1) % 256,
        r & 0x0000_00FF == (timing.front_porch as int - 1) % 256,
        r & 0xFF00_0000 == tcon1 & 0xFF00_0000,
{
    proof {
        lemma_timing_fields(timing.pulse_width, timing.back_porch, timing.front_porch, tcon1);
    }
    assert(TCON1_HSPW == 0x00FF_0000 && TCON1_HBPD == 0x0000_FF00 && TCON1_HFPD == 0x0000_00FF);
    timing_exec(timing.pulse_width, timing.back_porch, timing.front_porch, tcon1)
}

/// TCON2 with the vertical timing set.
pub fn vpost_set_v_timing(timing: &VTiming, tcon2: u32) -> (r: u32)
    ensures
        r == timing_value(timing.pulse_width, timing.back_porch, timing.front_porch, tcon2),
        (r & 0x00FF_0000) >> 16u32 == (timing.pulse_width as int - 1) % 256,
        (r & 0x0000_FF00) >> 8u32 == (timing.back_porch as int - 1) % 256,
        r & 0x0000_00FF == (timing.front_porch as int - 1) % 256,
        r & 0xFF00_0000 == tcon2 & 0xFF00_0000,
{
    proof {
        lemma_timing_fields(timing.pulse_width, timing.back_porch, timing.front_porch, tcon2);
    }
    assert(TCON2_VSPW == 0x00FF_0000 && TCON2_VBPD == 0x0000_FF00 && TCON2_VFPD == 0x0000_00FF);
    timing_exec(timing.pulse_width, timing.back_porch, timing.front_porch, tcon2)
}

/// TCON3 and TCON4 values of a display window: clocks per line minus one
/// (0 stays 0) in TCON3 bits 31:16 and lines per panel in bits 15:0; the
/// low eleven bits of pixels per line in TCON4 bits 26:16.
pub open spec fn window_value(win: DisplayWindow, tcon3: u32, tcon4: u32) -> (u32, u32) {
    let cpl: u32 = if win.clock_per_line > 0 {
        (win.clock_per_line - 1) as u32
    } else {
        0
    };
    (
        ((tcon3 & !(TCON3_PPL | TCON3_LPP)) | ((cpl << 16u32) & TCON3_PPL)) | ((
        win.line_per_panel as u32) & TCON3_LPP),
        (tcon4 & !TCON4_TAPN) | ((((win.pixel_per_line as u32) & 0x7FF) << 16u32) & TCON4_TAPN),
    )
}

/// TCON3 and TCON4 with the display window set.
pub fn vpost_set_display_window(win: &DisplayWindow, tcon3: u32, tcon4: u32) -> (r: (u32, u32))
    ensures
        r == window_value(*win, tcon3, tcon4),
{
    let cpl: u32 = if win.clock_per_line > 0 {
        (win.clock_per_line - 1) as u32
    } else {
        0
    };
    let mut val = tcon3 & !(TCON3_PPL | TCON3_LPP);
    val = val | ((cpl << 16) & TCON3_PPL);
    val = val | ((win.line_per_panel as u32) & TCON3_LPP);
    let t4 = (tcon4 & !TCON4_TAPN) | ((((win.pixel_per_line as u32) & 0x7FF) << 16) & TCON4_TAPN);
    (val, t4)
}

/// TCON4 value with the polarity bits set.
pub open spec fn polarity_value(pol: SignalPolarity, tcon4: u32) -> u32 {
    set_if(
        set_if(
            set_if(
                set_if(
                    tcon4 & !(TCON4_VSP | TCON4_HSP | TCON4_DEP | TCON4_PCLKP),
                    pol.vsync_active_low,
                    TCON4_VSP,
                ),
                pol.hsync_active_low,
                TCON4_HSP,
            ),
            pol.vden_active_low,
            TCON4_DEP,
        ),
        pol.dclk_rising_edge,
        TCON4_PCLKP,
    )
}

/// Bit facts of the polarity value: each flag lands in its own bit, and
/// the bits above the four polarity bits are kept.
proof fn lemma_polarity_bits(t: u32, a: u32, b: u32, c: u32, d: u32, x: u32)
    by (bit_vector)
    requires
        a == 0 || a == 8,
        b == 0 || b == 4,
        c == 0 || c == 2,
        d == 0 || d == 1,
    ensures
        (((((t & !0xFu32) | a) | b) | c) | d) & 8 == a,
        (((((t & !0xFu32) | a) | b) | c) | d) & 4 == b,
        (((((t & !0xFu32) | a) | b) | c) | d) & 2 == c,
        (((((t & !0xFu32) | a) | b) | c) | d) & 1 == d,
        (((((t & !0xFu32) | a) | b) | c) | d) & !0xFu32 == t & !0xFu32,
        x | 0 == x,
{
}

/// Each polarity flag drives its own TCON4 bit: VSP (bit 3) is set exactly
/// when VSYNC is active low, HSP (bit 2) exactly when HSYNC is active low,
/// DEP (bit 1) exactly when VDEN is active low, PCLKP (bit 0) exactly when
/// data is taken on the rising clock edge; every other bit of TCON4 is
/// kept.
pub proof fn lemma_polarity_flags(pol: SignalPolarity, tcon4: u32)
    ensures
        (polarity_value(pol, tcon4) & TCON4_VSP != 0) == pol.vsync_active_low,
        (polarity_value(pol, tcon4) & TCON4_HSP != 0) == pol.hsync_active_low,
        (polarity_value(pol, tcon4) & TCON4_DEP != 0) == pol.vden_active_low,
        (polarity_value(pol, tcon4) & TCON4_PCLKP != 0) == pol.dclk_rising_edge,
        polarity_value(pol, tcon4) & !(TCON4_VSP | TCON4_HSP | TCON4_DEP | TCON4_PCLKP) == tcon4 & !(
        TCON4_VSP | TCON4_HSP | TCON4_DEP | TCON4_PCLKP),
{
    let a: u32 = if pol.vsync_active_low {
        8
    } else {
        0
    };
    let b: u32 = if pol.hsync_active_low {
        4
    } else {
        0
    };
    let c: u32 = if pol.vden_active_low {
        2
    } else {
        0
    };
    let d: u32 = if pol.dclk_rising_edge {
        1
    } else {
        0
    };
    let base = tcon4 & !(TCON4_VSP | TCON4_HSP | TCON4_DEP | TCON4_PCLKP);
    assert(TCON4_VSP | TCON4_HSP | TCON4_DEP | TCON4_PCLKP == 0xFu32) by (bit_vector);
    lemma_polarity_bits(tcon4, a, b, c, d, base);
    lemma_polarity_bits(tcon4, a, b, c, d, base | a);
    lemma_polarity_bits(tcon4, a, b, c, d, (base | a) | b);
    lemma_polarity_bits(tcon4, a, b, c, d, ((base | a) | b) | c);
    assert(set_if(base, pol.vsync_active_low, TCON4_VSP) == base | a);
    assert(set_if(base | a, pol.hsync_active_low, TCON4_HSP) == (base | a) | b);
    assert(set_if((base | a) | b, pol.vden_active_low, TCON4_DEP) == ((base | a) | b) | c);
    assert(set_if(((base | a) | b) | c, pol.dclk_rising_edge, TCON4_PCLKP) == (((base | a) | b)
        | c) | d);
}

/// TCON4 with the signal polarities set.
pub fn vpost_set_signal_polarity(pol: &SignalPolarity, tcon4: u32) -> (r: u32)
    ensures
        r == polarity_value(*pol, tcon4),
        (r & TCON4_VSP != 0) == pol.vsync_active_low,
        (r & TCON4_HSP != 0) == pol.hsync_active_low,
        (r & TCON4_DEP != 0) == pol.vden_active_low,
        (r & TCON4_PCLKP != 0) == pol.dclk_rising_edge,
        r & !(TCON4_VSP | TCON4_HSP | TCON4_DEP | TCON4_PCLKP) == tcon4 & !(TCON4_VSP | TCON4_HSP
            | TCON4_DEP | TCON4_PCLKP),
{
    proof {
        lemma_polarity_flags(*pol, tcon4);
    }
    let mut val = tcon4 & !(TCON4_VSP | TCON4_HSP | TCON4_DEP | TCON4_PCLKP);
    val = set_if_exec(val, pol.vsync_active_low, TCON4_VSP);
    val = set_if_exec(val, pol.hsync_active_low, TCON4_HSP);
    val = set_if_exec(val, pol.vden_active_low, TCON4_DEP);
    set_if_exec(val, pol.dclk_rising_edge, TCON4_PCLKP)
}

/// The TV control bits a TV configuration owns.
pub open spec fn tv_owned_bits() -> u32 {
    TVCtl_FBSIZE | TVCtl_LCDSrc | TVCtl_TvSrc | TVCtl_NotchE | TVCtl_Tvdac | TVCtl_TvInter
        | TVCtl_TvSys | TVCtl_TvSleep | TVCtl_TvCMM
}

/// TV control value of a TV configuration: frame buffer size (bits 15:14),
/// LCD source (11:10), TV source (9:8), then the flag bits; the encoder is
/// left awake (sleep bit clear).
pub open spec fn tv_value(cfg: TvConfig, tvctl: u32) -> u32 {
    let base = (((tvctl & !tv_owned_bits()) | ((spec_tv_size_code(cfg.fb_size) << 14u32)
        & TVCtl_FBSIZE)) | ((spec_source_code(cfg.lcd_source) << 10u32) & TVCtl_LCDSrc)) | ((
    spec_source_code(cfg.tv_source) << 8u32) & TVCtl_TvSrc);
    set_if(
        set_if(
            set_if(
                set_if(set_if(base, cfg.notch_filter, TVCtl_NotchE), cfg.dac_enable, TVCtl_Tvdac),
                cfg.interlace,
                TVCtl_TvInter,
            ),
            cfg.system == TvSystem::Pal,
            TVCtl_TvSys,
        ),
        cfg.cmm_27mhz,
        TVCtl_TvCMM,
    )
}

/// TV control register of a TV configuration.
pub fn vpost_configure_tv(cfg: &TvConfig, tvctl: u32) -> (r: u32)
    ensures
        r == tv_value(*cfg, tvctl),
{
    let mut val = tvctl & !(TVCtl_FBSIZE | TVCtl_LCDSrc | TVCtl_TvSrc | TVCtl_NotchE | TVCtl_Tvdac
        | TVCtl_TvInter | TVCtl_TvSys | TVCtl_TvSleep | TVCtl_TvCMM);
    val = val | ((cfg.fb_size.code() << 14) & TVCtl_FBSIZE);
    val = val | ((cfg.lcd_source.code() << 10) & TVCtl_LCDSrc);
    val = val | ((cfg.tv_source.code() << 8) & TVCtl_TvSrc);
    val = set_if_exec(val, cfg.notch_filter, TVCtl_NotchE);
    val = set_if_exec(val, cfg.dac_enable, TVCtl_Tvdac);
    val = set_if_exec(val, cfg.interlace, TVCtl_TvInter);
    let pal = match cfg.system {
        TvSystem::Pal => true,
        TvSystem::Ntsc => false,
    };
    val = set_if_exec(val, pal, TVCtl_TvSys);
    set_if_exec(val, cfg.cmm_27mhz, TVCtl_TvCMM)
}

/// TV control register with the encoder awake.
pub fn vpost_tv_enable(tvctl: u32) -> (r: u32)
    ensures
        r == tvctl & !TVCtl_TvSleep,
{
    tvctl & !TVCtl_TvSleep
}

/// TV control register with the encoder asleep.
pub fn vpost_tv_disable(tvctl: u32) -> (r: u32)
    ensures
        r == tvctl | TVCtl_TvSleep,
{
    tvctl | TVCtl_TvSleep
}

/// The TV field status bit of a TV control value.
pub fn vpost_tv_field(tvctl: u32) -> (r: bool)
    ensures
        r == (tvctl & TVCtl_TvField != 0),
{
    tvctl & TVCtl_TvField != 0
}

/// Pin function values that route the LCD data bus: LPCLK on GPB31,
/// data on GPC (8, 9 or 16 bits), sync and enable on GPD[23:18], two more
/// data bits on GPE[3:0] from 18 bits up, and six more on GPB[23:18] for
/// 24 bits.  The register steps, assuming each register reads back what was
/// last written to it.
pub open spec fn data_bus_plan(width: DataBusWidth, gpb: u32, gpc: u32, gpd: u32, gpe: u32) -> Seq<RegOp> {
    let b1 = gpb | 0xC000_0000u32;
    let head = seq![RegOp::Write { addr: REG_GPBFUN, value: b1 }];
    match width {
        DataBusWidth::Bits8 => head + seq![
            RegOp::Write { addr: REG_GPCFUN, value: gpc | 0x0000_FFFFu32 },
            RegOp::Write { addr: REG_GPDFUN, value: gpd | 0x00FC_0000u32 },
        ],
        DataBusWidth::Bits9 => head + seq![
            RegOp::Write { addr: REG_GPCFUN, value: gpc | 0x0003_FFFFu32 },
            RegOp::Write { addr: REG_GPDFUN, value: gpd | 0x00FC_0000u32 },
        ],
        DataBusWidth::Bits16 => head + seq![
            RegOp::Write { addr: REG_GPCFUN, value: gpc | 0xFFFF_FFFFu32 },
            RegOp::Write { addr: REG_GPDFUN, value: gpd | 0x00FC_0000u32 },
        ],
        DataBusWidth::Bits18 => head + seq![
            RegOp::Write { addr: REG_GPCFUN, value: gpc | 0xFFFF_FFFFu32 },
            RegOp::Write { addr: REG_GPDFUN, value: gpd | 0x00FC_0000u32 },
            RegOp::Write { addr: REG_GPEFUN, value: gpe | 0x0000_000Fu32 },
        ],
        DataBusWidth::Bits24 => head + seq![
            RegOp::Write { addr: REG_GPCFUN, value: gpc | 0xFFFF_FFFFu32 },
            RegOp::Write { addr: REG_GPDFUN, value: gpd | 0x00FC_0000u32 },
            RegOp::Write { addr: REG_GPEFUN, value: gpe | 0x0000_000Fu32 },
            RegOp::Write { addr: REG_GPBFUN, value: (b1 & !0x03FF_C000u32) | 0x02AA_8000u32 },
        ],
    }
}

/// The pin function writes that route the LCD data bus, from the current
/// GPB/GPC/GPD/GPE function register values.
pub fn vpost_set_data_bus_pins(width: DataBusWidth, gpb: u32, gpc: u32, gpd: u32, gpe: u32) -> (r:
    Vec<RegOp>)
    ensures
        r@ == data_bus_plan(width, gpb, gpc, gpd, gpe),
{
    let b1 = gpb | 0xC000_0000;
    let r = match width {
        DataBusWidth::Bits8 => vec![
            RegOp::Write { addr: REG_GPBFUN, value: b1 },
            RegOp::Write { addr: REG_GPCFUN, value: gpc | 0x0000_FFFF },
            RegOp::Write { addr: REG_GPDFUN, value: gpd | 0x00FC_0000 },
        ],
        DataBusWidth::Bits9 => vec![
            RegOp::Write { addr: REG_GPBFUN, value: b1 },
            RegOp::Write { addr: REG_GPCFUN, value: gpc | 0x0003_FFFF },
            RegOp::Write { addr: REG_GPDFUN, value: gpd | 0x00FC_0000 },
        ],
        DataBusWidth::Bits16 => vec![
            RegOp::Write { addr: REG_GPBFUN, value: b1 },
            RegOp::Write { addr: REG_GPCFUN, value: gpc | 0xFFFF_FFFF },
            RegOp::Write { addr: REG_GPDFUN, value: gpd | 0x00FC_0000 },
        ],
        DataBusWidth::Bits18 => vec![
            RegOp::Write { addr: REG_GPBFUN, value: b1 },
            RegOp::Write { addr: REG_GPCFUN, value: gpc | 0xFFFF_FFFF },
            RegOp::Write { addr: REG_GPDFUN, value: gpd | 0x00FC_0000 },
            RegOp::Write { addr: REG_GPEFUN, value: gpe | 0x0000_000F },
        ],
        DataBusWidth::Bits24 => vec![
            RegOp::Write { addr: REG_GPBFUN, value: b1 },
            RegOp::Write { addr: REG_GPCFUN, value: gpc | 0xFFFF_FFFF },
            RegOp::Write { addr: REG_GPDFUN, value: gpd | 0x00FC_0000 },
            RegOp::Write { addr: REG_GPEFUN, value: gpe | 0x0000_000F },
            RegOp::Write { addr: REG_GPBFUN, value: (b1 & !0x03FF_C000) | 0x02AA_8000 },
        ],
    };
    assert(r@ =~= data_bus_plan(width, gpb, gpc, gpd, gpe));
    r
}

/// Enable bit and flag bit of a VPOST interrupt.
pub open spec fn spec_int_masks(source: VpostInt) -> (u32, u32) {
    match source {
        VpostInt::Hsync => (LCDCInt_HINTEN, LCDCInt_HINT),
        VpostInt::Vsync => (LCDCInt_VINTEN, LCDCInt_VINT),
        VpostInt::TvField => (LCDCInt_TVFIELDINTEN, LCDCInt_TVFIELDINT),
        VpostInt::MpuComplete => (LCDCInt_MPUCPLINTEN, LCDCInt_MPUCPL),
    }
}

/// Enable bit and flag bit of a VPOST interrupt.
pub fn int_masks(source: VpostInt) -> (r: (u32, u32))
    ensures
        r == spec_int_masks(source),
{
    match source {
        VpostInt::Hsync => (LCDCInt_HINTEN, LCDCInt_HINT),
        VpostInt::Vsync => (LCDCInt_VINTEN, LCDCInt_VINT),
        VpostInt::TvField => (LCDCInt_TVFIELDINTEN, LCDCInt_TVFIELDINT),
        VpostInt::MpuComplete => (LCDCInt_MPUCPLINTEN, LCDCInt_MPUCPL),
    }
}

/// Interrupt register with the interrupt enabled.
pub fn vpost_int_enable(source: VpostInt, lcdc_int: u32) -> (r: u32)
    ensures
        r == lcdc_int | spec_int_masks(source).0,
{
    let (ien, _) = int_masks(source);
    lcdc_int | ien
}

/// Interrupt register with the interrupt disabled.
pub fn vpost_int_disable(source: VpostInt, lcdc_int: u32) -> (r: u32)
    ensures
        r == lcdc_int & !spec_int_masks(source).0,
{
    let (ien, _) = int_masks(source);
    lcdc_int & !ien
}

/// Interrupt register with the interrupt's flag cleared.
pub fn vpost_int_clear(source: VpostInt, lcdc_int: u32) -> (r: u32)
    ensures
        r == lcdc_int & !spec_int_masks(source).1,
{
    let (_, flag) = int_masks(source);
    lcdc_int & !flag
}

/// Whether the interrupt is enabled in an interrupt register value.
pub fn vpost_int_is_enabled(source: VpostInt, lcdc_int: u32) -> (r: bool)
    ensures
        r == (lcdc_int & spec_int_masks(source).0 != 0),
{
    let (ien, _) = int_masks(source);
    lcdc_int & ien != 0
}

/// The pending interrupt flags (bits 4:0) of an interrupt register value.
pub fn vpost_int_flags(lcdc_int: u32) -> (r: u32)
    ensures
        r == lcdc_int & 0x1F,
        r <= 0x1F,
{
    proof {
        crate::bits::lemma_and_le(lcdc_int, 0x1F);
    }
    lcdc_int & 0x1F
}

/// Enabling an interrupt makes it read as enabled, disabling as disabled;
/// enabling or disabling one leaves whether any other is enabled alone.
pub proof fn lemma_int_enable_disable(source: VpostInt, other: VpostInt, lcdc_int: u32)
    ensures
        (lcdc_int | spec_int_masks(source).0) & spec_int_masks(source).0 != 0,
        (lcdc_int & !spec_int_masks(source).0) & spec_int_masks(source).0 == 0,
        other != source ==> (lcdc_int | spec_int_masks(source).0) & spec_int_masks(other).0 == lcdc_int
            & spec_int_masks(other).0,
        other != source ==> (lcdc_int & !spec_int_masks(source).0) & spec_int_masks(other).0 == lcdc_int
            & spec_int_masks(other).0,
{
    let b = spec_int_masks(source).0;
    let k = spec_int_masks(other).0;
    assert(0x0010_0000u32 & 0x0004_0000u32 == 0 && 0x0010_0000u32 & 0x0002_0000u32 == 0
        && 0x0010_0000u32 & 0x0001_0000u32 == 0 && 0x0004_0000u32 & 0x0002_0000u32 == 0
        && 0x0004_0000u32 & 0x0001_0000u32 == 0 && 0x0002_0000u32 & 0x0001_0000u32 == 0
        && 0x0004_0000u32 & 0x0010_0000u32 == 0 && 0x0002_0000u32 & 0x0010_0000u32 == 0
        && 0x0001_0000u32 & 0x0010_0000u32 == 0 && 0x0002_0000u32 & 0x0004_0000u32 == 0
        && 0x0001_0000u32 & 0x0004_0000u32 == 0 && 0x0001_0000u32 & 0x0002_0000u32 == 0) by (bit_vector);
    crate::bits::lemma_flag(lcdc_int, b, k);
}

/// The background color register value: red in bits 23:16, green in 15:8,
/// blue in 7:0.
pub fn vpost_set_background_color(r: u8, g: u8, b: u8) -> (v: u32)
    ensures
        v == r * 0x10000 + g * 0x100 + b,
{
    let v = ((r as u32) << 16) | ((g as u32) << 8) | (b as u32);
    let (r32, g32, b32) = (r as u32, g as u32, b as u32);
    assert(((r32 << 16u32) | (g32 << 8u32)) | b32 == r32 * 0x10000 + g32 * 0x100 + b32) by (bit_vector)
        requires
            r32 <= 0xFF,
            g32 <= 0xFF,
            b32 <= 0xFF,
    ;
    v
}

/// The VPOST registers a sync-LCM set-up reads before it writes them.
#[derive(Clone, Copy, Debug)]
pub struct LcmRegs {
    pub ahbclk: u32,
    pub apbiprst: u32,
    pub lcdc_ctl: u32,
    pub lcdc_prm: u32,
    pub tcon1: u32,
    pub tcon2: u32,
    pub tcon3: u32,
    pub tcon4: u32,
    pub tv_ctl: u32,
}

/// Clock enable and reset steps.
pub open spec fn clock_reset_plan(ahbclk: u32, apbiprst: u32) -> Seq<RegOp> {
    seq![
        RegOp::Write { addr: REG_AHBCLK, value: ahbclk | VPOST_CKE },
        RegOp::Write { addr: REG_APBIPRST, value: apbiprst | VPOSTRST },
        RegOp::Write { addr: REG_APBIPRST, value: (apbiprst | VPOSTRST) & !VPOSTRST },
    ]
}

/// The register steps of a full sync-LCM set-up, in order: clock on,
/// reset, type and interface, parallel bus width (high-resolution sync
/// type only), horizontal and vertical timing, window, polarities, frame
/// buffer format with the controller stopped, image source, frame buffer
/// address.  Each register is assumed to read back what was last written.
pub open spec fn sync_lcm_plan(cfg: SyncLcmConfig, regs: LcmRegs) -> Seq<RegOp> {
    let ctl1 = if cfg.lcd_type == LcdType::HighResSync {
        parallel_bus_value(cfg.parallel_bus, regs.lcdc_ctl)
    } else {
        regs.lcdc_ctl
    };
    let (t3, t4) = window_value(cfg.window, regs.tcon3, regs.tcon4);
    clock_reset_plan(regs.ahbclk, regs.apbiprst) + seq![
        RegOp::Write {
            addr: REG_LCM_LCDCPrm,
            value: lcd_config_value(cfg.lcd_type, cfg.data_interface, regs.lcdc_prm),
        },
    ] + (if cfg.lcd_type == LcdType::HighResSync {
        seq![RegOp::Write { addr: REG_LCM_LCDCCtl, value: ctl1 }]
    } else {
        seq![]
    }) + seq![
        RegOp::Write {
            addr: REG_LCM_TCON1,
            value: timing_value(
                cfg.h_timing.pulse_width,
                cfg.h_timing.back_porch,
                cfg.h_timing.front_porch,
                regs.tcon1,
            ),
        },
        RegOp::Write {
            addr: REG_LCM_TCON2,
            value: timing_value(
                cfg.v_timing.pulse_width,
                cfg.v_timing.back_porch,
                cfg.v_timing.front_porch,
                regs.tcon2,
            ),
        },
        RegOp::Write { addr: REG_LCM_TCON3, value: t3 },
        RegOp::Write { addr: REG_LCM_TCON4, value: t4 },
        RegOp::Write { addr: REG_LCM_TCON4, value: polarity_value(cfg.polarity, t4) },
        RegOp::Write {
            addr: REG_LCM_LCDCCtl,
            value: lcd_enable_value(cfg.yuv_big_endian, cfg.fb_format, false, ctl1),
        },
        RegOp::Write { addr: REG_LCM_TVCtl, value: image_source_value(cfg.image_source, regs.tv_ctl) },
        RegOp::Write { addr: REG_LCM_FSADDR, value: cfg.fb_address },
    ]
}

/// The register steps that apply a complete sync-LCM configuration.
pub fn vpost_configure_sync_lcm(cfg: &SyncLcmConfig, regs: LcmRegs) -> (r: Vec<RegOp>)
    ensures
        r@ == sync_lcm_plan(*cfg, regs),
{
    let (rst_on, rst_off) = vpost_reset(regs.apbiprst);
    let mut ops: Vec<RegOp> = vec![
        RegOp::Write { addr: REG_AHBCLK, value: vpost_clock_enable(regs.ahbclk) },
        RegOp::Write { addr: REG_APBIPRST, value: rst_on },
        RegOp::Write { addr: REG_APBIPRST, value: rst_off },
        RegOp::Write {
            addr: REG_LCM_LCDCPrm,
            value: vpost_set_lcd_config(cfg.lcd_type, cfg.data_interface, regs.lcdc_prm),
        },
    ];
    let high_res = match cfg.lcd_type {
        LcdType::HighResSync => true,
        _ => false,
    };
    let mut ctl = regs.lcdc_ctl;
    if high_res {
        ctl = vpost_set_parallel_bus(cfg.parallel_bus, ctl);
        ops.push(RegOp::Write { addr: REG_LCM_LCDCCtl, value: ctl });
    }
    let (t3, t4) = vpost_set_display_window(&cfg.window, regs.tcon3, regs.tcon4);
    let tail: Vec<RegOp> = vec![
        RegOp::Write { addr: REG_LCM_TCON1, value: vpost_set_h_timing(&cfg.h_timing, regs.tcon1) },
        RegOp::Write { addr: REG_LCM_TCON2, value: vpost_set_v_timing(&cfg.v_timing, regs.tcon2) },
        RegOp::Write { addr: REG_LCM_TCON3, value: t3 },
        RegOp::Write { addr: REG_LCM_TCON4, value: t4 },
        RegOp::Write { addr: REG_LCM_TCON4, value: vpost_set_signal_polarity(&cfg.polarity, t4) },
        RegOp::Write {
            addr: REG_LCM_LCDCCtl,
            value: vpost_set_lcd_enable(cfg.yuv_big_endian, cfg.fb_format, false, ctl),
        },
        RegOp::Write { addr: REG_LCM_TVCtl, value: vpost_set_image_source(cfg.image_source, regs.tv_ctl) },
        RegOp::Write { addr: REG_LCM_FSADDR, value: cfg.fb_address },
    ];
    let ghost head = ops@;
    let mut i: usize = 0;
    while i < tail.len()
        invariant
            i <= tail.len(),
            ops@ == head + tail@.subrange(0, i as int),
        decreases tail.len() - i,
    {
        ops.push(tail[i]);
        i = i + 1;
        assert(ops@ =~= head + tail@.subrange(0, i as int));
    }
    assert(tail@.subrange(0, tail@.len() as int) =~= tail@);
    assert(ops@ =~= sync_lcm_plan(*cfg, regs));
    ops
}

/// The register steps of a full TV set-up: clock on, reset, TV encoder
/// configuration, frame buffer address, YCbYCr format with the LCD
/// stopped, encoder awake.  Each register is assumed to read back what
/// was last written.
pub open spec fn tv_full_plan(cfg: TvConfig, fb_addr: u32, regs: LcmRegs) -> Seq<RegOp> {
    let tv = tv_value(cfg, regs.tv_ctl);
    clock_reset_plan(regs.ahbclk, regs.apbiprst) + seq![
        RegOp::Write { addr: REG_LCM_TVCtl, value: tv },
        RegOp::Write { addr: REG_LCM_FSADDR, value: fb_addr },
        RegOp::Write {
            addr: REG_LCM_LCDCCtl,
            value: lcd_enable_value(false, FrameBufferFormat::YCbYCr, false, regs.lcdc_ctl),
        },
        RegOp::Write { addr: REG_LCM_TVCtl, value: tv & !TVCtl_TvSleep },
    ]
}

/// The register steps that apply a TV configuration and wake the encoder.
pub fn vpost_configure_tv_full(cfg: &TvConfig, fb_addr: u32, regs: LcmRegs) -> (r: Vec<RegOp>)
    ensures
        r@ == tv_full_plan(*cfg, fb_addr, regs),
{
    let (rst_on, rst_off) = vpost_reset(regs.apbiprst);
    let tv = vpost_configure_tv(cfg, regs.tv_ctl);
    let r = vec![
        RegOp::Write { addr: REG_AHBCLK, value: vpost_clock_enable(regs.ahbclk) },
        RegOp::Write { addr: REG_APBIPRST, value: rst_on },
        RegOp::Write { addr: REG_APBIPRST, value: rst_off },
        RegOp::Write { addr: REG_LCM_TVCtl, value: tv },
        RegOp::Write { addr: REG_LCM_FSADDR, value: fb_addr },
        RegOp::Write {
            addr: REG_LCM_LCDCCtl,
            value: vpost_set_lcd_enable(false, FrameBufferFormat::YCbYCr, false, regs.lcdc_ctl),
        },
        RegOp::Write { addr: REG_LCM_TVCtl, value: vpost_tv_enable(tv) },
    ];
    assert(r@ =~= tv_full_plan(*cfg, fb_addr, regs));
    r
}

} // verus!
