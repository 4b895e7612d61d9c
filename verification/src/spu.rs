//! Sound Processing Unit: 32 DMA audio channels with a shared register
//! window, per-channel volume, PAN and sample-rate (DFA) settings, a
//! headphone DAC with pop-suppressed power sequencing, an equalizer and
//! per-channel interrupt events.
//!
//! The functions compute the register values of each driver operation
//! from the values the registers held before.

use vstd::prelude::*;
use crate::registers::{
    CH_CTRL_LOAD, CH_CTRL_UPDATE_ALL, CH_CTRL_UPDATE_ALL_PARTIALS, CH_CTRL_UPDATE_PARTIAL, CH_NO,
    CH_VOL, DFA, END_EN, END_FG, EV_END_FG, EV_LP_FG, EV_SLN_FG, EV_USR_FG, GAIN01, GAIN02, GAIN03,
    GAIN04, GAIN05, GAIN06, GAIN07, GAIN08, GAIN09, GAIN10, GAINDC, LHPVL, PAN_L, PAN_R, REG_SPU_DAC_PAR,
    REG_SPU_DAC_VOL, REG_SPU_EQGain0, REG_SPU_EQGain1, RHPVL, RegOp, SPU_SRC_LP8, SPU_SRC_MDPCM,
    SPU_SRC_PCM16, SPU_SRC_PCM16_MONO, SPU_SRC_PCM16_STEREO_L, SPU_SRC_PCM16_STEREO_R, SPU_SRC_TONE,
    SRC_TYPE, TH_EN, TH_FG,
};

verus! {

/// An SPU channel number (0–31).
pub type SpuChannel = u32;

/// Audio source format.
#[derive(Clone, Copy, PartialEq, Eq, Debug, Structural)]
pub enum SpuSrcType {
    MdPcm,
    Lp8,
    Pcm16,
    Tone,
    Pcm16Mono,
    Pcm16StereoLeft,
    Pcm16StereoRight,
}

pub open spec fn spec_src_code(t: SpuSrcType) -> u32 {
    match t {
        SpuSrcType::MdPcm => SPU_SRC_MDPCM,
        SpuSrcType::Lp8 => SPU_SRC_LP8,
        SpuSrcType::Pcm16 => SPU_SRC_PCM16,
        SpuSrcType::Tone => SPU_SRC_TONE,
        SpuSrcType::Pcm16Mono => SPU_SRC_PCM16_MONO,
        SpuSrcType::Pcm16StereoLeft => SPU_SRC_PCM16_STEREO_L,
        SpuSrcType::Pcm16StereoRight => SPU_SRC_PCM16_STEREO_R,
    }
}

impl SpuSrcType {
    /// The format's code in the source-type field.
    pub fn code(self) -> (r: u32)
        ensures
            r == spec_src_code(self),
            r <= 7,
    {
        match self {
            SpuSrcType::MdPcm => SPU_SRC_MDPCM,
            SpuSrcType::Lp8 => SPU_SRC_LP8,
            SpuSrcType::Pcm16 => SPU_SRC_PCM16,
            SpuSrcType::Tone => SPU_SRC_TONE,
            SpuSrcType::Pcm16Mono => SPU_SRC_PCM16_MONO,
            SpuSrcType::Pcm16StereoLeft => SPU_SRC_PCM16_STEREO_L,
            SpuSrcType::Pcm16StereoRight => SPU_SRC_PCM16_STEREO_R,
        }
    }
}

/// Equalizer band: DC and bands 1–10.
#[derive(Clone, Copy, PartialEq, Eq, Debug, Structural)]
pub enum SpuEqBand {
    Dc,
    Band1,
    Band2,
    Band3,
    Band4,
    Band5,
    Band6,
    Band7,
    Band8,
    Band9,
    Band10,
}

/// Equalizer gain, from -7 dB to +8 dB in 1 dB steps.
#[derive(Clone, Copy, PartialEq, Eq, Debug, Structural)]
pub enum SpuEqGain {
    M7dB,
    M6dB,
    M5dB,
    M4dB,
    M3dB,
    M2dB,
    M1dB,
    M0dB,
    P1dB,
    P2dB,
    P3dB,
    P4dB,
    P5dB,
    P6dB,
    P7dB,
    P8dB,
}

pub open spec fn spec_gain_code(g: SpuEqGain) -> u32 {
    match g {
        SpuEqGain::M7dB => 0,
        SpuEqGain::M6dB => 1,
        SpuEqGain::M5dB => 2,
        SpuEqGain::M4dB => 3,
        SpuEqGain::M3dB => 4,
        SpuEqGain::M2dB => 5,
        SpuEqGain::M1dB => 6,
        SpuEqGain::M0dB => 7,
        SpuEqGain::P1dB => 8,
        SpuEqGain::P2dB => 9,
        SpuEqGain::P3dB => 10,
        SpuEqGain::P4dB => 11,
        SpuEqGain::P5dB => 12,
        SpuEqGain::P6dB => 13,
        SpuEqGain::P7dB => 14,
        SpuEqGain::P8dB => 15,
    }
}

impl SpuEqGain {
    /// The gain's four-bit code (0 for -7 dB up to 15 for +8 dB).
    pub fn code(self) -> (r: u32)
        ensures
            r == spec_gain_code(self),
            r <= 15,
    {
        match self {
            SpuEqGain::M7dB => 0,
            SpuEqGain::M6dB => 1,
            SpuEqGain::M5dB => 2,
            SpuEqGain::M4dB => 3,
            SpuEqGain::M3dB => 4,
            SpuEqGain::M2dB => 5,
            SpuEqGain::M1dB => 6,
            SpuEqGain::M0dB => 7,
            SpuEqGain::P1dB => 8,
            SpuEqGain::P2dB => 9,
            SpuEqGain::P3dB => 10,
            SpuEqGain::P4dB => 11,
            SpuEqGain::P5dB => 12,
            SpuEqGain::P6dB => 13,
            SpuEqGain::P7dB => 14,
            SpuEqGain::P8dB => 15,
        }
    }
}

/// Sample-rate presets.
#[derive(Clone, Copy, PartialEq, Eq, Debug, Structural)]
pub enum SpuSampleRate {
    Hz48000,
    Hz44100,
    Hz32000,
    Hz24000,
    Hz22050,
    Hz16000,
    Hz12000,
    Hz11025,
    Hz8000,
}

pub open spec fn spec_rate_hz(r: SpuSampleRate) -> u32 {
    match r {
        SpuSampleRate::Hz48000 => 48000,
        SpuSampleRate::Hz44100 => 44100,
        SpuSampleRate::Hz32000 => 32000,
        SpuSampleRate::Hz24000 => 24000,
        SpuSampleRate::Hz22050 => 22050,
        SpuSampleRate::Hz16000 => 16000,
        SpuSampleRate::Hz12000 => 12000,
        SpuSampleRate::Hz11025 => 11025,
        SpuSampleRate::Hz8000 => 8000,
    }
}

impl SpuSampleRate {
    /// The rate in Hz.
    pub fn hz(self) -> (r: u32)
        ensures
            r == spec_rate_hz(self),
            r > 0,
    {
        match self {
            SpuSampleRate::Hz48000 => 48000,
            SpuSampleRate::Hz44100 => 44100,
            SpuSampleRate::Hz32000 => 32000,
            SpuSampleRate::Hz24000 => 24000,
            SpuSampleRate::Hz22050 => 22050,
            SpuSampleRate::Hz16000 => 16000,
            SpuSampleRate::Hz12000 => 12000,
            SpuSampleRate::Hz11025 => 11025,
            SpuSampleRate::Hz8000 => 8000,
        }
    }
}

/// Channel interrupt events, as flag bits of the channel event register.
#[derive(Clone, Copy, PartialEq, Eq, Debug, Structural)]
pub struct SpuInt(u32);

impl SpuInt {
    pub const THRESHOLD: u32 = TH_FG;
    pub const END_ADDR: u32 = END_FG;
    pub const END_EVENT: u32 = EV_END_FG;
    pub const LOOP_START: u32 = EV_LP_FG;
    pub const SILENT: u32 = EV_SLN_FG;
    pub const USER: u32 = EV_USR_FG;
    pub const ALL: u32 = 0x3F00;
}

/// Size of the playback buffer (32 KiB), two halves refilled in turn.
pub const SPU_FRAG_SIZE: usize = 32 * 1024;
/// Half of the playback buffer.
pub const SPU_HALF_FRAG_SIZE: usize = SPU_FRAG_SIZE / 2;

/// `x` with bit(s) `b` set or cleared.
pub open spec fn set_or_clear(x: u32, b: u32, set: bool) -> u32 {
    if set {
        x | b
    } else {
        x & !b
    }
}

/// Channel-enable register with channel `ch` enabled; channels from 32 up
/// do not exist and are refused.
pub fn spu_channel_open(ch: SpuChannel, ch_en: u32) -> (r: Result<u32, ()>)
    ensures
        ch >= 32 ==> r is Err,
        ch < 32 ==> r == Ok::<u32, ()>(ch_en | (1u32 << ch)),
{
    if ch >= 32 {
        return Err(());
    }
    Ok(ch_en | (1u32 << ch))
}

/// Channel-enable register with channel `ch` disabled; channels from 32
/// up are refused.
pub fn spu_channel_close(ch: SpuChannel, ch_en: u32) -> (r: Result<u32, ()>)
    ensures
        ch >= 32 ==> r is Err,
        ch < 32 ==> r == Ok::<u32, ()>(ch_en & !(1u32 << ch)),
{
    if ch >= 32 {
        return Err(());
    }
    Ok(ch_en & !(1u32 << ch))
}

/// Whether channel `ch` is enabled in a channel-enable register value.
pub fn spu_is_channel_enabled(ch: SpuChannel, ch_en: u32) -> (r: bool)
    requires
        ch < 32,
    ensures
        r == (ch_en & (1u32 << ch) != 0),
{
    ch_en & (1u32 << ch) != 0
}

/// Opening a channel makes it read as enabled and closing it as disabled,
/// and neither changes whether any other channel is enabled.
pub proof fn lemma_channel_open_close(ch: u32, other: u32, ch_en: u32)
    requires
        ch < 32,
        other < 32,
    ensures
        (ch_en | (1u32 << ch)) & (1u32 << ch) != 0,
        (ch_en & !(1u32 << ch)) & (1u32 << ch) == 0,
        other != ch ==> ((ch_en | (1u32 << ch)) & (1u32 << other)) == ch_en & (1u32 << other),
        other != ch ==> ((ch_en & !(1u32 << ch)) & (1u32 << other)) == ch_en & (1u32 << other),
{
    crate::bits::lemma_single_bit(ch, other);
    crate::bits::lemma_single_bit(other, ch);
    crate::bits::lemma_flag(ch_en, 1u32 << ch, 1u32 << other);
}

/// Channel-control value that selects channel `ch` in the shared register
/// window (channel number in bits 28:24).
pub fn spu_select_value(ch: SpuChannel, ctrl: u32) -> (r: u32)
    requires
        ch < 32,
    ensures
        r == (ctrl & !CH_NO) | (ch << 24u32),
{
    (ctrl & !CH_NO) | (ch << 24)
}

/// Channel-control value that loads the selected channel's settings.
pub fn spu_load_value(ctrl: u32) -> (r: u32)
    ensures
        r == ctrl | CH_CTRL_LOAD,
{
    ctrl | CH_CTRL_LOAD
}

/// The update command for a set of partial-update bits: a partial update of
/// those bits (within bits 7:4), or a full update when there are none.
pub fn spu_upload_command(partial: u32) -> (r: u32)
    ensures
        r == if partial != 0 {
            CH_CTRL_UPDATE_PARTIAL | (partial & CH_CTRL_UPDATE_ALL_PARTIALS)
        } else {
            CH_CTRL_UPDATE_ALL
        },
{
    if partial != 0 {
        CH_CTRL_UPDATE_PARTIAL | (partial & CH_CTRL_UPDATE_ALL_PARTIALS)
    } else {
        CH_CTRL_UPDATE_ALL
    }
}

/// Channel-control values of an upload: first the partial bits cleared,
/// then the command added.
pub fn spu_upload_values(partial: u32, ctrl: u32) -> (r: (u32, u32))
    ensures
        r.0 == ctrl & !CH_CTRL_UPDATE_ALL_PARTIALS,
        r.1 == (ctrl & !CH_CTRL_UPDATE_ALL_PARTIALS) | (if partial != 0 {
            CH_CTRL_UPDATE_PARTIAL | (partial & CH_CTRL_UPDATE_ALL_PARTIALS)
        } else {
            CH_CTRL_UPDATE_ALL
        }),
{
    let cleared = ctrl & !CH_CTRL_UPDATE_ALL_PARTIALS;
    (cleared, cleared | spu_upload_command(partial))
}

/// Channel parameter 1 with the source type (bits 2:0) set.
pub fn spu_set_src_type(src_type: SpuSrcType, par1: u32) -> (r: u32)
    ensures
        r == (par1 & !SRC_TYPE) | (spec_src_code(src_type) & SRC_TYPE),
{
    (par1 & !SRC_TYPE) | (src_type.code() & SRC_TYPE)
}

/// Channel parameter 1 with the volume (bits 30:24) set to the low seven
/// bits of `volume`.
pub fn spu_set_channel_volume(volume: u8, par1: u32) -> (r: u32)
    ensures
        r == (par1 & !CH_VOL) | (((volume as u32) & 0x7F) << 24u32),
{
    (par1 & !CH_VOL) | (((volume as u32) & 0x7F) << 24)
}

/// The channel volume held in a channel parameter 1 value.
pub fn spu_get_channel_volume(par1: u32) -> (r: u8)
    ensures
        r as u32 == (par1 & CH_VOL) >> 24u32,
{
    let v = (par1 & CH_VOL) >> 24;
    assert((par1 & 0x7F00_0000u32) >> 24u32 <= 0x7F) by (bit_vector);
    v as u8
}

/// The volume set reads back as its low seven bits, and the rest of the
/// register is kept.
pub proof fn lemma_channel_volume_round_trip(volume: u8, par1: u32)
    ensures
        ({
            let r = (par1 & !CH_VOL) | (((volume as u32) & 0x7F) << 24u32);
            &&& (r & CH_VOL) >> 24u32 == (volume as u32) & 0x7F
            &&& r & !CH_VOL == par1 & !CH_VOL
        }),
{
    let v = volume as u32;
    assert((((par1 & !0x7F00_0000u32) | ((v & 0x7F) << 24u32)) & 0x7F00_0000u32) >> 24u32 == v
        & 0x7F && ((par1 & !0x7F00_0000u32) | ((v & 0x7F) << 24u32)) & !0x7F00_0000u32 == par1
        & !0x7F00_0000u32) by (bit_vector);
}

/// Channel parameter 1 with the PAN fields set: the low five bits of
/// `left` in the left field (bits 20:16) and of `right` in the right field
/// (bits 12:8); every other bit kept.
pub fn spu_set_pan(left: u8, right: u8, par1: u32) -> (r: u32)
    ensures
        r == (par1 & !(PAN_L | PAN_R)) | ((((left as u32) & 0x1F) << 16u32) | (((right as u32)
            & 0x1F) << 8u32)),
        (r & PAN_L) >> 16u32 == (left as u32) & 0x1F,
        (r & PAN_R) >> 8u32 == (right as u32) & 0x1F,
        r & !(PAN_L | PAN_R) == par1 & !(PAN_L | PAN_R),
{
    let l = left as u32;
    let rt = right as u32;
    let r = (par1 & !(PAN_L | PAN_R)) | (((l & 0x1F) << 16) | ((rt & 0x1F) << 8));
    assert((((par1 & !(0x001F_0000u32 | 0x1F00u32)) | (((l & 0x1F) << 16u32) | ((rt & 0x1F)
        << 8u32))) & 0x001F_0000u32) >> 16u32 == l & 0x1F && (((par1 & !(0x001F_0000u32
        | 0x1F00u32)) | (((l & 0x1F) << 16u32) | ((rt & 0x1F) << 8u32))) & 0x1F00u32) >> 8u32 == rt
        & 0x1F && ((par1 & !(0x001F_0000u32 | 0x1F00u32)) | (((l & 0x1F) << 16u32) | ((rt & 0x1F)
        << 8u32))) & !(0x001F_0000u32 | 0x1F00u32) == par1 & !(0x001F_0000u32 | 0x1F00u32))
        by (bit_vector);
    r
}

/// Channel parameter 2 with the DFA field (bits 12:0) set.
pub fn spu_set_dfa(dfa: u16, par2: u32) -> (r: u32)
    ensures
        r == (par2 & !DFA) | ((dfa as u32) & DFA),
{
    (par2 & !DFA) | ((dfa as u32) & DFA)
}

/// The DFA of a sample rate: (system clock / rate) / 16, in 13 bits.
pub open spec fn dfa_of(sys_clock_hz: u32, sample_rate: u32) -> u32 {
    ((sys_clock_hz / sample_rate) / 16) as u32 % 0x2000
}

/// Channel parameter 2 with the DFA set for `sample_rate` from the system
/// clock.
pub fn spu_set_sample_rate(sys_clock_hz: u32, sample_rate: u32, par2: u32) -> (r: u32)
    requires
        sample_rate != 0,
    ensures
        r == (par2 & !DFA) | dfa_of(sys_clock_hz, sample_rate),
{
    let q = sys_clock_hz / sample_rate;
    let dfa = (q >> 4) & 0x1FFF;
    assert((q >> 4u32) & 0x1FFFu32 == (q / 16) % 0x2000) by (bit_vector);
    (par2 & !DFA) | dfa
}

/// DAC volume register with the headphone volumes set: the low five bits of
/// `left` in bits 12:8, of `right` in bits 4:0.
pub fn spu_set_volume(left: u8, right: u8, dac_vol: u32) -> (r: u32)
    ensures
        r == (dac_vol & !(LHPVL | RHPVL)) | ((((left as u32) & 0x1F) << 8u32) | ((right as u32)
            & 0x1F)),
{
    (dac_vol & !(LHPVL | RHPVL)) | ((((left as u32) & 0x1F) << 8) | ((right as u32) & 0x1F))
}

/// The headphone volumes (left, right) held in a DAC volume value.
pub fn spu_get_volume(dac_vol: u32) -> (r: (u8, u8))
    ensures
        r.0 as u32 == (dac_vol & LHPVL) >> 8u32,
        r.1 as u32 == dac_vol & RHPVL,
{
    let l = (dac_vol & LHPVL) >> 8;
    let rr = dac_vol & RHPVL;
    assert((dac_vol & 0x1F00u32) >> 8u32 <= 0x1F && dac_vol & 0x1Fu32 <= 0x1F) by (bit_vector);
    (l as u8, rr as u8)
}

/// The volumes set read back as their low five bits.
pub proof fn lemma_volume_round_trip(left: u8, right: u8, dac_vol: u32)
    ensures
        ({
            let r = (dac_vol & !(LHPVL | RHPVL)) | ((((left as u32) & 0x1F) << 8u32) | ((
            right as u32) & 0x1F));
            &&& (r & LHPVL) >> 8u32 == (left as u32) & 0x1F
            &&& r & RHPVL == (right as u32) & 0x1F
        }),
{
    let l = left as u32;
    let rt = right as u32;
    assert((((dac_vol & !(0x1F00u32 | 0x1Fu32)) | (((l & 0x1F) << 8u32) | (rt & 0x1F)))
        & 0x1F00u32) >> 8u32 == l & 0x1F && ((dac_vol & !(0x1F00u32 | 0x1Fu32)) | (((l & 0x1F)
        << 8u32) | (rt & 0x1F))) & 0x1Fu32 == rt & 0x1F) by (bit_vector);
}

/// The ramp delay (ms) after powering the DAC on, by level.
pub open spec fn dac_on_ramp(level: u8) -> u32 {
    if level == 3 {
        220
    } else if level == 1 {
        70
    } else if level == 2 {
        30
    } else {
        0
    }
}

/// The pop-control value of DAC parameter register after power-on starts,
/// by level.
pub open spec fn dac_on_par(level: u8, par: u32) -> u32 {
    if level == 3 {
        (par | 0x30) & !0x30u32
    } else if level == 1 {
        (par | 0x30) & !0x20u32
    } else {
        (par | 0x30) & !0x10u32
    }
}

/// The register steps of DAC power-on, assuming each register reads back
/// what was last written to it.  Levels 1–3 choose the ramp time
/// (about 1, 2 and 3 s); another level mutes: P0–P7 stay powered down.
pub open spec fn dac_on_plan(level: u8, par: u32, vol: u32) -> Seq<RegOp> {
    if level == 3 || level == 1 || level == 2 {
        let v1 = vol & !0x0800_0000u32;
        let v2 = v1 & !0x0400_0000u32;
        let v3 = v2 & !0x01E0_0000u32;
        let v4 = v3 & !0x0200_0000u32;
        let v5 = v4 & !0x0001_0000u32;
        seq![
            RegOp::Write { addr: REG_SPU_DAC_PAR, value: par | 0x30 },
            RegOp::Write { addr: REG_SPU_DAC_PAR, value: dac_on_par(level, par) },
            RegOp::Write { addr: REG_SPU_DAC_VOL, value: v1 },
            RegOp::DelayMs { ms: 1 },
            RegOp::Write { addr: REG_SPU_DAC_VOL, value: v2 },
            RegOp::DelayMs { ms: 1 },
            RegOp::Write { addr: REG_SPU_DAC_VOL, value: v3 },
            RegOp::DelayMs { ms: 1 },
            RegOp::Write { addr: REG_SPU_DAC_VOL, value: v4 },
            RegOp::DelayMs { ms: 1 },
            RegOp::Write { addr: REG_SPU_DAC_VOL, value: v5 },
            RegOp::DelayMs { ms: dac_on_ramp(level) },
        ]
    } else {
        seq![
            RegOp::Write { addr: REG_SPU_DAC_PAR, value: par | 0x30 },
            RegOp::Write { addr: REG_SPU_DAC_VOL, value: vol & !0x03FF_0000u32 },
            RegOp::Write { addr: REG_SPU_DAC_PAR, value: (par | 0x30) | 0x30 },
        ]
    }
}

/// The steps of DAC power-on with pop suppression, from the current DAC
/// parameter and volume register values.
pub fn spu_dac_on(level: u8, par: u32, vol: u32) -> (r: Vec<RegOp>)
    ensures
        r@ == dac_on_plan(level, par, vol),
{
    let p1 = par | 0x30;
    if level == 3 || level == 1 || level == 2 {
        let p2 = if level == 3 {
            p1 & !0x30
        } else if level == 1 {
            p1 & !0x20
        } else {
            p1 & !0x10
        };
        let v1 = vol & !0x0800_0000;
        let v2 = v1 & !0x0400_0000;
        let v3 = v2 & !0x01E0_0000;
        let v4 = v3 & !0x0200_0000;
        let v5 = v4 & !0x0001_0000;
        let ramp: u32 = if level == 3 {
            220
        } else if level == 1 {
            70
        } else {
            30
        };
        let r = vec![
            RegOp::Write { addr: REG_SPU_DAC_PAR, value: p1 },
            RegOp::Write { addr: REG_SPU_DAC_PAR, value: p2 },
            RegOp::Write { addr: REG_SPU_DAC_VOL, value: v1 },
            RegOp::DelayMs { ms: 1 },
            RegOp::Write { addr: REG_SPU_DAC_VOL, value: v2 },
            RegOp::DelayMs { ms: 1 },
            RegOp::Write { addr: REG_SPU_DAC_VOL, value: v3 },
            RegOp::DelayMs { ms: 1 },
            RegOp::Write { addr: REG_SPU_DAC_VOL, value: v4 },
            RegOp::DelayMs { ms: 1 },
            RegOp::Write { addr: REG_SPU_DAC_VOL, value: v5 },
            RegOp::DelayMs { ms: ramp },
        ];
        assert(r@ =~= dac_on_plan(level, par, vol));
        r
    } else {
        let r = vec![
            RegOp::Write { addr: REG_SPU_DAC_PAR, value: p1 },
            RegOp::Write { addr: REG_SPU_DAC_VOL, value: vol & !0x03FF_0000 },
            RegOp::Write { addr: REG_SPU_DAC_PAR, value: p1 | 0x30 },
        ];
        assert(r@ =~= dac_on_plan(level, par, vol));
        r
    }
}

/// The delay (ms) after P0 on DAC power-off, by level.
pub open spec fn dac_off_delay(level: u8) -> u32 {
    if level == 3 {
        150
    } else if level == 1 {
        70
    } else if level == 2 {
        40
    } else {
        0
    }
}

/// The register steps of DAC power-off (the power-on order reversed),
/// assuming each register reads back what was last written to it.
pub open spec fn dac_off_plan(level: u8, par: u32, vol: u32) -> Seq<RegOp> {
    let v1 = vol | 0x0001_0000u32;
    let v2 = v1 | 0x0200_0000u32;
    let v3 = v2 | 0x01E0_0000u32;
    let v4 = v3 | 0x0400_0000u32;
    let v5 = v4 | 0x0800_0000u32;
    seq![
        RegOp::DelayMs { ms: 1 },
        RegOp::Write { addr: REG_SPU_DAC_VOL, value: v1 },
        RegOp::DelayMs { ms: dac_off_delay(level) },
        RegOp::Write { addr: REG_SPU_DAC_VOL, value: v2 },
        RegOp::DelayMs { ms: 1 },
        RegOp::Write { addr: REG_SPU_DAC_VOL, value: v3 },
        RegOp::DelayMs { ms: 1 },
        RegOp::Write { addr: REG_SPU_DAC_VOL, value: v4 },
        RegOp::DelayMs { ms: 1 },
        RegOp::Write { addr: REG_SPU_DAC_VOL, value: v5 },
        RegOp::DelayMs { ms: 1 },
        RegOp::Write { addr: REG_SPU_DAC_PAR, value: par | 0x30 },
    ]
}

/// The steps of DAC power-off with pop suppression.
pub fn spu_dac_off(level: u8, par: u32, vol: u32) -> (r: Vec<RegOp>)
    ensures
        r@ == dac_off_plan(level, par, vol),
{
    let v1 = vol | 0x0001_0000;
    let v2 = v1 | 0x0200_0000;
    let v3 = v2 | 0x01E0_0000;
    let v4 = v3 | 0x0400_0000;
    let v5 = v4 | 0x0800_0000;
    let d: u32 = if level == 3 {
        150
    } else if level == 1 {
        70
    } else if level == 2 {
        40
    } else {
        0
    };
    let r = vec![
        RegOp::DelayMs { ms: 1 },
        RegOp::Write { addr: REG_SPU_DAC_VOL, value: v1 },
        RegOp::DelayMs { ms: d },
        RegOp::Write { addr: REG_SPU_DAC_VOL, value: v2 },
        RegOp::DelayMs { ms: 1 },
        RegOp::Write { addr: REG_SPU_DAC_VOL, value: v3 },
        RegOp::DelayMs { ms: 1 },
        RegOp::Write { addr: REG_SPU_DAC_VOL, value: v4 },
        RegOp::DelayMs { ms: 1 },
        RegOp::Write { addr: REG_SPU_DAC_VOL, value: v5 },
        RegOp::DelayMs { ms: 1 },
        RegOp::Write { addr: REG_SPU_DAC_PAR, value: par | 0x30 },
    ];
    assert(r@ =~= dac_off_plan(level, par, vol));
    r
}

/// Register, field mask and field shift of an equalizer band's gain.
pub open spec fn eq_field(band: SpuEqBand) -> (u32, u32, u32) {
    match band {
        SpuEqBand::Dc => (REG_SPU_EQGain1, GAINDC, 16),
        SpuEqBand::Band1 => (REG_SPU_EQGain0, GAIN01, 0),
        SpuEqBand::Band2 => (REG_SPU_EQGain0, GAIN02, 4),
        SpuEqBand::Band3 => (REG_SPU_EQGain0, GAIN03, 8),
        SpuEqBand::Band4 => (REG_SPU_EQGain0, GAIN04, 12),
        SpuEqBand::Band5 => (REG_SPU_EQGain0, GAIN05, 16),
        SpuEqBand::Band6 => (REG_SPU_EQGain0, GAIN06, 20),
        SpuEqBand::Band7 => (REG_SPU_EQGain0, GAIN07, 24),
        SpuEqBand::Band8 => (REG_SPU_EQGain0, GAIN08, 28),
        SpuEqBand::Band9 => (REG_SPU_EQGain1, GAIN09, 0),
        SpuEqBand::Band10 => (REG_SPU_EQGain1, GAIN10, 4),
    }
}

/// The register map's gain field of each equalizer band.
pub open spec fn band_mask(band: SpuEqBand) -> u32 {
    match band {
        SpuEqBand::Dc => GAINDC,
        SpuEqBand::Band1 => GAIN01,
        SpuEqBand::Band2 => GAIN02,
        SpuEqBand::Band3 => GAIN03,
        SpuEqBand::Band4 => GAIN04,
        SpuEqBand::Band5 => GAIN05,
        SpuEqBand::Band6 => GAIN06,
        SpuEqBand::Band7 => GAIN07,
        SpuEqBand::Band8 => GAIN08,
        SpuEqBand::Band9 => GAIN09,
        SpuEqBand::Band10 => GAIN10,
    }
}

/// Bands 1–8 live in EQGain0; DC, 9 and 10 in EQGain1.
pub open spec fn band_in_gain0(band: SpuEqBand) -> bool {
    band != SpuEqBand::Dc && band != SpuEqBand::Band9 && band != SpuEqBand::Band10
}

/// A nibble field written with a 4-bit code reads back that code (times
/// the field's lowest bit) and the bits outside it are kept.
proof fn lemma_nibble_field(c: u32, m: u32, s: u32, g: u32)
    by (bit_vector)
    requires
        g <= 15,
        (m == 0xF && s == 0) || (m == 0xF0 && s == 4) || (m == 0xF00 && s == 8) || (m == 0xF000
            && s == 12) || (m == 0xF_0000 && s == 16) || (m == 0xF0_0000 && s == 20) || (m
            == 0xF00_0000 && s == 24) || (m == 0xF000_0000 && s == 28),
    ensures
        ((c & !m) | (g << s)) & m == g * (m & !(m << 1u32)),
        ((c & !m) | (g << s)) & !m == c & !m,
{
}

/// Setting a band's gain writes the band's own register (EQGain0 for bands
/// 1–8, EQGain1 for DC, 9 and 10); in the value written, the band's field
/// of the register map reads back the gain code and every bit outside that
/// field is the register's current bit.
pub proof fn lemma_eq_band_field(band: SpuEqBand, gain: SpuEqGain, gain0: u32, gain1: u32)
    ensures
        ({
            let (reg, mask, shift) = eq_field(band);
            let cur = if reg == REG_SPU_EQGain0 {
                gain0
            } else {
                gain1
            };
            let v = (cur & !mask) | ((spec_gain_code(gain) & 0xF) << shift);
            let m = band_mask(band);
            &&& reg == if band_in_gain0(band) {
                REG_SPU_EQGain0
            } else {
                REG_SPU_EQGain1
            }
            &&& v & m == spec_gain_code(gain) * (m & !(m << 1u32))
            &&& v & !m == (if band_in_gain0(band) {
                gain0
            } else {
                gain1
            }) & !m
        }),
{
    let g = spec_gain_code(gain);
    assert(g & 0xF == g) by {
        assert(g <= 15);
        crate::bits::lemma_fits_low_mask(g, 0xF);
    }
    let (reg, mask, shift) = eq_field(band);
    let cur = if reg == REG_SPU_EQGain0 {
        gain0
    } else {
        gain1
    };
    lemma_nibble_field(cur, mask, shift, g);
}

/// The equalizer write for a band's gain: the band's register (EQGain0 or
/// EQGain1, whose current values are given) and its new value, with the
/// band's four-bit field set to the gain's code.
pub fn spu_eq_open(band: SpuEqBand, gain: SpuEqGain, gain0: u32, gain1: u32) -> (r: (u32, u32))
    ensures
        ({
            let (reg, mask, shift) = eq_field(band);
            let cur = if reg == REG_SPU_EQGain0 {
                gain0
            } else {
                gain1
            };
            r == (reg, (cur & !mask) | ((spec_gain_code(gain) & 0xF) << shift))
        }),
        r.0 == if band_in_gain0(band) {
            REG_SPU_EQGain0
        } else {
            REG_SPU_EQGain1
        },
        r.1 & band_mask(band) == spec_gain_code(gain) * (band_mask(band) & !(band_mask(band) << 1u32)),
        r.1 & !band_mask(band) == (if band_in_gain0(band) {
            gain0
        } else {
            gain1
        }) & !band_mask(band),
{
    proof {
        lemma_eq_band_field(band, gain, gain0, gain1);
    }
    let g = gain.code() & 0xF;
    match band {
        SpuEqBand::Dc => (REG_SPU_EQGain1, (gain1 & !GAINDC) | (g << 16)),
        SpuEqBand::Band1 => (REG_SPU_EQGain0, (gain0 & !GAIN01) | (g << 0)),
        SpuEqBand::Band2 => (REG_SPU_EQGain0, (gain0 & !GAIN02) | (g << 4)),
        SpuEqBand::Band3 => (REG_SPU_EQGain0, (gain0 & !GAIN03) | (g << 8)),
        SpuEqBand::Band4 => (REG_SPU_EQGain0, (gain0 & !GAIN04) | (g << 12)),
        SpuEqBand::Band5 => (REG_SPU_EQGain0, (gain0 & !GAIN05) | (g << 16)),
        SpuEqBand::Band6 => (REG_SPU_EQGain0, (gain0 & !GAIN06) | (g << 20)),
        SpuEqBand::Band7 => (REG_SPU_EQGain0, (gain0 & !GAIN07) | (g << 24)),
        SpuEqBand::Band8 => (REG_SPU_EQGain0, (gain0 & !GAIN08) | (g << 28)),
        SpuEqBand::Band9 => (REG_SPU_EQGain1, (gain1 & !GAIN09) | (g << 0)),
        SpuEqBand::Band10 => (REG_SPU_EQGain1, (gain1 & !GAIN10) | (g << 4)),
    }
}

/// The enable bits of a set of event flags: each flag (bits 13:8) has its
/// enable bit eight places lower.
pub open spec fn enables_of(int_mask: u32) -> u32 {
    (int_mask & SpuInt::ALL) >> 8u32
}

/// Event register with the enables of the events in `int_mask` set.
pub fn spu_enable_int(int_mask: u32, ev: u32) -> (r: u32)
    ensures
        r == ev | enables_of(int_mask),
{
    ev | ((int_mask & SpuInt::ALL) >> 8)
}

/// Event register with the enables of the events in `int_mask` cleared.
pub fn spu_disable_int(int_mask: u32, ev: u32) -> (r: u32)
    ensures
        r == ev & !enables_of(int_mask),
{
    ev & !((int_mask & SpuInt::ALL) >> 8)
}

/// Event register with the flags of the events in `int_mask` cleared.
pub fn spu_clear_int(int_mask: u32, ev: u32) -> (r: u32)
    ensures
        r == ev & !(int_mask & SpuInt::ALL),
{
    ev & !(int_mask & SpuInt::ALL)
}

/// Whether any event of `int_mask` is flagged in an event register value.
pub fn spu_poll_int(int_mask: u32, ev: u32) -> (r: bool)
    ensures
        r == (ev & int_mask != 0),
{
    ev & int_mask != 0
}

/// The enable bit of each event is its flag shifted down eight places:
/// threshold and end-address flags enable TH_EN and END_EN.
pub proof fn lemma_enables_of_flags()
    ensures
        enables_of(TH_FG) == TH_EN,
        enables_of(END_FG) == END_EN,
{
    assert((0x100u32 & 0x3F00u32) >> 8u32 == 1u32 && (0x200u32 & 0x3F00u32) >> 8u32 == 2u32) by (bit_vector);
}

/// Disabling events after enabling them leaves their enables clear and the
/// other enables as they were.
pub proof fn lemma_enable_then_disable_int(int_mask: u32, ev: u32)
    ensures
        ((ev | enables_of(int_mask)) & !enables_of(int_mask)) & enables_of(int_mask) == 0,
        forall|k: u32|
            k & enables_of(int_mask) == 0 ==> #[trigger] (((ev | enables_of(int_mask)) & !enables_of(
                int_mask,
            )) & k) == ev & k,
{
    let b = enables_of(int_mask);
    crate::bits::lemma_flag(ev | b, b, 0);
    assert forall|k: u32| k & b == 0 implies #[trigger] (((ev | b) & !b) & k) == ev & k by {
        crate::bits::lemma_flag(ev | b, b, k);
        crate::bits::lemma_flag(ev, b, k);
    }
}

/// Whether the SPU interrupt register flags channel `ch`.
pub fn spu_irq_pending(ch: SpuChannel, irq: u32) -> (r: bool)
    requires
        ch < 32,
    ensures
        r == (irq & (1u32 << ch) != 0),
{
    irq & (1u32 << ch) != 0
}

/// Which refill callbacks the interrupt handler runs for a channel, from
/// the flags it read and the event register after acknowledging: the
/// threshold callback when the threshold flag was set and its event is
/// enabled, the end-address callback likewise.
pub fn spu_isr_callbacks(flags: u32, ev: u32) -> (r: (bool, bool))
    ensures
        r.0 == (flags & TH_FG != 0 && ev & TH_EN != 0),
        r.1 == (flags & END_FG != 0 && ev & END_EN != 0),
{
    (flags & TH_FG != 0 && ev & TH_EN != 0, flags & END_FG != 0 && ev & END_EN != 0)
}

/// The base, threshold and end addresses of double-buffered playback from
/// the playback buffer's address: the buffer seen uncached (bit 31 set),
/// its middle and its end.
pub fn spu_playback_addresses(buf: u32) -> (r: (u32, u32, u32))
    requires
        (buf | 0x8000_0000) + SPU_FRAG_SIZE <= u32::MAX,
    ensures
        r.0 == buf | 0x8000_0000,
        r.1 == (buf | 0x8000_0000) + SPU_HALF_FRAG_SIZE,
        r.2 == (buf | 0x8000_0000) + SPU_FRAG_SIZE,
{
    let base = buf | 0x8000_0000;
    (base, base + SPU_HALF_FRAG_SIZE as u32, base + SPU_FRAG_SIZE as u32)
}

} // verus!
