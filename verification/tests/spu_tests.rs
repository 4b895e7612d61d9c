use lib::registers::{RegOp, REG_SPU_DAC_PAR, REG_SPU_DAC_VOL, REG_SPU_EQGain0, REG_SPU_EQGain1};
use lib::spu::{
    spu_channel_close, spu_channel_open, spu_clear_int, spu_dac_off, spu_dac_on, spu_disable_int,
    spu_enable_int, spu_eq_open, spu_get_channel_volume, spu_get_volume, spu_irq_pending,
    spu_is_channel_enabled, spu_isr_callbacks, spu_load_value, spu_playback_addresses, spu_poll_int,
    spu_select_value, spu_set_channel_volume, spu_set_dfa, spu_set_pan, spu_set_sample_rate,
    spu_set_src_type, spu_set_volume, spu_upload_command, spu_upload_values, SpuEqBand, SpuEqGain,
    SpuInt, SpuSampleRate, SpuSrcType, SPU_FRAG_SIZE, SPU_HALF_FRAG_SIZE,
};

#[test]
fn channel_open_close() {
    let en = spu_channel_open(5, 0).unwrap();
    assert!(spu_is_channel_enabled(5, en));
    assert!(!spu_is_channel_enabled(4, en));
    let en = spu_channel_open(31, en).unwrap();
    let en = spu_channel_close(5, en).unwrap();
    assert_eq!(en, 1 << 31);
    assert_eq!(spu_channel_open(32, 0), Err(()));
    assert_eq!(spu_channel_close(40, 0), Err(()));
}

#[test]
fn channel_window_and_upload() {
    assert_eq!(spu_select_value(3, 0xFFFF_FFFF), 0xE3FF_FFFF);
    assert_eq!(spu_load_value(0), 1);
    assert_eq!(spu_upload_command(0), 0x02);
    assert_eq!(spu_upload_command(0x10), 0x13);
    assert_eq!(spu_upload_command(0x101), 0x03);
    assert_eq!(spu_upload_values(0x40, 0xFF), (0x0F, 0x4F));
}

#[test]
fn channel_parameters() {
    assert_eq!(spu_set_src_type(SpuSrcType::Pcm16StereoLeft, 0xFF), 0xFE);
    let p = spu_set_channel_volume(0xFF, 0);
    assert_eq!(p, 0x7F00_0000);
    assert_eq!(spu_get_channel_volume(p), 0x7F);
    let p = spu_set_channel_volume(50, 0x1234);
    assert_eq!(spu_get_channel_volume(p), 50);
    assert_eq!(p & 0xFFFF, 0x1234);
    assert_eq!(spu_set_pan(0x1F, 0x01, 0), (0x1F << 16) | (0x01 << 8));
    assert_eq!(spu_set_pan(0x03, 0x25, 0xFFFF_FFFF), 0xFFE3_E5FF);
    assert_eq!(spu_set_dfa(0xFFFF, 0xFFFF_0000), 0xFFFF_1FFF);
}

#[test]
fn sample_rate_dfa() {
    // 96 MHz / 48 kHz = 2000; / 16 = 125
    assert_eq!(spu_set_sample_rate(96_000_000, 48_000, 0xFFFF_E000), 0xFFFF_E000 | 125);
    assert_eq!(SpuSampleRate::Hz44100.hz(), 44_100);
}

#[test]
fn master_volume_round_trip() {
    let v = spu_set_volume(0x15, 0x0A, 0xFFFF_FFFF);
    assert_eq!(spu_get_volume(v), (0x15, 0x0A));
    assert_eq!(v & !0x1F1F, 0xFFFF_FFFF & !0x1F1F);
}

#[test]
fn dac_power_on_sequence() {
    let ops = spu_dac_on(3, 0, 0x0FFF_0000);
    assert_eq!(ops.len(), 12);
    assert_eq!(ops[0], RegOp::Write { addr: REG_SPU_DAC_PAR, value: 0x30 });
    assert_eq!(ops[1], RegOp::Write { addr: REG_SPU_DAC_PAR, value: 0x00 });
    assert_eq!(ops[2], RegOp::Write { addr: REG_SPU_DAC_VOL, value: 0x07FF_0000 });
    assert_eq!(ops[10], RegOp::Write { addr: REG_SPU_DAC_VOL, value: 0x001E_0000 });
    assert_eq!(ops[11], RegOp::DelayMs { ms: 220 });
    let ops = spu_dac_on(1, 0, 0);
    assert_eq!(ops[1], RegOp::Write { addr: REG_SPU_DAC_PAR, value: 0x10 });
    assert_eq!(ops[11], RegOp::DelayMs { ms: 70 });
}

#[test]
fn dac_mute_level() {
    let ops = spu_dac_on(0, 0, 0xFFFF_FFFF);
    assert_eq!(ops, vec![
        RegOp::Write { addr: REG_SPU_DAC_PAR, value: 0x30 },
        RegOp::Write { addr: REG_SPU_DAC_VOL, value: 0xFC00_FFFF },
        RegOp::Write { addr: REG_SPU_DAC_PAR, value: 0x30 },
    ]);
}

#[test]
fn dac_power_off_sequence() {
    let ops = spu_dac_off(2, 0, 0);
    assert_eq!(ops.len(), 12);
    assert_eq!(ops[1], RegOp::Write { addr: REG_SPU_DAC_VOL, value: 0x0001_0000 });
    assert_eq!(ops[2], RegOp::DelayMs { ms: 40 });
    assert_eq!(ops[9], RegOp::Write { addr: REG_SPU_DAC_VOL, value: 0x0FE1_0000 });
    assert_eq!(ops[11], RegOp::Write { addr: REG_SPU_DAC_PAR, value: 0x30 });
}

#[test]
fn equalizer_bands() {
    assert_eq!(spu_eq_open(SpuEqBand::Dc, SpuEqGain::P8dB, 0, 0), (REG_SPU_EQGain1, 0xF << 16));
    assert_eq!(spu_eq_open(SpuEqBand::Band8, SpuEqGain::M0dB, 0xFFFF_FFFF, 0), (REG_SPU_EQGain0, 0x7FFF_FFFF));
    assert_eq!(spu_eq_open(SpuEqBand::Band10, SpuEqGain::M7dB, 0, 0xFF), (REG_SPU_EQGain1, 0x0F));
}

#[test]
fn event_interrupts() {
    let ev = spu_enable_int(SpuInt::THRESHOLD | SpuInt::END_ADDR, 0);
    assert_eq!(ev, 0x3);
    assert_eq!(spu_enable_int(SpuInt::ALL, 0), 0x3F);
    let ev = spu_disable_int(SpuInt::THRESHOLD, ev);
    assert_eq!(ev, 0x2);
    assert_eq!(spu_clear_int(SpuInt::ALL, 0xFFFF), 0xC0FF);
    assert!(spu_poll_int(SpuInt::END_ADDR, 0x200));
    assert!(!spu_poll_int(SpuInt::END_ADDR, 0x100));
}

#[test]
fn isr_decisions() {
    assert!(spu_irq_pending(0, 1));
    assert!(!spu_irq_pending(1, 1));
    assert_eq!(spu_isr_callbacks(0x300, 0x3), (true, true));
    assert_eq!(spu_isr_callbacks(0x300, 0x2), (false, true));
    assert_eq!(spu_isr_callbacks(0x0, 0x3), (false, false));
}

#[test]
fn playback_addresses() {
    let (b, t, e) = spu_playback_addresses(0x0010_0000);
    assert_eq!(b, 0x8010_0000);
    assert_eq!(t, 0x8010_0000 + SPU_HALF_FRAG_SIZE as u32);
    assert_eq!(e, 0x8010_0000 + SPU_FRAG_SIZE as u32);
    assert_eq!(SPU_FRAG_SIZE, 2 * SPU_HALF_FRAG_SIZE);
}
