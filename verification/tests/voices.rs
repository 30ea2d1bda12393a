//! Behavioural tests of the individual voice units.

use vsu::{Envelope, NoiseVoice, PlayControlReg, StandardVoice, SweepModVoice};

#[test]
fn duration_stop_after_fourth_tick() {
    let mut p = PlayControlReg::new();
    // enable, use duration, duration = 3
    p.write(0xa3);
    assert!(p.enable);
    assert!(p.use_duration);
    assert_eq!(p.duration, 3);
    for _ in 0..3 {
        p.duration_clock();
        assert!(p.enable);
    }
    p.duration_clock();
    assert!(!p.enable);
    assert_eq!(p.duration_counter, 4);
}

#[test]
fn duration_write_resets_counter() {
    let mut p = PlayControlReg::new();
    p.write(0xa1);
    p.duration_clock();
    assert_eq!(p.duration_counter, 1);
    p.write(0xa1);
    assert_eq!(p.duration_counter, 0);
}

#[test]
fn envelope_data_write_reloads_level() {
    let mut e = Envelope::new();
    e.write_data_reg(0xb5);
    assert_eq!(e.reg_data_reload, 11);
    assert!(!e.reg_data_direction);
    assert_eq!(e.reg_data_step_interval, 5);
    assert_eq!(e.level(), 11);
}

#[test]
fn envelope_down_step_at_zero_stays_zero() {
    let mut e = Envelope::new();
    // reload 0, direction down, interval 0 -> level 0
    e.write_data_reg(0x00);
    // enable, no repeat
    e.write_control_reg(0x01);
    for _ in 0..4 {
        e.envelope_clock();
        assert_eq!(e.level(), 0);
    }
}

#[test]
fn envelope_up_step_at_top_reloads_with_repeat() {
    let mut e = Envelope::new();
    // reload 14, direction up, interval 0 -> level 14
    e.write_data_reg(0xe8);
    // enable and repeat
    e.write_control_reg(0x03);
    assert_eq!(e.level(), 14);
    e.envelope_clock();
    assert_eq!(e.level(), 15);
    e.envelope_clock();
    assert_eq!(e.level(), 14);
}

#[test]
fn envelope_counter_paces_steps() {
    let mut e = Envelope::new();
    // reload 9, direction down, interval 2
    e.write_data_reg(0x92);
    e.write_control_reg(0x01);
    assert_eq!(e.level(), 9);
    // three ticks per step: counters 1, 2, then 3 > 2 steps the level
    e.envelope_clock();
    e.envelope_clock();
    assert_eq!(e.level(), 9);
    e.envelope_clock();
    assert_eq!(e.level(), 8);
}

#[test]
fn wave_voice_phase_advances_at_frequency_period() {
    let mut v = StandardVoice::new();
    // frequency 2046 -> period 2
    v.write_frequency_low_reg(0xfe);
    v.write_frequency_high_reg(0x07);
    v.write_play_control_reg(0x80);
    assert_eq!(v.phase, 0);
    v.frequency_clock();
    assert_eq!(v.phase, 0);
    v.frequency_clock();
    assert_eq!(v.phase, 1);
    // 62 more ticks wrap the 5-bit phase back to 0
    for _ in 0..62 {
        v.frequency_clock();
    }
    assert_eq!(v.phase, 0);
}

#[test]
fn wave_voice_silent_selectors_output_zero() {
    let mut v = StandardVoice::new();
    let mut wave_tables = vec![0u8; 160];
    wave_tables[0] = 63;
    v.write_pcm_wave_reg(0x05);
    assert_eq!(v.output(&wave_tables), 0);
    v.write_pcm_wave_reg(0x00);
    assert_eq!(v.output(&wave_tables), 63);
}

#[test]
fn sweep_shifts_live_frequency_down() {
    let mut v = SweepModVoice::new();
    let mod_table = vec![0i8; 32];
    // stage frequency 1024
    v.write_frequency_low_reg(0x00);
    v.write_frequency_high_reg(0x04);
    v.write_play_control_reg(0x80);
    // sweep enable, function = sweep, envelope bits clear
    v.write_envelope_sweep_mod_control_reg(0x40);
    // short base, interval 1, direction down, shift 1
    v.write_sweep_mod_data_reg(0x11);
    v.sweep_mod_clock(&mod_table);
    // the staged 1024 was committed, and 1024 - (1024 >> 1) was latched
    assert_eq!(v.frequency_high, 4);
    assert_eq!(v.frequency_low, 0);
    assert_eq!(v.next_frequency_high, 2);
    assert_eq!(v.next_frequency_low, 0);
    v.sweep_mod_clock(&mod_table);
    assert_eq!(v.frequency_high, 2);
    assert_eq!(v.next_frequency_high, 1);
}

#[test]
fn sweep_overflow_disables_voice() {
    let mut v = SweepModVoice::new();
    let mod_table = vec![0i8; 32];
    // stage the top frequency 2047, committed to the live pair below
    v.write_frequency_low_reg(0xff);
    v.write_frequency_high_reg(0x07);
    v.write_play_control_reg(0x80);
    // sweep enable, function = sweep; interval 1, direction up, shift 0
    v.write_envelope_sweep_mod_control_reg(0x40);
    v.write_sweep_mod_data_reg(0x18);
    v.sweep_mod_clock(&mod_table);
    // 2047 + 2047 = 4094 overflows the 11-bit range: the voice shuts off
    assert!(!v.reg_play_control.enable);
    // the latch still holds the result split into 8 low and 3 high bits
    assert_eq!(v.next_frequency_low, 0xfe);
    assert_eq!(v.next_frequency_high, 0x07);
    // with the voice off, further sweep clocks compute nothing new
    v.sweep_mod_clock(&mod_table);
    assert_eq!(v.frequency_low, 0xfe);
    assert_eq!(v.frequency_high, 0x07);
    assert_eq!(v.next_frequency_low, 0xfe);
    assert_eq!(v.next_frequency_high, 0x07);
}

#[test]
fn mod_function_adds_table_entry_to_staged_frequency() {
    let mut v = SweepModVoice::new();
    let mut mod_table = vec![0i8; 32];
    mod_table[0] = -3;
    mod_table[1] = 100;
    // stage frequency 2
    v.write_frequency_low_reg(0x02);
    v.write_frequency_high_reg(0x00);
    v.write_play_control_reg(0x80);
    // sweep-mod enable, function = mod, mod repeat on
    v.write_envelope_sweep_mod_control_reg(0x70);
    // interval 1
    v.write_sweep_mod_data_reg(0x10);
    v.sweep_mod_clock(&mod_table);
    // 2 + (-3) masked to 11 bits = 2047
    assert_eq!(v.next_frequency_low, 0xff);
    assert_eq!(v.next_frequency_high, 0x07);
    assert_eq!(v.mod_phase, 1);
    v.sweep_mod_clock(&mod_table);
    // 2 + 100 = 102
    assert_eq!(v.next_frequency_low, 102);
    assert_eq!(v.next_frequency_high, 0);
    assert_eq!(v.mod_phase, 2);
}

#[test]
fn mod_phase_pins_at_31_without_repeat() {
    let mut v = SweepModVoice::new();
    let mod_table = vec![0i8; 32];
    v.write_play_control_reg(0x80);
    // sweep-mod enable, function = mod, repeat off
    v.write_envelope_sweep_mod_control_reg(0x50);
    v.write_sweep_mod_data_reg(0x10);
    v.mod_phase = 31;
    for _ in 0..3 {
        v.sweep_mod_clock(&mod_table);
        assert_eq!(v.mod_phase, 31);
    }
}

#[test]
fn mod_phase_wraps_with_repeat() {
    let mut v = SweepModVoice::new();
    let mod_table = vec![0i8; 32];
    v.write_play_control_reg(0x80);
    // sweep-mod enable, function = mod, repeat on
    v.write_envelope_sweep_mod_control_reg(0x70);
    v.write_sweep_mod_data_reg(0x10);
    v.mod_phase = 31;
    v.sweep_mod_clock(&mod_table);
    assert_eq!(v.mod_phase, 0);
}

#[test]
fn noise_lfsr_follows_tap_14_progression() {
    let mut v = NoiseVoice::new();
    // tap control 0 -> tap index 14; envelope bits clear
    v.write_envelope_noise_control_reg(0x00);
    // frequency 0 -> period 2048
    v.write_frequency_low_reg(0x00);
    v.write_frequency_high_reg(0x00);
    v.write_play_control_reg(0x80);
    assert_eq!(v.shift, 0x7fff);
    let mut expected: u32 = 0x7fff;
    for _ in 0..15 {
        let feedback = ((expected >> 7) ^ (expected >> 14)) & 1;
        expected = ((expected << 1) | feedback) & 0x7fff;
        let expected_output = if feedback == 0 { 0x3f } else { 0 };
        for _ in 0..2048 {
            v.noise_clock();
        }
        assert_eq!(v.shift, expected);
        assert_eq!(v.output(), expected_output);
    }
}

#[test]
fn noise_tap_seven_uses_bit_11() {
    let mut v = NoiseVoice::new();
    // tap control 7 -> tap index 11
    v.write_envelope_noise_control_reg(0x70);
    v.write_play_control_reg(0x80);
    // bit 11 set, bit 7 clear: feedback 1, output bit 0
    v.shift = 0x0800;
    for _ in 0..2048 {
        v.noise_clock();
    }
    assert_eq!(v.shift, 0x1001);
    assert_eq!(v.output(), 0);
    // bit 7 set, bit 11 clear: feedback 1 as well
    v.shift = 0x0080;
    for _ in 0..2048 {
        v.noise_clock();
    }
    assert_eq!(v.shift, 0x0101);
    assert_eq!(v.output(), 0);
    // bits 7 and 11 both set: feedback 0, output 0x3f
    v.shift = 0x0880;
    for _ in 0..2048 {
        v.noise_clock();
    }
    assert_eq!(v.shift, 0x1100);
    assert_eq!(v.output(), 0x3f);
}

#[test]
fn play_control_enable_reseeds_noise_shift() {
    let mut v = NoiseVoice::new();
    v.write_play_control_reg(0x80);
    v.shift = 0x1234;
    v.write_play_control_reg(0x80);
    assert_eq!(v.shift, 0x7fff);
}
