//! Behavioural tests of the assembled sound unit: register decode, memory
//! write locking, clock advancement and frame output.

use vsu::Vsu;

#[test]
fn silent_start_emits_one_zero_frame() {
    let mut vsu = Vsu::new();
    let mut frames: Vec<(i16, i16)> = Vec::new();
    vsu.cycles(480, &mut frames);
    assert_eq!(frames, vec![(0i16, 0i16)]);
}

#[test]
fn sample_pacing_is_one_frame_per_480_cycles() {
    let mut vsu = Vsu::new();
    let mut frames: Vec<(i16, i16)> = Vec::new();
    vsu.cycles(480 * 1000, &mut frames);
    assert_eq!(frames.len(), 1000);
    let mut vsu2 = Vsu::new();
    let mut frames2: Vec<(i16, i16)> = Vec::new();
    vsu2.cycles(479, &mut frames2);
    assert_eq!(frames2.len(), 0);
    vsu2.cycles(1, &mut frames2);
    assert_eq!(frames2.len(), 1);
}

#[test]
fn split_advances_match_one_advance() {
    let mut vsu_split = Vsu::new();
    let mut vsu_whole = Vsu::new();
    for unit in [&mut vsu_split, &mut vsu_whole] {
        // a tone on voice 1 and noise on voice 6
        unit.write_byte(0x000, 0x20);
        unit.write_byte(0x410, 0xf0);
        unit.write_byte(0x414, 0x01);
        unit.write_byte(0x404, 0xff);
        unit.write_byte(0x408, 0xf0);
        unit.write_byte(0x400, 0x80);
        unit.write_byte(0x548, 0xff);
        unit.write_byte(0x54c, 0x07);
        unit.write_byte(0x544, 0x88);
        unit.write_byte(0x550, 0xf0);
        unit.write_byte(0x554, 0x71);
        unit.write_byte(0x540, 0x80);
    }
    let mut frames_split: Vec<(i16, i16)> = Vec::new();
    let mut frames_whole: Vec<(i16, i16)> = Vec::new();
    vsu_split.cycles(700, &mut frames_split);
    vsu_split.cycles(1220, &mut frames_split);
    vsu_whole.cycles(1920, &mut frames_whole);
    assert_eq!(frames_split, frames_whole);
    assert_eq!(vsu_split.voice1.phase, vsu_whole.voice1.phase);
    assert_eq!(vsu_split.voice1.frequency_counter, vsu_whole.voice1.frequency_counter);
    assert_eq!(vsu_split.voice6.shift, vsu_whole.voice6.shift);
    assert_eq!(vsu_split.voice6.output, vsu_whole.voice6.output);
    assert_eq!(vsu_split.sample_clock_counter, vsu_whole.sample_clock_counter);
    assert_eq!(vsu_split.noise_clock_counter, vsu_whole.noise_clock_counter);
}

#[test]
fn single_tone_frame_follows_mix_formula() {
    let mut vsu = Vsu::new();
    // wavetable 0 = [0, 63, 0, 63, ...], written before any voice enables
    for entry in 0..32u32 {
        let value = if entry % 2 == 0 { 0x00 } else { 0x3f };
        vsu.write_byte(entry * 4, value);
    }
    vsu.write_byte(0x418, 0x00); // PCM wave 0
    vsu.write_byte(0x404, 0xff); // volume left 15, right 15
    vsu.write_byte(0x410, 0xf0); // envelope reload 15, up, interval 0
    vsu.write_byte(0x414, 0x01); // envelope enable
    vsu.write_byte(0x408, 0x00); // frequency low 0
    vsu.write_byte(0x40c, 0x00); // frequency high 0
    vsu.write_byte(0x400, 0x80); // enable
    let mut frames: Vec<(i16, i16)> = Vec::new();
    vsu.cycles(480, &mut frames);
    assert_eq!(frames.len(), 1);
    // with frequency 0 the phase has not moved, so the voice output is
    // wavetable entry 0
    let voice_output: u32 = 0;
    let level: u32 = ((15 * 15) >> 3) + 1;
    let acc: u32 = (voice_output * level) >> 1;
    let expected = ((acc & 0xfff8) << 2) as i16;
    assert_eq!(frames[0], (expected, expected));
}

#[test]
fn saturated_tone_frame_has_expected_value() {
    let mut vsu = Vsu::new();
    // wavetable 0 entry 0 = 63, written while all voices are off
    vsu.write_byte(0x000, 0x3f);
    vsu.write_byte(0x418, 0x00);
    vsu.write_byte(0x404, 0xff);
    vsu.write_byte(0x410, 0xf0);
    vsu.write_byte(0x414, 0x01);
    vsu.write_byte(0x408, 0x00);
    vsu.write_byte(0x40c, 0x00);
    vsu.write_byte(0x400, 0x80);
    let mut frames: Vec<(i16, i16)> = Vec::new();
    vsu.cycles(480, &mut frames);
    // 63 * 29 / 2 = 913; 913 & 0xfff8 = 912; 912 << 2 = 3648
    assert_eq!(frames, vec![(3648i16, 3648i16)]);
}

#[test]
fn wavetable_write_locked_while_any_voice_enabled() {
    let mut vsu = Vsu::new();
    vsu.write_byte(0x400, 0x80);
    vsu.write_byte(0x000, 0x3f);
    assert_eq!(vsu.wave_tables[0], 0);
    // disabling unlocks the store again
    vsu.write_byte(0x400, 0x00);
    vsu.write_byte(0x000, 0x3f);
    assert_eq!(vsu.wave_tables[0], 0x3f);
}

#[test]
fn wavetable_write_masks_to_six_bits_and_strides_by_four() {
    let mut vsu = Vsu::new();
    vsu.write_byte(0x084, 0xff);
    // wavetable 1 entry 1 holds the low six bits
    assert_eq!(vsu.wave_tables[33], 0x3f);
    // shadow bytes within the stride land on the same entry
    vsu.write_byte(0x086, 0x21);
    assert_eq!(vsu.wave_tables[33], 0x21);
}

#[test]
fn mod_table_write_locked_while_voice_5_enabled() {
    let mut vsu = Vsu::new();
    vsu.write_byte(0x280, 0x85);
    assert_eq!(vsu.mod_table[0], -123);
    vsu.write_byte(0x500, 0x80);
    vsu.write_byte(0x280, 0x01);
    assert_eq!(vsu.mod_table[0], -123);
    // other voices do not lock the modulation table
    vsu.write_byte(0x500, 0x00);
    vsu.write_byte(0x400, 0x80);
    vsu.write_byte(0x280, 0x01);
    assert_eq!(vsu.mod_table[0], 1);
}

#[test]
fn register_block_decodes_bit_exactly() {
    let mut vsu = Vsu::new();
    vsu.write_byte(0x440, 0xa5);
    vsu.write_byte(0x444, 0xc3);
    vsu.write_byte(0x448, 0x34);
    vsu.write_byte(0x44c, 0xfa);
    vsu.write_byte(0x450, 0xb5);
    vsu.write_byte(0x454, 0x03);
    vsu.write_byte(0x458, 0x0f);
    let v = &vsu.voice2;
    assert!(v.reg_play_control.enable);
    assert!(v.reg_play_control.use_duration);
    assert_eq!(v.reg_play_control.duration, 5);
    assert_eq!(v.reg_volume.left, 12);
    assert_eq!(v.reg_volume.right, 3);
    assert_eq!(v.reg_frequency_low, 0x34);
    assert_eq!(v.reg_frequency_high, 0x02);
    assert_eq!(v.envelope.reg_data_reload, 11);
    assert!(!v.envelope.reg_data_direction);
    assert_eq!(v.envelope.reg_data_step_interval, 5);
    assert_eq!(v.envelope.level, 11);
    assert!(v.envelope.reg_control_repeat);
    assert!(v.envelope.reg_control_enable);
    assert_eq!(v.reg_pcm_wave, 7);
}

#[test]
fn sound_disable_silences_all_further_frames() {
    let mut vsu = Vsu::new();
    vsu.write_byte(0x000, 0x3f);
    vsu.write_byte(0x404, 0xff);
    vsu.write_byte(0x410, 0xf0);
    vsu.write_byte(0x414, 0x01);
    vsu.write_byte(0x400, 0x80);
    vsu.write_byte(0x540, 0x80);
    let mut frames: Vec<(i16, i16)> = Vec::new();
    vsu.cycles(480, &mut frames);
    assert_ne!(frames[0], (0i16, 0i16));
    vsu.write_byte(0x580, 0x01);
    assert!(!vsu.voice1.reg_play_control.enable);
    assert!(!vsu.voice6.reg_play_control.enable);
    let mut after: Vec<(i16, i16)> = Vec::new();
    vsu.cycles(480 * 5, &mut after);
    assert_eq!(after, vec![(0i16, 0i16); 5]);
}

#[test]
fn sweep_overflow_stops_voice_5_during_advance() {
    let mut vsu = Vsu::new();
    vsu.write_byte(0x508, 0xff); // frequency low: live value 2047
    vsu.write_byte(0x50c, 0x07); // frequency high
    vsu.write_byte(0x514, 0x41); // sweep/mod enable, function = sweep
    vsu.write_byte(0x51c, 0x18); // short base, interval 1, up, shift 0
    vsu.write_byte(0x504, 0xff); // full volume
    vsu.write_byte(0x510, 0xf0); // envelope level 15
    vsu.write_byte(0x500, 0x80); // enable
    let mut frames: Vec<(i16, i16)> = Vec::new();
    // the first sweep/mod clock falls on cycle 19200 and overflows 2047 up
    vsu.cycles(19200, &mut frames);
    assert!(!vsu.voice5.reg_play_control.enable);
    assert_eq!(frames.len(), 40);
}

#[test]
fn sound_disable_ignored_without_bit_0() {
    let mut vsu = Vsu::new();
    vsu.write_byte(0x400, 0x80);
    vsu.write_byte(0x580, 0xfe);
    assert!(vsu.voice1.reg_play_control.enable);
}

#[test]
fn reads_return_zero() {
    let vsu = Vsu::new();
    assert_eq!(vsu.read_byte(0x400), 0);
    assert_eq!(vsu.read_byte(0x000), 0);
    assert_eq!(vsu.read_halfword(0x404), 0);
}

#[test]
fn halfword_write_masks_address_and_stores_low_byte() {
    let mut vsu = Vsu::new();
    vsu.write_halfword(0x401, 0x1280);
    assert!(vsu.voice1.reg_play_control.enable);
    assert!(!vsu.voice1.reg_play_control.use_duration);
}

#[test]
fn unmapped_writes_are_dropped() {
    let mut vsu = Vsu::new();
    vsu.write_byte(0x300, 0xff);
    vsu.write_byte(0x41c, 0xff);
    vsu.write_byte(0x7fff_ffff, 0xff);
    assert!(!vsu.are_channels_active());
    assert_eq!(vsu.wave_tables.iter().map(|b| *b as u32).sum::<u32>(), 0);
}

#[test]
fn duration_mode_stops_voice_through_register_writes() {
    let mut vsu = Vsu::new();
    // enable with duration mode, duration 3
    vsu.write_byte(0x400, 0xa3);
    for _ in 0..4 {
        vsu.voice1.reg_play_control.duration_clock();
    }
    assert!(!vsu.voice1.reg_play_control.enable);
}

#[test]
fn envelope_level_scales_frame_value() {
    let mut vsu = Vsu::new();
    vsu.write_byte(0x000, 0x3f);
    vsu.write_byte(0x404, 0xff);
    // envelope level 8, direction down, interval 0
    vsu.write_byte(0x410, 0x80);
    vsu.write_byte(0x414, 0x01);
    vsu.write_byte(0x400, 0x80);
    let mut frames: Vec<(i16, i16)> = Vec::new();
    vsu.cycles(480, &mut frames);
    // level = 15 * 8 / 8 + 1 = 16; 63 * 16 / 2 = 504; 504 & 0xfff8 = 504
    assert_eq!(frames, vec![(2016i16, 2016i16)]);
}
