//! Host address decode: offsets of the wavetable and modulation-table
//! windows and of every voice register, relative to the unit's base.

use vstd::prelude::*;

verus! {

pub const PCM_WAVE_TABLE_0_START: u32 = 0x000;

pub const PCM_WAVE_TABLE_0_END: u32 = 0x07f;

pub const PCM_WAVE_TABLE_1_START: u32 = 0x080;

pub const PCM_WAVE_TABLE_1_END: u32 = 0x0ff;

pub const PCM_WAVE_TABLE_2_START: u32 = 0x100;

pub const PCM_WAVE_TABLE_2_END: u32 = 0x17f;

pub const PCM_WAVE_TABLE_3_START: u32 = 0x180;

pub const PCM_WAVE_TABLE_3_END: u32 = 0x1ff;

pub const PCM_WAVE_TABLE_4_START: u32 = 0x200;

pub const PCM_WAVE_TABLE_4_END: u32 = 0x27f;

pub const MOD_TABLE_START: u32 = 0x280;

pub const MOD_TABLE_END: u32 = 0x2ff;

pub const VOICE_1_PLAY_CONTROL: u32 = 0x400;

pub const VOICE_1_VOLUME: u32 = 0x404;

pub const VOICE_1_FREQUENCY_LOW: u32 = 0x408;

pub const VOICE_1_FREQUENCY_HIGH: u32 = 0x40c;

pub const VOICE_1_ENVELOPE_DATA: u32 = 0x410;

pub const VOICE_1_ENVELOPE_CONTROL: u32 = 0x414;

pub const VOICE_1_PCM_WAVE: u32 = 0x418;

pub const VOICE_2_PLAY_CONTROL: u32 = 0x440;

pub const VOICE_2_VOLUME: u32 = 0x444;

pub const VOICE_2_FREQUENCY_LOW: u32 = 0x448;

pub const VOICE_2_FREQUENCY_HIGH: u32 = 0x44c;

pub const VOICE_2_ENVELOPE_DATA: u32 = 0x450;

pub const VOICE_2_ENVELOPE_CONTROL: u32 = 0x454;

pub const VOICE_2_PCM_WAVE: u32 = 0x458;

pub const VOICE_3_PLAY_CONTROL: u32 = 0x480;

pub const VOICE_3_VOLUME: u32 = 0x484;

pub const VOICE_3_FREQUENCY_LOW: u32 = 0x488;

pub const VOICE_3_FREQUENCY_HIGH: u32 = 0x48c;

pub const VOICE_3_ENVELOPE_DATA: u32 = 0x490;

pub const VOICE_3_ENVELOPE_CONTROL: u32 = 0x494;

pub const VOICE_3_PCM_WAVE: u32 = 0x498;

pub const VOICE_4_PLAY_CONTROL: u32 = 0x4c0;

pub const VOICE_4_VOLUME: u32 = 0x4c4;

pub const VOICE_4_FREQUENCY_LOW: u32 = 0x4c8;

pub const VOICE_4_FREQUENCY_HIGH: u32 = 0x4cc;

pub const VOICE_4_ENVELOPE_DATA: u32 = 0x4d0;

pub const VOICE_4_ENVELOPE_CONTROL: u32 = 0x4d4;

pub const VOICE_4_PCM_WAVE: u32 = 0x4d8;

pub const VOICE_5_PLAY_CONTROL: u32 = 0x500;

pub const VOICE_5_VOLUME: u32 = 0x504;

pub const VOICE_5_FREQUENCY_LOW: u32 = 0x508;

pub const VOICE_5_FREQUENCY_HIGH: u32 = 0x50c;

pub const VOICE_5_ENVELOPE_DATA: u32 = 0x510;

pub const VOICE_5_ENVELOPE_SWEEP_MOD_CONTROL: u32 = 0x514;

pub const VOICE_5_PCM_WAVE: u32 = 0x518;

pub const VOICE_5_SWEEP_MOD_DATA: u32 = 0x51c;

pub const VOICE_6_PLAY_CONTROL: u32 = 0x540;

pub const VOICE_6_VOLUME: u32 = 0x544;

pub const VOICE_6_FREQUENCY_LOW: u32 = 0x548;

pub const VOICE_6_FREQUENCY_HIGH: u32 = 0x54c;

pub const VOICE_6_ENVELOPE_DATA: u32 = 0x550;

pub const VOICE_6_ENVELOPE_NOISE_CONTROL: u32 = 0x554;

pub const SOUND_DISABLE_REG: u32 = 0x580;

} // verus!
