//! The sound unit itself: the two sample memories, the six voices, and the
//! divider network, driven by host byte writes and master-clock advances.
//! Finished stereo frames are appended to the caller's frame buffer.

use vstd::prelude::*;
use vstd::pervasive::VecAdditionalExecFns;

use crate::mem_map::{
    MOD_TABLE_END, MOD_TABLE_START, PCM_WAVE_TABLE_0_END, PCM_WAVE_TABLE_0_START,
    PCM_WAVE_TABLE_1_END, PCM_WAVE_TABLE_1_START, PCM_WAVE_TABLE_2_END, PCM_WAVE_TABLE_2_START,
    PCM_WAVE_TABLE_3_END, PCM_WAVE_TABLE_3_START, PCM_WAVE_TABLE_4_END, PCM_WAVE_TABLE_4_START,
    SOUND_DISABLE_REG, VOICE_1_ENVELOPE_CONTROL, VOICE_1_ENVELOPE_DATA, VOICE_1_FREQUENCY_HIGH,
    VOICE_1_FREQUENCY_LOW, VOICE_1_PCM_WAVE, VOICE_1_PLAY_CONTROL, VOICE_1_VOLUME,
    VOICE_2_ENVELOPE_CONTROL, VOICE_2_ENVELOPE_DATA, VOICE_2_FREQUENCY_HIGH,
    VOICE_2_FREQUENCY_LOW, VOICE_2_PCM_WAVE, VOICE_2_PLAY_CONTROL, VOICE_2_VOLUME,
    VOICE_3_ENVELOPE_CONTROL, VOICE_3_ENVELOPE_DATA, VOICE_3_FREQUENCY_HIGH,
    VOICE_3_FREQUENCY_LOW, VOICE_3_PCM_WAVE, VOICE_3_PLAY_CONTROL, VOICE_3_VOLUME,
    VOICE_4_ENVELOPE_CONTROL, VOICE_4_ENVELOPE_DATA, VOICE_4_FREQUENCY_HIGH,
    VOICE_4_FREQUENCY_LOW, VOICE_4_PCM_WAVE, VOICE_4_PLAY_CONTROL, VOICE_4_VOLUME,
    VOICE_5_ENVELOPE_DATA, VOICE_5_ENVELOPE_SWEEP_MOD_CONTROL, VOICE_5_FREQUENCY_HIGH,
    VOICE_5_FREQUENCY_LOW, VOICE_5_PCM_WAVE, VOICE_5_PLAY_CONTROL, VOICE_5_SWEEP_MOD_DATA,
    VOICE_5_VOLUME, VOICE_6_ENVELOPE_DATA, VOICE_6_ENVELOPE_NOISE_CONTROL,
    VOICE_6_FREQUENCY_HIGH, VOICE_6_FREQUENCY_LOW, VOICE_6_PLAY_CONTROL, VOICE_6_VOLUME,
};
use crate::model::{
    spec_acc_left, spec_acc_right, spec_channels_active, spec_contribution, spec_duration_step,
    spec_envelope_step, spec_frame, spec_frequency_step, spec_noise_step, spec_power_on,
    spec_pre_sample, spec_run, spec_run_frames, spec_step, spec_step_frames, spec_sweep_mod_step,
    spec_write_byte, VsuModel, DURATION_CLOCK_PERIOD, ENVELOPE_CLOCK_PERIOD,
    FREQUENCY_CLOCK_PERIOD, NOISE_CLOCK_PERIOD, SAMPLE_CLOCK_PERIOD, SWEEP_MOD_LARGE_PERIOD,
    SWEEP_MOD_SMALL_PERIOD,
};
use crate::noise::NoiseVoice;
use crate::sweep::SweepModVoice;
use crate::wave::{lemma_wave_store_update, StandardVoice};

verus! {

/// Emitted samples per second: one frame each 480 cycles of the 20 MHz
/// master clock.
pub const SAMPLE_RATE: u32 = 41667;

/// The Virtual Boy sound unit.
pub struct Vsu {
    pub wave_tables: Vec<u8>,
    pub mod_table: Vec<i8>,
    pub voice1: StandardVoice,
    pub voice2: StandardVoice,
    pub voice3: StandardVoice,
    pub voice4: StandardVoice,
    pub voice5: SweepModVoice,
    pub voice6: NoiseVoice,
    pub duration_clock_counter: u32,
    pub envelope_clock_counter: u32,
    pub frequency_clock_counter: u32,
    pub sweep_mod_clock_counter: u32,
    pub noise_clock_counter: u32,
    pub sample_clock_counter: u32,
}

impl View for Vsu {
    type V = VsuModel;

    open spec fn view(&self) -> VsuModel {
        VsuModel {
            wave_tables: self.wave_tables@,
            mod_table: self.mod_table@,
            voice1: self.voice1,
            voice2: self.voice2,
            voice3: self.voice3,
            voice4: self.voice4,
            voice5: self.voice5,
            voice6: self.voice6,
            duration_clock_counter: self.duration_clock_counter,
            envelope_clock_counter: self.envelope_clock_counter,
            frequency_clock_counter: self.frequency_clock_counter,
            sweep_mod_clock_counter: self.sweep_mod_clock_counter,
            noise_clock_counter: self.noise_clock_counter,
            sample_clock_counter: self.sample_clock_counter,
        }
    }
}

/// One voice's contribution to one side of a frame.
fn mix_contribution(enable: bool, volume: u32, env_level: u32, voice_output: u32) -> (c: u32)
    requires
        volume <= 15,
        env_level <= 15,
        voice_output <= 63,
    ensures
        c == spec_contribution(enable, volume, env_level, voice_output),
        c <= 913,
{
    if enable {
        if volume == 0 || env_level == 0 {
            0
        } else {
            assert((volume * env_level) / 8 + 1 <= 29) by (nonlinear_arith)
                requires
                    volume <= 15,
                    env_level <= 15,
            ;
            let level: u32 = (volume * env_level) / 8 + 1;
            assert((voice_output * level) / 2 <= 913) by (nonlinear_arith)
                requires
                    voice_output <= 63,
                    level <= 29,
            ;
            (voice_output * level) / 2
        }
    } else {
        0
    }
}

impl Vsu {
    /// The power-on unit: both memories zeroed, everything idle.
    pub fn new() -> (vsu: Vsu)
        ensures
            vsu@ == spec_power_on(),
            vsu@.wf(),
    {
        let mut wave_tables: Vec<u8> = Vec::new();
        while wave_tables.len() < 160
            invariant
                wave_tables@.len() <= 160,
                forall|i: int| 0 <= i < wave_tables@.len() ==> wave_tables@[i] == 0u8,
            decreases 160 - wave_tables.len(),
        {
            wave_tables.push(0u8);
        }
        let mut mod_table: Vec<i8> = Vec::new();
        while mod_table.len() < 32
            invariant
                mod_table@.len() <= 32,
                forall|i: int| 0 <= i < mod_table@.len() ==> mod_table@[i] == 0i8,
            decreases 32 - mod_table.len(),
        {
            mod_table.push(0i8);
        }
        let vsu = Vsu {
            wave_tables,
            mod_table,
            voice1: StandardVoice::new(),
            voice2: StandardVoice::new(),
            voice3: StandardVoice::new(),
            voice4: StandardVoice::new(),
            voice5: SweepModVoice::new(),
            voice6: NoiseVoice::new(),
            duration_clock_counter: 0,
            envelope_clock_counter: 0,
            frequency_clock_counter: 0,
            sweep_mod_clock_counter: 0,
            noise_clock_counter: 0,
            sample_clock_counter: 0,
        };
        proof {
            assert(vsu@.wave_tables =~= spec_power_on().wave_tables);
            assert(vsu@.mod_table =~= spec_power_on().mod_table);
            assert(vsu@ =~= spec_power_on());
        }
        vsu
    }

    /// Whether any voice is enabled, which write-locks the wavetables.
    pub fn are_channels_active(&self) -> (active: bool)
        ensures
            active == spec_channels_active(self@),
    {
        self.voice1.reg_play_control.enable || self.voice2.reg_play_control.enable
            || self.voice3.reg_play_control.enable || self.voice4.reg_play_control.enable
            || self.voice5.reg_play_control.enable || self.voice6.reg_play_control.enable
    }

    /// Every read from the unit returns zero.
    pub fn read_byte(&self, addr: u32) -> (value: u8)
        ensures
            value == 0,
    {
        let _ = addr;
        0
    }

    /// Every read from the unit returns zero.
    pub fn read_halfword(&self, addr: u32) -> (value: u16)
        ensures
            value == 0,
    {
        let _ = addr;
        0
    }

    /// Decode and apply one host byte write.
    #[verifier::rlimit(100)]
    pub fn write_byte(&mut self, addr: u32, value: u8)
        requires
            old(self)@.wf(),
        ensures
            final(self)@ == spec_write_byte(old(self)@, addr, value),
            final(self)@.wf(),
    {
        if addr >= PCM_WAVE_TABLE_0_START && addr <= PCM_WAVE_TABLE_0_END {
            if !self.are_channels_active() {
                proof {
                    crate::bits::lemma_u8_and_bound(value, 0x3f);
                    lemma_wave_store_update(
                        self.wave_tables@,
                        (addr - PCM_WAVE_TABLE_0_START) / 4 + 0x00,
                        value & 0x3f,
                    );
                }
                self.wave_tables.set(((addr - PCM_WAVE_TABLE_0_START) / 4 + 0x00) as usize, value & 0x3f);
            }
        } else if addr >= PCM_WAVE_TABLE_1_START && addr <= PCM_WAVE_TABLE_1_END {
            if !self.are_channels_active() {
                proof {
                    crate::bits::lemma_u8_and_bound(value, 0x3f);
                    lemma_wave_store_update(
                        self.wave_tables@,
                        (addr - PCM_WAVE_TABLE_1_START) / 4 + 0x20,
                        value & 0x3f,
                    );
                }
                self.wave_tables.set(((addr - PCM_WAVE_TABLE_1_START) / 4 + 0x20) as usize, value & 0x3f);
            }
        } else if addr >= PCM_WAVE_TABLE_2_START && addr <= PCM_WAVE_TABLE_2_END {
            if !self.are_channels_active() {
                proof {
                    crate::bits::lemma_u8_and_bound(value, 0x3f);
                    lemma_wave_store_update(
                        self.wave_tables@,
                        (addr - PCM_WAVE_TABLE_2_START) / 4 + 0x40,
                        value & 0x3f,
                    );
                }
                self.wave_tables.set(((addr - PCM_WAVE_TABLE_2_START) / 4 + 0x40) as usize, value & 0x3f);
            }
        } else if addr >= PCM_WAVE_TABLE_3_START && addr <= PCM_WAVE_TABLE_3_END {
            if !self.are_channels_active() {
                proof {
                    crate::bits::lemma_u8_and_bound(value, 0x3f);
                    lemma_wave_store_update(
                        self.wave_tables@,
                        (addr - PCM_WAVE_TABLE_3_START) / 4 + 0x60,
                        value & 0x3f,
                    );
                }
                self.wave_tables.set(((addr - PCM_WAVE_TABLE_3_START) / 4 + 0x60) as usize, value & 0x3f);
            }
        } else if addr >= PCM_WAVE_TABLE_4_START && addr <= PCM_WAVE_TABLE_4_END {
            if !self.are_channels_active() {
                proof {
                    crate::bits::lemma_u8_and_bound(value, 0x3f);
                    lemma_wave_store_update(
                        self.wave_tables@,
                        (addr - PCM_WAVE_TABLE_4_START) / 4 + 0x80,
                        value & 0x3f,
                    );
                }
                self.wave_tables.set(((addr - PCM_WAVE_TABLE_4_START) / 4 + 0x80) as usize, value & 0x3f);
            }
        } else if addr >= MOD_TABLE_START && addr <= MOD_TABLE_END {
            if !self.voice5.reg_play_control.enable {
                let signed_value: i8 = if value >= 128 {
                    ((value as i32) - 256) as i8
                } else {
                    value as i8
                };
                self.mod_table.set(((addr - MOD_TABLE_START) / 4) as usize, signed_value);
            }
        } else if addr == VOICE_1_PLAY_CONTROL {
            self.voice1.write_play_control_reg(value);
        } else if addr == VOICE_1_VOLUME {
            self.voice1.write_volume_reg(value);
        } else if addr == VOICE_1_FREQUENCY_LOW {
            self.voice1.write_frequency_low_reg(value);
        } else if addr == VOICE_1_FREQUENCY_HIGH {
            self.voice1.write_frequency_high_reg(value);
        } else if addr == VOICE_1_ENVELOPE_DATA {
            self.voice1.write_envelope_data_reg(value);
        } else if addr == VOICE_1_ENVELOPE_CONTROL {
            self.voice1.write_envelope_control_reg(value);
        } else if addr == VOICE_1_PCM_WAVE {
            self.voice1.write_pcm_wave_reg(value);
        } else if addr == VOICE_2_PLAY_CONTROL {
            self.voice2.write_play_control_reg(value);
        } else if addr == VOICE_2_VOLUME {
            self.voice2.write_volume_reg(value);
        } else if addr == VOICE_2_FREQUENCY_LOW {
            self.voice2.write_frequency_low_reg(value);
        } else if addr == VOICE_2_FREQUENCY_HIGH {
            self.voice2.write_frequency_high_reg(value);
        } else if addr == VOICE_2_ENVELOPE_DATA {
            self.voice2.write_envelope_data_reg(value);
        } else if addr == VOICE_2_ENVELOPE_CONTROL {
            self.voice2.write_envelope_control_reg(value);
        } else if addr == VOICE_2_PCM_WAVE {
            self.voice2.write_pcm_wave_reg(value);
        } else if addr == VOICE_3_PLAY_CONTROL {
            self.voice3.write_play_control_reg(value);
        } else if addr == VOICE_3_VOLUME {
            self.voice3.write_volume_reg(value);
        } else if addr == VOICE_3_FREQUENCY_LOW {
            self.voice3.write_frequency_low_reg(value);
        } else if addr == VOICE_3_FREQUENCY_HIGH {
            self.voice3.write_frequency_high_reg(value);
        } else if addr == VOICE_3_ENVELOPE_DATA {
            self.voice3.write_envelope_data_reg(value);
        } else if addr == VOICE_3_ENVELOPE_CONTROL {
            self.voice3.write_envelope_control_reg(value);
        } else if addr == VOICE_3_PCM_WAVE {
            self.voice3.write_pcm_wave_reg(value);
        } else if addr == VOICE_4_PLAY_CONTROL {
            self.voice4.write_play_control_reg(value);
        } else if addr == VOICE_4_VOLUME {
            self.voice4.write_volume_reg(value);
        } else if addr == VOICE_4_FREQUENCY_LOW {
            self.voice4.write_frequency_low_reg(value);
        } else if addr == VOICE_4_FREQUENCY_HIGH {
            self.voice4.write_frequency_high_reg(value);
        } else if addr == VOICE_4_ENVELOPE_DATA {
            self.voice4.write_envelope_data_reg(value);
        } else if addr == VOICE_4_ENVELOPE_CONTROL {
            self.voice4.write_envelope_control_reg(value);
        } else if addr == VOICE_4_PCM_WAVE {
            self.voice4.write_pcm_wave_reg(value);
        } else if addr == VOICE_5_PLAY_CONTROL {
            self.voice5.write_play_control_reg(value);
        } else if addr == VOICE_5_VOLUME {
            self.voice5.write_volume_reg(value);
        } else if addr == VOICE_5_FREQUENCY_LOW {
            self.voice5.write_frequency_low_reg(value);
        } else if addr == VOICE_5_FREQUENCY_HIGH {
            self.voice5.write_frequency_high_reg(value);
        } else if addr == VOICE_5_ENVELOPE_DATA {
            self.voice5.write_envelope_data_reg(value);
        } else if addr == VOICE_5_ENVELOPE_SWEEP_MOD_CONTROL {
            self.voice5.write_envelope_sweep_mod_control_reg(value);
        } else if addr == VOICE_5_SWEEP_MOD_DATA {
            self.voice5.write_sweep_mod_data_reg(value);
        } else if addr == VOICE_5_PCM_WAVE {
            self.voice5.write_pcm_wave_reg(value);
        } else if addr == VOICE_6_PLAY_CONTROL {
            self.voice6.write_play_control_reg(value);
        } else if addr == VOICE_6_VOLUME {
            self.voice6.write_volume_reg(value);
        } else if addr == VOICE_6_FREQUENCY_LOW {
            self.voice6.write_frequency_low_reg(value);
        } else if addr == VOICE_6_FREQUENCY_HIGH {
            self.voice6.write_frequency_high_reg(value);
        } else if addr == VOICE_6_ENVELOPE_DATA {
            self.voice6.write_envelope_data_reg(value);
        } else if addr == VOICE_6_ENVELOPE_NOISE_CONTROL {
            self.voice6.write_envelope_noise_control_reg(value);
        } else if addr == SOUND_DISABLE_REG {
            if value & 0x01 != 0 {
                self.voice1.reg_play_control.enable = false;
                self.voice2.reg_play_control.enable = false;
                self.voice3.reg_play_control.enable = false;
                self.voice4.reg_play_control.enable = false;
                self.voice5.reg_play_control.enable = false;
                self.voice6.reg_play_control.enable = false;
            }
        }
    }

    /// A half-word write lands on the even address and stores the low byte.
    pub fn write_halfword(&mut self, addr: u32, value: u16)
        requires
            old(self)@.wf(),
        ensures
            final(self)@ == spec_write_byte(old(self)@, addr & 0xfffffffe, (value & 0xff) as u8),
            final(self)@.wf(),
    {
        let addr = addr & 0xfffffffe;
        self.write_byte(addr, (value & 0xff) as u8);
    }

    fn duration_tick(&mut self)
        requires
            old(self)@.wf(),
        ensures
            final(self)@ == spec_duration_step(old(self)@),
            final(self)@.wf(),
    {
        self.duration_clock_counter = self.duration_clock_counter + 1;
        if self.duration_clock_counter >= DURATION_CLOCK_PERIOD {
            self.duration_clock_counter = 0;
            self.voice1.reg_play_control.duration_clock();
            self.voice2.reg_play_control.duration_clock();
            self.voice3.reg_play_control.duration_clock();
            self.voice4.reg_play_control.duration_clock();
            self.voice5.reg_play_control.duration_clock();
            self.voice6.reg_play_control.duration_clock();
        }
    }

    fn envelope_tick(&mut self)
        requires
            old(self)@.wf(),
        ensures
            final(self)@ == spec_envelope_step(old(self)@),
            final(self)@.wf(),
    {
        self.envelope_clock_counter = self.envelope_clock_counter + 1;
        if self.envelope_clock_counter >= ENVELOPE_CLOCK_PERIOD {
            self.envelope_clock_counter = 0;
            self.voice1.envelope.envelope_clock();
            self.voice2.envelope.envelope_clock();
            self.voice3.envelope.envelope_clock();
            self.voice4.envelope.envelope_clock();
            self.voice5.envelope.envelope_clock();
            self.voice6.envelope.envelope_clock();
        }
    }

    fn frequency_tick(&mut self)
        requires
            old(self)@.wf(),
        ensures
            final(self)@ == spec_frequency_step(old(self)@),
            final(self)@.wf(),
    {
        self.frequency_clock_counter = self.frequency_clock_counter + 1;
        if self.frequency_clock_counter >= FREQUENCY_CLOCK_PERIOD {
            self.frequency_clock_counter = 0;
            self.voice1.frequency_clock();
            self.voice2.frequency_clock();
            self.voice3.frequency_clock();
            self.voice4.frequency_clock();
            self.voice5.frequency_clock();
        }
    }

    fn sweep_mod_tick(&mut self)
        requires
            old(self)@.wf(),
        ensures
            final(self)@ == spec_sweep_mod_step(old(self)@),
            final(self)@.wf(),
    {
        self.sweep_mod_clock_counter = self.sweep_mod_clock_counter + 1;
        let sweep_mod_clock_period: u32 = if self.voice5.reg_sweep_mod_base_interval {
            SWEEP_MOD_LARGE_PERIOD
        } else {
            SWEEP_MOD_SMALL_PERIOD
        };
        if self.sweep_mod_clock_counter >= sweep_mod_clock_period {
            self.sweep_mod_clock_counter = 0;
            self.voice5.sweep_mod_clock(&self.mod_table);
        }
    }

    fn noise_tick(&mut self)
        requires
            old(self)@.wf(),
        ensures
            final(self)@ == spec_noise_step(old(self)@),
            final(self)@.wf(),
    {
        self.noise_clock_counter = self.noise_clock_counter + 1;
        if self.noise_clock_counter >= NOISE_CLOCK_PERIOD {
            self.noise_clock_counter = 0;
            self.voice6.noise_clock();
        }
    }

    /// Mix one output frame from the current state and append it to the
    /// caller's frame buffer.
    #[verifier::rlimit(100)]
    fn sample_clock(&self, audio_frame_sink: &mut Vec<(i16, i16)>)
        requires
            self@.wf(),
        ensures
            final(audio_frame_sink)@ == old(audio_frame_sink)@.push(spec_frame(self@)),
    {
        let output1 = self.voice1.output(&self.wave_tables);
        let output2 = self.voice2.output(&self.wave_tables);
        let output3 = self.voice3.output(&self.wave_tables);
        let output4 = self.voice4.output(&self.wave_tables);
        let output5 = self.voice5.output(&self.wave_tables);
        let output6 = self.voice6.output();
        let acc_left: u32 = mix_contribution(
            self.voice1.reg_play_control.enable,
            self.voice1.reg_volume.left,
            self.voice1.envelope.level,
            output1,
        ) + mix_contribution(
            self.voice2.reg_play_control.enable,
            self.voice2.reg_volume.left,
            self.voice2.envelope.level,
            output2,
        ) + mix_contribution(
            self.voice3.reg_play_control.enable,
            self.voice3.reg_volume.left,
            self.voice3.envelope.level,
            output3,
        ) + mix_contribution(
            self.voice4.reg_play_control.enable,
            self.voice4.reg_volume.left,
            self.voice4.envelope.level,
            output4,
        ) + mix_contribution(
            self.voice5.reg_play_control.enable,
            self.voice5.reg_volume.left,
            self.voice5.envelope.level,
            output5,
        ) + mix_contribution(
            self.voice6.reg_play_control.enable,
            self.voice6.reg_volume.left,
            self.voice6.envelope.level,
            output6,
        );
        let acc_right: u32 = mix_contribution(
            self.voice1.reg_play_control.enable,
            self.voice1.reg_volume.right,
            self.voice1.envelope.level,
            output1,
        ) + mix_contribution(
            self.voice2.reg_play_control.enable,
            self.voice2.reg_volume.right,
            self.voice2.envelope.level,
            output2,
        ) + mix_contribution(
            self.voice3.reg_play_control.enable,
            self.voice3.reg_volume.right,
            self.voice3.envelope.level,
            output3,
        ) + mix_contribution(
            self.voice4.reg_play_control.enable,
            self.voice4.reg_volume.right,
            self.voice4.envelope.level,
            output4,
        ) + mix_contribution(
            self.voice5.reg_play_control.enable,
            self.voice5.reg_volume.right,
            self.voice5.envelope.level,
            output5,
        ) + mix_contribution(
            self.voice6.reg_play_control.enable,
            self.voice6.reg_volume.right,
            self.voice6.envelope.level,
            output6,
        );
        proof {
            assert(acc_left == spec_acc_left(self@));
            assert(acc_right == spec_acc_right(self@));
        }
        let output_left: i16 = ((acc_left & 0xfff8) << 2) as i16;
        let output_right: i16 = ((acc_right & 0xfff8) << 2) as i16;
        audio_frame_sink.push((output_left, output_right));
    }

    /// Advance the master clock by `num_cycles` cycles, appending each
    /// finished stereo frame to `audio_frame_sink` in generation order.
    #[verifier::rlimit(100)]
    pub fn cycles(&mut self, num_cycles: u32, audio_frame_sink: &mut Vec<(i16, i16)>)
        requires
            old(self)@.wf(),
        ensures
            final(self)@ == spec_run(old(self)@, num_cycles as nat),
            final(self)@.wf(),
            final(audio_frame_sink)@ == old(audio_frame_sink)@ + spec_run_frames(
                old(self)@,
                num_cycles as nat,
            ),
    {
        let ghost initial_model = self@;
        let ghost initial_frames = audio_frame_sink@;
        let mut i: u32 = 0;
        proof {
            assert(audio_frame_sink@ =~= initial_frames + spec_run_frames(initial_model, 0));
        }
        while i < num_cycles
            invariant
                i <= num_cycles,
                self@ == spec_run(initial_model, i as nat),
                self@.wf(),
                audio_frame_sink@ == initial_frames + spec_run_frames(initial_model, i as nat),
            decreases num_cycles - i,
        {
            let ghost prev = self@;
            self.duration_tick();
            self.envelope_tick();
            self.frequency_tick();
            self.sweep_mod_tick();
            self.noise_tick();
            proof {
                assert(self@ == spec_pre_sample(prev));
            }
            self.sample_clock_counter = self.sample_clock_counter + 1;
            if self.sample_clock_counter >= SAMPLE_CLOCK_PERIOD {
                self.sample_clock_counter = 0;
                self.sample_clock(audio_frame_sink);
                proof {
                    assert(spec_step_frames(prev) =~= seq![spec_frame(spec_pre_sample(prev))]);
                }
            }
            proof {
                assert(self@ =~= spec_step(prev));
                assert(spec_run(initial_model, (i + 1) as nat) == spec_step(
                    spec_run(initial_model, i as nat),
                ));
                assert(audio_frame_sink@ =~= initial_frames + spec_run_frames(
                    initial_model,
                    (i + 1) as nat,
                ));
            }
            i = i + 1;
        }
    }
}

} // verus!
