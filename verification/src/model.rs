//! The mathematical model of the whole sound unit: one ghost state record,
//! transition functions for a host write and for a single master-clock
//! cycle, and the mixing formula for an output frame. Every executable
//! method of the unit is specified as an application of these functions.

use vstd::prelude::*;

use crate::mem_map::{
    MOD_TABLE_END, MOD_TABLE_START, PCM_WAVE_TABLE_0_END, PCM_WAVE_TABLE_0_START,
    PCM_WAVE_TABLE_1_END, PCM_WAVE_TABLE_1_START, PCM_WAVE_TABLE_2_END, PCM_WAVE_TABLE_2_START,
    PCM_WAVE_TABLE_3_END, PCM_WAVE_TABLE_3_START, PCM_WAVE_TABLE_4_END, PCM_WAVE_TABLE_4_START,
    SOUND_DISABLE_REG, VOICE_1_ENVELOPE_CONTROL, VOICE_1_ENVELOPE_DATA, VOICE_1_FREQUENCY_HIGH,
    VOICE_1_FREQUENCY_LOW, VOICE_1_PCM_WAVE, VOICE_1_PLAY_CONTROL, VOICE_1_VOLUME,
    VOICE_2_ENVELOPE_CONTROL, VOICE_2_ENVELOPE_DATA, VOICE_2_FREQUENCY_HIGH,
    VOICE_2_FREQUENCY_LOW, VOICE_2_PCM_WAVE, VOICE_2_PLAY_CONTROL, VOICE_2_VOLUME,
    VOICE_3_ENVELOPE_CONTROL, VOICE_3_ENVELOPE_DATA, VOICE_3_FREQUENCY_HIGH,
    VOICE_3_FREQUENCY_LOW, VOICE_3_PCM_WAVE, VOICE_3_PLAY_CONTROL, VOICE_3_VOLUME,
    VOICE_4_ENVELOPE_CONTROL, VOICE_4_ENVELOPE_DATA, VOICE_4_FREQUENCY_HIGH,
    VOICE_4_FREQUENCY_LOW, VOICE_4_PCM_WAVE, VOICE_4_PLAY_CONTROL, VOICE_4_VOLUME,
    VOICE_5_ENVELOPE_DATA, VOICE_5_ENVELOPE_SWEEP_MOD_CONTROL, VOICE_5_FREQUENCY_HIGH,
    VOICE_5_FREQUENCY_LOW, VOICE_5_PCM_WAVE, VOICE_5_PLAY_CONTROL, VOICE_5_SWEEP_MOD_DATA,
    VOICE_5_VOLUME, VOICE_6_ENVELOPE_DATA, VOICE_6_ENVELOPE_NOISE_CONTROL,
    VOICE_6_FREQUENCY_HIGH, VOICE_6_FREQUENCY_LOW, VOICE_6_PLAY_CONTROL, VOICE_6_VOLUME,
};
use crate::noise::{spec_nv_noise_clock, spec_nv_write_env_noise_control, spec_nv_write_play_control, NoiseVoice};
use crate::regs::{spec_env_clock, spec_env_write_control, spec_env_write_data, spec_pc_duration_clock, spec_vol_write, PlayControlReg};
use crate::sweep::{spec_smv_frequency_clock, spec_smv_sweep_mod_clock, spec_smv_write_env_sweep_mod_control, spec_smv_write_play_control, spec_smv_write_sweep_mod_data, spec_mod_store_wf, SweepModVoice};
use crate::wave::{spec_sv_frequency_clock, spec_sv_write_play_control, spec_wave_output, spec_wave_store_wf, StandardVoice};

verus! {

/// Master-clock cycles per sample-clock tick (20 MHz / ~41.7 kHz).
pub const SAMPLE_CLOCK_PERIOD: u32 = 480;

/// Master-clock cycles per duration-clock tick (20 MHz / ~260.4 Hz).
pub const DURATION_CLOCK_PERIOD: u32 = 76805;

/// Master-clock cycles per envelope-clock tick (20 MHz / ~65.1 Hz).
pub const ENVELOPE_CLOCK_PERIOD: u32 = 307218;

/// Master-clock cycles per frequency-clock tick (20 MHz / 5 MHz).
pub const FREQUENCY_CLOCK_PERIOD: u32 = 4;

/// Master-clock cycles per short-interval sweep/mod tick (20 MHz / ~1041.6 Hz).
pub const SWEEP_MOD_SMALL_PERIOD: u32 = 19200;

/// Master-clock cycles per long-interval sweep/mod tick (20 MHz / ~130.2 Hz).
pub const SWEEP_MOD_LARGE_PERIOD: u32 = 153600;

/// Master-clock cycles per noise-clock tick (20 MHz / 500 kHz).
pub const NOISE_CLOCK_PERIOD: u32 = 40;

/// The full state of the sound unit: the two sample memories, the six
/// voices, and the dividers that pace the sub-rate clocks.
#[verifier::ext_equal]
pub ghost struct VsuModel {
    pub wave_tables: Seq<u8>,
    pub mod_table: Seq<i8>,
    pub voice1: StandardVoice,
    pub voice2: StandardVoice,
    pub voice3: StandardVoice,
    pub voice4: StandardVoice,
    pub voice5: SweepModVoice,
    pub voice6: NoiseVoice,
    pub duration_clock_counter: u32,
    pub envelope_clock_counter: u32,
    pub frequency_clock_counter: u32,
    pub sweep_mod_clock_counter: u32,
    pub noise_clock_counter: u32,
    pub sample_clock_counter: u32,
}

impl VsuModel {
    /// Field widths of every voice, the declared sizes of the two sample
    /// memories, and every divider strictly below its period.
    pub open spec fn wf(self) -> bool {
        &&& spec_wave_store_wf(self.wave_tables)
        &&& spec_mod_store_wf(self.mod_table)
        &&& self.voice1.wf()
        &&& self.voice2.wf()
        &&& self.voice3.wf()
        &&& self.voice4.wf()
        &&& self.voice5.wf()
        &&& self.voice6.wf()
        &&& self.duration_clock_counter < DURATION_CLOCK_PERIOD
        &&& self.envelope_clock_counter < ENVELOPE_CLOCK_PERIOD
        &&& self.frequency_clock_counter < FREQUENCY_CLOCK_PERIOD
        &&& self.sweep_mod_clock_counter < SWEEP_MOD_LARGE_PERIOD
        &&& self.noise_clock_counter < NOISE_CLOCK_PERIOD
        &&& self.sample_clock_counter < SAMPLE_CLOCK_PERIOD
    }
}

/// Whether any voice is currently enabled; wavetable writes are dropped
/// while this holds.
pub open spec fn spec_channels_active(m: VsuModel) -> bool {
    ||| m.voice1.reg_play_control.enable
    ||| m.voice2.reg_play_control.enable
    ||| m.voice3.reg_play_control.enable
    ||| m.voice4.reg_play_control.enable
    ||| m.voice5.reg_play_control.enable
    ||| m.voice6.reg_play_control.enable
}

/// A byte reinterpreted as the signed modulation-table entry it encodes.
pub open spec fn spec_as_signed_byte(value: u8) -> i8 {
    if value >= 128 {
        (value - 256) as i8
    } else {
        value as i8
    }
}

/// State after one duration-clock divider step: on firing, every voice's
/// play control takes a duration tick.
pub open spec fn spec_duration_step(m: VsuModel) -> VsuModel {
    if m.duration_clock_counter + 1 >= DURATION_CLOCK_PERIOD {
        VsuModel {
            duration_clock_counter: 0,
            voice1: StandardVoice {
                reg_play_control: spec_pc_duration_clock(m.voice1.reg_play_control),
                ..m.voice1
            },
            voice2: StandardVoice {
                reg_play_control: spec_pc_duration_clock(m.voice2.reg_play_control),
                ..m.voice2
            },
            voice3: StandardVoice {
                reg_play_control: spec_pc_duration_clock(m.voice3.reg_play_control),
                ..m.voice3
            },
            voice4: StandardVoice {
                reg_play_control: spec_pc_duration_clock(m.voice4.reg_play_control),
                ..m.voice4
            },
            voice5: SweepModVoice {
                reg_play_control: spec_pc_duration_clock(m.voice5.reg_play_control),
                ..m.voice5
            },
            voice6: NoiseVoice {
                reg_play_control: spec_pc_duration_clock(m.voice6.reg_play_control),
                ..m.voice6
            },
            ..m
        }
    } else {
        VsuModel { duration_clock_counter: (m.duration_clock_counter + 1) as u32, ..m }
    }
}

/// State after one envelope-clock divider step: on firing, every voice's
/// envelope takes a tick.
pub open spec fn spec_envelope_step(m: VsuModel) -> VsuModel {
    if m.envelope_clock_counter + 1 >= ENVELOPE_CLOCK_PERIOD {
        VsuModel {
            envelope_clock_counter: 0,
            voice1: StandardVoice { envelope: spec_env_clock(m.voice1.envelope), ..m.voice1 },
            voice2: StandardVoice { envelope: spec_env_clock(m.voice2.envelope), ..m.voice2 },
            voice3: StandardVoice { envelope: spec_env_clock(m.voice3.envelope), ..m.voice3 },
            voice4: StandardVoice { envelope: spec_env_clock(m.voice4.envelope), ..m.voice4 },
            voice5: SweepModVoice { envelope: spec_env_clock(m.voice5.envelope), ..m.voice5 },
            voice6: NoiseVoice { envelope: spec_env_clock(m.voice6.envelope), ..m.voice6 },
            ..m
        }
    } else {
        VsuModel { envelope_clock_counter: (m.envelope_clock_counter + 1) as u32, ..m }
    }
}

/// State after one frequency-clock divider step: on firing, the five
/// wavetable oscillators advance (the noise voice has its own clock).
pub open spec fn spec_frequency_step(m: VsuModel) -> VsuModel {
    if m.frequency_clock_counter + 1 >= FREQUENCY_CLOCK_PERIOD {
        VsuModel {
            frequency_clock_counter: 0,
            voice1: spec_sv_frequency_clock(m.voice1),
            voice2: spec_sv_frequency_clock(m.voice2),
            voice3: spec_sv_frequency_clock(m.voice3),
            voice4: spec_sv_frequency_clock(m.voice4),
            voice5: spec_smv_frequency_clock(m.voice5),
            ..m
        }
    } else {
        VsuModel { frequency_clock_counter: (m.frequency_clock_counter + 1) as u32, ..m }
    }
}

/// The sweep/mod divider period currently in force, re-read from voice 5's
/// base-interval bit at every comparison.
pub open spec fn spec_sweep_mod_period(m: VsuModel) -> u32 {
    if m.voice5.reg_sweep_mod_base_interval {
        SWEEP_MOD_LARGE_PERIOD
    } else {
        SWEEP_MOD_SMALL_PERIOD
    }
}

/// State after one sweep/mod divider step: on firing, voice 5 takes a
/// sweep/mod clock against the modulation table.
pub open spec fn spec_sweep_mod_step(m: VsuModel) -> VsuModel {
    if m.sweep_mod_clock_counter + 1 >= spec_sweep_mod_period(m) {
        VsuModel {
            sweep_mod_clock_counter: 0,
            voice5: spec_smv_sweep_mod_clock(m.voice5, m.mod_table),
            ..m
        }
    } else {
        VsuModel { sweep_mod_clock_counter: (m.sweep_mod_clock_counter + 1) as u32, ..m }
    }
}

/// State after one noise-clock divider step: on firing, voice 6 takes a
/// noise clock.
pub open spec fn spec_noise_step(m: VsuModel) -> VsuModel {
    if m.noise_clock_counter + 1 >= NOISE_CLOCK_PERIOD {
        VsuModel { noise_clock_counter: 0, voice6: spec_nv_noise_clock(m.voice6), ..m }
    } else {
        VsuModel { noise_clock_counter: (m.noise_clock_counter + 1) as u32, ..m }
    }
}

/// The state just before the sample divider is consulted: the five other
/// dividers stepped in their fixed order.
pub open spec fn spec_pre_sample(m: VsuModel) -> VsuModel {
    spec_noise_step(spec_sweep_mod_step(spec_frequency_step(spec_envelope_step(spec_duration_step(m)))))
}

/// Whether this master-clock cycle emits an output frame.
pub open spec fn spec_sample_fires(m: VsuModel) -> bool {
    spec_pre_sample(m).sample_clock_counter + 1 >= SAMPLE_CLOCK_PERIOD
}

/// State after one full master-clock cycle.
pub open spec fn spec_step(m: VsuModel) -> VsuModel {
    let p = spec_pre_sample(m);
    if p.sample_clock_counter + 1 >= SAMPLE_CLOCK_PERIOD {
        VsuModel { sample_clock_counter: 0, ..p }
    } else {
        VsuModel { sample_clock_counter: (p.sample_clock_counter + 1) as u32, ..p }
    }
}

/// The frames one master-clock cycle emits: at most one.
pub open spec fn spec_step_frames(m: VsuModel) -> Seq<(i16, i16)> {
    if spec_sample_fires(m) {
        seq![spec_frame(spec_pre_sample(m))]
    } else {
        seq![]
    }
}

/// State after `n` master-clock cycles.
pub open spec fn spec_run(m: VsuModel, n: nat) -> VsuModel
    decreases n,
{
    if n == 0 {
        m
    } else {
        spec_step(spec_run(m, (n - 1) as nat))
    }
}

/// The frames emitted over `n` master-clock cycles, in order.
pub open spec fn spec_run_frames(m: VsuModel, n: nat) -> Seq<(i16, i16)>
    decreases n,
{
    if n == 0 {
        seq![]
    } else {
        spec_run_frames(m, (n - 1) as nat) + spec_step_frames(spec_run(m, (n - 1) as nat))
    }
}

/// The per-side mixing level: zero when either the volume or the envelope
/// level is zero, and otherwise `volume * envelope / 8 + 1`, at most 29.
pub open spec fn spec_level_amount(volume: u32, env_level: u32) -> int {
    if volume == 0 || env_level == 0 {
        0
    } else {
        (volume * env_level) / 8 + 1
    }
}

/// One voice's contribution to one side of the frame: zero while the voice
/// is disabled, and otherwise its output scaled by the mixing level, halved.
pub open spec fn spec_contribution(enable: bool, volume: u32, env_level: u32, voice_output: u32) -> int {
    if enable {
        (voice_output * spec_level_amount(volume, env_level)) / 2
    } else {
        0
    }
}

/// The left accumulator: the six voices' left contributions summed.
pub open spec fn spec_acc_left(m: VsuModel) -> int {
    spec_contribution(
        m.voice1.reg_play_control.enable,
        m.voice1.reg_volume.left,
        m.voice1.envelope.level,
        spec_wave_output(m.voice1.reg_pcm_wave, m.voice1.phase, m.wave_tables),
    ) + spec_contribution(
        m.voice2.reg_play_control.enable,
        m.voice2.reg_volume.left,
        m.voice2.envelope.level,
        spec_wave_output(m.voice2.reg_pcm_wave, m.voice2.phase, m.wave_tables),
    ) + spec_contribution(
        m.voice3.reg_play_control.enable,
        m.voice3.reg_volume.left,
        m.voice3.envelope.level,
        spec_wave_output(m.voice3.reg_pcm_wave, m.voice3.phase, m.wave_tables),
    ) + spec_contribution(
        m.voice4.reg_play_control.enable,
        m.voice4.reg_volume.left,
        m.voice4.envelope.level,
        spec_wave_output(m.voice4.reg_pcm_wave, m.voice4.phase, m.wave_tables),
    ) + spec_contribution(
        m.voice5.reg_play_control.enable,
        m.voice5.reg_volume.left,
        m.voice5.envelope.level,
        spec_wave_output(m.voice5.reg_pcm_wave, m.voice5.phase, m.wave_tables),
    ) + spec_contribution(
        m.voice6.reg_play_control.enable,
        m.voice6.reg_volume.left,
        m.voice6.envelope.level,
        m.voice6.output,
    )
}

/// The right accumulator: the six voices' right contributions summed.
pub open spec fn spec_acc_right(m: VsuModel) -> int {
    spec_contribution(
        m.voice1.reg_play_control.enable,
        m.voice1.reg_volume.right,
        m.voice1.envelope.level,
        spec_wave_output(m.voice1.reg_pcm_wave, m.voice1.phase, m.wave_tables),
    ) + spec_contribution(
        m.voice2.reg_play_control.enable,
        m.voice2.reg_volume.right,
        m.voice2.envelope.level,
        spec_wave_output(m.voice2.reg_pcm_wave, m.voice2.phase, m.wave_tables),
    ) + spec_contribution(
        m.voice3.reg_play_control.enable,
        m.voice3.reg_volume.right,
        m.voice3.envelope.level,
        spec_wave_output(m.voice3.reg_pcm_wave, m.voice3.phase, m.wave_tables),
    ) + spec_contribution(
        m.voice4.reg_play_control.enable,
        m.voice4.reg_volume.right,
        m.voice4.envelope.level,
        spec_wave_output(m.voice4.reg_pcm_wave, m.voice4.phase, m.wave_tables),
    ) + spec_contribution(
        m.voice5.reg_play_control.enable,
        m.voice5.reg_volume.right,
        m.voice5.envelope.level,
        spec_wave_output(m.voice5.reg_pcm_wave, m.voice5.phase, m.wave_tables),
    ) + spec_contribution(
        m.voice6.reg_play_control.enable,
        m.voice6.reg_volume.right,
        m.voice6.envelope.level,
        m.voice6.output,
    )
}

/// An accumulator formatted as the emitted 16-bit sample: the low three
/// bits dropped to the hardware DAC's resolution, then shifted up two to
/// center the usable range in the signed 16-bit space.
pub open spec fn spec_frame_value(acc: int) -> i16 {
    ((((acc as u32) & 0xfff8) << 2) as i16)
}

/// The stereo frame one sample tick emits from a given state.
pub open spec fn spec_frame(m: VsuModel) -> (i16, i16) {
    (spec_frame_value(spec_acc_left(m)), spec_frame_value(spec_acc_right(m)))
}

/// State after a host byte write: a wavetable or modulation-table store
/// when the addressed memory is not write-locked, a register decode for the
/// voice windows, the sound-disable register, and no effect anywhere else.
pub open spec fn spec_write_byte(m: VsuModel, addr: u32, value: u8) -> VsuModel {
    if PCM_WAVE_TABLE_0_START <= addr && addr <= PCM_WAVE_TABLE_0_END {
        if spec_channels_active(m) {
            m
        } else {
            VsuModel {
                wave_tables: m.wave_tables.update(
                    ((addr - PCM_WAVE_TABLE_0_START) / 4 + 0x00) as int,
                    value & 0x3f,
                ),
                ..m
            }
        }
    } else if PCM_WAVE_TABLE_1_START <= addr && addr <= PCM_WAVE_TABLE_1_END {
        if spec_channels_active(m) {
            m
        } else {
            VsuModel {
                wave_tables: m.wave_tables.update(
                    ((addr - PCM_WAVE_TABLE_1_START) / 4 + 0x20) as int,
                    value & 0x3f,
                ),
                ..m
            }
        }
    } else if PCM_WAVE_TABLE_2_START <= addr && addr <= PCM_WAVE_TABLE_2_END {
        if spec_channels_active(m) {
            m
        } else {
            VsuModel {
                wave_tables: m.wave_tables.update(
                    ((addr - PCM_WAVE_TABLE_2_START) / 4 + 0x40) as int,
                    value & 0x3f,
                ),
                ..m
            }
        }
    } else if PCM_WAVE_TABLE_3_START <= addr && addr <= PCM_WAVE_TABLE_3_END {
        if spec_channels_active(m) {
            m
        } else {
            VsuModel {
                wave_tables: m.wave_tables.update(
                    ((addr - PCM_WAVE_TABLE_3_START) / 4 + 0x60) as int,
                    value & 0x3f,
                ),
                ..m
            }
        }
    } else if PCM_WAVE_TABLE_4_START <= addr && addr <= PCM_WAVE_TABLE_4_END {
        if spec_channels_active(m) {
            m
        } else {
            VsuModel {
                wave_tables: m.wave_tables.update(
                    ((addr - PCM_WAVE_TABLE_4_START) / 4 + 0x80) as int,
                    value & 0x3f,
                ),
                ..m
            }
        }
    } else if MOD_TABLE_START <= addr && addr <= MOD_TABLE_END {
        if m.voice5.reg_play_control.enable {
            m
        } else {
            VsuModel {
                mod_table: m.mod_table.update(
                    ((addr - MOD_TABLE_START) / 4) as int,
                    spec_as_signed_byte(value),
                ),
                ..m
            }
        }
    } else if addr == VOICE_1_PLAY_CONTROL {
        VsuModel { voice1: spec_sv_write_play_control(m.voice1, value), ..m }
    } else if addr == VOICE_1_VOLUME {
        VsuModel { voice1: StandardVoice { reg_volume: spec_vol_write(value), ..m.voice1 }, ..m }
    } else if addr == VOICE_1_FREQUENCY_LOW {
        VsuModel { voice1: StandardVoice { reg_frequency_low: value as u32, ..m.voice1 }, ..m }
    } else if addr == VOICE_1_FREQUENCY_HIGH {
        VsuModel {
            voice1: StandardVoice { reg_frequency_high: (value & 0x07) as u32, ..m.voice1 },
            ..m
        }
    } else if addr == VOICE_1_ENVELOPE_DATA {
        VsuModel {
            voice1: StandardVoice { envelope: spec_env_write_data(m.voice1.envelope, value), ..m.voice1 },
            ..m
        }
    } else if addr == VOICE_1_ENVELOPE_CONTROL {
        VsuModel {
            voice1: StandardVoice {
                envelope: spec_env_write_control(m.voice1.envelope, value),
                ..m.voice1
            },
            ..m
        }
    } else if addr == VOICE_1_PCM_WAVE {
        VsuModel { voice1: StandardVoice { reg_pcm_wave: (value & 0x07) as u32, ..m.voice1 }, ..m }
    } else if addr == VOICE_2_PLAY_CONTROL {
        VsuModel { voice2: spec_sv_write_play_control(m.voice2, value), ..m }
    } else if addr == VOICE_2_VOLUME {
        VsuModel { voice2: StandardVoice { reg_volume: spec_vol_write(value), ..m.voice2 }, ..m }
    } else if addr == VOICE_2_FREQUENCY_LOW {
        VsuModel { voice2: StandardVoice { reg_frequency_low: value as u32, ..m.voice2 }, ..m }
    } else if addr == VOICE_2_FREQUENCY_HIGH {
        VsuModel {
            voice2: StandardVoice { reg_frequency_high: (value & 0x07) as u32, ..m.voice2 },
            ..m
        }
    } else if addr == VOICE_2_ENVELOPE_DATA {
        VsuModel {
            voice2: StandardVoice { envelope: spec_env_write_data(m.voice2.envelope, value), ..m.voice2 },
            ..m
        }
    } else if addr == VOICE_2_ENVELOPE_CONTROL {
        VsuModel {
            voice2: StandardVoice {
                envelope: spec_env_write_control(m.voice2.envelope, value),
                ..m.voice2
            },
            ..m
        }
    } else if addr == VOICE_2_PCM_WAVE {
        VsuModel { voice2: StandardVoice { reg_pcm_wave: (value & 0x07) as u32, ..m.voice2 }, ..m }
    } else if addr == VOICE_3_PLAY_CONTROL {
        VsuModel { voice3: spec_sv_write_play_control(m.voice3, value), ..m }
    } else if addr == VOICE_3_VOLUME {
        VsuModel { voice3: StandardVoice { reg_volume: spec_vol_write(value), ..m.voice3 }, ..m }
    } else if addr == VOICE_3_FREQUENCY_LOW {
        VsuModel { voice3: StandardVoice { reg_frequency_low: value as u32, ..m.voice3 }, ..m }
    } else if addr == VOICE_3_FREQUENCY_HIGH {
        VsuModel {
            voice3: StandardVoice { reg_frequency_high: (value & 0x07) as u32, ..m.voice3 },
            ..m
        }
    } else if addr == VOICE_3_ENVELOPE_DATA {
        VsuModel {
            voice3: StandardVoice { envelope: spec_env_write_data(m.voice3.envelope, value), ..m.voice3 },
            ..m
        }
    } else if addr == VOICE_3_ENVELOPE_CONTROL {
        VsuModel {
            voice3: StandardVoice {
                envelope: spec_env_write_control(m.voice3.envelope, value),
                ..m.voice3
            },
            ..m
        }
    } else if addr == VOICE_3_PCM_WAVE {
        VsuModel { voice3: StandardVoice { reg_pcm_wave: (value & 0x07) as u32, ..m.voice3 }, ..m }
    } else if addr == VOICE_4_PLAY_CONTROL {
        VsuModel { voice4: spec_sv_write_play_control(m.voice4, value), ..m }
    } else if addr == VOICE_4_VOLUME {
        VsuModel { voice4: StandardVoice { reg_volume: spec_vol_write(value), ..m.voice4 }, ..m }
    } else if addr == VOICE_4_FREQUENCY_LOW {
        VsuModel { voice4: StandardVoice { reg_frequency_low: value as u32, ..m.voice4 }, ..m }
    } else if addr == VOICE_4_FREQUENCY_HIGH {
        VsuModel {
            voice4: StandardVoice { reg_frequency_high: (value & 0x07) as u32, ..m.voice4 },
            ..m
        }
    } else if addr == VOICE_4_ENVELOPE_DATA {
        VsuModel {
            voice4: StandardVoice { envelope: spec_env_write_data(m.voice4.envelope, value), ..m.voice4 },
            ..m
        }
    } else if addr == VOICE_4_ENVELOPE_CONTROL {
        VsuModel {
            voice4: StandardVoice {
                envelope: spec_env_write_control(m.voice4.envelope, value),
                ..m.voice4
            },
            ..m
        }
    } else if addr == VOICE_4_PCM_WAVE {
        VsuModel { voice4: StandardVoice { reg_pcm_wave: (value & 0x07) as u32, ..m.voice4 }, ..m }
    } else if addr == VOICE_5_PLAY_CONTROL {
        VsuModel { voice5: spec_smv_write_play_control(m.voice5, value), ..m }
    } else if addr == VOICE_5_VOLUME {
        VsuModel { voice5: SweepModVoice { reg_volume: spec_vol_write(value), ..m.voice5 }, ..m }
    } else if addr == VOICE_5_FREQUENCY_LOW {
        VsuModel {
            voice5: SweepModVoice {
                reg_frequency_low: value as u32,
                next_frequency_low: value as u32,
                ..m.voice5
            },
            ..m
        }
    } else if addr == VOICE_5_FREQUENCY_HIGH {
        VsuModel {
            voice5: SweepModVoice {
                reg_frequency_high: (value & 0x07) as u32,
                next_frequency_high: (value & 0x07) as u32,
                ..m.voice5
            },
            ..m
        }
    } else if addr == VOICE_5_ENVELOPE_DATA {
        VsuModel {
            voice5: SweepModVoice { envelope: spec_env_write_data(m.voice5.envelope, value), ..m.voice5 },
            ..m
        }
    } else if addr == VOICE_5_ENVELOPE_SWEEP_MOD_CONTROL {
        VsuModel { voice5: spec_smv_write_env_sweep_mod_control(m.voice5, value), ..m }
    } else if addr == VOICE_5_SWEEP_MOD_DATA {
        VsuModel { voice5: spec_smv_write_sweep_mod_data(m.voice5, value), ..m }
    } else if addr == VOICE_5_PCM_WAVE {
        VsuModel { voice5: SweepModVoice { reg_pcm_wave: (value & 0x07) as u32, ..m.voice5 }, ..m }
    } else if addr == VOICE_6_PLAY_CONTROL {
        VsuModel { voice6: spec_nv_write_play_control(m.voice6, value), ..m }
    } else if addr == VOICE_6_VOLUME {
        VsuModel { voice6: NoiseVoice { reg_volume: spec_vol_write(value), ..m.voice6 }, ..m }
    } else if addr == VOICE_6_FREQUENCY_LOW {
        VsuModel { voice6: NoiseVoice { reg_frequency_low: value as u32, ..m.voice6 }, ..m }
    } else if addr == VOICE_6_FREQUENCY_HIGH {
        VsuModel {
            voice6: NoiseVoice { reg_frequency_high: (value & 0x07) as u32, ..m.voice6 },
            ..m
        }
    } else if addr == VOICE_6_ENVELOPE_DATA {
        VsuModel {
            voice6: NoiseVoice { envelope: spec_env_write_data(m.voice6.envelope, value), ..m.voice6 },
            ..m
        }
    } else if addr == VOICE_6_ENVELOPE_NOISE_CONTROL {
        VsuModel { voice6: spec_nv_write_env_noise_control(m.voice6, value), ..m }
    } else if addr == SOUND_DISABLE_REG {
        if value & 0x01 != 0 {
            VsuModel {
                voice1: StandardVoice {
                    reg_play_control: PlayControlReg { enable: false, ..m.voice1.reg_play_control },
                    ..m.voice1
                },
                voice2: StandardVoice {
                    reg_play_control: PlayControlReg { enable: false, ..m.voice2.reg_play_control },
                    ..m.voice2
                },
                voice3: StandardVoice {
                    reg_play_control: PlayControlReg { enable: false, ..m.voice3.reg_play_control },
                    ..m.voice3
                },
                voice4: StandardVoice {
                    reg_play_control: PlayControlReg { enable: false, ..m.voice4.reg_play_control },
                    ..m.voice4
                },
                voice5: SweepModVoice {
                    reg_play_control: PlayControlReg { enable: false, ..m.voice5.reg_play_control },
                    ..m.voice5
                },
                voice6: NoiseVoice {
                    reg_play_control: PlayControlReg { enable: false, ..m.voice6.reg_play_control },
                    ..m.voice6
                },
                ..m
            }
        } else {
            m
        }
    } else {
        m
    }
}

/// The power-on state: both memories zeroed, every voice zeroed, every
/// divider at zero.
pub open spec fn spec_power_on() -> VsuModel {
    VsuModel {
        wave_tables: Seq::new(160, |i: int| 0u8),
        mod_table: Seq::new(32, |i: int| 0i8),
        voice1: crate::wave::spec_sv_new(),
        voice2: crate::wave::spec_sv_new(),
        voice3: crate::wave::spec_sv_new(),
        voice4: crate::wave::spec_sv_new(),
        voice5: crate::sweep::spec_smv_new(),
        voice6: crate::noise::spec_nv_new(),
        duration_clock_counter: 0,
        envelope_clock_counter: 0,
        frequency_clock_counter: 0,
        sweep_mod_clock_counter: 0,
        noise_clock_counter: 0,
        sample_clock_counter: 0,
    }
}

} // verus!
