//! The unit's global guarantees, stated and proved over the model: field
//! ranges, write locking of the sample memories, additivity of clock
//! advances, exact frame pacing, silence after a sound-disable write, and
//! the boundary behaviour of the envelope, sweep, modulation and noise
//! units.

use vstd::prelude::*;

use vstd::arithmetic::div_mod::{
    lemma_basic_div, lemma_fundamental_div_mod, lemma_fundamental_div_mod_converse,
    lemma_small_mod,
};

use crate::mem_map::{
    MOD_TABLE_END, MOD_TABLE_START, PCM_WAVE_TABLE_0_START, PCM_WAVE_TABLE_4_END,
    SOUND_DISABLE_REG, VOICE_1_ENVELOPE_CONTROL, VOICE_1_ENVELOPE_DATA, VOICE_1_FREQUENCY_HIGH,
    VOICE_1_FREQUENCY_LOW, VOICE_1_PCM_WAVE, VOICE_1_PLAY_CONTROL, VOICE_1_VOLUME,
    VOICE_2_ENVELOPE_CONTROL, VOICE_2_ENVELOPE_DATA, VOICE_2_FREQUENCY_HIGH,
    VOICE_2_FREQUENCY_LOW, VOICE_2_PCM_WAVE, VOICE_2_PLAY_CONTROL, VOICE_2_VOLUME,
    VOICE_3_ENVELOPE_CONTROL, VOICE_3_ENVELOPE_DATA, VOICE_3_FREQUENCY_HIGH,
    VOICE_3_FREQUENCY_LOW, VOICE_3_PCM_WAVE, VOICE_3_PLAY_CONTROL, VOICE_3_VOLUME,
    VOICE_4_ENVELOPE_CONTROL, VOICE_4_ENVELOPE_DATA, VOICE_4_FREQUENCY_HIGH,
    VOICE_4_FREQUENCY_LOW, VOICE_4_PCM_WAVE, VOICE_4_PLAY_CONTROL, VOICE_4_VOLUME,
    VOICE_5_ENVELOPE_DATA, VOICE_5_ENVELOPE_SWEEP_MOD_CONTROL, VOICE_5_FREQUENCY_HIGH,
    VOICE_5_FREQUENCY_LOW, VOICE_5_PCM_WAVE, VOICE_5_PLAY_CONTROL, VOICE_5_SWEEP_MOD_DATA,
    VOICE_5_VOLUME, VOICE_6_ENVELOPE_DATA, VOICE_6_ENVELOPE_NOISE_CONTROL,
    VOICE_6_FREQUENCY_HIGH, VOICE_6_FREQUENCY_LOW, VOICE_6_PLAY_CONTROL, VOICE_6_VOLUME,
};
use crate::model::{
    spec_channels_active, spec_frame, spec_pre_sample, spec_run, spec_run_frames, spec_step,
    spec_step_frames, spec_write_byte, VsuModel, SAMPLE_CLOCK_PERIOD,
};
use crate::noise::{spec_lfsr_feedback, spec_tap_index};
use crate::regs::{spec_env_clock, Envelope};
use crate::sweep::{spec_smv_sweep_mod_clock, spec_sweep_result, SweepModVoice};
use crate::wave::spec_freq;

verus! {

/// Every counter a host can observe stays inside its declared width: a
/// well-formed state keeps envelope levels, volumes and phases in their
/// 4-bit, 4-bit and 5-bit ranges, the modulation phase in 0..31, and the
/// noise register in 15 bits. Every constructor and mutator of the unit
/// ensures well-formedness, so these bounds hold after any sequence of
/// writes and advances.
pub proof fn lemma_state_ranges(m: VsuModel)
    requires
        m.wf(),
    ensures
        m.voice1.envelope.level <= 15,
        m.voice2.envelope.level <= 15,
        m.voice3.envelope.level <= 15,
        m.voice4.envelope.level <= 15,
        m.voice5.envelope.level <= 15,
        m.voice6.envelope.level <= 15,
        m.voice1.reg_volume.left <= 15 && m.voice1.reg_volume.right <= 15,
        m.voice2.reg_volume.left <= 15 && m.voice2.reg_volume.right <= 15,
        m.voice3.reg_volume.left <= 15 && m.voice3.reg_volume.right <= 15,
        m.voice4.reg_volume.left <= 15 && m.voice4.reg_volume.right <= 15,
        m.voice5.reg_volume.left <= 15 && m.voice5.reg_volume.right <= 15,
        m.voice6.reg_volume.left <= 15 && m.voice6.reg_volume.right <= 15,
        m.voice1.phase <= 31,
        m.voice2.phase <= 31,
        m.voice3.phase <= 31,
        m.voice4.phase <= 31,
        m.voice5.phase <= 31,
        m.voice5.mod_phase <= 31,
        m.voice6.shift <= 0x7fff,
{
}

/// While any voice is enabled, a write anywhere in the wavetable windows
/// leaves the whole unit — the addressed byte included — unchanged.
pub proof fn lemma_wave_table_write_locked(m: VsuModel, addr: u32, value: u8)
    requires
        spec_channels_active(m),
        PCM_WAVE_TABLE_0_START <= addr <= PCM_WAVE_TABLE_4_END,
    ensures
        spec_write_byte(m, addr, value) == m,
{
}

/// While voice 5 is enabled, a write anywhere in the modulation-table
/// window leaves the whole unit — the addressed byte included — unchanged.
pub proof fn lemma_mod_table_write_locked(m: VsuModel, addr: u32, value: u8)
    requires
        m.voice5.reg_play_control.enable,
        MOD_TABLE_START <= addr <= MOD_TABLE_END,
    ensures
        spec_write_byte(m, addr, value) == m,
{
}

/// Advancing the clock by `a` cycles and then by `b` cycles reaches the
/// same state, and emits the same frames in the same order, as advancing by
/// `a + b` at once.
#[verifier::rlimit(100)]
pub proof fn lemma_run_additive(m: VsuModel, a: nat, b: nat)
    ensures
        spec_run(m, a + b) == spec_run(spec_run(m, a), b),
        spec_run_frames(m, a + b) == spec_run_frames(m, a) + spec_run_frames(spec_run(m, a), b),
    decreases b,
{
    if b == 0 {
        assert(spec_run_frames(m, a + 0) =~= spec_run_frames(m, a) + spec_run_frames(
            spec_run(m, a),
            0,
        ));
    } else {
        lemma_run_additive(m, a, (b - 1) as nat);
        assert(a + b == (a + (b - 1) as nat) + 1);
        assert(spec_run(m, a + b) == spec_step(spec_run(m, (a + b - 1) as nat)));
        assert(spec_run_frames(m, a + b) =~= spec_run_frames(m, a) + spec_run_frames(
            spec_run(m, a),
            b,
        ));
    }
}

/// How one master-clock cycle moves a non-negative counter that wraps at
/// `d`: the remainder steps by one or wraps to zero, and the quotient
/// counts the wraps.
proof fn lemma_div_mod_increment(x: int, d: int)
    requires
        0 < d,
        0 <= x,
    ensures
        (x + 1) % d == if x % d == d - 1 {
            0int
        } else {
            x % d + 1
        },
        (x + 1) / d == if x % d == d - 1 {
            x / d + 1
        } else {
            x / d
        },
{
    lemma_fundamental_div_mod(x, d);
    if x % d == d - 1 {
        assert((x / d + 1) * d == (x / d) * d + d && d * (x / d) == (x / d) * d)
            by (nonlinear_arith);
        lemma_fundamental_div_mod_converse(x + 1, d, x / d + 1, 0);
    } else {
        assert(d * (x / d) == (x / d) * d) by (nonlinear_arith);
        lemma_fundamental_div_mod_converse(x + 1, d, x / d, x % d + 1);
    }
}

/// Frame pacing is exact: starting with the sample divider at `c`, a run of
/// `n` cycles emits exactly `(c + n) / 480` frames and leaves the divider
/// at `(c + n) % 480`.
#[verifier::rlimit(100)]
pub proof fn lemma_sample_pacing(m: VsuModel, n: nat)
    requires
        m.sample_clock_counter < SAMPLE_CLOCK_PERIOD,
    ensures
        spec_run(m, n).sample_clock_counter == (m.sample_clock_counter + n) % (
        SAMPLE_CLOCK_PERIOD as int),
        spec_run_frames(m, n).len() == (m.sample_clock_counter + n) / (SAMPLE_CLOCK_PERIOD as int),
    decreases n,
{
    let d = SAMPLE_CLOCK_PERIOD as int;
    let c = m.sample_clock_counter as int;
    if n == 0 {
        lemma_small_mod(m.sample_clock_counter as nat, SAMPLE_CLOCK_PERIOD as nat);
        lemma_basic_div(c, d);
    } else {
        lemma_sample_pacing(m, (n - 1) as nat);
        let prev = spec_run(m, (n - 1) as nat);
        assert(spec_pre_sample(prev).sample_clock_counter == prev.sample_clock_counter);
        lemma_div_mod_increment(c + n - 1, d);
        assert((c + n - 1) + 1 == c + n);
    }
}

/// A sound-disable write with bit 0 set clears every voice's enable flag.
pub proof fn lemma_sound_disable_clears_enables(m: VsuModel, value: u8)
    requires
        value & 0x01 != 0,
    ensures
        !spec_channels_active(spec_write_byte(m, SOUND_DISABLE_REG, value)),
{
}

/// No clock advance re-enables a voice: one cycle keeps a fully disabled
/// unit fully disabled, and any frame it emits is the zero frame.
proof fn lemma_step_keeps_silence(m: VsuModel)
    requires
        !spec_channels_active(m),
    ensures
        !spec_channels_active(spec_step(m)),
        spec_step_frames(m).len() <= 1,
        forall|i: int|
            0 <= i < spec_step_frames(m).len() ==> spec_step_frames(m)[i] == (0i16, 0i16),
{
    let p = spec_pre_sample(m);
    assert(!spec_channels_active(p));
    if spec_step_frames(m).len() > 0 {
        assert((0u32 & 0xfff8) << 2 == 0u32) by (bit_vector);
        assert(spec_frame(p) == (0i16, 0i16));
    }
}

/// After all voices are disabled — as by a sound-disable write — every
/// further advance emits only zero-valued frames, until some new write
/// enables a voice again.
pub proof fn lemma_silence_while_disabled(m: VsuModel, n: nat)
    requires
        !spec_channels_active(m),
    ensures
        !spec_channels_active(spec_run(m, n)),
        forall|i: int|
            0 <= i < spec_run_frames(m, n).len() ==> spec_run_frames(m, n)[i] == (0i16, 0i16),
    decreases n,
{
    if n > 0 {
        lemma_silence_while_disabled(m, (n - 1) as nat);
        lemma_step_keeps_silence(spec_run(m, (n - 1) as nat));
        assert forall|i: int| 0 <= i < spec_run_frames(m, n).len() implies spec_run_frames(m, n)[i]
            == (0i16, 0i16) by {
            let before = spec_run_frames(m, (n - 1) as nat);
            let last = spec_step_frames(spec_run(m, (n - 1) as nat));
            if i < before.len() {
                assert(spec_run_frames(m, n)[i] == before[i]);
            } else {
                assert(spec_run_frames(m, n)[i] == last[i - before.len()]);
            }
        }
    }
}

/// A down-step of the envelope at level 0 with repeat off leaves the level
/// at 0.
pub proof fn lemma_envelope_floor(e: Envelope)
    requires
        !e.reg_data_direction,
        !e.reg_control_repeat,
        e.level == 0,
    ensures
        spec_env_clock(e).level == 0,
{
}

/// An up-step of the envelope at level 15 with repeat on reloads the level
/// from the reload register.
pub proof fn lemma_envelope_reload_at_top(e: Envelope)
    requires
        e.reg_data_direction,
        e.reg_control_repeat,
        e.reg_control_enable,
        e.level == 15,
        e.envelope_counter + 1 > e.reg_data_step_interval,
    ensures
        spec_env_clock(e).level == e.reg_data_reload,
{
}

/// Sweep overflow shuts the voice off: when the sweep/mod clock fires with
/// the sweep function selected and live, and the swept frequency reaches
/// 2048 or more — as from a live value of 2047 swept upward with shift 0 —
/// voice 5's enable flag is cleared before the next output.
pub proof fn lemma_sweep_overflow_disables(v: SweepModVoice, mod_table: Seq<i8>)
    requires
        v.sweep_mod_counter + 1 >= v.reg_sweep_mod_interval,
        v.reg_sweep_mod_interval != 0,
        v.reg_play_control.enable,
        v.reg_sweep_mod_enable,
        !v.reg_function,
        spec_freq(v.next_frequency_high, v.next_frequency_low) < 2048,
        spec_sweep_result(
            spec_freq(v.next_frequency_high, v.next_frequency_low),
            v.reg_sweep_direction,
            v.reg_sweep_shift_amount,
        ) >= 2048,
    ensures
        !spec_smv_sweep_mod_clock(v, mod_table).reg_play_control.enable,
{
}

/// When the sweep/mod clock commits a latched frequency of 2048 or more,
/// voice 5 shuts off at once and no new frequency is computed. The latch is
/// stored masked to 8 low and 3 high bits, so this commit-time guard covers
/// states built directly; overflow produced by the sweep itself is caught
/// the moment it is computed (`lemma_sweep_overflow_disables`).
pub proof fn lemma_sweep_commit_overflow_disables(v: SweepModVoice, mod_table: Seq<i8>)
    requires
        v.sweep_mod_counter + 1 >= v.reg_sweep_mod_interval,
        spec_freq(v.next_frequency_high, v.next_frequency_low) >= 2048,
    ensures
        !spec_smv_sweep_mod_clock(v, mod_table).reg_play_control.enable,
        spec_smv_sweep_mod_clock(v, mod_table).next_frequency_low == v.next_frequency_low,
        spec_smv_sweep_mod_clock(v, mod_table).next_frequency_high == v.next_frequency_high,
{
}

/// With modulation repeat off, a modulation phase of 31 stays at 31 across
/// any further sweep/mod clock.
pub proof fn lemma_mod_phase_pins_at_end(v: SweepModVoice, mod_table: Seq<i8>)
    requires
        !v.reg_mod_repeat,
        v.mod_phase == 31,
    ensures
        spec_smv_sweep_mod_clock(v, mod_table).mod_phase == 31,
{
}

/// Noise tap control 7 selects tap bit index 11, so the feedback bit is
/// bit 7 xor bit 11 of the shift register.
pub proof fn lemma_noise_tap_seven(shift: u32)
    ensures
        spec_tap_index(7) == 11,
        spec_lfsr_feedback(shift, 7) == ((shift >> 7) ^ (shift >> 11)) & 0x01,
{
}

/// Writing a full register block to voice 1 decodes bit-exactly: every
/// field of the voice reads back as the documented bit field of the byte
/// written to it.
#[verifier::rlimit(100)]
pub proof fn lemma_voice1_register_block_decode(
    m: VsuModel,
    pc: u8,
    vol: u8,
    fl: u8,
    fh: u8,
    ed: u8,
    ec: u8,
    pw: u8,
)
    ensures
        ({
            let w = spec_write_byte(
                spec_write_byte(
                    spec_write_byte(
                        spec_write_byte(
                            spec_write_byte(
                                spec_write_byte(
                                    spec_write_byte(m, VOICE_1_PLAY_CONTROL, pc),
                                    VOICE_1_VOLUME,
                                    vol,
                                ),
                                VOICE_1_FREQUENCY_LOW,
                                fl,
                            ),
                            VOICE_1_FREQUENCY_HIGH,
                            fh,
                        ),
                        VOICE_1_ENVELOPE_DATA,
                        ed,
                    ),
                    VOICE_1_ENVELOPE_CONTROL,
                    ec,
                ),
                VOICE_1_PCM_WAVE,
                pw,
            ).voice1;
            &&& w.reg_play_control.enable == (pc & 0x80 != 0)
            &&& w.reg_play_control.use_duration == (pc & 0x20 != 0)
            &&& w.reg_play_control.duration == (pc & 0x1f) as u32
            &&& w.reg_volume.left == (vol >> 4) as u32
            &&& w.reg_volume.right == (vol & 0x0f) as u32
            &&& w.reg_frequency_low == fl as u32
            &&& w.reg_frequency_high == (fh & 0x07) as u32
            &&& w.envelope.reg_data_reload == (ed >> 4) as u32
            &&& w.envelope.reg_data_direction == (ed & 0x08 != 0)
            &&& w.envelope.reg_data_step_interval == (ed & 0x07) as u32
            &&& w.envelope.level == (ed >> 4) as u32
            &&& w.envelope.reg_control_repeat == (ec & 0x02 != 0)
            &&& w.envelope.reg_control_enable == (ec & 0x01 != 0)
            &&& w.reg_pcm_wave == (pw & 0x07) as u32
        }),
{
}

/// Writing a full register block to voice 2 decodes bit-exactly: every
/// field of the voice reads back as the documented bit field of the byte
/// written to it.
#[verifier::rlimit(100)]
pub proof fn lemma_voice2_register_block_decode(
    m: VsuModel,
    pc: u8,
    vol: u8,
    fl: u8,
    fh: u8,
    ed: u8,
    ec: u8,
    pw: u8,
)
    ensures
        ({
            let w = spec_write_byte(
                spec_write_byte(
                    spec_write_byte(
                        spec_write_byte(
                            spec_write_byte(
                                spec_write_byte(
                                    spec_write_byte(m, VOICE_2_PLAY_CONTROL, pc),
                                    VOICE_2_VOLUME,
                                    vol,
                                ),
                                VOICE_2_FREQUENCY_LOW,
                                fl,
                            ),
                            VOICE_2_FREQUENCY_HIGH,
                            fh,
                        ),
                        VOICE_2_ENVELOPE_DATA,
                        ed,
                    ),
                    VOICE_2_ENVELOPE_CONTROL,
                    ec,
                ),
                VOICE_2_PCM_WAVE,
                pw,
            ).voice2;
            &&& w.reg_play_control.enable == (pc & 0x80 != 0)
            &&& w.reg_play_control.use_duration == (pc & 0x20 != 0)
            &&& w.reg_play_control.duration == (pc & 0x1f) as u32
            &&& w.reg_volume.left == (vol >> 4) as u32
            &&& w.reg_volume.right == (vol & 0x0f) as u32
            &&& w.reg_frequency_low == fl as u32
            &&& w.reg_frequency_high == (fh & 0x07) as u32
            &&& w.envelope.reg_data_reload == (ed >> 4) as u32
            &&& w.envelope.reg_data_direction == (ed & 0x08 != 0)
            &&& w.envelope.reg_data_step_interval == (ed & 0x07) as u32
            &&& w.envelope.level == (ed >> 4) as u32
            &&& w.envelope.reg_control_repeat == (ec & 0x02 != 0)
            &&& w.envelope.reg_control_enable == (ec & 0x01 != 0)
            &&& w.reg_pcm_wave == (pw & 0x07) as u32
        }),
{
}

/// Writing a full register block to voice 3 decodes bit-exactly: every
/// field of the voice reads back as the documented bit field of the byte
/// written to it.
#[verifier::rlimit(100)]
pub proof fn lemma_voice3_register_block_decode(
    m: VsuModel,
    pc: u8,
    vol: u8,
    fl: u8,
    fh: u8,
    ed: u8,
    ec: u8,
    pw: u8,
)
    ensures
        ({
            let w = spec_write_byte(
                spec_write_byte(
                    spec_write_byte(
                        spec_write_byte(
                            spec_write_byte(
                                spec_write_byte(
                                    spec_write_byte(m, VOICE_3_PLAY_CONTROL, pc),
                                    VOICE_3_VOLUME,
                                    vol,
                                ),
                                VOICE_3_FREQUENCY_LOW,
                                fl,
                            ),
                            VOICE_3_FREQUENCY_HIGH,
                            fh,
                        ),
                        VOICE_3_ENVELOPE_DATA,
                        ed,
                    ),
                    VOICE_3_ENVELOPE_CONTROL,
                    ec,
                ),
                VOICE_3_PCM_WAVE,
                pw,
            ).voice3;
            &&& w.reg_play_control.enable == (pc & 0x80 != 0)
            &&& w.reg_play_control.use_duration == (pc & 0x20 != 0)
            &&& w.reg_play_control.duration == (pc & 0x1f) as u32
            &&& w.reg_volume.left == (vol >> 4) as u32
            &&& w.reg_volume.right == (vol & 0x0f) as u32
            &&& w.reg_frequency_low == fl as u32
            &&& w.reg_frequency_high == (fh & 0x07) as u32
            &&& w.envelope.reg_data_reload == (ed >> 4) as u32
            &&& w.envelope.reg_data_direction == (ed & 0x08 != 0)
            &&& w.envelope.reg_data_step_interval == (ed & 0x07) as u32
            &&& w.envelope.level == (ed >> 4) as u32
            &&& w.envelope.reg_control_repeat == (ec & 0x02 != 0)
            &&& w.envelope.reg_control_enable == (ec & 0x01 != 0)
            &&& w.reg_pcm_wave == (pw & 0x07) as u32
        }),
{
}

/// Writing a full register block to voice 4 decodes bit-exactly: every
/// field of the voice reads back as the documented bit field of the byte
/// written to it.
#[verifier::rlimit(100)]
pub proof fn lemma_voice4_register_block_decode(
    m: VsuModel,
    pc: u8,
    vol: u8,
    fl: u8,
    fh: u8,
    ed: u8,
    ec: u8,
    pw: u8,
)
    ensures
        ({
            let w = spec_write_byte(
                spec_write_byte(
                    spec_write_byte(
                        spec_write_byte(
                            spec_write_byte(
                                spec_write_byte(
                                    spec_write_byte(m, VOICE_4_PLAY_CONTROL, pc),
                                    VOICE_4_VOLUME,
                                    vol,
                                ),
                                VOICE_4_FREQUENCY_LOW,
                                fl,
                            ),
                            VOICE_4_FREQUENCY_HIGH,
                            fh,
                        ),
                        VOICE_4_ENVELOPE_DATA,
                        ed,
                    ),
                    VOICE_4_ENVELOPE_CONTROL,
                    ec,
                ),
                VOICE_4_PCM_WAVE,
                pw,
            ).voice4;
            &&& w.reg_play_control.enable == (pc & 0x80 != 0)
            &&& w.reg_play_control.use_duration == (pc & 0x20 != 0)
            &&& w.reg_play_control.duration == (pc & 0x1f) as u32
            &&& w.reg_volume.left == (vol >> 4) as u32
            &&& w.reg_volume.right == (vol & 0x0f) as u32
            &&& w.reg_frequency_low == fl as u32
            &&& w.reg_frequency_high == (fh & 0x07) as u32
            &&& w.envelope.reg_data_reload == (ed >> 4) as u32
            &&& w.envelope.reg_data_direction == (ed & 0x08 != 0)
            &&& w.envelope.reg_data_step_interval == (ed & 0x07) as u32
            &&& w.envelope.level == (ed >> 4) as u32
            &&& w.envelope.reg_control_repeat == (ec & 0x02 != 0)
            &&& w.envelope.reg_control_enable == (ec & 0x01 != 0)
            &&& w.reg_pcm_wave == (pw & 0x07) as u32
        }),
{
}

/// Writing a full register block to voice 5 decodes bit-exactly, its
/// sweep/mod control and data fields included.
#[verifier::rlimit(100)]
pub proof fn lemma_voice5_register_block_decode(
    m: VsuModel,
    pc: u8,
    vol: u8,
    fl: u8,
    fh: u8,
    ed: u8,
    esmc: u8,
    pw: u8,
    smd: u8,
)
    ensures
        ({
            let w = spec_write_byte(
                spec_write_byte(
                    spec_write_byte(
                        spec_write_byte(
                            spec_write_byte(
                                spec_write_byte(
                                    spec_write_byte(
                                        spec_write_byte(m, VOICE_5_PLAY_CONTROL, pc),
                                        VOICE_5_VOLUME,
                                        vol,
                                    ),
                                    VOICE_5_FREQUENCY_LOW,
                                    fl,
                                ),
                                VOICE_5_FREQUENCY_HIGH,
                                fh,
                            ),
                            VOICE_5_ENVELOPE_DATA,
                            ed,
                        ),
                        VOICE_5_ENVELOPE_SWEEP_MOD_CONTROL,
                        esmc,
                    ),
                    VOICE_5_PCM_WAVE,
                    pw,
                ),
                VOICE_5_SWEEP_MOD_DATA,
                smd,
            ).voice5;
            &&& w.reg_play_control.enable == (pc & 0x80 != 0)
            &&& w.reg_play_control.use_duration == (pc & 0x20 != 0)
            &&& w.reg_play_control.duration == (pc & 0x1f) as u32
            &&& w.reg_volume.left == (vol >> 4) as u32
            &&& w.reg_volume.right == (vol & 0x0f) as u32
            &&& w.reg_frequency_low == fl as u32
            &&& w.next_frequency_low == fl as u32
            &&& w.reg_frequency_high == (fh & 0x07) as u32
            &&& w.next_frequency_high == (fh & 0x07) as u32
            &&& w.envelope.reg_data_reload == (ed >> 4) as u32
            &&& w.envelope.reg_data_direction == (ed & 0x08 != 0)
            &&& w.envelope.reg_data_step_interval == (ed & 0x07) as u32
            &&& w.envelope.level == (ed >> 4) as u32
            &&& w.envelope.reg_control_repeat == (esmc & 0x02 != 0)
            &&& w.envelope.reg_control_enable == (esmc & 0x01 != 0)
            &&& w.reg_sweep_mod_enable == ((esmc >> 6) & 0x01 != 0)
            &&& w.reg_mod_repeat == ((esmc >> 5) & 0x01 != 0)
            &&& w.reg_function == ((esmc >> 4) & 0x01 != 0)
            &&& w.reg_pcm_wave == (pw & 0x07) as u32
            &&& w.reg_sweep_mod_base_interval == ((smd >> 7) & 0x01 != 0)
            &&& w.reg_sweep_mod_interval == ((smd >> 4) & 0x07) as u32
            &&& w.reg_sweep_direction == ((smd >> 3) & 0x01 != 0)
            &&& w.reg_sweep_shift_amount == (smd & 0x07) as u32
        }),
{
}

/// Writing a full register block to voice 6 decodes bit-exactly, its noise
/// tap control included.
#[verifier::rlimit(100)]
pub proof fn lemma_voice6_register_block_decode(
    m: VsuModel,
    pc: u8,
    vol: u8,
    fl: u8,
    fh: u8,
    ed: u8,
    enc: u8,
)
    ensures
        ({
            let w = spec_write_byte(
                spec_write_byte(
                    spec_write_byte(
                        spec_write_byte(
                            spec_write_byte(
                                spec_write_byte(m, VOICE_6_PLAY_CONTROL, pc),
                                VOICE_6_VOLUME,
                                vol,
                            ),
                            VOICE_6_FREQUENCY_LOW,
                            fl,
                        ),
                        VOICE_6_FREQUENCY_HIGH,
                        fh,
                    ),
                    VOICE_6_ENVELOPE_DATA,
                    ed,
                ),
                VOICE_6_ENVELOPE_NOISE_CONTROL,
                enc,
            ).voice6;
            &&& w.reg_play_control.enable == (pc & 0x80 != 0)
            &&& w.reg_play_control.use_duration == (pc & 0x20 != 0)
            &&& w.reg_play_control.duration == (pc & 0x1f) as u32
            &&& w.reg_volume.left == (vol >> 4) as u32
            &&& w.reg_volume.right == (vol & 0x0f) as u32
            &&& w.reg_frequency_low == fl as u32
            &&& w.reg_frequency_high == (fh & 0x07) as u32
            &&& w.envelope.reg_data_reload == (ed >> 4) as u32
            &&& w.envelope.reg_data_direction == (ed & 0x08 != 0)
            &&& w.envelope.reg_data_step_interval == (ed & 0x07) as u32
            &&& w.envelope.level == (ed >> 4) as u32
            &&& w.envelope.reg_control_repeat == (enc & 0x02 != 0)
            &&& w.envelope.reg_control_enable == (enc & 0x01 != 0)
            &&& w.reg_noise_control == ((enc >> 4) & 0x07) as u32
        }),
{
}

} // verus!
