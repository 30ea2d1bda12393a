//! The sweep/modulation voice (voice 5): a wavetable voice whose oscillator
//! runs on a live frequency pair, periodically recomputed either by shifting
//! the live value (sweep) or by adding modulation-table entries to the staged
//! register value (modulation).

use vstd::prelude::*;

use vstd::arithmetic::div_mod::lemma_mod_add_multiples_vanish;

use crate::regs::{Envelope, PlayControlReg, VolumeReg};
use crate::regs::{
    spec_env_write_control, spec_env_write_data, spec_pc_write, spec_vol_write,
};
use crate::wave::spec_freq;

verus! {

/// The modulation table holds 32 signed bytes.
pub open spec fn spec_mod_store_wf(s: Seq<i8>) -> bool {
    s.len() == 32
}

/// The swept frequency: the live value shifted right by the shift amount and
/// then added to (direction set) or subtracted from (direction clear) the
/// live value. With the live value at most 2047 the subtraction cannot go
/// below zero, so no wrap-around is reachable through the registers.
pub open spec fn spec_sweep_result(freq: u32, direction: bool, shift_amount: u32) -> u32 {
    let sweep_value = freq >> shift_amount;
    if direction {
        (freq + sweep_value) as u32
    } else {
        (freq - sweep_value) as u32
    }
}

/// The modulated frequency: the staged register frequency plus the current
/// modulation-table entry, masked to 11 bits.
pub open spec fn spec_mod_result(reg_freq: u32, entry: i8) -> u32 {
    ((reg_freq + entry) % 2048) as u32
}

/// The next modulation phase: it pins at 31 when repeat is off, and
/// otherwise advances modulo 32.
pub open spec fn spec_next_mod_phase(mod_repeat: bool, mod_phase: u32) -> u32 {
    if !mod_repeat && mod_phase == 31 {
        31
    } else {
        ((mod_phase + 1) as u32) & 31
    }
}

/// Sweep/modulation voice state. The `reg_frequency_*` pair is what the host
/// last wrote, the `frequency_*` pair is what the oscillator runs on, and
/// the `next_frequency_*` pair is the latch committed into the live pair on
/// the next sweep/mod clock.
pub struct SweepModVoice {
    pub reg_play_control: PlayControlReg,
    pub reg_volume: VolumeReg,
    pub reg_frequency_low: u32,
    pub reg_frequency_high: u32,
    pub frequency_low: u32,
    pub frequency_high: u32,
    pub next_frequency_low: u32,
    pub next_frequency_high: u32,
    pub envelope: Envelope,
    pub reg_sweep_mod_enable: bool,
    pub reg_mod_repeat: bool,
    pub reg_function: bool,
    pub reg_sweep_mod_base_interval: bool,
    pub reg_sweep_mod_interval: u32,
    pub reg_sweep_direction: bool,
    pub reg_sweep_shift_amount: u32,
    pub reg_pcm_wave: u32,
    pub frequency_counter: u32,
    pub phase: u32,
    pub sweep_mod_counter: u32,
    pub mod_phase: u32,
}

/// State after a host write to the play-control register: enabling the voice
/// restarts the envelope counter, the oscillator, and the sweep/mod unit.
pub open spec fn spec_smv_write_play_control(v: SweepModVoice, value: u8) -> SweepModVoice {
    let pc = spec_pc_write(v.reg_play_control, value);
    if pc.enable {
        SweepModVoice {
            reg_play_control: pc,
            envelope: Envelope { envelope_counter: 0, ..v.envelope },
            frequency_counter: 0,
            phase: 0,
            sweep_mod_counter: 0,
            mod_phase: 0,
            ..v
        }
    } else {
        SweepModVoice { reg_play_control: pc, ..v }
    }
}

/// State after a host write to the shared envelope and sweep/mod control
/// register: the low bits go to the envelope, bit 4 selects the function
/// (clear = sweep, set = modulation), bit 5 the modulation repeat, bit 6 the
/// sweep/mod enable.
pub open spec fn spec_smv_write_env_sweep_mod_control(v: SweepModVoice, value: u8) -> SweepModVoice {
    SweepModVoice {
        envelope: spec_env_write_control(v.envelope, value),
        reg_sweep_mod_enable: (value >> 6) & 0x01 != 0,
        reg_mod_repeat: (value >> 5) & 0x01 != 0,
        reg_function: (value >> 4) & 0x01 != 0,
        ..v
    }
}

/// State after a host write to the sweep/mod data register: bit 7 selects
/// the long base interval, bits 6..4 the sweep interval, bit 3 the sweep
/// direction, bits 2..0 the shift amount.
pub open spec fn spec_smv_write_sweep_mod_data(v: SweepModVoice, value: u8) -> SweepModVoice {
    SweepModVoice {
        reg_sweep_mod_base_interval: (value >> 7) & 0x01 != 0,
        reg_sweep_mod_interval: ((value >> 4) & 0x07) as u32,
        reg_sweep_direction: (value >> 3) & 0x01 != 0,
        reg_sweep_shift_amount: (value & 0x07) as u32,
        ..v
    }
}

/// State after one frequency-clock tick: as for the plain wavetable voice,
/// but the period is taken from the live frequency pair.
pub open spec fn spec_smv_frequency_clock(v: SweepModVoice) -> SweepModVoice {
    if v.frequency_counter + 1 >= 2048 - spec_freq(v.frequency_high, v.frequency_low) {
        SweepModVoice { frequency_counter: 0, phase: ((v.phase + 1) as u32) & 31, ..v }
    } else {
        SweepModVoice { frequency_counter: (v.frequency_counter + 1) as u32, ..v }
    }
}

/// State after one sweep/mod clock. When the interval counter fires, the
/// latched next frequency is committed to the live pair; a committed value
/// of 2048 or more shuts the voice off. Then, while the voice and the
/// sweep/mod unit are enabled and the interval is nonzero, a new frequency
/// is computed — swept from the live value or modulated from the staged
/// registers. A swept result of 2048 or more overflows the 11-bit range
/// and shuts the voice off at once, before the next output. The result is
/// latched for the next commit, split into a low byte and a 3-bit high
/// part.
pub open spec fn spec_smv_sweep_mod_clock(v: SweepModVoice, mod_table: Seq<i8>) -> SweepModVoice {
    if v.sweep_mod_counter + 1 >= v.reg_sweep_mod_interval {
        let committed = SweepModVoice {
            sweep_mod_counter: 0,
            frequency_low: v.next_frequency_low,
            frequency_high: v.next_frequency_high,
            ..v
        };
        let freq = spec_freq(committed.frequency_high, committed.frequency_low);
        let checked = if freq >= 2048 {
            SweepModVoice {
                reg_play_control: PlayControlReg { enable: false, ..committed.reg_play_control },
                ..committed
            }
        } else {
            committed
        };
        if !checked.reg_play_control.enable || !checked.reg_sweep_mod_enable
            || checked.reg_sweep_mod_interval == 0 {
            checked
        } else {
            let new_freq = if !checked.reg_function {
                spec_sweep_result(freq, checked.reg_sweep_direction, checked.reg_sweep_shift_amount)
            } else {
                spec_mod_result(
                    spec_freq(checked.reg_frequency_high, checked.reg_frequency_low),
                    mod_table[checked.mod_phase as int],
                )
            };
            let guarded = if !checked.reg_function && new_freq >= 2048 {
                SweepModVoice {
                    reg_play_control: PlayControlReg { enable: false, ..checked.reg_play_control },
                    ..checked
                }
            } else {
                checked
            };
            let stepped = if checked.reg_function {
                SweepModVoice {
                    mod_phase: spec_next_mod_phase(checked.reg_mod_repeat, checked.mod_phase),
                    ..guarded
                }
            } else {
                guarded
            };
            SweepModVoice {
                next_frequency_low: new_freq & 0xff,
                next_frequency_high: (new_freq >> 8) & 0x07,
                ..stepped
            }
        }
    } else {
        SweepModVoice { sweep_mod_counter: (v.sweep_mod_counter + 1) as u32, ..v }
    }
}

impl SweepModVoice {
    pub open spec fn wf(self) -> bool {
        &&& self.reg_play_control.wf()
        &&& self.reg_volume.wf()
        &&& self.envelope.wf()
        &&& self.reg_frequency_low <= 255
        &&& self.reg_frequency_high <= 7
        &&& self.frequency_low <= 255
        &&& self.frequency_high <= 7
        &&& self.next_frequency_low <= 255
        &&& self.next_frequency_high <= 7
        &&& self.reg_sweep_mod_interval <= 7
        &&& self.reg_sweep_shift_amount <= 7
        &&& self.reg_pcm_wave <= 7
        &&& self.frequency_counter <= 2047
        &&& self.phase <= 31
        &&& self.sweep_mod_counter <= 7
        &&& self.mod_phase <= 31
    }

    pub fn new() -> (v: SweepModVoice)
        ensures
            v == spec_smv_new(),
            v.wf(),
    {
        SweepModVoice {
            reg_play_control: PlayControlReg::new(),
            reg_volume: VolumeReg::new(),
            reg_frequency_low: 0,
            reg_frequency_high: 0,
            frequency_low: 0,
            frequency_high: 0,
            next_frequency_low: 0,
            next_frequency_high: 0,
            envelope: Envelope::new(),
            reg_sweep_mod_enable: false,
            reg_mod_repeat: false,
            reg_function: false,
            reg_sweep_mod_base_interval: false,
            reg_sweep_mod_interval: 0,
            reg_sweep_direction: false,
            reg_sweep_shift_amount: 0,
            reg_pcm_wave: 0,
            frequency_counter: 0,
            phase: 0,
            sweep_mod_counter: 0,
            mod_phase: 0,
        }
    }

    pub fn write_play_control_reg(&mut self, value: u8)
        ensures
            *final(self) == spec_smv_write_play_control(*old(self), value),
            old(self).wf() ==> final(self).wf(),
    {
        self.reg_play_control.write(value);
        if self.reg_play_control.enable {
            self.envelope.envelope_counter = 0;
            self.frequency_counter = 0;
            self.phase = 0;
            self.sweep_mod_counter = 0;
            self.mod_phase = 0;
        }
    }

    pub fn write_volume_reg(&mut self, value: u8)
        ensures
            *final(self) == (SweepModVoice { reg_volume: spec_vol_write(value), ..*old(self) }),
            old(self).wf() ==> final(self).wf(),
    {
        self.reg_volume.write(value);
    }

    /// Frequency-low writes also refresh the latch committed on the next
    /// sweep/mod clock.
    pub fn write_frequency_low_reg(&mut self, value: u8)
        ensures
            *final(self) == (SweepModVoice {
                reg_frequency_low: value as u32,
                next_frequency_low: value as u32,
                ..*old(self)
            }),
            old(self).wf() ==> final(self).wf(),
    {
        self.reg_frequency_low = value as u32;
        self.next_frequency_low = self.reg_frequency_low;
    }

    pub fn write_frequency_high_reg(&mut self, value: u8)
        ensures
            *final(self) == (SweepModVoice {
                reg_frequency_high: (value & 0x07) as u32,
                next_frequency_high: (value & 0x07) as u32,
                ..*old(self)
            }),
            old(self).wf() ==> final(self).wf(),
    {
        proof {
            crate::bits::lemma_u8_and_bound(value, 0x07);
        }
        self.reg_frequency_high = (value & 0x07) as u32;
        self.next_frequency_high = self.reg_frequency_high;
    }

    pub fn write_envelope_data_reg(&mut self, value: u8)
        ensures
            *final(self) == (SweepModVoice {
                envelope: spec_env_write_data(old(self).envelope, value),
                ..*old(self)
            }),
            old(self).wf() ==> final(self).wf(),
    {
        self.envelope.write_data_reg(value);
    }

    pub fn write_envelope_sweep_mod_control_reg(&mut self, value: u8)
        ensures
            *final(self) == spec_smv_write_env_sweep_mod_control(*old(self), value),
            old(self).wf() ==> final(self).wf(),
    {
        self.envelope.write_control_reg(value);
        self.reg_sweep_mod_enable = (value >> 6) & 0x01 != 0;
        self.reg_mod_repeat = (value >> 5) & 0x01 != 0;
        self.reg_function = (value >> 4) & 0x01 != 0;
    }

    pub fn write_sweep_mod_data_reg(&mut self, value: u8)
        ensures
            *final(self) == spec_smv_write_sweep_mod_data(*old(self), value),
            old(self).wf() ==> final(self).wf(),
    {
        proof {
            crate::bits::lemma_u8_and_bound(value >> 4, 0x07);
            crate::bits::lemma_u8_and_bound(value, 0x07);
        }
        self.reg_sweep_mod_base_interval = (value >> 7) & 0x01 != 0;
        self.reg_sweep_mod_interval = ((value >> 4) & 0x07) as u32;
        self.reg_sweep_direction = (value >> 3) & 0x01 != 0;
        self.reg_sweep_shift_amount = (value & 0x07) as u32;
    }

    pub fn write_pcm_wave_reg(&mut self, value: u8)
        ensures
            *final(self) == (SweepModVoice { reg_pcm_wave: (value & 0x07) as u32, ..*old(self) }),
            old(self).wf() ==> final(self).wf(),
    {
        proof {
            crate::bits::lemma_u8_and_bound(value, 0x07);
        }
        self.reg_pcm_wave = (value & 0x07) as u32;
    }

    pub fn frequency_clock(&mut self)
        requires
            old(self).wf(),
        ensures
            *final(self) == spec_smv_frequency_clock(*old(self)),
            final(self).wf(),
    {
        proof {
            crate::bits::lemma_freq_compose(self.frequency_high, self.frequency_low);
        }
        self.frequency_counter = self.frequency_counter + 1;
        if self.frequency_counter >= 2048 - ((self.frequency_high << 8) | self.frequency_low) {
            self.frequency_counter = 0;
            proof {
                crate::bits::lemma_u32_and_bound((self.phase + 1) as u32, 31);
            }
            self.phase = (self.phase + 1) & 31;
        }
    }

    pub fn sweep_mod_clock(&mut self, mod_table: &Vec<i8>)
        requires
            old(self).wf(),
            spec_mod_store_wf(mod_table@),
        ensures
            *final(self) == spec_smv_sweep_mod_clock(*old(self), mod_table@),
            final(self).wf(),
    {
        self.sweep_mod_counter = self.sweep_mod_counter + 1;
        if self.sweep_mod_counter >= self.reg_sweep_mod_interval {
            self.sweep_mod_counter = 0;
            self.frequency_low = self.next_frequency_low;
            self.frequency_high = self.next_frequency_high;
            proof {
                crate::bits::lemma_freq_compose(self.frequency_high, self.frequency_low);
            }
            let freq: u32 = (self.frequency_high << 8) | self.frequency_low;
            if freq >= 2048 {
                self.reg_play_control.enable = false;
            }
            if !self.reg_play_control.enable || !self.reg_sweep_mod_enable
                || self.reg_sweep_mod_interval == 0 {
                return ;
            }
            let new_freq: u32 = if !self.reg_function {
                // Sweep
                proof {
                    crate::bits::lemma_u32_shr_le(freq, self.reg_sweep_shift_amount);
                }
                let sweep_value: u32 = freq >> self.reg_sweep_shift_amount;
                let swept: u32 = if !self.reg_sweep_direction {
                    freq - sweep_value
                } else {
                    freq + sweep_value
                };
                if swept >= 2048 {
                    self.reg_play_control.enable = false;
                }
                swept
            } else {
                // Mod
                proof {
                    crate::bits::lemma_freq_compose(self.reg_frequency_high, self.reg_frequency_low);
                }
                let reg_freq: u32 = (self.reg_frequency_high << 8) | self.reg_frequency_low;
                let entry: i32 = mod_table[self.mod_phase as usize] as i32;
                let shifted: u32 = reg_freq + 1920 + ((entry + 128) as u32);
                let masked: u32 = shifted % 2048;
                proof {
                    lemma_mod_add_multiples_vanish(reg_freq + entry, 2048);
                    assert(masked == spec_mod_result(reg_freq, mod_table@[self.mod_phase as int]));
                }
                proof {
                    crate::bits::lemma_u32_and_bound((self.mod_phase + 1) as u32, 31);
                }
                self.mod_phase = if !self.reg_mod_repeat && self.mod_phase == 31 {
                    31
                } else {
                    (self.mod_phase + 1) & 31
                };
                masked
            };
            proof {
                crate::bits::lemma_u32_and_bound(new_freq, 0xff);
                crate::bits::lemma_u32_and_bound(new_freq >> 8, 0x07);
            }
            self.next_frequency_low = new_freq & 0xff;
            self.next_frequency_high = (new_freq >> 8) & 0x07;
        }
    }

    /// The current 6-bit wavetable sample, or 0 for selectors 5..7.
    pub fn output(&self, wave_tables: &Vec<u8>) -> (out: u32)
        requires
            self.wf(),
            crate::wave::spec_wave_store_wf(wave_tables@),
        ensures
            out == crate::wave::spec_wave_output(self.reg_pcm_wave, self.phase, wave_tables@),
            out <= 63,
    {
        if self.reg_pcm_wave > 4 {
            return 0;
        }
        wave_tables[(self.reg_pcm_wave * 32 + self.phase) as usize] as u32
    }
}

/// The power-on sweep/mod voice: everything zeroed.
pub open spec fn spec_smv_new() -> SweepModVoice {
    SweepModVoice {
        reg_play_control: PlayControlReg {
            enable: false,
            use_duration: false,
            duration: 0u32,
            duration_counter: 0u32,
        },
        reg_volume: VolumeReg { left: 0u32, right: 0u32 },
        reg_frequency_low: 0u32,
        reg_frequency_high: 0u32,
        frequency_low: 0u32,
        frequency_high: 0u32,
        next_frequency_low: 0u32,
        next_frequency_high: 0u32,
        envelope: Envelope {
            reg_data_reload: 0u32,
            reg_data_direction: false,
            reg_data_step_interval: 0u32,
            reg_control_repeat: false,
            reg_control_enable: false,
            level: 0u32,
            envelope_counter: 0u32,
        },
        reg_sweep_mod_enable: false,
        reg_mod_repeat: false,
        reg_function: false,
        reg_sweep_mod_base_interval: false,
        reg_sweep_mod_interval: 0u32,
        reg_sweep_direction: false,
        reg_sweep_shift_amount: 0u32,
        reg_pcm_wave: 0u32,
        frequency_counter: 0u32,
        phase: 0u32,
        sweep_mod_counter: 0u32,
        mod_phase: 0u32,
    }
}

} // verus!
