//! The plain wavetable voice used by voices 1 through 4: a phase
//! accumulator stepping through one of the five 32-entry wavetables at the
//! rate selected by the 11-bit frequency register.

use vstd::prelude::*;

use crate::regs::{Envelope, PlayControlReg, VolumeReg};
use crate::regs::{
    spec_env_write_control, spec_env_write_data, spec_pc_write, spec_vol_write,
};

verus! {

/// A wavetable store holds five 32-entry tables of 6-bit samples.
pub open spec fn spec_wave_store_wf(s: Seq<u8>) -> bool {
    &&& s.len() == 160
    &&& forall|i: int| 0 <= i < s.len() ==> s[i] <= 63
}

/// Storing a 6-bit sample in a well-formed wavetable store keeps it
/// well-formed.
pub proof fn lemma_wave_store_update(s: Seq<u8>, i: int, v: u8)
    requires
        spec_wave_store_wf(s),
        0 <= i < 160,
        v <= 63,
    ensures
        spec_wave_store_wf(s.update(i, v)),
{
    assert forall|j: int| 0 <= j < s.update(i, v).len() implies s.update(i, v)[j] <= 63 by {
        if j != i {
            assert(s.update(i, v)[j] == s[j]);
        }
    }
}

/// The 11-bit frequency value composed from a register pair.
pub open spec fn spec_freq(high: u32, low: u32) -> u32 {
    (high << 8) | low
}

/// What a wavetable voice currently outputs: entry `phase` of the selected
/// table, or silence for the out-of-range selectors 5..7.
pub open spec fn spec_wave_output(pcm_wave: u32, phase: u32, wave_tables: Seq<u8>) -> u32 {
    if pcm_wave > 4 {
        0
    } else {
        wave_tables[pcm_wave * 32 + phase] as u32
    }
}

/// The power-on wavetable voice: everything zeroed.
pub open spec fn spec_sv_new() -> StandardVoice {
    StandardVoice {
        reg_play_control: PlayControlReg {
            enable: false,
            use_duration: false,
            duration: 0u32,
            duration_counter: 0u32,
        },
        reg_volume: VolumeReg { left: 0u32, right: 0u32 },
        reg_frequency_low: 0u32,
        reg_frequency_high: 0u32,
        envelope: Envelope {
            reg_data_reload: 0u32,
            reg_data_direction: false,
            reg_data_step_interval: 0u32,
            reg_control_repeat: false,
            reg_control_enable: false,
            level: 0u32,
            envelope_counter: 0u32,
        },
        reg_pcm_wave: 0u32,
        frequency_counter: 0u32,
        phase: 0u32,
    }
}

/// Wavetable voice: play control, volume, an 11-bit frequency register pair,
/// an envelope, a table selector, and the oscillator state.
pub struct StandardVoice {
    pub reg_play_control: PlayControlReg,
    pub reg_volume: VolumeReg,
    pub reg_frequency_low: u32,
    pub reg_frequency_high: u32,
    pub envelope: Envelope,
    pub reg_pcm_wave: u32,
    pub frequency_counter: u32,
    pub phase: u32,
}

/// State after a host write to the play-control register: enabling the voice
/// restarts the envelope counter and the oscillator.
pub open spec fn spec_sv_write_play_control(v: StandardVoice, value: u8) -> StandardVoice {
    let pc = spec_pc_write(v.reg_play_control, value);
    if pc.enable {
        StandardVoice {
            reg_play_control: pc,
            envelope: Envelope { envelope_counter: 0, ..v.envelope },
            frequency_counter: 0,
            phase: 0,
            ..v
        }
    } else {
        StandardVoice { reg_play_control: pc, ..v }
    }
}

/// State after one frequency-clock tick: the counter advances, and on
/// reaching the period `2048 - frequency` the phase steps, modulo 32.
pub open spec fn spec_sv_frequency_clock(v: StandardVoice) -> StandardVoice {
    if v.frequency_counter + 1 >= 2048 - spec_freq(v.reg_frequency_high, v.reg_frequency_low) {
        StandardVoice { frequency_counter: 0, phase: ((v.phase + 1) as u32) & 31, ..v }
    } else {
        StandardVoice { frequency_counter: (v.frequency_counter + 1) as u32, ..v }
    }
}

impl StandardVoice {
    pub open spec fn wf(self) -> bool {
        &&& self.reg_play_control.wf()
        &&& self.reg_volume.wf()
        &&& self.envelope.wf()
        &&& self.reg_frequency_low <= 255
        &&& self.reg_frequency_high <= 7
        &&& self.reg_pcm_wave <= 7
        &&& self.frequency_counter <= 2047
        &&& self.phase <= 31
    }

    pub fn new() -> (v: StandardVoice)
        ensures
            v == spec_sv_new(),
            v.wf(),
    {
        StandardVoice {
            reg_play_control: PlayControlReg::new(),
            reg_volume: VolumeReg::new(),
            reg_frequency_low: 0,
            reg_frequency_high: 0,
            envelope: Envelope::new(),
            reg_pcm_wave: 0,
            frequency_counter: 0,
            phase: 0,
        }
    }

    pub fn write_play_control_reg(&mut self, value: u8)
        ensures
            *final(self) == spec_sv_write_play_control(*old(self), value),
            old(self).wf() ==> final(self).wf(),
    {
        self.reg_play_control.write(value);
        if self.reg_play_control.enable {
            self.envelope.envelope_counter = 0;
            self.frequency_counter = 0;
            self.phase = 0;
        }
    }

    pub fn write_volume_reg(&mut self, value: u8)
        ensures
            *final(self) == (StandardVoice { reg_volume: spec_vol_write(value), ..*old(self) }),
            old(self).wf() ==> final(self).wf(),
    {
        self.reg_volume.write(value);
    }

    pub fn write_frequency_low_reg(&mut self, value: u8)
        ensures
            *final(self) == (StandardVoice { reg_frequency_low: value as u32, ..*old(self) }),
            old(self).wf() ==> final(self).wf(),
    {
        self.reg_frequency_low = value as u32;
    }

    pub fn write_frequency_high_reg(&mut self, value: u8)
        ensures
            *final(self) == (StandardVoice {
                reg_frequency_high: (value & 0x07) as u32,
                ..*old(self)
            }),
            old(self).wf() ==> final(self).wf(),
    {
        proof {
            crate::bits::lemma_u8_and_bound(value, 0x07);
        }
        self.reg_frequency_high = (value & 0x07) as u32;
    }

    pub fn write_envelope_data_reg(&mut self, value: u8)
        ensures
            *final(self) == (StandardVoice {
                envelope: spec_env_write_data(old(self).envelope, value),
                ..*old(self)
            }),
            old(self).wf() ==> final(self).wf(),
    {
        self.envelope.write_data_reg(value);
    }

    pub fn write_envelope_control_reg(&mut self, value: u8)
        ensures
            *final(self) == (StandardVoice {
                envelope: spec_env_write_control(old(self).envelope, value),
                ..*old(self)
            }),
            old(self).wf() ==> final(self).wf(),
    {
        self.envelope.write_control_reg(value);
    }

    pub fn write_pcm_wave_reg(&mut self, value: u8)
        ensures
            *final(self) == (StandardVoice { reg_pcm_wave: (value & 0x07) as u32, ..*old(self) }),
            old(self).wf() ==> final(self).wf(),
    {
        proof {
            crate::bits::lemma_u8_and_bound(value, 0x07);
        }
        self.reg_pcm_wave = (value & 0x07) as u32;
    }

    pub fn frequency_clock(&mut self)
        requires
            old(self).wf(),
        ensures
            *final(self) == spec_sv_frequency_clock(*old(self)),
            final(self).wf(),
    {
        proof {
            crate::bits::lemma_freq_compose(self.reg_frequency_high, self.reg_frequency_low);
        }
        self.frequency_counter = self.frequency_counter + 1;
        if self.frequency_counter >= 2048 - ((self.reg_frequency_high << 8)
            | self.reg_frequency_low) {
            self.frequency_counter = 0;
            proof {
                crate::bits::lemma_u32_and_bound((self.phase + 1) as u32, 31);
            }
            self.phase = (self.phase + 1) & 31;
        }
    }

    /// The current 6-bit wavetable sample, or 0 for selectors 5..7.
    pub fn output(&self, wave_tables: &Vec<u8>) -> (out: u32)
        requires
            self.wf(),
            spec_wave_store_wf(wave_tables@),
        ensures
            out == spec_wave_output(self.reg_pcm_wave, self.phase, wave_tables@),
            out <= 63,
    {
        if self.reg_pcm_wave > 4 {
            return 0;
        }
        wave_tables[(self.reg_pcm_wave * 32 + self.phase) as usize] as u32
    }
}

} // verus!
