//! The noise voice (voice 6): a 15-bit linear-feedback shift register
//! clocked at the rate selected by the frequency register pair, with the tap
//! position chosen by a 3-bit control field.

use vstd::prelude::*;

use crate::regs::{Envelope, PlayControlReg, VolumeReg};
use crate::regs::{
    spec_env_write_control, spec_env_write_data, spec_pc_write, spec_vol_write,
};
use crate::wave::spec_freq;

verus! {

/// The feedback tap bit index selected by the 3-bit noise control field.
pub open spec fn spec_tap_index(control: u32) -> u32 {
    if control == 0 {
        14
    } else if control == 1 {
        10
    } else if control == 2 {
        13
    } else if control == 3 {
        4
    } else if control == 4 {
        8
    } else if control == 5 {
        6
    } else if control == 6 {
        9
    } else {
        11
    }
}

/// The feedback bit: bit 7 of the register xor-ed with the selected tap bit.
pub open spec fn spec_lfsr_feedback(shift: u32, control: u32) -> u32 {
    ((shift >> 7) ^ (shift >> spec_tap_index(control))) & 0x01
}

/// The register after one step: shifted left by one, the feedback bit moved
/// in at the bottom, kept to 15 bits.
pub open spec fn spec_lfsr_next(shift: u32, control: u32) -> u32 {
    ((shift << 1) | spec_lfsr_feedback(shift, control)) & 0x7fff
}

/// The audio bit sampled from one step, in the same 0..63 range as a
/// wavetable sample: 63 when the feedback bit is clear, 0 when it is set.
pub open spec fn spec_lfsr_output(shift: u32, control: u32) -> u32 {
    if spec_lfsr_feedback(shift, control) == 0 {
        0x3f
    } else {
        0
    }
}

/// Noise voice state. `output` holds the last sampled audio bit, kept
/// between steps.
pub struct NoiseVoice {
    pub reg_play_control: PlayControlReg,
    pub reg_volume: VolumeReg,
    pub reg_frequency_low: u32,
    pub reg_frequency_high: u32,
    pub envelope: Envelope,
    pub reg_noise_control: u32,
    pub frequency_counter: u32,
    pub shift: u32,
    pub output: u32,
}

/// State after a host write to the play-control register: enabling the voice
/// restarts the envelope counter and the noise clock and seeds the shift
/// register with all ones.
pub open spec fn spec_nv_write_play_control(v: NoiseVoice, value: u8) -> NoiseVoice {
    let pc = spec_pc_write(v.reg_play_control, value);
    if pc.enable {
        NoiseVoice {
            reg_play_control: pc,
            envelope: Envelope { envelope_counter: 0, ..v.envelope },
            frequency_counter: 0,
            shift: 0x7fff,
            ..v
        }
    } else {
        NoiseVoice { reg_play_control: pc, ..v }
    }
}

/// State after a host write to the shared envelope and noise control
/// register: bits 6..4 select the tap, the rest goes to the envelope.
pub open spec fn spec_nv_write_env_noise_control(v: NoiseVoice, value: u8) -> NoiseVoice {
    NoiseVoice {
        reg_noise_control: ((value >> 4) & 0x07) as u32,
        envelope: spec_env_write_control(v.envelope, value),
        ..v
    }
}

/// State after one noise-clock tick: the counter advances, and on reaching
/// the period `2048 - frequency` the shift register steps and a new audio
/// bit is sampled.
pub open spec fn spec_nv_noise_clock(v: NoiseVoice) -> NoiseVoice {
    if v.frequency_counter + 1 >= 2048 - spec_freq(v.reg_frequency_high, v.reg_frequency_low) {
        NoiseVoice {
            frequency_counter: 0,
            shift: spec_lfsr_next(v.shift, v.reg_noise_control),
            output: spec_lfsr_output(v.shift, v.reg_noise_control),
            ..v
        }
    } else {
        NoiseVoice { frequency_counter: (v.frequency_counter + 1) as u32, ..v }
    }
}

impl NoiseVoice {
    pub open spec fn wf(self) -> bool {
        &&& self.reg_play_control.wf()
        &&& self.reg_volume.wf()
        &&& self.envelope.wf()
        &&& self.reg_frequency_low <= 255
        &&& self.reg_frequency_high <= 7
        &&& self.reg_noise_control <= 7
        &&& self.frequency_counter <= 2047
        &&& self.shift <= 0x7fff
        &&& (self.output == 0 || self.output == 0x3f)
    }

    pub fn new() -> (v: NoiseVoice)
        ensures
            v == spec_nv_new(),
            v.wf(),
    {
        NoiseVoice {
            reg_play_control: PlayControlReg::new(),
            reg_volume: VolumeReg::new(),
            reg_frequency_low: 0,
            reg_frequency_high: 0,
            envelope: Envelope::new(),
            reg_noise_control: 0,
            frequency_counter: 0,
            shift: 0,
            output: 0,
        }
    }

    pub fn write_play_control_reg(&mut self, value: u8)
        ensures
            *final(self) == spec_nv_write_play_control(*old(self), value),
            old(self).wf() ==> final(self).wf(),
    {
        self.reg_play_control.write(value);
        if self.reg_play_control.enable {
            self.envelope.envelope_counter = 0;
            self.frequency_counter = 0;
            self.shift = 0x7fff;
        }
    }

    pub fn write_volume_reg(&mut self, value: u8)
        ensures
            *final(self) == (NoiseVoice { reg_volume: spec_vol_write(value), ..*old(self) }),
            old(self).wf() ==> final(self).wf(),
    {
        self.reg_volume.write(value);
    }

    pub fn write_frequency_low_reg(&mut self, value: u8)
        ensures
            *final(self) == (NoiseVoice { reg_frequency_low: value as u32, ..*old(self) }),
            old(self).wf() ==> final(self).wf(),
    {
        self.reg_frequency_low = value as u32;
    }

    pub fn write_frequency_high_reg(&mut self, value: u8)
        ensures
            *final(self) == (NoiseVoice {
                reg_frequency_high: (value & 0x07) as u32,
                ..*old(self)
            }),
            old(self).wf() ==> final(self).wf(),
    {
        proof {
            crate::bits::lemma_u8_and_bound(value, 0x07);
        }
        self.reg_frequency_high = (value & 0x07) as u32;
    }

    pub fn write_envelope_data_reg(&mut self, value: u8)
        ensures
            *final(self) == (NoiseVoice {
                envelope: spec_env_write_data(old(self).envelope, value),
                ..*old(self)
            }),
            old(self).wf() ==> final(self).wf(),
    {
        self.envelope.write_data_reg(value);
    }

    pub fn write_envelope_noise_control_reg(&mut self, value: u8)
        ensures
            *final(self) == spec_nv_write_env_noise_control(*old(self), value),
            old(self).wf() ==> final(self).wf(),
    {
        proof {
            crate::bits::lemma_u8_and_bound(value >> 4, 0x07);
        }
        self.reg_noise_control = ((value >> 4) & 0x07) as u32;
        self.envelope.write_control_reg(value);
    }

    pub fn noise_clock(&mut self)
        requires
            old(self).wf(),
        ensures
            *final(self) == spec_nv_noise_clock(*old(self)),
            final(self).wf(),
    {
        proof {
            crate::bits::lemma_freq_compose(self.reg_frequency_high, self.reg_frequency_low);
        }
        self.frequency_counter = self.frequency_counter + 1;
        if self.frequency_counter >= 2048 - ((self.reg_frequency_high << 8)
            | self.reg_frequency_low) {
            self.frequency_counter = 0;
            let lhs: u32 = self.shift >> 7;
            let rhs_bit_index: u32 = if self.reg_noise_control == 0 {
                14
            } else if self.reg_noise_control == 1 {
                10
            } else if self.reg_noise_control == 2 {
                13
            } else if self.reg_noise_control == 3 {
                4
            } else if self.reg_noise_control == 4 {
                8
            } else if self.reg_noise_control == 5 {
                6
            } else if self.reg_noise_control == 6 {
                9
            } else {
                11
            };
            let rhs: u32 = self.shift >> rhs_bit_index;
            let xor_bit: u32 = (lhs ^ rhs) & 0x01;
            proof {
                crate::bits::lemma_u32_and_bound(lhs ^ rhs, 0x01);
                crate::bits::lemma_u32_and_bound((self.shift << 1) | xor_bit, 0x7fff);
            }
            self.shift = ((self.shift << 1) | xor_bit) & 0x7fff;
            self.output = if xor_bit == 0 {
                0x3f
            } else {
                0
            };
        }
    }

    /// The last sampled audio bit, held between noise-clock steps.
    pub fn output(&self) -> (out: u32)
        ensures
            out == self.output,
    {
        self.output
    }
}

/// The power-on noise voice: everything zeroed, the shift register included;
/// a play-control enable seeds it before the first step.
pub open spec fn spec_nv_new() -> NoiseVoice {
    NoiseVoice {
        reg_play_control: PlayControlReg {
            enable: false,
            use_duration: false,
            duration: 0u32,
            duration_counter: 0u32,
        },
        reg_volume: VolumeReg { left: 0u32, right: 0u32 },
        reg_frequency_low: 0u32,
        reg_frequency_high: 0u32,
        envelope: Envelope {
            reg_data_reload: 0u32,
            reg_data_direction: false,
            reg_data_step_interval: 0u32,
            reg_control_repeat: false,
            reg_control_enable: false,
            level: 0u32,
            envelope_counter: 0u32,
        },
        reg_noise_control: 0u32,
        frequency_counter: 0u32,
        shift: 0u32,
        output: 0u32,
    }
}

} // verus!
