//! Per-voice register units shared by every voice: play control (enable plus
//! optional duration auto-stop), stereo volume, and the envelope level
//! generator.

use vstd::prelude::*;

verus! {

/// Play-control register: enable flag and optional auto-stop after
/// `duration + 1` duration-clock ticks.
pub struct PlayControlReg {
    pub enable: bool,
    pub use_duration: bool,
    pub duration: u32,
    pub duration_counter: u32,
}

/// State after a host write to the play-control register: bit 7 is the enable
/// flag, bit 5 selects duration mode, bits 4..0 are the duration; selecting
/// duration mode restarts the duration counter.
pub open spec fn spec_pc_write(p: PlayControlReg, value: u8) -> PlayControlReg {
    PlayControlReg {
        enable: value & 0x80 != 0,
        use_duration: value & 0x20 != 0,
        duration: (value & 0x1f) as u32,
        duration_counter: if value & 0x20 != 0 {
            0
        } else {
            p.duration_counter
        },
    }
}

/// State after one duration-clock tick: while enabled in duration mode the
/// counter advances, and the voice shuts off once it passes `duration`.
pub open spec fn spec_pc_duration_clock(p: PlayControlReg) -> PlayControlReg {
    if p.enable && p.use_duration {
        PlayControlReg {
            duration_counter: (p.duration_counter + 1) as u32,
            enable: !(p.duration_counter + 1 > p.duration),
            ..p
        }
    } else {
        p
    }
}

impl PlayControlReg {
    /// The declared field widths, and the bound that keeps the duration
    /// counter from overflowing: while counting, it never passes `duration`.
    pub open spec fn wf(self) -> bool {
        &&& self.duration <= 31
        &&& self.enable && self.use_duration ==> self.duration_counter <= self.duration
    }

    pub fn new() -> (p: PlayControlReg)
        ensures
            p == (PlayControlReg { enable: false, use_duration: false, duration: 0, duration_counter: 0 }),
            p.wf(),
    {
        PlayControlReg { enable: false, use_duration: false, duration: 0, duration_counter: 0 }
    }

    pub fn write(&mut self, value: u8)
        ensures
            *final(self) == spec_pc_write(*old(self), value),
            final(self).wf(),
    {
        proof {
            crate::bits::lemma_u8_and_bound(value, 0x1f);
        }
        self.enable = value & 0x80 != 0;
        self.use_duration = value & 0x20 != 0;
        self.duration = (value & 0x1f) as u32;
        if self.use_duration {
            self.duration_counter = 0;
        }
    }

    pub fn duration_clock(&mut self)
        requires
            old(self).wf(),
        ensures
            *final(self) == spec_pc_duration_clock(*old(self)),
            final(self).wf(),
    {
        if self.enable && self.use_duration {
            self.duration_counter = self.duration_counter + 1;
            if self.duration_counter > self.duration {
                self.enable = false;
            }
        }
    }
}

/// Stereo volume register: high nibble is the left level, low nibble the
/// right level, each 0..15.
pub struct VolumeReg {
    pub left: u32,
    pub right: u32,
}

/// State after a host write to the volume register.
pub open spec fn spec_vol_write(value: u8) -> VolumeReg {
    VolumeReg { left: (value >> 4) as u32, right: (value & 0x0f) as u32 }
}

impl VolumeReg {
    pub open spec fn wf(self) -> bool {
        self.left <= 15 && self.right <= 15
    }

    pub fn new() -> (v: VolumeReg)
        ensures
            v == (VolumeReg { left: 0u32, right: 0u32 }),
            v.wf(),
    {
        VolumeReg { left: 0, right: 0 }
    }

    pub fn write(&mut self, value: u8)
        ensures
            *final(self) == spec_vol_write(value),
            final(self).wf(),
    {
        proof {
            crate::bits::lemma_u8_shr4_bound(value);
            crate::bits::lemma_u8_and_bound(value, 0x0f);
        }
        self.left = (value >> 4) as u32;
        self.right = (value & 0x0f) as u32;
    }
}

/// Envelope generator: a 4-bit level stepped up or down at the envelope rate,
/// with an optional reload when the level pins at an end of its range.
pub struct Envelope {
    pub reg_data_reload: u32,
    pub reg_data_direction: bool,
    pub reg_data_step_interval: u32,
    pub reg_control_repeat: bool,
    pub reg_control_enable: bool,
    pub level: u32,
    pub envelope_counter: u32,
}

/// State after a host write to the envelope data register: high nibble is the
/// reload value, bit 3 the direction (set = up), bits 2..0 the step interval;
/// the level reloads immediately.
pub open spec fn spec_env_write_data(e: Envelope, value: u8) -> Envelope {
    Envelope {
        reg_data_reload: (value >> 4) as u32,
        reg_data_direction: value & 0x08 != 0,
        reg_data_step_interval: (value & 0x07) as u32,
        level: (value >> 4) as u32,
        ..e
    }
}

/// State after a host write to the envelope control register: bit 1 is the
/// repeat flag, bit 0 the envelope enable.
pub open spec fn spec_env_write_control(e: Envelope, value: u8) -> Envelope {
    Envelope { reg_control_repeat: value & 0x02 != 0, reg_control_enable: value & 0x01 != 0, ..e }
}

/// State after one envelope-clock tick: when enabled, the counter advances,
/// and once it passes the step interval one level step is attempted — up
/// below 15, down above 0, otherwise a reload when repeat is set.
pub open spec fn spec_env_clock(e: Envelope) -> Envelope {
    if e.reg_control_enable {
        if e.envelope_counter + 1 > e.reg_data_step_interval {
            if e.reg_data_direction && e.level < 15 {
                Envelope { envelope_counter: 0, level: (e.level + 1) as u32, ..e }
            } else if !e.reg_data_direction && e.level > 0 {
                Envelope { envelope_counter: 0, level: (e.level - 1) as u32, ..e }
            } else if e.reg_control_repeat {
                Envelope { envelope_counter: 0, level: e.reg_data_reload, ..e }
            } else {
                Envelope { envelope_counter: 0, ..e }
            }
        } else {
            Envelope { envelope_counter: (e.envelope_counter + 1) as u32, ..e }
        }
    } else {
        e
    }
}

impl Envelope {
    pub open spec fn wf(self) -> bool {
        &&& self.reg_data_reload <= 15
        &&& self.reg_data_step_interval <= 7
        &&& self.level <= 15
        &&& self.envelope_counter <= 7
    }

    pub fn new() -> (e: Envelope)
        ensures
            e == (Envelope {
                reg_data_reload: 0u32,
                reg_data_direction: false,
                reg_data_step_interval: 0u32,
                reg_control_repeat: false,
                reg_control_enable: false,
                level: 0u32,
                envelope_counter: 0u32,
            }),
            e.wf(),
    {
        Envelope {
            reg_data_reload: 0,
            reg_data_direction: false,
            reg_data_step_interval: 0,
            reg_control_repeat: false,
            reg_control_enable: false,
            level: 0,
            envelope_counter: 0,
        }
    }

    pub fn write_data_reg(&mut self, value: u8)
        ensures
            *final(self) == spec_env_write_data(*old(self), value),
            old(self).envelope_counter <= 7 ==> final(self).wf(),
    {
        proof {
            crate::bits::lemma_u8_shr4_bound(value);
            crate::bits::lemma_u8_and_bound(value, 0x07);
        }
        self.reg_data_reload = (value >> 4) as u32;
        self.reg_data_direction = value & 0x08 != 0;
        self.reg_data_step_interval = (value & 0x07) as u32;
        self.level = self.reg_data_reload;
    }

    pub fn write_control_reg(&mut self, value: u8)
        ensures
            *final(self) == spec_env_write_control(*old(self), value),
            old(self).wf() ==> final(self).wf(),
    {
        self.reg_control_repeat = value & 0x02 != 0;
        self.reg_control_enable = value & 0x01 != 0;
    }

    /// The current 4-bit amplitude level.
    pub fn level(&self) -> (l: u32)
        ensures
            l == self.level,
    {
        self.level
    }

    pub fn envelope_clock(&mut self)
        requires
            old(self).wf(),
        ensures
            *final(self) == spec_env_clock(*old(self)),
            final(self).wf(),
    {
        if self.reg_control_enable {
            self.envelope_counter = self.envelope_counter + 1;
            if self.envelope_counter > self.reg_data_step_interval {
                self.envelope_counter = 0;
                if self.reg_data_direction && self.level < 15 {
                    self.level = self.level + 1;
                } else if !self.reg_data_direction && self.level > 0 {
                    self.level = self.level - 1;
                } else if self.reg_control_repeat {
                    self.level = self.reg_data_reload;
                }
            }
        }
    }
}

} // verus!
