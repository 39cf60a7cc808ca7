//! Sound channel 1 (square wave with sweep) as the registers 0xFF10..0xFF14 describe it.

use vstd::prelude::*;

verus! {

/// The settings of sound channel 1 as integers.
#[derive(Clone, Copy, Debug, PartialEq, Eq)]
pub struct Channel {
    /// NR10 bits 6..4 (in place): the sweep time selector.
    pub sweep_time_raw: u8,
    pub is_sweep_increase: bool,
    pub sweep_shift_num: u8,
    /// NR11 bits 5..0: the sound length.
    pub sound_length_raw: u8,
    pub volume: u8,
    pub is_envelop_increase: bool,
    pub envelop_shift_num: u8,
    /// The 11-bit frequency value: NR13 shifted left by 3, or-ed with NR14 bits 2..0.
    pub fr: u16,
    pub is_restart: bool,
    pub is_use_length: bool,
}

/// Whether channel 1 can be decoded: the wave duty is looked up by the sweep time
/// selector, and only selectors 0 and 0x40 have a duty.
pub open spec fn square1_ok(nr10: u8) -> bool {
    nr10 & 0x70 == 0 || nr10 & 0x70 == 0x40
}

/// Channel 1 decoded from NR10..NR14.
pub open spec fn square1_spec(nr10: u8, nr11: u8, nr12: u8, nr13: u8, nr14: u8) -> Channel {
    Channel {
        sweep_time_raw: nr10 & 0x70,
        is_sweep_increase: nr10 & 0x08 == 0x08,
        sweep_shift_num: nr10 & 0x07,
        sound_length_raw: nr11 & 0x3F,
        volume: (nr12 & 0xF0) >> 4u8,
        is_envelop_increase: nr12 & 0x08 == 0x08,
        envelop_shift_num: nr12 & 0x07,
        fr: ((nr13 as u16) << 3u16) | ((nr14 & 0x07) as u16),
        is_restart: nr14 & 0x80 == 0x80,
        is_use_length: nr14 & 0x40 == 0x40,
    }
}

/// Whether channel 1 can be decoded with this NR10 value (see [`square1_ok`]).
pub fn has_wave_duty(nr10: u8) -> (r: bool)
    ensures
        r == square1_ok(nr10),
{
    nr10 & 0x70 == 0 || nr10 & 0x70 == 0x40
}

/// Decodes channel 1 from NR10..NR14.
pub fn decode_square1(nr10: u8, nr11: u8, nr12: u8, nr13: u8, nr14: u8) -> (r: Channel)
    requires
        square1_ok(nr10),
    ensures
        r == square1_spec(nr10, nr11, nr12, nr13, nr14),
{
    let sweep_time_raw = nr10 & 0b01110000u8;
    let is_sweep_increase = nr10 & 0b00001000u8 == 0b00001000u8;
    let sweep_shift_num = nr10 & 0b00000111u8;
    let sound_length_raw = nr11 & 0b00111111u8;
    let volume = (nr12 & 0b11110000u8) >> 4;
    let is_envelop_increase = nr12 & 0b00001000u8 == 0b00001000u8;
    let envelop_shift_num = nr12 & 0b00000111u8;
    let frequency_raw = (nr13 as u16) << 3 | (nr14 & 0b00000111u8) as u16;
    let is_restart = nr14 & 0b10000000u8 == 0b10000000u8;
    let is_use_length = nr14 & 0b01000000u8 == 0b01000000u8;
    Channel {
        sweep_time_raw,
        is_sweep_increase,
        sweep_shift_num,
        sound_length_raw,
        volume,
        is_envelop_increase,
        envelop_shift_num,
        fr: frequency_raw,
        is_restart,
        is_use_length,
    }
}

impl Channel {
    pub fn is_sweep_increase(&self) -> (r: bool)
        ensures
            r == self.is_sweep_increase,
    {
        self.is_sweep_increase
    }

    pub fn sweep_shift_num(&self) -> (r: u8)
        ensures
            r == self.sweep_shift_num,
    {
        self.sweep_shift_num
    }

    pub fn volume(&self) -> (r: u8)
        ensures
            r == self.volume,
    {
        self.volume
    }

    pub fn is_envelop_increase(&self) -> (r: bool)
        ensures
            r == self.is_envelop_increase,
    {
        self.is_envelop_increase
    }

    pub fn envelop_shift_num(&self) -> (r: u8)
        ensures
            r == self.envelop_shift_num,
    {
        self.envelop_shift_num
    }

    pub fn fr(&self) -> (r: u16)
        ensures
            r == self.fr,
    {
        self.fr
    }

    pub fn is_restart(&self) -> (r: bool)
        ensures
            r == self.is_restart,
    {
        self.is_restart
    }

    pub fn is_use_length(&self) -> (r: bool)
        ensures
            r == self.is_use_length,
    {
        self.is_use_length
    }
}

} // verus!
