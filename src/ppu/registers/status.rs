use vstd::prelude::*;

verus! {

// 7654 3210
// VSO. ....
// vertical blank started, sprite 0 hit, sprite overflow; the low five bits are unused
/// The PPUSTATUS register ($2002).
#[derive(Clone, Copy, Debug, PartialEq, Eq, Structural)]
pub struct StatusRegister {
    pub bits: u8,
}

pub const STATUS_SPRITE_OVERFLOW: u8 = 0b0010_0000;
pub const STATUS_SPRITE_ZERO_HIT: u8 = 0b0100_0000;
pub const STATUS_VBLANK: u8 = 0b1000_0000;

/// `bits` with `flag` set when `on` holds and cleared otherwise.
pub open spec fn with_flag(bits: u8, flag: u8, on: bool) -> u8 {
    if on { bits | flag } else { bits & !flag }
}

impl StatusRegister {
    pub open spec fn in_vblank(self) -> bool {
        self.bits & STATUS_VBLANK != 0
    }

    pub fn new() -> (r: Self)
        ensures
            r.bits == 0,
    {
        StatusRegister { bits: 0 }
    }

    pub fn set_vblank_status(&mut self, status: bool)
        ensures
            final(self).bits == with_flag(old(self).bits, STATUS_VBLANK, status),
    {
        if status {
            self.bits = self.bits | STATUS_VBLANK;
        } else {
            self.bits = self.bits & !STATUS_VBLANK;
        }
    }

    pub fn set_sprite_zero_hit(&mut self, status: bool)
        ensures
            final(self).bits == with_flag(old(self).bits, STATUS_SPRITE_ZERO_HIT, status),
    {
        if status {
            self.bits = self.bits | STATUS_SPRITE_ZERO_HIT;
        } else {
            self.bits = self.bits & !STATUS_SPRITE_ZERO_HIT;
        }
    }

    pub fn set_sprite_overflow(&mut self, status: bool)
        ensures
            final(self).bits == with_flag(old(self).bits, STATUS_SPRITE_OVERFLOW, status),
    {
        if status {
            self.bits = self.bits | STATUS_SPRITE_OVERFLOW;
        } else {
            self.bits = self.bits & !STATUS_SPRITE_OVERFLOW;
        }
    }

    pub fn reset_vblank_status(&mut self)
        ensures
            final(self).bits == with_flag(old(self).bits, STATUS_VBLANK, false),
    {
        self.bits = self.bits & !STATUS_VBLANK;
    }

    pub fn is_in_vblank(&self) -> (r: bool)
        ensures
            r == self.in_vblank(),
    {
        self.bits & STATUS_VBLANK != 0
    }

    /// The byte a read of the register yields: the three flag bits, with
    /// the unused low bits reading as zero.
    pub fn snapshot(&self) -> (r: u8)
        ensures
            r == self.bits & 0b1110_0000,
    {
        self.bits & 0b1110_0000
    }
}

} // verus!
