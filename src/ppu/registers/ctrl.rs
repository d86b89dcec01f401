use vstd::prelude::*;

verus! {

// 7  bit  0
// ---- ----
// VPHB SINN
// |||| ||++- base nametable address (0 = $2000; 1 = $2400; 2 = $2800; 3 = $2C00)
// |||| |+--- VRAM address increment per PPUDATA access (0: add 1; 1: add 32)
// |||| +---- sprite pattern table for 8x8 sprites (0: $0000; 1: $1000)
// |||+------ background pattern table (0: $0000; 1: $1000)
// ||+------- sprite size (0: 8x8; 1: 8x16)
// |+-------- PPU master/slave select
// +--------- generate an NMI at the start of vertical blank
/// The PPUCTRL register ($2000).
#[derive(Clone, Copy, Debug, PartialEq, Eq, Structural)]
pub struct CtrlRegister {
    pub bits: u8,
}

pub const CTRL_VRAM_INC: u8 = 0b0000_0100;
pub const CTRL_SPRITE_PATTERN: u8 = 0b0000_1000;
pub const CTRL_BG_PATTERN: u8 = 0b0001_0000;
pub const CTRL_SPRITE_SIZE: u8 = 0b0010_0000;
pub const CTRL_MASTER_SLAVE: u8 = 0b0100_0000;
pub const CTRL_NMI: u8 = 0b1000_0000;

impl CtrlRegister {
    pub open spec fn has(self, flag: u8) -> bool {
        self.bits & flag != 0
    }

    /// Step added to the VRAM pointer after each PPUDATA access.
    pub open spec fn increment_spec(self) -> u8 {
        if self.has(CTRL_VRAM_INC) { 32 } else { 1 }
    }

    pub open spec fn nmi_enabled(self) -> bool {
        self.has(CTRL_NMI)
    }

    pub fn new() -> (r: Self)
        ensures
            r.bits == 0,
    {
        CtrlRegister { bits: 0 }
    }

    pub fn nametable_addr(&self) -> (r: u16)
        ensures
            r == 0x2000 + 0x400 * (self.bits & 0b11),
    {
        let bits = self.bits;
        let b = bits & 0b11;
        assert(b <= 3) by (bit_vector)
            requires
                b == bits & 0b11,
        ;
        0x2000 + 0x400 * (b as u16)
    }

    pub fn vram_addr_increment(&self) -> (r: u8)
        ensures
            r == self.increment_spec(),
    {
        if self.bits & CTRL_VRAM_INC == 0 {
            1
        } else {
            32
        }
    }

    pub fn sprt_pattern_addr(&self) -> (r: u16)
        ensures
            r == (if self.has(CTRL_SPRITE_PATTERN) { 0x1000u16 } else { 0u16 }),
    {
        if self.bits & CTRL_SPRITE_PATTERN == 0 {
            0
        } else {
            0x1000
        }
    }

    pub fn bknd_pattern_addr(&self) -> (r: u16)
        ensures
            r == (if self.has(CTRL_BG_PATTERN) { 0x1000u16 } else { 0u16 }),
    {
        if self.bits & CTRL_BG_PATTERN == 0 {
            0
        } else {
            0x1000
        }
    }

    pub fn sprite_size(&self) -> (r: u8)
        ensures
            r == (if self.has(CTRL_SPRITE_SIZE) { 16u8 } else { 8u8 }),
    {
        if self.bits & CTRL_SPRITE_SIZE == 0 {
            8
        } else {
            16
        }
    }

    pub fn master_slave_select(&self) -> (r: u8)
        ensures
            r == (if self.has(CTRL_MASTER_SLAVE) { 1u8 } else { 0u8 }),
    {
        if self.bits & CTRL_MASTER_SLAVE == 0 {
            0
        } else {
            1
        }
    }

    pub fn generate_vblank_nmi(&self) -> (r: bool)
        ensures
            r == self.nmi_enabled(),
    {
        self.bits & CTRL_NMI != 0
    }

    /// Every bit of the register takes the written value.
    pub fn update(&mut self, data: u8)
        ensures
            final(self).bits == data,
    {
        self.bits = data;
    }
}

} // verus!
