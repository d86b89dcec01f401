use vstd::prelude::*;

verus! {

/// How the two physical nametables are wired into the four logical ones.
#[derive(Clone, Copy, Debug, PartialEq, Eq, Structural)]
pub enum Mirroring {
    Vertical,
    Horizontal,
}

/// An already-parsed NROM cartridge.
#[derive(Clone, Debug)]
pub struct Rom {
    pub prg_rom: Vec<u8>,
    pub chr_rom: Vec<u8>,
    pub mirroring: Mirroring,
}

impl Rom {
    /// NROM carries 16 KiB or 32 KiB of program ROM.
    pub open spec fn wf(self) -> bool {
        self.prg_rom.len() == 0x4000 || self.prg_rom.len() == 0x8000
    }
}

} // verus!
