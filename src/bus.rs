use vstd::prelude::*;

use crate::cartridge::Rom;
use crate::joypad::Joypad;
use crate::ppu::registers::mask::MaskRegister;
use crate::ppu::{lemma_data_reads_advance, lemma_oam_writes, NesPPU};

verus! {

pub const RAM_MIRROR_END: u16 = 0x1FFF;
pub const PPU_REGISTERS_MIRROR_END: u16 = 0x3FFF;
pub const OAM_DMA: u16 = 0x4014;
pub const JOYPAD1: u16 = 0x4016;
pub const PRG_ROM_START: u16 = 0x8000;

/// The PPU register that CPU address `addr` (in $2000..=$3FFF) selects:
/// the eight registers repeat every eight bytes.
pub open spec fn ppu_register(addr: u16) -> u16 {
    addr & 0x2007
}

proof fn lemma_ppu_register(addr: u16)
    requires
        0x2000 <= addr <= 0x3FFF,
    ensures
        0x2000 <= ppu_register(addr) <= 0x2007,
        addr <= 0x2007 ==> ppu_register(addr) == addr,
{
    assert(0x2000 <= addr <= 0x3FFF ==> 0x2000 <= addr & 0x2007 <= 0x2007) by (bit_vector);
    assert(0x2000 <= addr <= 0x2007 ==> addr & 0x2007 == addr) by (bit_vector);
}

proof fn lemma_ram_mirror(addr: u16)
    ensures
        addr & 0x7FF < 0x800,
{
    assert(addr & 0x7FF < 0x800) by (bit_vector);
}

/// The CPU's view of the machine: 2 KiB of work RAM, the PPU, the
/// controller and the cartridge's program ROM, each at its addresses.
#[derive(Clone, Debug)]
pub struct Bus {
    pub cpu_vram: [u8; 2048],
    pub prg_rom: Vec<u8>,
    pub ppu: NesPPU,
    /// CPU cycles elapsed since power-on.
    pub cycles: usize,
    pub joypad1: Joypad,
}

impl Bus {
    pub open spec fn wf(self) -> bool {
        &&& self.prg_rom.len() == 0x4000 || self.prg_rom.len() == 0x8000
        &&& self.ppu.wf()
        &&& self.joypad1.wf()
    }

    /// The program ROM byte behind `addr` (in $8000..=$FFFF); 16 KiB of ROM
    /// appears twice.
    pub open spec fn prg_index(self, addr: u16) -> int {
        let offset = addr - PRG_ROM_START;
        if self.prg_rom.len() == 0x4000 { offset % 0x4000 } else { offset }
    }

    /// A read of PPU register `reg` (in $2000..=$2007). The write-only
    /// registers read as 0.
    pub open spec fn read_register_spec(self, reg: u16) -> (Bus, u8) {
        if reg == 0x2002 {
            let (ppu, r) = self.ppu.read_status_spec();
            (Bus { ppu, ..self }, r)
        } else if reg == 0x2004 {
            (self, self.ppu.oam[self.ppu.oam_addr as int])
        } else if reg == 0x2007 {
            let (ppu, r) = self.ppu.read_data_spec();
            (Bus { ppu, ..self }, r)
        } else {
            (self, 0)
        }
    }

    /// The state after a CPU read of `addr`, and the byte it yields. APU
    /// registers, the second controller and unmapped space read as 0.
    pub open spec fn read_spec(self, addr: u16) -> (Bus, u8) {
        if addr <= RAM_MIRROR_END {
            (self, self.cpu_vram[(addr & 0x7FF) as int])
        } else if addr <= PPU_REGISTERS_MIRROR_END {
            self.read_register_spec(ppu_register(addr))
        } else if addr == JOYPAD1 {
            let (joypad1, r) = self.joypad1.read_spec();
            (Bus { joypad1, ..self }, r)
        } else if addr < PRG_ROM_START {
            (self, 0)
        } else {
            (self, self.prg_rom@[self.prg_index(addr)])
        }
    }

    /// Reads of `addr` are defined: a PPUDATA read must be.
    pub open spec fn read_ok(self, addr: u16) -> bool {
        0x2000 <= addr <= PPU_REGISTERS_MIRROR_END && ppu_register(addr) == 0x2007
            ==> self.ppu.read_data_ok()
    }

    /// The state after the first `n` reads of the page at `base`, and the
    /// bytes they yield.
    pub open spec fn fetch_page(self, base: u16, n: nat) -> (Bus, Seq<u8>)
        decreases n,
    {
        if n == 0 {
            (self, Seq::empty())
        } else {
            let (b, bytes) = self.fetch_page(base, (n - 1) as nat);
            let (c, v) = b.read_spec((base + n - 1) as u16);
            (c, bytes.push(v))
        }
    }

    /// Each of the first `n` reads of the page at `base` is defined.
    pub open spec fn fetch_ok(self, base: u16, n: nat) -> bool
        decreases n,
    {
        n == 0 || (self.fetch_ok(base, (n - 1) as nat) && self.fetch_page(
            base,
            (n - 1) as nat,
        ).0.read_ok((base + n - 1) as u16))
    }

    /// A write of `data` to PPU register `reg` (in $2000..=$2007).
    pub open spec fn write_register_spec(self, reg: u16, data: u8) -> Bus {
        let p = self.ppu;
        let ppu = if reg == 0x2000 {
            p.write_ctrl_spec(data)
        } else if reg == 0x2001 {
            NesPPU { mask: MaskRegister { bits: data }, ..p }
        } else if reg == 0x2003 {
            NesPPU { oam_addr: data, ..p }
        } else if reg == 0x2004 {
            p.write_oam_data_spec(data)
        } else if reg == 0x2005 {
            NesPPU { scroll: p.scroll.write_spec(data), ..p }
        } else if reg == 0x2006 {
            NesPPU { addr: p.addr.update_spec(data), ..p }
        } else if reg == 0x2007 {
            p.write_data_spec(data)
        } else {
            p
        };
        Bus { ppu, ..self }
    }

    /// The state after a CPU write of `data` to `addr`. A write to $4014
    /// copies the page `data` into OAM, reading it through the bus. APU
    /// registers, the second controller and unmapped space ignore writes.
    pub open spec fn write_spec(self, addr: u16, data: u8) -> Bus {
        if addr <= RAM_MIRROR_END {
            Bus {
                cpu_vram: vstd::array::spec_array_update(self.cpu_vram, (addr & 0x7FF) as int, data),
                ..self
            }
        } else if addr <= PPU_REGISTERS_MIRROR_END {
            self.write_register_spec(ppu_register(addr), data)
        } else if addr == OAM_DMA {
            let (b, bytes) = self.fetch_page((data as u16 * 256) as u16, 256);
            Bus { ppu: b.ppu.oam_writes(bytes, 256), ..b }
        } else if addr == JOYPAD1 {
            Bus { joypad1: self.joypad1.write_spec(data), ..self }
        } else {
            self
        }
    }

    /// Writes of `data` to `addr` are defined: not to PPUSTATUS, not to
    /// program ROM, a PPUDATA write must be, and so must every read of a
    /// DMA page.
    pub open spec fn write_ok(self, addr: u16, data: u8) -> bool {
        &&& addr < PRG_ROM_START
        &&& 0x2000 <= addr <= PPU_REGISTERS_MIRROR_END ==> ppu_register(addr) != 0x2002
        &&& 0x2000 <= addr <= PPU_REGISTERS_MIRROR_END && ppu_register(addr) == 0x2007
            ==> self.ppu.write_data_ok()
        &&& addr == OAM_DMA ==> self.fetch_ok((data as u16 * 256) as u16, 256)
    }

    /// The state after `cycles` CPU cycles, and whether the PPU completed a
    /// frame meanwhile.
    pub open spec fn tick_spec(self, cycles: u8) -> (Bus, bool) {
        let (ppu, frame) = self.ppu.tick_spec((cycles * 3) as u16);
        (Bus { ppu, cycles: (self.cycles + cycles) as usize, ..self }, frame)
    }

    pub fn new(rom: Rom) -> (r: Bus)
        requires
            rom.wf(),
        ensures
            r.wf(),
            r.cpu_vram@ == Seq::new(2048, |i: int| 0u8),
            r.prg_rom == rom.prg_rom,
            r.ppu.is_power_on(rom.chr_rom, rom.mirroring),
            r.cycles == 0,
            r.joypad1 == (Joypad { strobe: false, button_index: 0, button_status: 0 }),
    {
        let ppu = NesPPU::new(rom.chr_rom, rom.mirroring);
        let r = Bus { cpu_vram: [0u8; 2048], prg_rom: rom.prg_rom, ppu, cycles: 0, joypad1: Joypad::new() };
        assert(r.cpu_vram@ =~= Seq::new(2048, |i: int| 0u8));
        r
    }

    /// Advances the machine by `cycles` CPU cycles: the PPU runs three dots
    /// to each. The result tells whether a frame was completed, for the host
    /// to present it and sample the controller.
    pub fn tick(&mut self, cycles: u8) -> (frame: bool)
        requires
            old(self).wf(),
            old(self).cycles + cycles <= usize::MAX,
        ensures
            (*final(self), frame) == old(self).tick_spec(cycles),
            final(self).wf(),
    {
        self.cycles = self.cycles + cycles as usize;
        self.ppu.tick(cycles as u16 * 3)
    }

    /// Takes the pending NMI, if any, leaving none.
    pub fn poll_nmi_status(&mut self) -> (r: Option<u8>)
        ensures
            r == old(self).ppu.nmi_interrupt,
            *final(self) == (Bus {
                ppu: NesPPU { nmi_interrupt: None, ..old(self).ppu },
                ..*old(self)
            }),
    {
        let r = self.ppu.nmi_interrupt;
        self.ppu.nmi_interrupt = None;
        r
    }

    fn read_prg_rom(&self, addr: u16) -> (r: u8)
        requires
            self.wf(),
            addr >= PRG_ROM_START,
        ensures
            r == self.prg_rom@[self.prg_index(addr)],
    {
        let mut offset = addr - PRG_ROM_START;
        if self.prg_rom.len() == 0x4000 && offset >= 0x4000 {
            offset = offset % 0x4000;
        }
        self.prg_rom[offset as usize]
    }

    fn read_ppu_register(&mut self, reg: u16) -> (r: u8)
        requires
            old(self).wf(),
            0x2000 <= reg <= 0x2007,
            reg == 0x2007 ==> old(self).ppu.read_data_ok(),
        ensures
            (*final(self), r) == old(self).read_register_spec(reg),
            final(self).wf(),
    {
        if reg == 0x2002 {
            self.ppu.read_status()
        } else if reg == 0x2004 {
            self.ppu.read_oam_data()
        } else if reg == 0x2007 {
            self.ppu.read_data()
        } else {
            // CTRL, MASK, OAMADDR, SCROLL and PPUADDR are write-only
            0
        }
    }

    /// Whether a read of `addr` is defined in the current state.
    pub fn read_allowed(&self, addr: u16) -> (r: bool)
        requires
            self.wf(),
        ensures
            r == self.read_ok(addr),
    {
        if 0x2000 <= addr && addr <= PPU_REGISTERS_MIRROR_END && addr & 0x2007 == 0x2007 {
            let p = self.ppu.addr.get();
            !(0x3000 <= p && p <= 0x3EFF) && (p >= 0x2000 || (p as usize) < self.ppu.chr_rom.len())
        } else {
            true
        }
    }

    pub fn mem_read(&mut self, addr: u16) -> (r: u8)
        requires
            old(self).wf(),
            old(self).read_ok(addr),
        ensures
            (*final(self), r) == old(self).read_spec(addr),
            final(self).wf(),
    {
        if addr <= RAM_MIRROR_END {
            proof {
                lemma_ram_mirror(addr);
            }
            self.cpu_vram[(addr & 0x7FF) as usize]
        } else if addr <= PPU_REGISTERS_MIRROR_END {
            proof {
                lemma_ppu_register(addr);
            }
            self.read_ppu_register(addr & 0x2007)
        } else if addr == JOYPAD1 {
            self.joypad1.read()
        } else if addr < PRG_ROM_START {
            // APU, OAMDMA, second controller and unmapped space
            0
        } else {
            self.read_prg_rom(addr)
        }
    }

    fn write_ppu_register(&mut self, reg: u16, data: u8)
        requires
            old(self).wf(),
            0x2000 <= reg <= 0x2007,
            reg != 0x2002,
            reg == 0x2007 ==> old(self).ppu.write_data_ok(),
        ensures
            *final(self) == old(self).write_register_spec(reg, data),
            final(self).wf(),
    {
        if reg == 0x2000 {
            self.ppu.write_to_ctrl(data);
        } else if reg == 0x2001 {
            self.ppu.write_to_mask(data);
        } else if reg == 0x2003 {
            self.ppu.write_to_oam_addr(data);
        } else if reg == 0x2004 {
            self.ppu.write_to_oam_data(data);
        } else if reg == 0x2005 {
            self.ppu.write_to_scroll(data);
        } else if reg == 0x2006 {
            self.ppu.write_to_ppu_addr(data);
        } else {
            self.ppu.write_to_data(data);
        }
    }

    /// Copies CPU page `page` into OAM: 256 reads through the bus, then one
    /// block write at `oam_addr`.
    fn oam_dma(&mut self, page: u8)
        requires
            old(self).wf(),
            old(self).fetch_ok((page as u16 * 256) as u16, 256),
        ensures
            *final(self) == old(self).write_spec(OAM_DMA, page),
            final(self).wf(),
    {
        let hi: u16 = page as u16 * 256;
        let ghost start = *self;
        let mut buffer = [0u8; 256];
        let mut i: u16 = 0;
        while i < 256
            invariant
                0 <= i <= 256,
                hi == page as u16 * 256,
                self.wf(),
                start.fetch_ok(hi, 256),
                *self == start.fetch_page(hi, i as nat).0,
                buffer@.take(i as int) == start.fetch_page(hi, i as nat).1,
            decreases 256 - i,
        {
            proof {
                start.lemma_fetch_ok_prefix(hi, (i + 1) as nat, 256);
            }
            let v = self.mem_read(hi + i);
            let ghost before = buffer@;
            buffer[i as usize] = v;
            assert(buffer@.take(i + 1) =~= before.take(i as int).push(v));
            i += 1;
        }
        assert(buffer@ =~= buffer@.take(256));
        self.ppu.write_oam_dma(&buffer);
    }

    pub fn mem_write(&mut self, addr: u16, data: u8)
        requires
            old(self).wf(),
            old(self).write_ok(addr, data),
        ensures
            *final(self) == old(self).write_spec(addr, data),
            final(self).wf(),
    {
        if addr <= RAM_MIRROR_END {
            proof {
                lemma_ram_mirror(addr);
            }
            self.cpu_vram[(addr & 0x7FF) as usize] = data;
        } else if addr <= PPU_REGISTERS_MIRROR_END {
            proof {
                lemma_ppu_register(addr);
            }
            self.write_ppu_register(addr & 0x2007, data);
        } else if addr == OAM_DMA {
            self.oam_dma(data);
        } else if addr == JOYPAD1 {
            self.joypad1.write(data);
        } else {
            // APU, second controller and unmapped space
        }
    }

    proof fn lemma_fetch_ok_prefix(self, base: u16, m: nat, n: nat)
        requires
            m <= n,
            self.fetch_ok(base, n),
        ensures
            self.fetch_ok(base, m),
        decreases n,
    {
        if m < n {
            self.lemma_fetch_ok_prefix(base, m, (n - 1) as nat);
        }
    }
}

impl Bus {
    /// The state after `n` successive CPU reads of `addr`.
    pub open spec fn reads_of(self, addr: u16, n: nat) -> Bus
        decreases n,
    {
        if n == 0 {
            self
        } else {
            self.read_spec(addr).0.reads_of(addr, (n - 1) as nat)
        }
    }
}

/// Work RAM keeps what is written, and each of its bytes answers at four
/// addresses below $2000.
pub proof fn lemma_ram_mirror_round_trip(b: Bus, addr: u16, value: u8)
    requires
        addr <= RAM_MIRROR_END,
    ensures
        b.write_spec(addr, value).read_spec(addr).1 == value,
        b.read_spec(addr) == b.read_spec(addr & 0x7FF),
{
    assert((addr & 0x7FF) & 0x7FF == addr & 0x7FF && addr & 0x7FF < 0x800) by (bit_vector);
    let c = b.write_spec(addr, value);
    assert(c.cpu_vram@ == b.cpu_vram@.update((addr & 0x7FF) as int, value));
}

/// Above $2007 the eight PPU registers repeat up to $3FFF: a read or write
/// there is the read or write of the register it mirrors.
pub proof fn lemma_ppu_register_mirror(b: Bus, addr: u16, value: u8)
    requires
        0x2008 <= addr <= PPU_REGISTERS_MIRROR_END,
    ensures
        b.read_spec(addr) == b.read_spec(0x2000 | (addr & 7)),
        b.write_spec(addr, value) == b.write_spec(0x2000 | (addr & 7), value),
{
    let m = 0x2000 | (addr & 7);
    assert(0x2000 <= m <= 0x2007 && m & 0x2007 == addr & 0x2007) by (bit_vector)
        requires
            m == 0x2000 | (addr & 7),
            0x2008 <= addr <= 0x3FFF,
    ;
}

/// 16 KiB of program ROM answers at $8000 and again at $C000.
pub proof fn lemma_prg_mirror(b: Bus, addr: u16)
    requires
        b.prg_rom.len() == 0x4000,
        PRG_ROM_START <= addr < 0xC000,
    ensures
        b.read_spec(addr) == b.read_spec((addr + 0x4000) as u16),
{
    vstd::arithmetic::div_mod::lemma_mod_add_multiples_vanish(addr - PRG_ROM_START, 0x4000);
}

/// OAMDATA reads have no side effect: two in a row yield the same byte.
pub proof fn lemma_oam_read_stable(b: Bus)
    ensures
        b.read_spec(0x2004) == (b, b.ppu.oam[b.ppu.oam_addr as int]),
        b.read_spec(0x2004).0.read_spec(0x2004).1 == b.read_spec(0x2004).1,
{
    lemma_ppu_register(0x2004);
}

proof fn lemma_ppudata_reads(b: Bus, n: nat)
    ensures
        b.reads_of(0x2007, n).ppu == b.ppu.data_reads(n),
    decreases n,
{
    lemma_ppu_register(0x2007);
    if n > 0 {
        lemma_ppudata_reads(b.read_spec(0x2007).0, (n - 1) as nat);
    }
}

/// After $2006 receives a high and a low byte, eight reads of $2007 move
/// the VRAM pointer on by eight times the PPUCTRL increment (1 or 32).
pub proof fn lemma_ppudata_pointer_advance(b: Bus, hi: u8, lo: u8)
    requires
        b.wf(),
        b.ppu.addr.hi_ptr,
    ensures
        b.write_spec(0x2006, hi).write_spec(0x2006, lo).ppu.addr.value == (hi & 0x3F) as int * 256
            + lo,
        b.write_spec(0x2006, hi).write_spec(0x2006, lo).reads_of(0x2007, 8).ppu.addr.value == ((
        hi & 0x3F) as int * 256 + lo + 8 * b.ppu.ctrl.increment_spec()) % 0x4000,
{
    lemma_ppu_register(0x2006);
    let h = hi & 0x3F;
    assert(h < 64) by (bit_vector)
        requires
            h == hi & 0x3F,
    ;
    let c = b.write_spec(0x2006, hi).write_spec(0x2006, lo);
    assert(c.ppu.addr.value == h as int * 256 + lo);
    assert(c.ppu.wf());
    lemma_ppudata_reads(c, 8);
    lemma_data_reads_advance(c.ppu, 8);
}

proof fn lemma_fetch_ram_page(b: Bus, base: u16, n: nat)
    requires
        base + n <= 0x2000,
    ensures
        b.fetch_page(base, n).0 == b,
        b.fetch_page(base, n).1 =~= Seq::new(n, |i: int| b.cpu_vram[((base + i) as u16 & 0x7FF) as int]),
    decreases n,
{
    if n > 0 {
        lemma_fetch_ram_page(b, base, (n - 1) as nat);
    }
}

/// OAM DMA from a page of work RAM copies its 256 bytes into OAM from
/// `oam_addr` on, wrapping, and changes nothing else that the CPU sees.
pub proof fn lemma_oam_dma_from_ram(b: Bus, page: u8)
    requires
        page < 0x20,
    ensures
        b.write_spec(OAM_DMA, page).cpu_vram == b.cpu_vram,
        b.write_spec(OAM_DMA, page).ppu.oam_addr == b.ppu.oam_addr,
        forall|i: int|
            0 <= i < 256 ==> #[trigger] b.write_spec(OAM_DMA, page).ppu.oam[(b.ppu.oam_addr + i) % 256]
                == b.cpu_vram[((page as u16 * 256 + i) as u16 & 0x7FF) as int],
{
    let base = (page as u16 * 256) as u16;
    lemma_fetch_ram_page(b, base, 256);
    lemma_oam_writes(b.ppu, b.fetch_page(base, 256).1, 256);
}

} // verus!
