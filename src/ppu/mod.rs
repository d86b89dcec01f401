use vstd::prelude::*;

use crate::cartridge::Mirroring;
use self::registers::addr::AddrRegister;
use self::registers::ctrl::{CtrlRegister, CTRL_NMI};
use self::registers::mask::MaskRegister;
use self::registers::scroll::ScrollRegister;
use self::registers::status::{
    with_flag, StatusRegister, STATUS_SPRITE_OVERFLOW, STATUS_SPRITE_ZERO_HIT, STATUS_VBLANK,
};

pub mod registers;

verus! {

pub const DOTS_PER_SCANLINE: usize = 341;
pub const VBLANK_SCANLINE: u16 = 241;
pub const LAST_SCANLINE: u16 = 261;

/// Where nametable address `addr` (in $2000..=$3FFF) lands in the 2 KiB of
/// physical VRAM. $3000..=$3FFF folds onto $2000..=$2FFF first.
///
/// Horizontal:  A a   Vertical:  A B
///              B b              a b
pub open spec fn vram_index(mirroring: Mirroring, addr: u16) -> u16 {
    let idx = ((addr & 0x2FFF) - 0x2000) as u16;
    let table = idx / 0x400;
    match mirroring {
        Mirroring::Vertical => if table >= 2 { (idx - 0x800) as u16 } else { idx },
        Mirroring::Horizontal => if table == 0 {
            idx
        } else if table == 3 {
            (idx - 0x800) as u16
        } else {
            (idx - 0x400) as u16
        },
    }
}

/// The palette entry that a PPUDATA write at `addr` (in $3F00..=$3FFF)
/// stores to: the sprite backdrop slots $3F10/$3F14/$3F18/$3F1C share
/// the entries of $3F00/$3F04/$3F08/$3F0C.
pub open spec fn palette_write_index(addr: u16) -> int {
    let i = (addr - 0x3F00) % 32;
    if i >= 16 && i % 4 == 0 { i - 16 } else { i }
}

/// The palette entry that a PPUDATA read at `addr` (in $3F00..=$3FFF) yields.
pub open spec fn palette_read_index(addr: u16) -> int {
    (addr - 0x3F00) % 32
}

proof fn lemma_nametable_fold(addr: u16)
    requires
        0x2000 <= addr <= 0x3FFF,
    ensures
        0x2000 <= addr & 0x2FFF <= 0x2FFF,
{
    assert(0x2000 <= addr <= 0x3FFF ==> 0x2000 <= addr & 0x2FFF <= 0x2FFF) by (bit_vector);
}

/// The register and memory model of the picture processing unit.
#[derive(Clone, Debug)]
pub struct NesPPU {
    pub chr_rom: Vec<u8>,
    pub palette_table: [u8; 32],
    pub vram: [u8; 2048],
    pub oam: [u8; 256],
    pub mirroring: Mirroring,
    /// What the next buffered PPUDATA read returns.
    pub internal_data_buf: u8,
    pub ctrl: CtrlRegister,
    pub mask: MaskRegister,
    pub status: StatusRegister,
    pub oam_addr: u8,
    pub scroll: ScrollRegister,
    pub addr: AddrRegister,
    /// Dots into the current scanline.
    pub cycles: usize,
    pub scanline: u16,
    /// Set at the start of vertical blank when NMIs are enabled; taken by the CPU.
    pub nmi_interrupt: Option<u8>,
}

/// The register surface that the bus drives. `NesPPU` states what each
/// operation does in its inherent methods of the same names.
pub trait PPU {
    /// The state's own invariant.
    spec fn well_formed(&self) -> bool;

    /// A PPUDATA read at the current pointer is defined.
    spec fn data_read_allowed(&self) -> bool;

    /// A PPUDATA write at the current pointer is defined.
    spec fn data_write_allowed(&self) -> bool;

    fn write_to_ppu_addr(&mut self, value: u8)
        requires
            old(self).well_formed(),
    ;

    fn write_to_ctrl(&mut self, value: u8);

    fn read_data(&mut self) -> u8
        requires
            old(self).well_formed(),
            old(self).data_read_allowed(),
    ;

    fn write_to_mask(&mut self, value: u8);

    fn read_status(&mut self) -> u8
        requires
            old(self).well_formed(),
    ;

    fn write_to_oam_addr(&mut self, value: u8);

    fn write_to_oam_data(&mut self, value: u8);

    fn read_oam_data(&self) -> u8;

    fn write_to_scroll(&mut self, value: u8);

    fn write_to_data(&mut self, value: u8)
        requires
            old(self).well_formed(),
            old(self).data_write_allowed(),
    ;

    fn write_oam_dma(&mut self, value: &[u8; 256]);
}

impl NesPPU {
    pub open spec fn wf(self) -> bool {
        &&& self.addr.wf()
        &&& self.cycles < DOTS_PER_SCANLINE
        &&& self.scanline <= LAST_SCANLINE
    }

    /// The state after the VRAM pointer steps past one PPUDATA access.
    pub open spec fn advanced(self) -> NesPPU {
        NesPPU { addr: self.addr.increment_spec(self.ctrl.increment_spec()), ..self }
    }

    /// A PPUDATA read at the current pointer neither touches $3000..=$3EFF
    /// nor runs past the end of CHR ROM.
    pub open spec fn read_data_ok(self) -> bool {
        let p = self.addr.value;
        &&& !(0x3000 <= p <= 0x3EFF)
        &&& p < 0x2000 ==> p < self.chr_rom.len()
    }

    pub open spec fn write_data_ok(self) -> bool {
        !(0x3000 <= self.addr.value <= 0x3EFF)
    }

    /// The state after a PPUDATA read, and the byte it yields: pattern and
    /// nametable reads return the buffer and refill it; palette reads are
    /// direct, and refill the buffer from the nametable underneath.
    pub open spec fn read_data_spec(self) -> (NesPPU, u8) {
        let p = self.addr.value;
        let s = self.advanced();
        if p < 0x2000 {
            (NesPPU { internal_data_buf: self.chr_rom@[p as int], ..s }, self.internal_data_buf)
        } else if p < 0x3000 {
            (
                NesPPU { internal_data_buf: self.vram[vram_index(self.mirroring, p) as int], ..s },
                self.internal_data_buf,
            )
        } else {
            (
                NesPPU { internal_data_buf: self.vram[vram_index(self.mirroring, p) as int], ..s },
                self.palette_table[palette_read_index(p)],
            )
        }
    }

    /// The state after a PPUDATA write; pattern writes are dropped, CHR
    /// being ROM.
    pub open spec fn write_data_spec(self, value: u8) -> NesPPU {
        let p = self.addr.value;
        let s = self.advanced();
        if p < 0x2000 {
            s
        } else if p < 0x3000 {
            NesPPU {
                vram: vstd::array::spec_array_update(
                    self.vram,
                    vram_index(self.mirroring, p) as int,
                    value,
                ),
                ..s
            }
        } else {
            NesPPU {
                palette_table: vstd::array::spec_array_update(
                    self.palette_table,
                    palette_write_index(p),
                    value,
                ),
                ..s
            }
        }
    }

    /// The state after a PPUSTATUS read, and the byte it yields: the flag
    /// bits as they were; vertical blank is cleared and both write-order
    /// latches are reset.
    pub open spec fn read_status_spec(self) -> (NesPPU, u8) {
        (
            NesPPU {
                status: StatusRegister { bits: with_flag(self.status.bits, STATUS_VBLANK, false) },
                addr: AddrRegister { hi_ptr: true, ..self.addr },
                scroll: ScrollRegister { latch: false, ..self.scroll },
                ..self
            },
            self.status.bits & 0b1110_0000,
        )
    }

    /// The state after a PPUCTRL write: enabling NMIs while in vertical
    /// blank raises one at once.
    pub open spec fn write_ctrl_spec(self, value: u8) -> NesPPU {
        let raise = !self.ctrl.nmi_enabled() && value & CTRL_NMI != 0 && self.status.in_vblank();
        NesPPU {
            ctrl: CtrlRegister { bits: value },
            nmi_interrupt: if raise { Some(1u8) } else { self.nmi_interrupt },
            ..self
        }
    }

    pub open spec fn write_oam_data_spec(self, value: u8) -> NesPPU {
        NesPPU {
            oam: vstd::array::spec_array_update(self.oam, self.oam_addr as int, value),
            oam_addr: ((self.oam_addr + 1) % 256) as u8,
            ..self
        }
    }

    /// The state after the first `n` bytes of `data` are written to OAMDATA.
    pub open spec fn oam_writes(self, data: Seq<u8>, n: nat) -> NesPPU
        decreases n,
    {
        if n == 0 {
            self
        } else {
            self.oam_writes(data, (n - 1) as nat).write_oam_data_spec(data[n - 1])
        }
    }

    /// The state after the pointer moves to the next scanline.
    pub open spec fn next_scanline(self) -> (NesPPU, bool) {
        let line = self.scanline + 1;
        if line == VBLANK_SCANLINE {
            (
                NesPPU {
                    scanline: VBLANK_SCANLINE,
                    status: StatusRegister {
                        bits: with_flag(self.status.bits, STATUS_VBLANK, true),
                    },
                    nmi_interrupt: if self.ctrl.nmi_enabled() {
                        Some(1u8)
                    } else {
                        self.nmi_interrupt
                    },
                    ..self
                },
                false,
            )
        } else if line > LAST_SCANLINE {
            (
                NesPPU {
                    scanline: 0,
                    status: StatusRegister {
                        bits: with_flag(
                            with_flag(
                                with_flag(self.status.bits, STATUS_VBLANK, false),
                                STATUS_SPRITE_ZERO_HIT,
                                false,
                            ),
                            STATUS_SPRITE_OVERFLOW,
                            false,
                        ),
                    },
                    ..self
                },
                true,
            )
        } else {
            (NesPPU { scanline: line as u16, ..self }, false)
        }
    }

    /// Consumes whole scanlines from the dot counter; the flag tells whether
    /// a frame was completed on the way.
    pub open spec fn settle(self) -> (NesPPU, bool)
        decreases self.cycles,
    {
        if self.cycles >= DOTS_PER_SCANLINE {
            let (q, frame) = self.next_scanline();
            let (r, later) = NesPPU { cycles: (self.cycles - DOTS_PER_SCANLINE) as usize, ..q }.settle();
            (r, frame || later)
        } else {
            (self, false)
        }
    }

    /// The state after `dots` PPU dots, and whether a frame was completed.
    pub open spec fn tick_spec(self, dots: u16) -> (NesPPU, bool) {
        NesPPU { cycles: (self.cycles + dots) as usize, ..self }.settle()
    }

    /// The power-on state over the given cartridge pattern data.
    pub open spec fn is_power_on(self, chr_rom: Vec<u8>, mirroring: Mirroring) -> bool {
        &&& self.chr_rom == chr_rom
        &&& self.mirroring == mirroring
        &&& self.palette_table@ == Seq::new(32, |i: int| 0u8)
        &&& self.vram@ == Seq::new(2048, |i: int| 0u8)
        &&& self.oam@ == Seq::new(256, |i: int| 0u8)
        &&& self.internal_data_buf == 0
        &&& self.ctrl.bits == 0
        &&& self.mask.bits == 0
        &&& self.status.bits == 0
        &&& self.oam_addr == 0
        &&& self.scroll == ScrollRegister { scroll_x: 0, scroll_y: 0, latch: false }
        &&& self.addr == AddrRegister { value: 0, hi_ptr: true }
        &&& self.cycles == 0
        &&& self.scanline == 0
        &&& self.nmi_interrupt == Option::<u8>::None
    }

    pub fn new(chr_rom: Vec<u8>, mirroring: Mirroring) -> (r: Self)
        ensures
            r.wf(),
            r.is_power_on(chr_rom, mirroring),
    {
        let r = NesPPU {
            chr_rom,
            palette_table: [0u8; 32],
            vram: [0u8; 2048],
            oam: [0u8; 256],
            mirroring,
            internal_data_buf: 0,
            ctrl: CtrlRegister::new(),
            mask: MaskRegister::new(),
            status: StatusRegister::new(),
            oam_addr: 0,
            scroll: ScrollRegister::new(),
            addr: AddrRegister::new(),
            cycles: 0,
            scanline: 0,
            nmi_interrupt: None,
        };
        assert(r.palette_table@ =~= Seq::new(32, |i: int| 0u8));
        assert(r.vram@ =~= Seq::new(2048, |i: int| 0u8));
        assert(r.oam@ =~= Seq::new(256, |i: int| 0u8));
        r
    }

    fn increment_vram_addr(&mut self)
        requires
            old(self).wf(),
        ensures
            *final(self) == old(self).advanced(),
            final(self).wf(),
    {
        let inc = self.ctrl.vram_addr_increment();
        self.addr.increment(inc);
    }

    pub fn mirror_vram_addr(&self, addr: u16) -> (r: u16)
        requires
            0x2000 <= addr <= 0x3FFF,
        ensures
            r == vram_index(self.mirroring, addr),
            r < 0x800,
    {
        proof {
            lemma_nametable_fold(addr);
        }
        // $3000..=$3EFF mirrors $2000..=$2EFF
        let mirrored_addr = addr & 0x2FFF;
        let vram_idx = mirrored_addr - 0x2000;
        let nametable = vram_idx / 0x400;
        match self.mirroring {
            Mirroring::Vertical => if nametable >= 2 {
                vram_idx - 0x800
            } else {
                vram_idx
            },
            Mirroring::Horizontal => if nametable == 0 {
                vram_idx
            } else if nametable == 3 {
                vram_idx - 0x800
            } else {
                vram_idx - 0x400
            },
        }
    }

    pub fn write_to_ppu_addr(&mut self, value: u8)
        requires
            old(self).wf(),
        ensures
            *final(self) == (NesPPU { addr: old(self).addr.update_spec(value), ..*old(self) }),
            final(self).wf(),
    {
        self.addr.update(value);
    }

    pub fn write_to_ctrl(&mut self, value: u8)
        ensures
            *final(self) == old(self).write_ctrl_spec(value),
    {
        let was_enabled = self.ctrl.generate_vblank_nmi();
        self.ctrl.update(value);
        if !was_enabled && self.ctrl.generate_vblank_nmi() && self.status.is_in_vblank() {
            self.nmi_interrupt = Some(1);
        }
    }

    pub fn read_data(&mut self) -> (r: u8)
        requires
            old(self).wf(),
            old(self).read_data_ok(),
        ensures
            (*final(self), r) == old(self).read_data_spec(),
            final(self).wf(),
    {
        let addr = self.addr.get();
        self.increment_vram_addr();
        if addr <= 0x1FFF {
            let result = self.internal_data_buf;
            self.internal_data_buf = self.chr_rom[addr as usize];
            result
        } else if addr <= 0x2FFF {
            let result = self.internal_data_buf;
            self.internal_data_buf = self.vram[self.mirror_vram_addr(addr) as usize];
            result
        } else {
            // palette reads skip the buffer
            self.internal_data_buf = self.vram[self.mirror_vram_addr(addr) as usize];
            self.palette_table[((addr - 0x3F00) % 32) as usize]
        }
    }

    pub fn write_to_mask(&mut self, value: u8)
        ensures
            *final(self) == (NesPPU { mask: MaskRegister { bits: value }, ..*old(self) }),
    {
        self.mask.update(value);
    }

    pub fn read_status(&mut self) -> (r: u8)
        requires
            old(self).wf(),
        ensures
            (*final(self), r) == old(self).read_status_spec(),
            final(self).wf(),
    {
        let result = self.status.snapshot();
        self.status.reset_vblank_status();
        self.addr.reset_latch();
        self.scroll.reset_latch();
        result
    }

    pub fn write_to_oam_addr(&mut self, value: u8)
        ensures
            *final(self) == (NesPPU { oam_addr: value, ..*old(self) }),
    {
        self.oam_addr = value;
    }

    pub fn write_to_oam_data(&mut self, value: u8)
        ensures
            *final(self) == old(self).write_oam_data_spec(value),
    {
        self.oam[self.oam_addr as usize] = value;
        self.oam_addr = ((self.oam_addr as u16 + 1) % 256) as u8;
    }

    pub fn read_oam_data(&self) -> (r: u8)
        ensures
            r == self.oam[self.oam_addr as int],
    {
        self.oam[self.oam_addr as usize]
    }

    pub fn write_to_scroll(&mut self, value: u8)
        ensures
            *final(self) == (NesPPU { scroll: old(self).scroll.write_spec(value), ..*old(self) }),
    {
        self.scroll.write(value);
    }

    /// Copies a page into OAM from `oam_addr` on, wrapping at 256; after the
    /// full page `oam_addr` is back where it started.
    pub fn write_oam_dma(&mut self, data: &[u8; 256])
        ensures
            *final(self) == old(self).oam_writes(data@, 256),
            final(self).oam_addr == old(self).oam_addr,
            forall|i: int|
                0 <= i < 256 ==> #[trigger] final(self).oam[(old(self).oam_addr + i) % 256] == data[i],
            old(self).wf() ==> final(self).wf(),
    {
        proof {
            lemma_oam_writes(*old(self), data@, 256);
        }
        let mut i: usize = 0;
        while i < 256
            invariant
                0 <= i <= 256,
                *self == old(self).oam_writes(data@, i as nat),
                self.addr == old(self).addr,
                self.cycles == old(self).cycles,
                self.scanline == old(self).scanline,
            decreases 256 - i,
        {
            self.write_to_oam_data(data[i]);
            i += 1;
        }
    }

    pub fn write_to_data(&mut self, value: u8)
        requires
            old(self).wf(),
            old(self).write_data_ok(),
        ensures
            *final(self) == old(self).write_data_spec(value),
            final(self).wf(),
    {
        let addr = self.addr.get();
        self.increment_vram_addr();
        if addr <= 0x1FFF {
            // CHR is ROM: the write is dropped
        } else if addr <= 0x2FFF {
            let i = self.mirror_vram_addr(addr);
            self.vram[i as usize] = value;
        } else {
            let mut i = (addr - 0x3F00) % 32;
            if i >= 16 && i % 4 == 0 {
                i = i - 16;
            }
            self.palette_table[i as usize] = value;
        }
    }

    fn next_line(&mut self) -> (frame: bool)
        requires
            old(self).scanline <= LAST_SCANLINE,
        ensures
            final(self).scanline <= LAST_SCANLINE,
            (*final(self), frame) == old(self).next_scanline(),
    {
        self.scanline = self.scanline + 1;
        if self.scanline == VBLANK_SCANLINE {
            self.status.set_vblank_status(true);
            if self.ctrl.generate_vblank_nmi() {
                self.nmi_interrupt = Some(1);
            }
            false
        } else if self.scanline > LAST_SCANLINE {
            self.scanline = 0;
            self.status.reset_vblank_status();
            self.status.set_sprite_zero_hit(false);
            self.status.set_sprite_overflow(false);
            true
        } else {
            false
        }
    }

    /// Advances the PPU by `dots` dots: 341 to a scanline, vertical blank
    /// from scanline 241, and a completed frame when scanline 261 ends.
    pub fn tick(&mut self, dots: u16) -> (frame: bool)
        requires
            old(self).wf(),
        ensures
            (*final(self), frame) == old(self).tick_spec(dots),
            final(self).wf(),
    {
        self.cycles = self.cycles + dots as usize;
        let ghost start = *self;
        let mut frame = false;
        while self.cycles >= DOTS_PER_SCANLINE
            invariant
                self.addr.wf(),
                self.scanline <= LAST_SCANLINE,
                self.settle().0 == start.settle().0,
                (frame || self.settle().1) == start.settle().1,
            decreases self.cycles,
        {
            let line_done = self.next_line();
            self.cycles = self.cycles - DOTS_PER_SCANLINE;
            frame = frame || line_done;
        }
        frame
    }
}

impl PPU for NesPPU {
    open spec fn well_formed(&self) -> bool {
        self.wf()
    }

    open spec fn data_read_allowed(&self) -> bool {
        self.read_data_ok()
    }

    open spec fn data_write_allowed(&self) -> bool {
        self.write_data_ok()
    }

    fn write_to_ppu_addr(&mut self, value: u8) {
        NesPPU::write_to_ppu_addr(self, value);
    }

    fn write_to_ctrl(&mut self, value: u8) {
        NesPPU::write_to_ctrl(self, value);
    }

    fn read_data(&mut self) -> u8 {
        NesPPU::read_data(self)
    }

    fn write_to_mask(&mut self, value: u8) {
        NesPPU::write_to_mask(self, value);
    }

    fn read_status(&mut self) -> u8 {
        NesPPU::read_status(self)
    }

    fn write_to_oam_addr(&mut self, value: u8) {
        NesPPU::write_to_oam_addr(self, value);
    }

    fn write_to_oam_data(&mut self, value: u8) {
        NesPPU::write_to_oam_data(self, value);
    }

    fn read_oam_data(&self) -> u8 {
        NesPPU::read_oam_data(self)
    }

    fn write_to_scroll(&mut self, value: u8) {
        NesPPU::write_to_scroll(self, value);
    }

    fn write_to_data(&mut self, value: u8) {
        NesPPU::write_to_data(self, value);
    }

    fn write_oam_dma(&mut self, value: &[u8; 256]) {
        NesPPU::write_oam_dma(self, value);
    }
}

/// The palette address that a write at `addr` (in $3F00..=$3F1F) reads
/// back from: $3F10/$3F14/$3F18/$3F1C read back from $3F00/$3F04/$3F08/$3F0C.
pub open spec fn palette_read_back(addr: u16) -> u16 {
    if addr >= 0x3F10 && addr % 4 == 0 { (addr - 0x10) as u16 } else { addr }
}

impl NesPPU {
    /// The state after PPUADDR receives the high, then the low byte of `addr`.
    pub open spec fn point_at(self, addr: u16) -> NesPPU {
        NesPPU {
            addr: self.addr.update_spec((addr / 256) as u8).update_spec((addr % 256) as u8),
            ..self
        }
    }

    /// The state after `n` PPUDATA reads.
    pub open spec fn data_reads(self, n: nat) -> NesPPU
        decreases n,
    {
        if n == 0 {
            self
        } else {
            self.read_data_spec().0.data_reads((n - 1) as nat)
        }
    }
}

/// Two PPUADDR writes, high byte first, leave the pointer at the 14-bit
/// address they spell and the latch expecting a high byte again.
pub proof fn lemma_point_at(p: NesPPU, addr: u16)
    requires
        p.addr.hi_ptr,
        addr < 0x4000,
    ensures
        p.point_at(addr).addr == (AddrRegister { value: addr, hi_ptr: true }),
{
    let hi = (addr / 256) as u8;
    assert(hi < 64);
    assert(hi & 0x3F == hi) by (bit_vector)
        requires
            hi < 64,
    ;
}

/// A second PPUSTATUS read in a row sees vertical blank clear, whatever
/// the first one saw.
pub proof fn lemma_status_read_clears_vblank(p: NesPPU)
    ensures
        p.read_status_spec().1 == p.status.bits & 0b1110_0000,
        p.read_status_spec().0.read_status_spec().1 & STATUS_VBLANK == 0,
        !p.read_status_spec().0.status.in_vblank(),
{
    let b = p.status.bits;
    assert((b & !0x80u8) & 0b1110_0000 & 0x80 == 0) by (bit_vector);
    assert((b & !0x80u8) & 0x80 == 0) by (bit_vector);
}

/// A palette entry written through PPUDATA reads back through PPUDATA at
/// once, without the buffer's delay; the four aliased sprite backdrop
/// slots read back from the entries they share.
pub proof fn lemma_palette_round_trip(p: NesPPU, addr: u16, value: u8)
    requires
        p.wf(),
        p.addr.hi_ptr,
        0x3F00 <= addr <= 0x3F1F,
    ensures
        p.point_at(addr).write_data_spec(value).point_at(palette_read_back(addr)).read_data_spec().1
            == value,
{
    lemma_point_at(p, addr);
    let q = p.point_at(addr).write_data_spec(value);
    assert(q.addr.hi_ptr);
    lemma_point_at(q, palette_read_back(addr));
    assert(palette_write_index(addr) == palette_read_index(palette_read_back(addr)));
    assert(q.palette_table@ == p.palette_table@.update(palette_write_index(addr), value));
}

/// OAMADDR wraps from $FF to 0 on an OAMDATA write.
pub proof fn lemma_oam_addr_wraps(p: NesPPU, value: u8)
    requires
        p.oam_addr == 0xFF,
    ensures
        p.write_oam_data_spec(value).oam_addr == 0,
{
}

/// Each PPUDATA read moves the pointer on by the PPUCTRL increment, within
/// the 14-bit address space.
pub proof fn lemma_data_reads_advance(p: NesPPU, n: nat)
    requires
        p.wf(),
    ensures
        p.data_reads(n).addr.value == (p.addr.value + n * p.ctrl.increment_spec()) % 0x4000,
        p.data_reads(n).ctrl == p.ctrl,
    decreases n,
{
    if n > 0 {
        let q = p.read_data_spec().0;
        assert(q.wf());
        lemma_data_reads_advance(q, (n - 1) as nat);
        let inc = p.ctrl.increment_spec() as int;
        assert(q.addr.value == (p.addr.value + inc) % 0x4000);
        assert(q.ctrl == p.ctrl);
        vstd::arithmetic::div_mod::lemma_add_mod_noop_right(
            (n - 1) * inc,
            p.addr.value + inc,
            0x4000,
        );
        assert(p.addr.value + inc + (n - 1) * inc == p.addr.value + n * inc) by (nonlinear_arith);
    }
}

/// After `n` OAMDATA writes the pointer has moved on `n` places and the
/// `i`-th byte sits `i` places past where it started.
pub proof fn lemma_oam_writes(p: NesPPU, data: Seq<u8>, n: nat)
    requires
        n <= 256,
        data.len() >= n,
    ensures
        p.oam_writes(data, n).oam_addr == (p.oam_addr + n) % 256,
        forall|i: int|
            0 <= i < n ==> #[trigger] p.oam_writes(data, n).oam[(p.oam_addr + i) % 256] == data[i],
    decreases n,
{
    if n > 0 {
        lemma_oam_writes(p, data, (n - 1) as nat);
        let s = p.oam_writes(data, (n - 1) as nat);
        let t = p.oam_writes(data, n);
        assert(t.oam@ == s.oam@.update(s.oam_addr as int, data[n - 1]));
        assert forall|i: int| 0 <= i < n implies #[trigger] t.oam[(p.oam_addr + i) % 256]
            == data[i] by {
            if i < n - 1 {
                assert((p.oam_addr + i) % 256 != (p.oam_addr + n - 1) % 256);
                assert(t.oam[(p.oam_addr + i) % 256] == s.oam[(p.oam_addr + i) % 256]);
            }
        }
    }
}

} // verus!
