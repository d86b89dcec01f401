use nes::cartridge::Mirroring;
use nes::ppu::NesPPU;
use nes::ppu::registers::ctrl::CtrlRegister;
use nes::ppu::registers::mask::{Color, MaskRegister};
use nes::ppu::registers::status::StatusRegister;

fn ppu(mirroring: Mirroring) -> NesPPU {
    NesPPU::new(vec![0u8; 0x2000], mirroring)
}

fn point(p: &mut NesPPU, addr: u16) {
    p.write_to_ppu_addr((addr >> 8) as u8);
    p.write_to_ppu_addr((addr & 0xFF) as u8);
}

#[test]
fn horizontal_mirroring_indices() {
    let p = ppu(Mirroring::Horizontal);
    assert_eq!(p.mirror_vram_addr(0x2000), 0x000);
    assert_eq!(p.mirror_vram_addr(0x2400), 0x000);
    assert_eq!(p.mirror_vram_addr(0x2800), 0x400);
    assert_eq!(p.mirror_vram_addr(0x2C00), 0x400);
    assert_eq!(p.mirror_vram_addr(0x2FFF), 0x7FF);
    assert_eq!(p.mirror_vram_addr(0x3005), 0x005);
}

#[test]
fn vertical_mirroring_indices() {
    let p = ppu(Mirroring::Vertical);
    assert_eq!(p.mirror_vram_addr(0x2000), 0x000);
    assert_eq!(p.mirror_vram_addr(0x2400), 0x400);
    assert_eq!(p.mirror_vram_addr(0x2800), 0x000);
    assert_eq!(p.mirror_vram_addr(0x2C10), 0x410);
    assert_eq!(p.mirror_vram_addr(0x3EFF), 0x6FF);
}

#[test]
fn status_read_clears_vblank_and_latches() {
    let mut p = ppu(Mirroring::Vertical);
    p.status.set_vblank_status(true);
    p.status.set_sprite_zero_hit(true);
    p.write_to_ppu_addr(0x21);
    assert_eq!(p.read_status(), 0xC0);
    assert_eq!(p.read_status(), 0x40);
    // the latch is back on the high byte
    point(&mut p, 0x2345);
    assert_eq!(p.addr.get(), 0x2345);
}

#[test]
fn status_read_hides_unused_bits() {
    let mut p = ppu(Mirroring::Vertical);
    p.status.bits = 0xFF;
    assert_eq!(p.read_status(), 0xE0);
}

#[test]
fn palette_round_trip_all_entries() {
    let mut p = ppu(Mirroring::Vertical);
    for addr in 0x3F00u16..=0x3F1F {
        let v = (addr as u8).wrapping_mul(7);
        point(&mut p, addr);
        p.write_to_data(v);
        let back = if addr >= 0x3F10 && addr % 4 == 0 { addr - 0x10 } else { addr };
        point(&mut p, back);
        assert_eq!(p.read_data(), v);
    }
}

#[test]
fn palette_alias_writes_low_entry() {
    let mut p = ppu(Mirroring::Vertical);
    point(&mut p, 0x3F10);
    p.write_to_data(0x2A);
    assert_eq!(p.palette_table[0x00], 0x2A);
    assert_eq!(p.palette_table[0x10], 0x00);
    point(&mut p, 0x3F15);
    p.write_to_data(0x11);
    assert_eq!(p.palette_table[0x15], 0x11);
}

#[test]
fn palette_read_refills_buffer_from_nametable_below() {
    let mut p = ppu(Mirroring::Horizontal);
    p.vram[p.mirror_vram_addr(0x2F00) as usize] = 0x66;
    point(&mut p, 0x3F00);
    p.read_data();
    point(&mut p, 0x2000);
    assert_eq!(p.read_data(), 0x66);
}

#[test]
fn chr_read_is_buffered() {
    let mut chr = vec![0u8; 0x2000];
    chr[0x10] = 0x5C;
    let mut p = NesPPU::new(chr, Mirroring::Vertical);
    point(&mut p, 0x0010);
    assert_eq!(p.read_data(), 0);
    assert_eq!(p.read_data(), 0x5C);
}

#[test]
fn chr_write_is_ignored() {
    let mut p = ppu(Mirroring::Vertical);
    point(&mut p, 0x0000);
    p.write_to_data(0x12);
    assert_eq!(p.chr_rom[0], 0);
    assert_eq!(p.addr.get(), 1);
}

#[test]
fn nametable_write_goes_through_mirroring() {
    let mut p = ppu(Mirroring::Vertical);
    point(&mut p, 0x2801);
    p.write_to_data(0x44);
    assert_eq!(p.vram[0x001], 0x44);
}

#[test]
fn oam_addr_wraps_on_data_write() {
    let mut p = ppu(Mirroring::Vertical);
    p.write_to_oam_addr(0xFF);
    p.write_to_oam_data(0x31);
    assert_eq!(p.oam[0xFF], 0x31);
    assert_eq!(p.oam_addr, 0);
}

#[test]
fn oam_dma_block_write() {
    let mut p = ppu(Mirroring::Vertical);
    let mut page = [0u8; 256];
    for (i, b) in page.iter_mut().enumerate() {
        *b = i as u8;
    }
    p.write_to_oam_addr(0x80);
    p.write_oam_dma(&page);
    assert_eq!(p.oam[0x80], 0);
    assert_eq!(p.oam[0x7F], 0xFF);
    assert_eq!(p.oam_addr, 0x80);
}

#[test]
fn pointer_wraps_at_14_bits() {
    let mut p = ppu(Mirroring::Vertical);
    p.write_to_ctrl(0x04);
    point(&mut p, 0x3FF0);
    p.read_data();
    assert_eq!(p.addr.get(), 0x0010);
}

#[test]
fn addr_high_byte_is_masked() {
    let mut p = ppu(Mirroring::Vertical);
    point(&mut p, 0xFFFF);
    assert_eq!(p.addr.get(), 0x3FFF);
}

#[test]
fn scroll_writes_alternate() {
    let mut p = ppu(Mirroring::Vertical);
    p.write_to_scroll(0x11);
    p.write_to_scroll(0x22);
    assert_eq!(p.scroll.scroll_x, 0x11);
    assert_eq!(p.scroll.scroll_y, 0x22);
    p.write_to_scroll(0x33);
    p.read_status();
    p.write_to_scroll(0x44);
    assert_eq!(p.scroll.scroll_x, 0x44);
}

#[test]
fn enabling_nmi_during_vblank_raises_it() {
    let mut p = ppu(Mirroring::Vertical);
    p.status.set_vblank_status(true);
    p.write_to_ctrl(0x80);
    assert_eq!(p.nmi_interrupt, Some(1));
    p.nmi_interrupt = None;
    p.write_to_ctrl(0x80);
    assert_eq!(p.nmi_interrupt, None);
}

#[test]
fn tick_sets_and_clears_vblank() {
    let mut p = ppu(Mirroring::Vertical);
    p.write_to_ctrl(0x80);
    let mut frame = false;
    for _ in 0..241 {
        frame |= p.tick(341);
    }
    assert!(!frame);
    assert_eq!(p.scanline, 241);
    assert!(p.status.is_in_vblank());
    assert_eq!(p.nmi_interrupt, Some(1));
    for _ in 0..20 {
        assert!(!p.tick(341));
    }
    assert!(p.tick(341));
    assert_eq!(p.scanline, 0);
    assert!(!p.status.is_in_vblank());
}

#[test]
fn ctrl_register_fields() {
    let mut c = CtrlRegister::new();
    assert_eq!(c.nametable_addr(), 0x2000);
    assert_eq!(c.vram_addr_increment(), 1);
    assert_eq!(c.sprite_size(), 8);
    assert!(!c.generate_vblank_nmi());
    c.update(0b1111_1111);
    assert_eq!(c.nametable_addr(), 0x2C00);
    assert_eq!(c.vram_addr_increment(), 32);
    assert_eq!(c.sprt_pattern_addr(), 0x1000);
    assert_eq!(c.bknd_pattern_addr(), 0x1000);
    assert_eq!(c.sprite_size(), 16);
    assert_eq!(c.master_slave_select(), 1);
    assert!(c.generate_vblank_nmi());
    c.update(0b0100_0010);
    assert_eq!(c.nametable_addr(), 0x2800);
    assert_eq!(c.master_slave_select(), 1);
    assert_eq!(c.sprite_size(), 8);
    assert_eq!(c.sprt_pattern_addr(), 0);
    assert_eq!(c.bknd_pattern_addr(), 0);
    c.update(0b0000_0001);
    assert_eq!(c.nametable_addr(), 0x2400);
}

#[test]
fn mask_register_fields() {
    let mut m = MaskRegister::new();
    assert!(m.emphasise().is_empty());
    m.update(0b1010_1011);
    assert!(m.is_grayscale());
    assert!(m.leftmost_8pxl_background());
    assert!(!m.leftmost_8pxl_sprite());
    assert!(m.show_background());
    assert!(!m.show_sprites());
    assert_eq!(m.emphasise(), vec![Color::Red, Color::Blue]);
    m.update(0b0101_0100);
    assert!(m.leftmost_8pxl_sprite());
    assert!(m.show_sprites());
    assert_eq!(m.emphasise(), vec![Color::Green]);
}

#[test]
fn status_register_flags() {
    let mut s = StatusRegister::new();
    s.set_sprite_overflow(true);
    assert_eq!(s.snapshot(), 0x20);
    s.set_vblank_status(true);
    assert!(s.is_in_vblank());
    s.reset_vblank_status();
    assert!(!s.is_in_vblank());
    s.set_sprite_overflow(false);
    s.set_sprite_zero_hit(true);
    assert_eq!(s.snapshot(), 0x40);
}
