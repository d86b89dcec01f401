use nes::bus::Bus;
use nes::cartridge::{Mirroring, Rom};

fn test_rom() -> Rom {
    Rom { prg_rom: vec![1u8; 0x8000], chr_rom: vec![2u8; 0x2000], mirroring: Mirroring::Vertical }
}

fn nrom128_bus() -> Bus {
    let prg: Vec<u8> = (0..0x4000usize).map(|i| (i & 0xFF) as u8).collect();
    Bus::new(Rom { prg_rom: prg, chr_rom: vec![0u8; 0x2000], mirroring: Mirroring::Horizontal })
}

#[test]
fn test_mem_read_write_to_ram() {
    let mut bus = Bus::new(test_rom());
    bus.mem_write(0x01, 0x55);
    assert_eq!(bus.mem_read(0x01), 0x55);
}

#[test]
fn ram_mirror_scenario() {
    let mut bus = Bus::new(test_rom());
    bus.mem_write(0x0000, 0x42);
    assert_eq!(bus.mem_read(0x0800), 0x42);
    assert_eq!(bus.mem_read(0x1000), 0x42);
    assert_eq!(bus.mem_read(0x1800), 0x42);
}

#[test]
fn ram_write_through_mirror_lands_in_base() {
    let mut bus = Bus::new(test_rom());
    bus.mem_write(0x1FFF, 0x99);
    assert_eq!(bus.cpu_vram[0x07FF], 0x99);
    assert_eq!(bus.mem_read(0x07FF), 0x99);
}

#[test]
fn prg_mirror_scenario() {
    let mut bus = nrom128_bus();
    assert_eq!(bus.mem_read(0x8000), 0x00);
    assert_eq!(bus.mem_read(0xBFFF), 0xFF);
    assert_eq!(bus.mem_read(0xC000), 0x00);
    assert_eq!(bus.mem_read(0xFFFF), 0xFF);
}

#[test]
fn prg_32k_is_not_mirrored() {
    let mut prg = vec![0u8; 0x8000];
    prg[0x4000] = 0x77;
    let mut bus = Bus::new(Rom { prg_rom: prg, chr_rom: vec![], mirroring: Mirroring::Vertical });
    assert_eq!(bus.mem_read(0x8000), 0x00);
    assert_eq!(bus.mem_read(0xC000), 0x77);
}

#[test]
fn buffered_vram_read_scenario() {
    let mut bus = Bus::new(test_rom());
    bus.ppu.vram[0] = 0xAA;
    bus.ppu.vram[1] = 0xBB;
    bus.mem_write(0x2006, 0x20);
    bus.mem_write(0x2006, 0x00);
    assert_eq!(bus.mem_read(0x2007), 0x00);
    assert_eq!(bus.mem_read(0x2007), 0xAA);
    assert_eq!(bus.mem_read(0x2007), 0xBB);
}

#[test]
fn palette_direct_read_scenario() {
    let mut bus = Bus::new(test_rom());
    bus.ppu.palette_table[0] = 0x0F;
    bus.mem_write(0x2006, 0x3F);
    bus.mem_write(0x2006, 0x00);
    assert_eq!(bus.mem_read(0x2007), 0x0F);
}

#[test]
fn oam_dma_scenario() {
    let mut bus = Bus::new(test_rom());
    for i in 0..256u16 {
        bus.mem_write(0x0200 + i, (i & 0xFF) as u8);
    }
    bus.mem_write(0x2003, 0);
    bus.mem_write(0x4014, 0x02);
    for i in 0..256usize {
        assert_eq!(bus.ppu.oam[i], (i & 0xFF) as u8);
    }
    assert_eq!(bus.ppu.oam_addr, 0);
}

#[test]
fn oam_dma_wraps_from_oam_addr() {
    let mut bus = Bus::new(test_rom());
    for i in 0..256u16 {
        bus.mem_write(0x0300 + i, (255 - i) as u8);
    }
    bus.mem_write(0x2003, 0x10);
    bus.mem_write(0x4014, 0x03);
    assert_eq!(bus.ppu.oam[0x10], 255);
    assert_eq!(bus.ppu.oam[0xFF], 255 - 0xEF);
    assert_eq!(bus.ppu.oam[0x00], 255 - 0xF0);
    assert_eq!(bus.ppu.oam[0x0F], 0);
    assert_eq!(bus.ppu.oam_addr, 0x10);
}

#[test]
fn nmi_at_vblank_scenario() {
    let mut bus = Bus::new(test_rom());
    bus.mem_write(0x2000, 0x80);
    let mut steps = 0;
    while bus.ppu.scanline != 241 {
        bus.tick(1);
        steps += 1;
        assert!(steps < 100_000);
    }
    assert_eq!(bus.poll_nmi_status(), Some(1));
    assert_eq!(bus.poll_nmi_status(), None);
}

#[test]
fn no_nmi_when_disabled() {
    let mut bus = Bus::new(test_rom());
    let mut frames = 0;
    for _ in 0..40_000 {
        if bus.tick(1) {
            frames += 1;
        }
    }
    assert_eq!(frames, 1);
    assert_eq!(bus.poll_nmi_status(), None);
}

#[test]
fn frame_completes_after_262_scanlines() {
    let mut bus = Bus::new(test_rom());
    // 262 * 341 = 89342 dots; 3 dots per CPU cycle
    let mut cycles: u32 = 0;
    loop {
        cycles += 1;
        if bus.tick(1) {
            break;
        }
    }
    assert_eq!(cycles, 89342 / 3 + 1);
    assert_eq!(bus.ppu.scanline, 0);
    assert_eq!(bus.cycles, cycles as usize);
    assert!(!bus.ppu.status.is_in_vblank());
}

#[test]
fn vblank_is_set_at_scanline_241_and_read_by_status() {
    let mut bus = Bus::new(test_rom());
    while bus.ppu.scanline != 241 {
        bus.tick(7);
    }
    assert_eq!(bus.mem_read(0x2002) & 0x80, 0x80);
    assert_eq!(bus.mem_read(0x2002) & 0x80, 0);
}

#[test]
fn large_tick_crosses_several_scanlines() {
    let mut bus = Bus::new(test_rom());
    bus.tick(255);
    // 765 dots: two whole scanlines and 83 dots
    assert_eq!(bus.ppu.scanline, 2);
    assert_eq!(bus.ppu.cycles, 83);
}

#[test]
fn ppu_register_mirror_reaches_registers() {
    let mut bus = Bus::new(test_rom());
    bus.mem_write(0x3FFE, 0x21);
    bus.mem_write(0x200E, 0x05);
    assert_eq!(bus.ppu.addr.get(), 0x2105);
    bus.mem_write(0x3FFB, 0x40);
    bus.mem_write(0x3FFC, 0x5A);
    assert_eq!(bus.ppu.oam[0x40], 0x5A);
    bus.mem_write(0x2003, 0x40);
    assert_eq!(bus.mem_read(0x3FFC), 0x5A);
    assert_eq!(bus.mem_read(0x200C), 0x5A);
}

#[test]
fn write_only_registers_and_stubs_read_zero() {
    let mut bus = Bus::new(test_rom());
    bus.mem_write(0x2000, 0xFF);
    for addr in [0x2000u16, 0x2001, 0x2003, 0x2005, 0x2006, 0x4000, 0x4014, 0x4015, 0x4017, 0x5000, 0x7FFF] {
        assert_eq!(bus.mem_read(addr), 0);
    }
}

#[test]
fn ignored_writes_change_nothing() {
    let mut bus = Bus::new(test_rom());
    bus.mem_write(0x4000, 0x12);
    bus.mem_write(0x4017, 0x34);
    bus.mem_write(0x6000, 0x56);
    assert_eq!(bus.mem_read(0x6000), 0);
    assert!(bus.cpu_vram.iter().all(|b| *b == 0));
}

#[test]
fn oam_data_reads_twice_the_same() {
    let mut bus = Bus::new(test_rom());
    bus.mem_write(0x2003, 0x07);
    bus.mem_write(0x2004, 0x3C);
    bus.mem_write(0x2003, 0x07);
    assert_eq!(bus.mem_read(0x2004), 0x3C);
    assert_eq!(bus.mem_read(0x2004), 0x3C);
    assert_eq!(bus.ppu.oam_addr, 0x07);
}

#[test]
fn ppudata_pointer_advances_by_increment() {
    let mut bus = Bus::new(test_rom());
    bus.mem_write(0x2006, 0x21);
    bus.mem_write(0x2006, 0x00);
    for _ in 0..8 {
        bus.mem_read(0x2007);
    }
    assert_eq!(bus.ppu.addr.get(), 0x2108);
    bus.mem_write(0x2000, 0x04);
    bus.mem_write(0x2006, 0x21);
    bus.mem_write(0x2006, 0x00);
    for _ in 0..8 {
        bus.mem_read(0x2007);
    }
    assert_eq!(bus.ppu.addr.get(), 0x2100 + 8 * 32);
}

#[test]
fn joypad_through_bus() {
    let mut bus = Bus::new(test_rom());
    bus.joypad1.set_button_pressed_status(nes::joypad::JoypadButtons::ButtonB, true);
    bus.mem_write(0x4016, 1);
    bus.mem_write(0x4016, 0);
    assert_eq!(bus.mem_read(0x4016), 0);
    assert_eq!(bus.mem_read(0x4016), 1);
    assert_eq!(bus.mem_read(0x4016), 0);
}

#[test]
fn read_allowed_rejects_forbidden_vram_region() {
    let mut bus = Bus::new(test_rom());
    bus.mem_write(0x2006, 0x30);
    bus.mem_write(0x2006, 0x00);
    assert!(!bus.read_allowed(0x2007));
    assert!(!bus.read_allowed(0x3FFF));
    assert!(bus.read_allowed(0x2002));
    bus.mem_write(0x2006, 0x3F);
    bus.mem_write(0x2006, 0x00);
    assert!(bus.read_allowed(0x2007));
}
