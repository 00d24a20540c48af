use nise::bus::NiseBus;
use nise::rom::{Mirroring, Rom};

fn bus_with_prg(prg: Vec<u8>) -> NiseBus {
    let rom = Rom { prg_rom: prg, chr_rom: Vec::new(), mapper: 0, screen_mirroring: Mirroring::Vertical };
    NiseBus::new(rom)
}

fn small_bus() -> NiseBus {
    bus_with_prg(vec![0u8; 16384])
}

#[test]
fn ram_reads_back_what_was_written() {
    let mut bus = small_bus();
    bus.write(0x0000, 0x11);
    bus.write(0x07ff, 0x22);
    assert_eq!(bus.read(0x0000), 0x11);
    assert_eq!(bus.read(0x07ff), 0x22);
}

#[test]
fn ram_is_mirrored_every_0x800() {
    let mut bus = small_bus();
    bus.write(0x0005, 0x77);
    assert_eq!(bus.read(0x0005), 0x77);
    assert_eq!(bus.read(0x0805), 0x77);
    assert_eq!(bus.read(0x1005), 0x77);
    assert_eq!(bus.read(0x1805), 0x77);
    bus.write(0x1f00, 0x31);
    assert_eq!(bus.read(0x0700), 0x31);
}

#[test]
fn prg_rom_single_bank_is_mirrored() {
    let mut prg = vec![0u8; 16384];
    prg[0x0005] = 0xab;
    prg[0x3fff] = 0xcd;
    let mut bus = bus_with_prg(prg);
    assert_eq!(bus.read(0x8005), 0xab);
    assert_eq!(bus.read(0xc005), 0xab);
    assert_eq!(bus.read(0xbfff), 0xcd);
    assert_eq!(bus.read(0xffff), 0xcd);
}

#[test]
fn prg_rom_double_bank_is_not_mirrored() {
    let mut prg = vec![0u8; 32768];
    prg[0x0005] = 0x01;
    prg[0x4005] = 0x02;
    let mut bus = bus_with_prg(prg);
    assert_eq!(bus.read(0x8005), 0x01);
    assert_eq!(bus.read(0xc005), 0x02);
}

#[test]
fn rom_writes_are_ignored() {
    let mut bus = small_bus();
    bus.write(0x8005, 0x99);
    assert_eq!(bus.read(0x8005), 0x00);
}

#[test]
fn apu_and_expansion_windows_read_open_bus() {
    let mut bus = small_bus();
    bus.write(0x4005, 0x99);
    assert_eq!(bus.read(0x4005), 0x00);
    assert_eq!(bus.read(0x6000), 0x00);
}

#[test]
fn ppu_registers_are_mirrored_every_eight_bytes() {
    let mut bus = small_bus();
    bus.write(0x2008, 0x81); // PPUCTRL through the first mirror
    assert_eq!(bus.ppu.ppuctrl, 0x81);
    bus.write(0x3ff9, 0x1e); // PPUMASK through the last mirror
    assert_eq!(bus.ppu.ppumask, 0x1e);
    bus.ppu.ppustatus = 0xa0;
    assert_eq!(bus.read(0x3ffa), 0xa0); // PPUSTATUS through a mirror
}

#[test]
fn write_only_registers_read_as_open_bus_without_effect() {
    let mut bus = small_bus();
    bus.write(0x2000, 0x55);
    bus.write(0x2001, 0x66);
    assert_eq!(bus.read(0x2000), 0x00);
    assert_eq!(bus.read(0x2001), 0x00);
    assert_eq!(bus.read(0x2003), 0x00);
    assert_eq!(bus.read(0x2005), 0x00);
    assert_eq!(bus.read(0x2006), 0x00);
    assert_eq!(bus.ppu.ppuctrl, 0x55);
    assert_eq!(bus.ppu.ppumask, 0x66);
}

#[test]
fn ppustatus_read_clears_vblank_and_write_toggle() {
    let mut bus = small_bus();
    bus.ppu.ppustatus = 0xe0;
    bus.ppu.w = 1;
    assert_eq!(bus.read(0x2002), 0xe0);
    assert_eq!(bus.ppu.ppustatus, 0x60);
    assert_eq!(bus.ppu.w, 0);
}

#[test]
fn ppustatus_writes_are_ignored() {
    let mut bus = small_bus();
    bus.ppu.ppustatus = 0x40;
    bus.write(0x2002, 0xff);
    assert_eq!(bus.ppu.ppustatus, 0x40);
}

#[test]
fn ppuaddr_latches_and_ppudata_writes_vram() {
    let mut bus = small_bus();
    bus.write(0x2006, 0x21); // high byte first
    bus.write(0x2006, 0x08);
    assert_eq!(bus.ppu.v, 0x2108);
    bus.write(0x2007, 0x5a);
    // vertical mirroring: $2108 lands at VRAM index $108
    assert_eq!(bus.ppu.vram[0x108], 0x5a);
    assert_eq!(bus.ppu.v, 0x2109); // advanced by one
}

#[test]
fn ppudata_reads_are_buffered_and_advance_v() {
    let mut bus = small_bus();
    bus.write(0x2006, 0x21);
    bus.write(0x2006, 0x08);
    bus.write(0x2007, 0x5a);
    bus.write(0x2006, 0x21); // rewind the address
    bus.write(0x2006, 0x08);
    let first = bus.read(0x2007); // stale buffer
    let second = bus.read(0x2007); // now the byte at $2108
    assert_eq!(first, 0x00);
    assert_eq!(second, 0x5a);
    assert_eq!(bus.ppu.v, 0x210a);
}

#[test]
fn ppudata_step_follows_ctrl_bit_2() {
    let mut bus = small_bus();
    bus.write(0x2000, 0x04); // 32-byte increments
    bus.write(0x2006, 0x20);
    bus.write(0x2006, 0x00);
    bus.read(0x2007);
    assert_eq!(bus.ppu.v, 0x2020);
}

#[test]
fn ppuscroll_latches_into_t_and_x() {
    let mut bus = small_bus();
    bus.write(0x2005, 0x7d); // X scroll: coarse $0F, fine 5
    assert_eq!(bus.ppu.x, 5);
    assert_eq!(bus.ppu.t & 0x1f, 0x0f);
    assert_eq!(bus.ppu.w, 1);
    bus.write(0x2005, 0x5e); // Y scroll
    assert_eq!(bus.ppu.w, 0);
    assert_eq!((bus.ppu.t >> 12) & 0x7, 0x6); // fine Y
    assert_eq!((bus.ppu.t >> 5) & 0x1f, 0x0b); // coarse Y
}

#[test]
fn oamdata_writes_fill_oam_and_step_oamaddr() {
    let mut bus = small_bus();
    bus.write(0x2003, 0x10);
    bus.write(0x2004, 0xaa);
    bus.write(0x2004, 0xbb);
    assert_eq!(bus.ppu.oam[0x10], 0xaa);
    assert_eq!(bus.ppu.oam[0x11], 0xbb);
    assert_eq!(bus.ppu.oamaddr, 0x12);
}

#[test]
fn palette_ram_reads_back_through_ppudata() {
    let mut bus = small_bus();
    bus.write(0x2006, 0x3f);
    bus.write(0x2006, 0x01);
    bus.write(0x2007, 0x2c);
    assert_eq!(bus.ppu.palette[1], 0x2c);
}
