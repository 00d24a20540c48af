use nise::rom::{
    four_screen_mirrored_addr, horizontal_mirrored_addr, vertical_mirrored_addr, MirrorAddr,
    Mirroring, Rom, RomError,
};

fn ines_bytes(prg_pages: u8, chr_pages: u8, flags6: u8, flags7: u8) -> Vec<u8> {
    let mut raw = vec![0x4e, 0x45, 0x53, 0x1a, prg_pages, chr_pages, flags6, flags7];
    raw.extend_from_slice(&[0u8; 8]);
    if flags6 & 0x04 != 0 {
        raw.extend(std::iter::repeat(0u8).take(512));
    }
    raw.extend(std::iter::repeat(0u8).take(prg_pages as usize * 16384));
    raw.extend(std::iter::repeat(0u8).take(chr_pages as usize * 8192));
    raw
}

#[test]
fn parses_standard_ines_image() {
    let raw = ines_bytes(1, 1, 0x01, 0x00);
    let rom = Rom::new(&raw).unwrap();
    assert_eq!(rom.prg_rom.len(), 16384);
    assert_eq!(rom.chr_rom.len(), 8192);
    assert_eq!(rom.mapper, 0);
    assert_eq!(rom.screen_mirroring, Mirroring::Vertical);
}

#[test]
fn parses_horizontal_and_four_screen_flags() {
    let raw = ines_bytes(1, 0, 0x00, 0x00);
    assert_eq!(Rom::new(&raw).unwrap().screen_mirroring, Mirroring::Horizontal);
    let raw = ines_bytes(1, 0, 0x09, 0x00);
    assert_eq!(Rom::new(&raw).unwrap().screen_mirroring, Mirroring::FourScreen);
}

#[test]
fn parse_skips_trainer() {
    let mut raw = ines_bytes(1, 0, 0x05, 0x00);
    let trainer_end = 16 + 512;
    raw[trainer_end] = 0xab;
    let rom = Rom::new(&raw).unwrap();
    assert_eq!(rom.prg_rom[0], 0xab);
}

#[test]
fn parse_rejects_bad_magic() {
    let mut raw = ines_bytes(1, 1, 0x00, 0x00);
    raw[0] = 0x4f;
    assert_eq!(Rom::new(&raw).unwrap_err(), RomError::BadMagic);
}

#[test]
fn parse_rejects_short_stream() {
    let raw = vec![0x4e, 0x45, 0x53];
    assert_eq!(Rom::new(&raw).unwrap_err(), RomError::Truncated);
    let mut raw = ines_bytes(2, 1, 0x00, 0x00);
    raw.truncate(16 + 16384);
    assert_eq!(Rom::new(&raw).unwrap_err(), RomError::Truncated);
}

#[test]
fn parse_rejects_other_mappers() {
    let raw = ines_bytes(1, 1, 0x10, 0x00);
    assert_eq!(Rom::new(&raw).unwrap_err(), RomError::UnsupportedMapper);
    let raw = ines_bytes(1, 1, 0x00, 0x40);
    assert_eq!(Rom::new(&raw).unwrap_err(), RomError::UnsupportedMapper);
    let raw = ines_bytes(3, 1, 0x00, 0x00);
    assert_eq!(Rom::new(&raw).unwrap_err(), RomError::UnsupportedMapper);
}

#[test]
fn serialize_then_parse_restores_the_cartridge() {
    let mut raw = ines_bytes(1, 1, 0x01, 0x00);
    for i in 0..16384 {
        raw[16 + i] = (i % 251) as u8;
    }
    for i in 0..8192 {
        raw[16 + 16384 + i] = (i % 13) as u8;
    }
    let rom = Rom::new(&raw).unwrap();
    let bytes = rom.serialize();
    let again = Rom::new(&bytes).unwrap();
    assert_eq!(again.prg_rom, rom.prg_rom);
    assert_eq!(again.chr_rom, rom.chr_rom);
    assert_eq!(again.mapper, rom.mapper);
    assert_eq!(again.screen_mirroring, rom.screen_mirroring);
}

#[test]
fn horizontal_mirroring_folds_by_0x400() {
    assert_eq!(horizontal_mirrored_addr(0x2000), 0x000);
    assert_eq!(horizontal_mirrored_addr(0x2400), 0x000);
    assert_eq!(horizontal_mirrored_addr(0x2455), 0x055);
    assert_eq!(horizontal_mirrored_addr(0x2800), 0x400);
    assert_eq!(horizontal_mirrored_addr(0x2c33), 0x433);
}

#[test]
fn vertical_mirroring_folds_by_0x800() {
    assert_eq!(vertical_mirrored_addr(0x2000), 0x000);
    assert_eq!(vertical_mirrored_addr(0x2400), 0x400);
    assert_eq!(vertical_mirrored_addr(0x2805), 0x005);
    assert_eq!(vertical_mirrored_addr(0x2fff), 0x7ff);
}

#[test]
fn four_screen_mirroring_folds_into_owned_vram() {
    assert_eq!(four_screen_mirrored_addr(0x2123), 0x123);
    assert_eq!(four_screen_mirrored_addr(0x2923), 0x123);
}

#[test]
fn mirror_addr_trait_matches_free_functions() {
    assert_eq!(Mirroring::Horizontal.mirror_addr(0x2c33), 0x433);
    assert_eq!(Mirroring::Vertical.mirror_addr(0x2805), 0x005);
    assert_eq!(Mirroring::FourScreen.mirror_addr(0x2923), 0x123);
}

#[test]
fn to_u16_combines_little_endian() {
    assert_eq!(nise::common::to_u16(0x34, 0x12), 0x1234);
    assert_eq!(nise::common::to_u16(0xff, 0xff), 0xffff);
    assert_eq!(nise::common::to_u16(0x00, 0x00), 0x0000);
}
