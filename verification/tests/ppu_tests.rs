use nise::ppu::NisePPU;
use nise::rom::Mirroring;

fn ppu_with_chr(chr: Vec<u8>) -> NisePPU {
    NisePPU::new(chr, Mirroring::Vertical)
}

fn blank_ppu() -> NisePPU {
    ppu_with_chr(vec![0u8; 8192])
}

#[test]
fn new_ppu_is_zeroed_and_parked_on_scanline_zero() {
    let ppu = blank_ppu();
    assert_eq!(ppu.scanline, 0);
    assert_eq!(ppu.ppustatus, 0);
    assert_eq!(ppu.found_sprites, 0);
    assert_eq!(ppu.video_buffer.len(), 256);
    assert_eq!(ppu.vram.len(), 2048);
    assert_eq!(ppu.internal_oam, vec![0xff; 32]);
}

#[test]
fn scanline_counter_wraps_after_a_full_frame() {
    let mut ppu = blank_ppu();
    for _ in 0..262 {
        ppu.tick();
    }
    assert_eq!(ppu.scanline, 0);
}

#[test]
fn vblank_rises_on_line_241_and_requests_nmi_when_enabled() {
    let mut ppu = blank_ppu();
    ppu.scanline = 241;
    ppu.ppuctrl = 0x80;
    ppu.tick();
    assert_eq!(ppu.ppustatus & 0x80, 0x80);
    assert!(ppu.nmi_pending);
    assert_eq!(ppu.scanline, 242);
}

#[test]
fn vblank_rises_without_nmi_when_disabled() {
    let mut ppu = blank_ppu();
    ppu.scanline = 241;
    ppu.ppuctrl = 0x00;
    ppu.tick();
    assert_eq!(ppu.ppustatus & 0x80, 0x80);
    assert!(!ppu.nmi_pending);
}

#[test]
fn pre_render_line_clears_status_flags() {
    let mut ppu = blank_ppu();
    ppu.scanline = 261;
    ppu.ppustatus = 0xe3;
    ppu.tick();
    assert_eq!(ppu.ppustatus, 0x03);
    assert_eq!(ppu.scanline, 0);
}

#[test]
fn idle_lines_change_nothing_but_the_counter() {
    let mut ppu = blank_ppu();
    ppu.scanline = 250;
    ppu.ppustatus = 0x80;
    ppu.tick();
    assert_eq!(ppu.ppustatus, 0x80);
    assert_eq!(ppu.scanline, 251);
}

#[test]
fn sprite_height_follows_ctrl_bit_5() {
    let mut ppu = blank_ppu();
    assert_eq!(ppu.sprite_height(), 8);
    ppu.ppuctrl = 0x20;
    assert_eq!(ppu.sprite_height(), 16);
}

#[test]
fn sprite_evaluation_stages_sprites_covering_the_line() {
    let mut ppu = blank_ppu();
    ppu.oam[0] = 10; // sprite 0: y = 10
    ppu.oam[1] = 3;
    ppu.oam[2] = 0xff;
    ppu.oam[3] = 77;
    ppu.oam[4] = 100; // sprite 1: far away
    let (staged, found, sprite0, over) = ppu.sprite_evaluation(12);
    assert_eq!(found, 1);
    assert!(sprite0);
    assert!(!over);
    assert_eq!(staged[0], 10);
    assert_eq!(staged[1], 3);
    assert_eq!(staged[2], 0xff & 0xe3); // attribute byte is masked
    assert_eq!(staged[3], 77);
    assert_eq!(staged[4], 0xff); // backdrop beyond the staged sprites
}

#[test]
fn sprite_evaluation_misses_lines_outside_the_y_range() {
    let mut ppu = blank_ppu();
    ppu.oam[0] = 10;
    let (_, found_above, _, _) = ppu.sprite_evaluation(9);
    let (_, found_last, _, _) = ppu.sprite_evaluation(17);
    let (_, found_below, _, _) = ppu.sprite_evaluation(18);
    assert_eq!(found_above, 0);
    assert_eq!(found_last, 1);
    assert_eq!(found_below, 0);
}

#[test]
fn ninth_candidate_raises_sprite_overflow() {
    let mut ppu = blank_ppu();
    for n in 0..9 {
        ppu.oam[4 * n] = 20;
    }
    for n in 9..64 {
        ppu.oam[4 * n] = 200;
    }
    let (_, found, _, over) = ppu.sprite_evaluation(21);
    assert_eq!(found, 8);
    assert!(over);
    ppu.scanline = 20;
    ppu.tick();
    assert_eq!(ppu.ppustatus & 0x20, 0x20);
    assert_eq!(ppu.found_sprites, 8);
}

#[test]
fn visible_line_renders_background_through_the_palette() {
    let mut chr = vec![0u8; 8192];
    // tile 1, row 0: low plane all ones, high plane all zeros
    chr[16] = 0xff;
    let mut ppu = ppu_with_chr(chr);
    ppu.vram[0] = 1; // nametable entry at $2000 picks tile 1
    ppu.palette[1] = 0x30; // palette slot 1
    ppu.ppumask = 0x08; // background on
    ppu.scanline = 0;
    ppu.v = 0;
    ppu.tick();
    for i in 0..8 {
        assert_eq!(ppu.video_buffer[i], 0x30);
    }
    assert_eq!(ppu.scanline, 1);
}

#[test]
fn rendering_disabled_leaves_the_video_row_alone() {
    let mut ppu = blank_ppu();
    ppu.video_buffer[0] = 0x99;
    ppu.ppumask = 0;
    ppu.scanline = 0;
    ppu.tick();
    assert_eq!(ppu.video_buffer[0], 0x99);
}

#[test]
fn sprites_overlay_the_background_row() {
    let mut chr = vec![0u8; 8192];
    chr[16] = 0xff; // sprite tile 1, row 0: pixel index 1 across
    let mut ppu = ppu_with_chr(chr);
    ppu.ppumask = 0x10; // sprites on, background off
    ppu.scanline = 5;
    // stage sprite 0 by evaluating line 5 from OAM
    ppu.oam[0] = 5; // y
    ppu.oam[1] = 1; // tile
    ppu.oam[2] = 0; // attributes: palette 0
    ppu.oam[3] = 40; // x
    ppu.palette[0x11] = 0x16; // sprite palette 0, entry 1
    let (staged, found, s0, _) = ppu.sprite_evaluation(5);
    ppu.internal_oam = staged;
    ppu.found_sprites = found;
    ppu.sprite_zero = s0;
    ppu.tick();
    for i in 40..48 {
        assert_eq!(ppu.video_buffer[i], 0x16);
    }
    assert_eq!(ppu.video_buffer[39], 0x00);
    assert_eq!(ppu.video_buffer[48], 0x00);
}

#[test]
fn sprite_zero_hit_needs_overlap_and_both_pipes() {
    let mut chr = vec![0u8; 8192];
    chr[16] = 0xff; // tile 1 row 0: solid
    let mut ppu = ppu_with_chr(chr);
    ppu.vram[0] = 1; // background tile 1 in the first column
    ppu.oam[0] = 0;
    ppu.oam[1] = 1;
    ppu.oam[3] = 2; // sprite 0 overlaps background tile 0's pixels
    ppu.scanline = 261;
    ppu.tick(); // pre-render clears; no evaluation happens here
    let (staged, found, s0, _) = ppu.sprite_evaluation(0);
    ppu.internal_oam = staged;
    ppu.found_sprites = found;
    ppu.sprite_zero = s0;
    ppu.ppumask = 0x18; // both pipes on
    ppu.tick(); // scanline 0
    assert_eq!(ppu.ppustatus & 0x40, 0x40);

    // same setup with sprites off: no hit
    let mut chr2 = vec![0u8; 8192];
    chr2[16] = 0xff;
    let mut ppu2 = ppu_with_chr(chr2);
    ppu2.vram[0] = 1;
    ppu2.oam[0] = 0;
    ppu2.oam[1] = 1;
    ppu2.oam[3] = 2;
    let (staged2, found2, s02, _) = ppu2.sprite_evaluation(0);
    ppu2.internal_oam = staged2;
    ppu2.found_sprites = found2;
    ppu2.sprite_zero = s02;
    ppu2.ppumask = 0x08;
    ppu2.scanline = 0;
    ppu2.tick();
    assert_eq!(ppu2.ppustatus & 0x40, 0x00);
}

#[test]
fn ppu_read_reaches_chr_vram_and_palette() {
    let mut chr = vec![0u8; 8192];
    chr[0x123] = 0x44;
    let mut ppu = ppu_with_chr(chr);
    assert_eq!(ppu.read(0x0123), 0x44);
    ppu.vram[0x405] = 0x55;
    assert_eq!(ppu.read(0x2405), 0x55); // vertical mirroring: $2405 -> $405
    assert_eq!(ppu.read(0x3405), 0x55); // $3000 window folds down
    ppu.palette[3] = 0x66;
    assert_eq!(ppu.read(0x3f03), 0x66);
    assert_eq!(ppu.read(0x3f23), 0x66); // palette mirrors every 32 bytes
}

#[test]
fn ppu_read16_is_little_endian() {
    let mut chr = vec![0u8; 8192];
    chr[0x10] = 0x34;
    chr[0x11] = 0x12;
    let ppu = ppu_with_chr(chr);
    assert_eq!(ppu.read16(0x0010), 0x1234);
}

#[test]
fn chr_ram_less_cartridge_reads_zero_patterns() {
    let ppu = ppu_with_chr(Vec::new());
    assert_eq!(ppu.read(0x0000), 0);
    assert_eq!(ppu.read(0x1fff), 0);
}
