//! Scanline-driven picture processing unit: memory-mapped registers,
//! nametable VRAM behind the cartridge's mirroring map, pattern fetches
//! from CHR, and 8-sprite-per-line evaluation.
use crate::rom::Mirroring;
use crate::rom::horizontal_mirrored_addr;
use crate::rom::vertical_mirrored_addr;
use crate::rom::four_screen_mirrored_addr;
use crate::rom::spec_mirrored_index;
use vstd::prelude::*;

verus! {

/// Mathematical image of the PPU.
pub ghost struct PpuModel {
    pub ppuctrl: u8,
    pub ppumask: u8,
    pub ppustatus: u8,
    pub oamaddr: u8,
    pub oamdata: u8,
    pub ppuscroll: u8,
    pub ppuaddr: u8,
    pub ppudata: u8,
    pub oamdma: u8,
    pub chr: Seq<u8>,
    pub vram: Seq<u8>,
    pub palette: Seq<u8>,
    pub oam: Seq<u8>,
    pub internal_oam: Seq<u8>,
    pub video: Seq<u8>,
    pub found_sprites: usize,
    pub sprite_zero: bool,
    pub nmi_pending: bool,
    pub mirroring: Mirroring,
    pub v: u16,
    pub t: u16,
    pub x: u16,
    pub w: u16,
    pub scanline: u16,
}

/// Well-formedness: every buffer has its hardware size, at most eight
/// sprites are staged for a line, and the scanline counter stays inside
/// one frame.
pub open spec fn ppu_inv(m: PpuModel) -> bool {
    &&& m.vram.len() == 2048
    &&& m.palette.len() == 32
    &&& m.oam.len() == 256
    &&& m.internal_oam.len() == 32
    &&& m.video.len() == 256
    &&& m.found_sprites <= 8
    &&& m.scanline < 262
    &&& m.chr.len() == 0 || m.chr.len() == 8192
}

/// The byte visible at a PPU address: pattern tables from CHR,
/// nametables from VRAM through the mirroring map (with `$3000..=$3EFF`
/// folded down by `0x1000`), and open bus elsewhere.
pub open spec fn spec_ppu_mem(m: PpuModel, addr: u16) -> u8 {
    if addr < 0x2000 {
        if addr < m.chr.len() {
            m.chr[addr as int]
        } else {
            0
        }
    } else if addr < 0x3f00 {
        let a: u16 = if addr >= 0x3000 {
            (addr - 0x1000) as u16
        } else {
            addr
        };
        m.vram[spec_mirrored_index(m.mirroring, a)]
    } else if addr < 0x4000 {
        m.palette[spec_palette_index(addr)]
    } else {
        0
    }
}

/// Index into the 32 bytes of palette RAM: `$3F00..=$3FFF` folds onto
/// 32 entries, and the mirrors of the backdrop entries fold once more.
pub open spec fn spec_palette_index(addr: u16) -> int {
    let i = (addr - 0x3f00) % 0x20;
    if i == 0x10 || i == 0x14 || i == 0x18 || i == 0x1c {
        i - 0x10
    } else {
        i
    }
}

/// Where the VRAM address lands after a PPUDATA access: forward by 1 or
/// by 32 per PPUCTRL bit 2, inside the 15-bit register.
pub open spec fn spec_v_advance(m: PpuModel) -> u16 {
    let step: u16 = if m.ppuctrl & 0x04 != 0 {
        32
    } else {
        1
    };
    ((m.v % 0x8000 + step) % 0x8000) as u16
}

/// The value a read of register `idx` returns: PPUSTATUS, OAMDATA and
/// the PPUDATA read buffer are readable; the write-only registers give
/// open bus.
pub open spec fn spec_reg_read_val(m: PpuModel, idx: u16) -> u8 {
    if idx == 2 {
        m.ppustatus
    } else if idx == 4 {
        m.oamdata
    } else if idx == 7 {
        m.ppudata
    } else {
        0
    }
}

/// The PPU after a read of register `idx`: PPUSTATUS clears the write
/// toggle and the VBlank bit; PPUDATA refills its buffer from VRAM and
/// advances `v`; every other read leaves the PPU as it was.
pub open spec fn spec_reg_read_after(m: PpuModel, idx: u16) -> PpuModel {
    if idx == 2 {
        PpuModel { ppustatus: m.ppustatus & 0x7f, w: 0, ..m }
    } else if idx == 7 {
        PpuModel { ppudata: spec_ppu_mem(m, (m.v % 0x4000) as u16), v: spec_v_advance(m), ..m }
    } else {
        m
    }
}

/// The PPU after a write of `data` to register `idx`: control, mask and
/// OAM registers take the byte; PPUSTATUS ignores it; PPUSCROLL and
/// PPUADDR latch into `t`/`x` by the toggle `w`; PPUDATA stores through
/// the mirroring map and advances `v`.
pub open spec fn spec_reg_write_after(m: PpuModel, idx: u16, data: u8) -> PpuModel {
    if idx == 0 {
        PpuModel { ppuctrl: data, ..m }
    } else if idx == 1 {
        PpuModel { ppumask: data, ..m }
    } else if idx == 3 {
        PpuModel { oamaddr: data, ..m }
    } else if idx == 4 {
        PpuModel {
            oamdata: data,
            oam: m.oam.update(m.oamaddr as int, data),
            oamaddr: vstd::wrapping::u8_specs::wrapping_add(m.oamaddr, 1),
            ..m
        }
    } else if idx == 5 {
        if m.w == 0 {
            PpuModel {
                ppuscroll: data,
                t: (m.t & 0x7fe0) | ((data >> 3) as u16),
                x: (data & 0x07) as u16,
                w: 1,
                ..m
            }
        } else {
            PpuModel {
                ppuscroll: data,
                t: (m.t & 0x0c1f) | (((data & 0x07) as u16) << 12) | (((data & 0xf8) as u16) << 2),
                w: 0,
                ..m
            }
        }
    } else if idx == 6 {
        if m.w == 0 {
            PpuModel { ppuaddr: data, t: (m.t & 0x00ff) | (((data & 0x3f) as u16) << 8), w: 1, ..m }
        } else {
            let t2 = (m.t & 0x7f00) | (data as u16);
            PpuModel { ppuaddr: data, t: t2, v: t2, w: 0, ..m }
        }
    } else if idx == 7 {
        let a = (m.v % 0x4000) as u16;
        let vram2 = if 0x2000 <= a < 0x3f00 {
            let aa: u16 = if a >= 0x3000 {
                (a - 0x1000) as u16
            } else {
                a
            };
            m.vram.update(spec_mirrored_index(m.mirroring, aa), data)
        } else {
            m.vram
        };
        let palette2 = if a >= 0x3f00 {
            m.palette.update(spec_palette_index(a), data)
        } else {
            m.palette
        };
        PpuModel { vram: vram2, palette: palette2, v: spec_v_advance(m), ..m }
    } else {
        m
    }
}

/// The PPU as it comes out of reset: every register and buffer zeroed,
/// the cartridge's CHR image and mirroring map bound.
pub open spec fn spec_ppu_new(chr: Seq<u8>, mirroring: Mirroring) -> PpuModel {
    PpuModel {
        ppuctrl: 0,
        ppumask: 0,
        ppustatus: 0,
        oamaddr: 0,
        oamdata: 0,
        ppuscroll: 0,
        ppuaddr: 0,
        ppudata: 0,
        oamdma: 0,
        chr: chr,
        vram: Seq::new(2048, |i: int| 0u8),
        palette: Seq::new(32, |i: int| 0u8),
        oam: Seq::new(256, |i: int| 0u8),
        internal_oam: Seq::new(32, |i: int| 0xffu8),
        video: Seq::new(256, |i: int| 0u8),
        found_sprites: 0,
        sprite_zero: false,
        nmi_pending: false,
        mirroring: mirroring,
        v: 0,
        t: 0,
        x: 0,
        w: 0,
        scanline: 0,
    }
}

/// The picture processing unit.
pub struct NisePPU {
    pub ppuctrl: u8,
    pub ppumask: u8,
    pub ppustatus: u8,
    pub oamaddr: u8,
    pub oamdata: u8,
    pub ppuscroll: u8,
    pub ppuaddr: u8,
    pub ppudata: u8,
    pub oamdma: u8,
    pub chr_rom: Vec<u8>,
    pub vram: Vec<u8>,
    pub palette: Vec<u8>,
    pub oam: Vec<u8>,
    pub internal_oam: Vec<u8>,
    pub video_buffer: Vec<u8>,
    pub found_sprites: usize,
    pub sprite_zero: bool,
    pub nmi_pending: bool,
    pub mirroring: Mirroring,
    pub v: u16,
    pub t: u16,
    pub x: u16,
    pub w: u16,
    pub scanline: u16,
}

impl View for NisePPU {
    type V = PpuModel;

    open spec fn view(&self) -> PpuModel {
        PpuModel {
            ppuctrl: self.ppuctrl,
            ppumask: self.ppumask,
            ppustatus: self.ppustatus,
            oamaddr: self.oamaddr,
            oamdata: self.oamdata,
            ppuscroll: self.ppuscroll,
            ppuaddr: self.ppuaddr,
            ppudata: self.ppudata,
            oamdma: self.oamdma,
            chr: self.chr_rom@,
            vram: self.vram@,
            palette: self.palette@,
            oam: self.oam@,
            internal_oam: self.internal_oam@,
            video: self.video_buffer@,
            found_sprites: self.found_sprites,
            sprite_zero: self.sprite_zero,
            nmi_pending: self.nmi_pending,
            mirroring: self.mirroring,
            v: self.v,
            t: self.t,
            x: self.x,
            w: self.w,
            scanline: self.scanline,
        }
    }
}

/// A vector of `n` copies of `b`.
fn filled_vec(n: usize, b: u8) -> (out: Vec<u8>)
    ensures
        out@ == Seq::new(n as nat, |i: int| b),
{
    let mut out: Vec<u8> = Vec::new();
    let mut i: usize = 0;
    while i < n
        invariant
            i <= n,
            out@.len() == i,
            forall|j: int| 0 <= j < i ==> out@[j] == b,
        decreases n - i,
    {
        out.push(b);
        i = i + 1;
    }
    proof {
        assert(out@ =~= Seq::new(n as nat, |i: int| b));
    }
    out
}

/// Index into palette RAM for an address in `$3F00..=$3FFF`.
fn palette_index(addr: u16) -> (r: usize)
    requires
        0x3f00 <= addr < 0x4000,
    ensures
        r == spec_palette_index(addr),
        r < 32,
{
    let i: usize = ((addr - 0x3f00) % 0x20) as usize;
    if i == 0x10 || i == 0x14 || i == 0x18 || i == 0x1c {
        i - 0x10
    } else {
        i
    }
}

impl NisePPU {
    pub fn new(chr_rom: Vec<u8>, mirroring: Mirroring) -> (r: Self)
        requires
            chr_rom@.len() == 0 || chr_rom@.len() == 8192,
        ensures
            ppu_inv(r@),
            r@ == spec_ppu_new(chr_rom@, mirroring),
    {
        NisePPU {
            ppuctrl: 0,
            ppumask: 0,
            ppustatus: 0,
            oamaddr: 0,
            oamdata: 0,
            ppuscroll: 0,
            ppuaddr: 0,
            ppudata: 0,
            oamdma: 0,
            chr_rom,
            vram: filled_vec(2048, 0),
            palette: filled_vec(32, 0),
            oam: filled_vec(256, 0),
            internal_oam: filled_vec(32, 0xff),
            video_buffer: filled_vec(256, 0),
            found_sprites: 0,
            sprite_zero: false,
            nmi_pending: false,
            mirroring,
            v: 0,
            t: 0,
            x: 0,
            w: 0,
            scanline: 0,
        }
    }

    /// Sprite height in lines: 8, or 16 when PPUCTRL bit 5 is set.
    pub fn sprite_height(&self) -> (r: usize)
        ensures
            r == spec_sprite_height(self@),
    {
        if self.ppuctrl & 0x20 == 0 {
            8
        } else {
            16
        }
    }

    /// The byte at a PPU address.
    pub fn read(&self, address: u16) -> (r: u8)
        requires
            ppu_inv(self@),
        ensures
            r == spec_ppu_mem(self@, address),
    {
        if address < 0x2000 {
            if (address as usize) < self.chr_rom.len() {
                self.chr_rom[address as usize]
            } else {
                0
            }
        } else if address < 0x3f00 {
            let a: u16 = if address >= 0x3000 {
                address - 0x1000
            } else {
                address
            };
            let idx: usize = match self.mirroring {
                Mirroring::Horizontal => horizontal_mirrored_addr(a),
                Mirroring::Vertical => vertical_mirrored_addr(a),
                Mirroring::FourScreen => four_screen_mirrored_addr(a),
            };
            self.vram[idx]
        } else if address < 0x4000 {
            self.palette[palette_index(address)]
        } else {
            0
        }
    }

    /// Two consecutive PPU bytes as a little-endian word.
    pub fn read16(&self, address: u16) -> (r: u16)
        requires
            ppu_inv(self@),
            address < 0xffff,
        ensures
            r == spec_ppu_mem(self@, address) + spec_ppu_mem(self@, (address + 1) as u16) * 256,
    {
        let low_byte = self.read(address);
        let high_byte = self.read(address + 1);
        crate::common::to_u16(low_byte, high_byte)
    }

    /// A CPU read of the memory-mapped register `idx`.
    pub fn read_register(&mut self, idx: u16) -> (r: u8)
        requires
            ppu_inv(old(self)@),
            idx < 8,
        ensures
            ppu_inv(final(self)@),
            r == spec_reg_read_val(old(self)@, idx),
            final(self)@ == spec_reg_read_after(old(self)@, idx),
    {
        if idx == 2 {
            let r = self.ppustatus;
            self.ppustatus = self.ppustatus & 0x7f;
            self.w = 0;
            r
        } else if idx == 4 {
            self.oamdata
        } else if idx == 7 {
            let r = self.ppudata;
            self.ppudata = self.read(self.v % 0x4000);
            self.v = self.advance_v();
            r
        } else {
            0
        }
    }

    /// A CPU write of `data` to the memory-mapped register `idx`.
    pub fn write_register(&mut self, idx: u16, data: u8)
        requires
            ppu_inv(old(self)@),
            idx < 8,
        ensures
            ppu_inv(final(self)@),
            final(self)@ == spec_reg_write_after(old(self)@, idx, data),
    {
        if idx == 0 {
            self.ppuctrl = data;
        } else if idx == 1 {
            self.ppumask = data;
        } else if idx == 3 {
            self.oamaddr = data;
        } else if idx == 4 {
            self.oamdata = data;
            let at: usize = self.oamaddr as usize;
            self.oam.set(at, data);
            self.oamaddr = self.oamaddr.wrapping_add(1);
        } else if idx == 5 {
            self.ppuscroll = data;
            if self.w == 0 {
                self.t = (self.t & 0x7fe0) | ((data >> 3) as u16);
                self.x = (data & 0x07) as u16;
                self.w = 1;
            } else {
                self.t = (self.t & 0x0c1f) | (((data & 0x07) as u16) << 12) | (((data & 0xf8)
                    as u16) << 2);
                self.w = 0;
            }
        } else if idx == 6 {
            self.ppuaddr = data;
            if self.w == 0 {
                self.t = (self.t & 0x00ff) | (((data & 0x3f) as u16) << 8);
                self.w = 1;
            } else {
                self.t = (self.t & 0x7f00) | (data as u16);
                self.v = self.t;
                self.w = 0;
            }
        } else if idx == 7 {
            let a: u16 = self.v % 0x4000;
            if 0x2000 <= a && a < 0x3f00 {
                let aa: u16 = if a >= 0x3000 {
                    a - 0x1000
                } else {
                    a
                };
                let at: usize = match self.mirroring {
                    Mirroring::Horizontal => horizontal_mirrored_addr(aa),
                    Mirroring::Vertical => vertical_mirrored_addr(aa),
                    Mirroring::FourScreen => four_screen_mirrored_addr(aa),
                };
                self.vram.set(at, data);
            }
            if a >= 0x3f00 {
                let pi: usize = palette_index(a);
                self.palette.set(pi, data);
            }
            self.v = self.advance_v();
        }
    }

    /// Moves `v` forward by the PPUDATA step.
    fn advance_v(&self) -> (r: u16)
        ensures
            r == spec_v_advance(self@),
    {
        let step: u16 = if self.ppuctrl & 0x04 != 0 {
            32
        } else {
            1
        };
        (self.v % 0x8000 + step) % 0x8000
    }
}

/// Sprite height in lines per PPUCTRL bit 5.
pub open spec fn spec_sprite_height(m: PpuModel) -> usize {
    if m.ppuctrl & 0x20 == 0 {
        8usize
    } else {
        16usize
    }
}

/// The coarse-X column `col` tiles to the right of `v`, wrapping
/// within the 32-tile row.
pub open spec fn spec_col_v(v: u16, col: int) -> u16 {
    (v & 0xffe0) | ((((v & 0x1f) + col) % 32) as u16)
}

/// The 2-bit pattern index of background pixel `i` of the scanline
/// addressed by `v`: the nametable byte picks the tile, the pattern
/// bytes at fine Y give the two planes, and bit `7 - i % 8` of each is
/// interleaved.
pub open spec fn spec_bg_pix_index(m: PpuModel, i: int) -> u8 {
    let cv = spec_col_v(m.v, i / 8);
    let nt = spec_ppu_mem(m, 0x2000 | (cv & 0x0fff));
    let pt_base: u16 = if m.ppuctrl & 0x10 != 0 {
        0x1000
    } else {
        0
    };
    let pt_addr = (pt_base + nt * 16 + ((cv >> 12) & 7)) as u16;
    let lo = spec_ppu_mem(m, pt_addr);
    let hi = spec_ppu_mem(m, (pt_addr + 8) as u16);
    let bit = (7 - i % 8) as u8;
    ((lo >> bit) & 1) | (((hi >> bit) & 1) << 1)
}

/// The 2-bit palette selector for background pixel `i`, from the
/// attribute byte's quadrant.
pub open spec fn spec_bg_palette(m: PpuModel, i: int) -> u8 {
    let cv = spec_col_v(m.v, i / 8);
    let at = spec_ppu_mem(m, 0x23c0 | (cv & 0x0c00) | ((cv >> 4) & 0x38) | ((cv >> 2) & 0x07));
    let shift = (((cv >> 4) & 4) | (cv & 2)) as u8;
    (at >> shift) & 3
}

/// Background pixel `i` resolved through palette RAM at `$3F00 +
/// slot`.
pub open spec fn spec_bg_pixel(m: PpuModel, i: int) -> u8 {
    let pix = spec_bg_pix_index(m, i);
    let pal = spec_bg_palette(m, i);
    spec_ppu_mem(m, (0x3f00 + (((pal << 2) | pix) as u16)) as u16)
}

/// Whether staged sprite `j` covers scanline pixel `i`.
pub open spec fn spec_sprite_covers(m: PpuModel, j: int, i: int) -> bool {
    let xp = m.internal_oam[4 * j + 3];
    xp <= i < xp + 8
}

/// The 2-bit pattern index of staged sprite `j` at scanline pixel `i`:
/// the sprite's pattern row for the current scanline, bit `7 - (i -
/// x)`. Tall sprites take their bank from the tile byte's low bit.
pub open spec fn spec_sprite_pix(m: PpuModel, j: int, i: int) -> u8 {
    let y0 = m.internal_oam[4 * j];
    let tile = m.internal_oam[4 * j + 1];
    let xp = m.internal_oam[4 * j + 3];
    let h = spec_sprite_height(m);
    let d0 = m.scanline - y0;
    let rowi: int = if 0 <= d0 < h {
        d0
    } else {
        0
    };
    let addr: u16 = if h == 8 {
        let base: u16 = if m.ppuctrl & 0x08 != 0 {
            0x1000
        } else {
            0
        };
        (base + tile * 16 + rowi) as u16
    } else {
        let bank: u16 = if tile & 1 == 1 {
            0x1000
        } else {
            0
        };
        let t2 = (tile & 0xfe) + (if rowi >= 8 {
            1int
        } else {
            0int
        });
        (bank + t2 * 16 + (rowi % 8)) as u16
    };
    let lo = spec_ppu_mem(m, addr);
    let hi = spec_ppu_mem(m, (addr + 8) as u16);
    let bit = (7 - (i - xp)) as u8;
    ((lo >> bit) & 1) | (((hi >> bit) & 1) << 1)
}

/// Staged sprite `j`'s pixel at `i` resolved through sprite palette
/// RAM at `$3F10`.
pub open spec fn spec_sprite_color(m: PpuModel, j: int, i: int) -> u8 {
    let attr = m.internal_oam[4 * j + 2];
    let pix = spec_sprite_pix(m, j, i);
    spec_ppu_mem(m, (0x3f10 + ((((attr & 3) << 2) | pix) as u16)) as u16)
}

/// One sprite laid over a scanline row: its non-zero pixels replace
/// the row's where it covers them.
pub open spec fn spec_apply_sprite(m: PpuModel, j: int, row: Seq<u8>) -> Seq<u8> {
    Seq::new(
        256,
        |i: int|
            if spec_sprite_covers(m, j, i) && spec_sprite_pix(m, j, i) != 0 {
                spec_sprite_color(m, j, i)
            } else {
                row[i]
            },
    )
}

/// Sprites `j..found_sprites` laid over a row, lower indices in front.
pub open spec fn spec_sprites_over(m: PpuModel, row: Seq<u8>, j: int) -> Seq<u8>
    decreases m.found_sprites - j,
{
    if j < 0 || j >= m.found_sprites {
        row
    } else {
        spec_apply_sprite(m, j, spec_sprites_over(m, row, j + 1))
    }
}

/// Sprite-0 hit: sprite 0 is staged on this line, both pipelines are
/// enabled, and one of its non-zero pixels lands on a non-zero
/// background pixel at an x other than 255.
pub open spec fn spec_sprite0_hit(m: PpuModel) -> bool {
    let xp = m.internal_oam[3];
    &&& m.sprite_zero
    &&& m.ppumask & 0x08 != 0
    &&& m.ppumask & 0x10 != 0
    &&& exists|k: int|
        0 <= k < 8 && xp + k < 256 && xp + k != 255 && #[trigger] spec_sprite_pix(m, 0, xp + k)
            != 0 && spec_bg_pix_index(m, xp + k) != 0
}

/// Whether OAM sprite `n`'s Y range covers `line`.
pub open spec fn spec_sprite_matches(m: PpuModel, line: int, n: int) -> bool {
    let y = m.oam[4 * n];
    y <= line < y + spec_sprite_height(m)
}

/// How many of the first `n` OAM sprites cover `line`.
pub open spec fn spec_match_count(m: PpuModel, line: int, n: int) -> int
    decreases n,
{
    if n <= 0 {
        0
    } else {
        spec_match_count(m, line, n - 1) + (if spec_sprite_matches(m, line, n - 1) {
            1int
        } else {
            0int
        })
    }
}

/// How many sprites the evaluation stages for `line`: the match
/// count, capped at eight.
pub open spec fn spec_found_sprites(m: PpuModel, line: int) -> int {
    if spec_match_count(m, line, 64) > 8 {
        8
    } else {
        spec_match_count(m, line, 64)
    }
}

/// The staged OAM after scanning the first `n` sprites: the first
/// eight sprites covering `line` in OAM order, their attribute bytes
/// masked, over a backdrop of `$FF`.
pub open spec fn spec_eval_oam(m: PpuModel, line: int, n: int) -> Seq<u8>
    decreases n,
{
    if n <= 0 {
        Seq::new(32, |i: int| 0xffu8)
    } else {
        let prev = spec_eval_oam(m, line, n - 1);
        let f = spec_match_count(m, line, n - 1);
        if spec_sprite_matches(m, line, n - 1) && f < 8 {
            prev.update(4 * f, m.oam[4 * (n - 1)]).update(4 * f + 1, m.oam[4 * (n - 1) + 1]).update(
                4 * f + 2,
                m.oam[4 * (n - 1) + 2] & 0xe3,
            ).update(4 * f + 3, m.oam[4 * (n - 1) + 3])
        } else {
            prev
        }
    }
}

/// One scanline of the frame: the pre-render line clears the status
/// flags; a visible line renders background and sprites into the
/// scanline buffer, decides sprite-0 hit, and stages sprites for the
/// next line; line 241 raises VBlank and, if enabled, the NMI; the
/// rest idle. The scanline counter steps once around the 262-line
/// frame.
pub open spec fn spec_ppu_tick(m: PpuModel) -> PpuModel {
    let next = ((m.scanline + 1) % 262) as u16;
    if m.scanline == 261 {
        PpuModel { ppustatus: m.ppustatus & 0x1f, scanline: next, ..m }
    } else if m.scanline <= 239 {
        let bg_on = m.ppumask & 0x08 != 0;
        let spr_on = m.ppumask & 0x10 != 0;
        let base = if bg_on {
            Seq::new(256, |i: int| spec_bg_pixel(m, i))
        } else {
            m.video
        };
        let video2 = if spr_on {
            spec_sprites_over(m, base, 0)
        } else {
            base
        };
        let line = m.scanline + 1;
        let s1 = if spec_sprite0_hit(m) {
            m.ppustatus | 0x40
        } else {
            m.ppustatus
        };
        let s2 = if spec_match_count(m, line, 64) > 8 {
            s1 | 0x20
        } else {
            s1
        };
        PpuModel {
            video: video2,
            ppustatus: s2,
            internal_oam: spec_eval_oam(m, line, 64),
            found_sprites: spec_found_sprites(m, line) as usize,
            sprite_zero: spec_sprite_matches(m, line, 0),
            scanline: next,
            ..m
        }
    } else if m.scanline == 241 {
        PpuModel {
            ppustatus: m.ppustatus | 0x80,
            nmi_pending: if m.ppuctrl & 0x80 != 0 {
                true
            } else {
                m.nmi_pending
            },
            scanline: next,
            ..m
        }
    } else {
        PpuModel { scanline: next, ..m }
    }
}

/// A copy of a byte vector.
fn vec_copy(src: &Vec<u8>) -> (out: Vec<u8>)
    ensures
        out@ == src@,
{
    let mut out: Vec<u8> = Vec::new();
    let mut i: usize = 0;
    while i < src.len()
        invariant
            i <= src.len(),
            out@.len() == i,
            forall|j: int| 0 <= j < i ==> out@[j] == src@[j],
        decreases src.len() - i,
    {
        out.push(src[i]);
        i = i + 1;
    }
    proof {
        assert(out@ =~= src@);
    }
    out
}

impl NisePPU {
    /// The rendered background row for the current scanline.
    fn background_row(&self) -> (row: Vec<u8>)
        requires
            ppu_inv(self@),
        ensures
            row@ == Seq::new(256, |i: int| spec_bg_pixel(self@, i)),
    {
        let mut row: Vec<u8> = Vec::new();
        proof {
            let vv = self.v;
            assert(vv & 0x1f < 32) by (bit_vector);
        }
        let mut col: usize = 0;
        while col < 32
            invariant
                ppu_inv(self@),
                col <= 32,
                self.v & 0x1f < 32,
                row@.len() == col * 8,
                forall|i: int| 0 <= i < col * 8 ==> row@[i] == spec_bg_pixel(self@, i),
            decreases 32 - col,
        {
            let cv: u16 = (self.v & 0xffe0) | ((self.v & 0x1f) + col as u16) % 32;
            proof {
                assert(((cv >> 12) & 7) < 8 && (((cv >> 4) & 4) | (cv & 2)) < 8) by (bit_vector);
            }
            let nt = self.read(0x2000 | (cv & 0x0fff));
            let at = self.read(0x23c0 | (cv & 0x0c00) | ((cv >> 4) & 0x38) | ((cv >> 2) & 0x07));
            let shift: u8 = (((cv >> 4) & 4) | (cv & 2)) as u8;
            let pal: u8 = (at >> shift) & 3;
            let pt_base: u16 = if self.ppuctrl & 0x10 != 0 {
                0x1000
            } else {
                0
            };
            let pt_addr: u16 = pt_base + (nt as u16) * 16 + ((cv >> 12) & 7);
            let lo = self.read(pt_addr);
            let hi = self.read(pt_addr + 8);
            let mut k: usize = 0;
            while k < 8
                invariant
                    ppu_inv(self@),
                    col < 32,
                    k <= 8,
                    self.v & 0x1f < 32,
                    cv == spec_col_v(self.v, col as int),
                    nt == spec_ppu_mem(self@, 0x2000 | (cv & 0x0fff)),
                    at == spec_ppu_mem(
                        self@,
                        0x23c0 | (cv & 0x0c00) | ((cv >> 4) & 0x38) | ((cv >> 2) & 0x07),
                    ),
                    pal == (at >> ((((cv >> 4) & 4) | (cv & 2)) as u8)) & 3,
                    pt_addr == (
                        (if self.ppuctrl & 0x10 != 0 {
                            0x1000u16
                        } else {
                            0u16
                        }) + nt * 16 + ((cv >> 12) & 7)
                    ) as u16,
                    lo == spec_ppu_mem(self@, pt_addr),
                    hi == spec_ppu_mem(self@, (pt_addr + 8) as u16),
                    pt_addr + 8 <= 0xffff,
                    row@.len() == col * 8 + k,
                    forall|i: int| 0 <= i < col * 8 + k ==> row@[i] == spec_bg_pixel(self@, i),
                decreases 8 - k,
            {
                let bit: u8 = (7 - k) as u8;
                let pix: u8 = ((lo >> bit) & 1) | (((hi >> bit) & 1) << 1);
                let color = self.read(0x3f00 + (((pal << 2) | pix) as u16));
                row.push(color);
                proof {
                    let i: int = col * 8 + k;
                    assert(i / 8 == col && i % 8 == k) by (nonlinear_arith)
                        requires
                            0 <= k < 8,
                            0 <= col,
                            i == col * 8 + k,
                    ;
                    assert(row@[i] == spec_bg_pixel(self@, i));
                }
                k = k + 1;
            }
            col = col + 1;
        }
        proof {
            assert(row@ =~= Seq::new(256, |i: int| spec_bg_pixel(self@, i)));
        }
        row
    }

    /// The staged sprites laid over a scanline row, sprite 0 in front.
    fn sprites_over_row(&self, row: Vec<u8>) -> (out: Vec<u8>)
        requires
            ppu_inv(self@),
            row@.len() == 256,
        ensures
            out@ == spec_sprites_over(self@, row@, 0),
    {
        let ghost base = row@;
        let mut out = row;
        let mut j: usize = self.found_sprites;
        while j > 0
            invariant
                ppu_inv(self@),
                j <= self@.found_sprites,
                out@.len() == 256,
                out@ == spec_sprites_over(self@, base, j as int),
            decreases j,
        {
            j = j - 1;
            let ghost prev = out@;
            let y0 = self.internal_oam[4 * j];
            let tile = self.internal_oam[4 * j + 1];
            let attr = self.internal_oam[4 * j + 2];
            let xp = self.internal_oam[4 * j + 3];
            let h = self.sprite_height();
            let covers_line = self.scanline as usize >= y0 as usize && (self.scanline as usize)
                < y0 as usize + h;
            let rowi: usize = if covers_line {
                self.scanline as usize - y0 as usize
            } else {
                0
            };
            let addr: u16 = if h == 8 {
                let b: u16 = if self.ppuctrl & 0x08 != 0 {
                    0x1000
                } else {
                    0
                };
                b + (tile as u16) * 16 + rowi as u16
            } else {
                let bank: u16 = if tile & 1 == 1 {
                    0x1000
                } else {
                    0
                };
                let t2: u16 = (tile & 0xfe) as u16 + (if rowi >= 8 {
                    1
                } else {
                    0
                });
                bank + t2 * 16 + (rowi % 8) as u16
            };
            let lo = self.read(addr);
            let hi = self.read(addr + 8);
            let mut k: usize = 0;
            while k < 8
                invariant
                    ppu_inv(self@),
                    j < self@.found_sprites,
                    k <= 8,
                    out@.len() == 256,
                    y0 == self@.internal_oam[4 * j as int],
                    tile == self@.internal_oam[4 * j as int + 1],
                    attr == self@.internal_oam[4 * j as int + 2],
                    xp == self@.internal_oam[4 * j as int + 3],
                    forall|i: int|
                        0 <= i < 256 ==> #[trigger] out@[i] == (
                        if xp <= i < xp + k && spec_sprite_pix(self@, j as int, i) != 0 {
                            spec_sprite_color(self@, j as int, i)
                        } else {
                            prev[i]
                        }),
                    lo == spec_ppu_mem(self@, addr),
                    hi == spec_ppu_mem(self@, (addr + 8) as u16),
                    addr + 8 <= 0xffff,
                    addr == (
                        {
                            let hh = spec_sprite_height(self@);
                            let d0 = self@.scanline - y0;
                            let ri: int = if 0 <= d0 < hh {
                                d0
                            } else {
                                0
                            };
                            if hh == 8 {
                                ((if self@.ppuctrl & 0x08 != 0 {
                                    0x1000u16
                                } else {
                                    0u16
                                }) + tile * 16 + ri) as u16
                            } else {
                                ((if tile & 1 == 1 {
                                    0x1000u16
                                } else {
                                    0u16
                                }) + ((tile & 0xfe) + (if ri >= 8 {
                                    1int
                                } else {
                                    0int
                                })) * 16 + (ri % 8)) as u16
                            }
                        }
                    ),
                decreases 8 - k,
            {
                let xi: usize = xp as usize + k;
                if xi < 256 {
                    let bit: u8 = (7 - k) as u8;
                    let pix: u8 = ((lo >> bit) & 1) | (((hi >> bit) & 1) << 1);
                    proof {
                        assert(pix == spec_sprite_pix(self@, j as int, xi as int));
                    }
                    if pix != 0 {
                        let color = self.read(0x3f10 + ((((attr & 3) << 2) | pix) as u16));
                        out.set(xi, color);
                    }
                }
                k = k + 1;
            }
            proof {
                assert(out@ =~= spec_apply_sprite(self@, j as int, prev));
            }
        }
        out
    }

    /// Whether a non-zero pixel of staged sprite 0 lands on a non-zero
    /// background pixel, away from x = 255.
    fn sprite0_overlap(&self) -> (r: bool)
        requires
            ppu_inv(self@),
        ensures
            r == exists|k: int|
                0 <= k < 8 && self@.internal_oam[3] + k < 256 && self@.internal_oam[3] + k != 255
                    && #[trigger] spec_sprite_pix(self@, 0, self@.internal_oam[3] + k) != 0
                    && spec_bg_pix_index(self@, self@.internal_oam[3] + k) != 0,
    {
        let y0 = self.internal_oam[0];
        let tile = self.internal_oam[1];
        let xp = self.internal_oam[3];
        let h = self.sprite_height();
        let covers_line = self.scanline as usize >= y0 as usize && (self.scanline as usize)
            < y0 as usize + h;
        let rowi: usize = if covers_line {
            self.scanline as usize - y0 as usize
        } else {
            0
        };
        let addr: u16 = if h == 8 {
            let b: u16 = if self.ppuctrl & 0x08 != 0 {
                0x1000
            } else {
                0
            };
            b + (tile as u16) * 16 + rowi as u16
        } else {
            let bank: u16 = if tile & 1 == 1 {
                0x1000
            } else {
                0
            };
            let t2: u16 = (tile & 0xfe) as u16 + (if rowi >= 8 {
                1
            } else {
                0
            });
            bank + t2 * 16 + (rowi % 8) as u16
        };
        let lo = self.read(addr);
        let hi = self.read(addr + 8);
        let mut hit = false;
        let mut k: usize = 0;
        while k < 8
            invariant
                ppu_inv(self@),
                k <= 8,
                xp == self@.internal_oam[3],
                lo == spec_ppu_mem(self@, addr),
                hi == spec_ppu_mem(self@, (addr + 8) as u16),
                addr + 8 <= 0xffff,
                addr == (
                    {
                        let hh = spec_sprite_height(self@);
                        let d0 = self@.scanline - y0;
                        let ri: int = if 0 <= d0 < hh {
                            d0
                        } else {
                            0
                        };
                        if hh == 8 {
                            ((if self@.ppuctrl & 0x08 != 0 {
                                0x1000u16
                            } else {
                                0u16
                            }) + tile * 16 + ri) as u16
                        } else {
                            ((if tile & 1 == 1 {
                                0x1000u16
                            } else {
                                0u16
                            }) + ((tile & 0xfe) + (if ri >= 8 {
                                1int
                            } else {
                                0int
                            })) * 16 + (ri % 8)) as u16
                        }
                    }
                ),
                y0 == self@.internal_oam[0],
                tile == self@.internal_oam[1],
                hit == exists|k2: int|
                    0 <= k2 < k && xp + k2 < 256 && xp + k2 != 255 && #[trigger] spec_sprite_pix(
                        self@,
                        0,
                        xp + k2,
                    ) != 0 && spec_bg_pix_index(self@, xp + k2) != 0,
            decreases 8 - k,
        {
            let xi: usize = xp as usize + k;
            if xi < 256 && xi != 255 {
                let bit: u8 = (7 - k) as u8;
                let pix: u8 = ((lo >> bit) & 1) | (((hi >> bit) & 1) << 1);
                proof {
                    assert(pix == spec_sprite_pix(self@, 0, xi as int));
                }
                if pix != 0 {
                    let bg = self.bg_pixel_index(xi);
                    if bg != 0 {
                        hit = true;
                    }
                }
            }
            k = k + 1;
        }
        hit
    }

    /// The 2-bit background pattern index at scanline pixel `i`.
    fn bg_pixel_index(&self, i: usize) -> (r: u8)
        requires
            ppu_inv(self@),
            i < 256,
        ensures
            r == spec_bg_pix_index(self@, i as int),
    {
        let col: usize = i / 8;
        let k: usize = i % 8;
        proof {
            let vv = self.v;
            assert(vv & 0x1f < 32) by (bit_vector);
        }
        let cv: u16 = (self.v & 0xffe0) | ((self.v & 0x1f) + col as u16) % 32;
        proof {
            assert(((cv >> 12) & 7) < 8) by (bit_vector);
        }
        let nt = self.read(0x2000 | (cv & 0x0fff));
        let pt_base: u16 = if self.ppuctrl & 0x10 != 0 {
            0x1000
        } else {
            0
        };
        let pt_addr: u16 = pt_base + (nt as u16) * 16 + ((cv >> 12) & 7);
        let lo = self.read(pt_addr);
        let hi = self.read(pt_addr + 8);
        let bit: u8 = (7 - k) as u8;
        ((lo >> bit) & 1) | (((hi >> bit) & 1) << 1)
    }

    /// Scans the 64 OAM entries for sprites covering `line`: the staged
    /// OAM, how many were staged, whether sprite 0 is among them, and
    /// whether a ninth candidate was seen.
    pub fn sprite_evaluation(&self, line: u16) -> (r: (Vec<u8>, usize, bool, bool))
        requires
            ppu_inv(self@),
        ensures
            r.0@ == spec_eval_oam(self@, line as int, 64),
            r.0@.len() == 32,
            r.1 == spec_found_sprites(self@, line as int),
            r.2 == spec_sprite_matches(self@, line as int, 0),
            r.3 == (spec_match_count(self@, line as int, 64) > 8),
    {
        let mut staged = filled_vec(32, 0xff);
        let mut found: usize = 0;
        let mut over = false;
        let mut s0 = false;
        let mut n: usize = 0;
        while n < 64
            invariant
                ppu_inv(self@),
                n <= 64,
                staged@.len() == 32,
                staged@ == spec_eval_oam(self@, line as int, n as int),
                found == spec_match_count(self@, line as int, n as int) || (found == 8
                    && spec_match_count(self@, line as int, n as int) >= 8),
                found <= 8,
                found as int == (if spec_match_count(self@, line as int, n as int) > 8 {
                    8int
                } else {
                    spec_match_count(self@, line as int, n as int)
                }),
                over == (spec_match_count(self@, line as int, n as int) > 8),
                s0 == (n > 0 && spec_sprite_matches(self@, line as int, 0)),
            decreases 64 - n,
        {
            let y = self.oam[4 * n] as usize;
            let h = self.sprite_height();
            if line as usize >= y && (line as usize) < y + h {
                if found < 8 {
                    staged.set(4 * found, self.oam[4 * n]);
                    staged.set(4 * found + 1, self.oam[4 * n + 1]);
                    staged.set(4 * found + 2, self.oam[4 * n + 2] & 0xe3);
                    staged.set(4 * found + 3, self.oam[4 * n + 3]);
                    if n == 0 {
                        s0 = true;
                    }
                    found = found + 1;
                } else {
                    over = true;
                }
            }
            n = n + 1;
        }
        (staged, found, s0, over)
    }

    /// One scanline of the frame; see `spec_ppu_tick` for the
    /// scanline state machine it follows.
    pub fn tick(&mut self)
        requires
            ppu_inv(old(self)@),
        ensures
            ppu_inv(final(self)@),
            final(self)@ == spec_ppu_tick(old(self)@),
    {
        let sl = self.scanline;
        if sl == 261 {
            self.ppustatus = self.ppustatus & 0x1f;
        } else if sl <= 239 {
            let bg_on = self.ppumask & 0x08 != 0;
            let spr_on = self.ppumask & 0x10 != 0;
            let hit = self.sprite_zero && bg_on && spr_on && self.sprite0_overlap();
            let row: Vec<u8> = if bg_on {
                self.background_row()
            } else {
                vec_copy(&self.video_buffer)
            };
            let row2: Vec<u8> = if spr_on {
                self.sprites_over_row(row)
            } else {
                row
            };
            let line = sl + 1;
            let (staged, found, s0, over) = self.sprite_evaluation(line);
            self.video_buffer = row2;
            if hit {
                self.ppustatus = self.ppustatus | 0x40;
            }
            if over {
                self.ppustatus = self.ppustatus | 0x20;
            }
            self.internal_oam = staged;
            self.found_sprites = found;
            self.sprite_zero = s0;
        } else if sl == 241 {
            self.ppustatus = self.ppustatus | 0x80;
            if self.ppuctrl & 0x80 != 0 {
                self.nmi_pending = true;
            }
        }
        self.scanline = (self.scanline + 1) % 262;
    }
}

} // verus!
