//! iNES v1 cartridge loader and the nametable mirroring maps.
use vstd::prelude::*;

verus! {

/// How the two physical 1 KiB nametables back the four logical ones.
#[derive(Clone, Copy, PartialEq, Eq, Structural, Debug)]
pub enum Mirroring {
    Vertical,
    Horizontal,
    FourScreen,
}

/// Fatal faults of the cartridge loader.
#[derive(Clone, Copy, PartialEq, Eq, Structural, Debug)]
pub enum RomError {
    /// The stream does not begin with the iNES magic `4E 45 53 1A`.
    BadMagic,
    /// The stream is shorter than the layout implied by its header.
    Truncated,
    /// A mapper other than 0, or a PRG/CHR size no mapper-0 board carries.
    UnsupportedMapper,
}

/// Mathematical image of a parsed cartridge.
pub ghost struct RomModel {
    pub prg: Seq<u8>,
    pub chr: Seq<u8>,
    pub mapper: u8,
    pub mirroring: Mirroring,
}

/// Sizes a mapper-0 cartridge may carry.
pub open spec fn rom_inv(m: RomModel) -> bool {
    &&& m.prg.len() == 16384 || m.prg.len() == 32768
    &&& m.chr.len() == 0 || m.chr.len() == 8192
}

/// Index in `0..2048` that a raw nametable address maps to under
/// horizontal mirroring: `$2400..=$27FF` and `$2C00..=$2FFF` fold down
/// onto the bank below them.
pub open spec fn spec_horizontal_index(address: u16) -> int {
    let off = address - 0x2000;
    if off >= 0x800 {
        0x400 + off % 0x400
    } else {
        off % 0x400
    }
}

/// Index in `0..2048` under vertical mirroring: `$2800..=$2FFF` folds
/// down by `0x800`.
pub open spec fn spec_vertical_index(address: u16) -> int {
    (address - 0x2000) % 0x800
}

/// Index in `0..2048` under four-screen mirroring. True four-screen
/// boards carry external VRAM; the core owns only 2 KiB, so the address
/// folds into that window.
pub open spec fn spec_four_screen_index(address: u16) -> int {
    (address - 0x2000) % 0x800
}

/// The mirroring map selected by a cartridge.
pub open spec fn spec_mirrored_index(m: Mirroring, address: u16) -> int {
    match m {
        Mirroring::Horizontal => spec_horizontal_index(address),
        Mirroring::Vertical => spec_vertical_index(address),
        Mirroring::FourScreen => spec_four_screen_index(address),
    }
}

pub fn horizontal_mirrored_addr(address: u16) -> (r: usize)
    requires
        0x2000 <= address < 0x3000,
    ensures
        r == spec_horizontal_index(address),
        r < 2048,
{
    let off = (address - 0x2000) as usize;
    if off >= 0x800 {
        0x400 + off % 0x400
    } else {
        off % 0x400
    }
}

pub fn vertical_mirrored_addr(address: u16) -> (r: usize)
    requires
        0x2000 <= address < 0x3000,
    ensures
        r == spec_vertical_index(address),
        r < 2048,
{
    let off = (address - 0x2000) as usize;
    off % 0x800
}

pub fn four_screen_mirrored_addr(address: u16) -> (r: usize)
    requires
        0x2000 <= address < 0x3000,
    ensures
        r == spec_four_screen_index(address),
        r < 2048,
{
    let off = (address - 0x2000) as usize;
    off % 0x800
}

/// A policy that maps raw nametable addresses into the 2 KiB of VRAM.
pub trait MirrorAddr {
    spec fn spec_mirror_addr(&self, address: u16) -> int;

    fn mirror_addr(&self, address: u16) -> (r: u16)
        requires
            0x2000 <= address < 0x3000,
        ensures
            r == self.spec_mirror_addr(address),
            r < 2048,
    ;
}

impl MirrorAddr for Mirroring {
    open spec fn spec_mirror_addr(&self, address: u16) -> int {
        spec_mirrored_index(*self, address)
    }

    fn mirror_addr(&self, address: u16) -> (r: u16) {
        let off: u16 = address - 0x2000;
        match self {
            Mirroring::Horizontal => {
                if off >= 0x800 {
                    0x400 + off % 0x400
                } else {
                    off % 0x400
                }
            },
            Mirroring::Vertical => off % 0x800,
            Mirroring::FourScreen => off % 0x800,
        }
    }
}

/// A parsed iNES v1 cartridge: immutable after construction.
#[derive(Debug)]
pub struct Rom {
    pub prg_rom: Vec<u8>,
    pub chr_rom: Vec<u8>,
    pub mapper: u8,
    pub screen_mirroring: Mirroring,
}

impl View for Rom {
    type V = RomModel;

    open spec fn view(&self) -> RomModel {
        RomModel {
            prg: self.prg_rom@,
            chr: self.chr_rom@,
            mapper: self.mapper,
            mirroring: self.screen_mirroring,
        }
    }
}

/// What `Rom::new` returns on every byte stream: the header is decoded,
/// the layout checked against the stream's length, and the PRG and CHR
/// images cut out.
pub open spec fn spec_parse(raw: Seq<u8>) -> Result<RomModel, RomError> {
    if raw.len() < 16 {
        Err(RomError::Truncated)
    } else if !(raw[0] == 0x4e && raw[1] == 0x45 && raw[2] == 0x53 && raw[3] == 0x1a) {
        Err(RomError::BadMagic)
    } else {
        let prg_pages = raw[4] as int;
        let chr_pages = raw[5] as int;
        let flags6 = raw[6];
        let mapper = (raw[7] & 0xf0) | (flags6 >> 4);
        if mapper != 0 || !(prg_pages == 1 || prg_pages == 2) || chr_pages > 1 {
            Err(RomError::UnsupportedMapper)
        } else {
            let prg_offset: int = if flags6 & 0x04 != 0 {
                528int
            } else {
                16int
            };
            let prg_len = prg_pages * 16384;
            let chr_len = chr_pages * 8192;
            if raw.len() < prg_offset + prg_len + chr_len {
                Err(RomError::Truncated)
            } else {
                Ok(
                    RomModel {
                        prg: raw.subrange(prg_offset, prg_offset + prg_len),
                        chr: raw.subrange(prg_offset + prg_len, prg_offset + prg_len + chr_len),
                        mapper: 0,
                        mirroring: if flags6 & 0x08 != 0 {
                            Mirroring::FourScreen
                        } else if flags6 & 0x01 != 0 {
                            Mirroring::Vertical
                        } else {
                            Mirroring::Horizontal
                        },
                    },
                )
            }
        }
    }
}

/// The canonical iNES byte stream of a cartridge: a 16-byte header with
/// no trainer, then the PRG image, then the CHR image.
pub open spec fn spec_serialize(m: RomModel) -> Seq<u8> {
    let flags6 = (match m.mirroring {
        Mirroring::FourScreen => 0x08u8,
        Mirroring::Vertical => 0x01u8,
        Mirroring::Horizontal => 0x00u8,
    }) | ((m.mapper & 0x0f) << 4);
    seq![
        0x4eu8,
        0x45u8,
        0x53u8,
        0x1au8,
        (m.prg.len() / 16384) as u8,
        (m.chr.len() / 8192) as u8,
        flags6,
        (m.mapper & 0xf0) as u8,
        0u8,
        0u8,
        0u8,
        0u8,
        0u8,
        0u8,
        0u8,
        0u8,
    ] + m.prg + m.chr
}

/// Copies `src[start..start + len]` into a fresh vector.
fn copy_range(src: &Vec<u8>, start: usize, len: usize) -> (out: Vec<u8>)
    requires
        start + len <= src.len(),
    ensures
        out@ == src@.subrange(start as int, start as int + len as int),
{
    let mut out: Vec<u8> = Vec::new();
    let mut i: usize = 0;
    while i < len
        invariant
            start + len <= src.len(),
            i <= len,
            out@.len() == i,
            forall|j: int| 0 <= j < i ==> out@[j] == src@[start + j],
        decreases len - i,
    {
        out.push(src[start + i]);
        i = i + 1;
    }
    proof {
        assert(out@ =~= src@.subrange(start as int, start as int + len as int));
    }
    out
}

impl Rom {
    /// Parses an iNES byte stream. Succeeds exactly on streams whose
    /// magic, mapper id, page counts and length `spec_parse` accepts,
    /// and fails with the error it names.
    pub fn new(raw: &Vec<u8>) -> (r: Result<Rom, RomError>)
        ensures
            match r {
                Ok(rom) => spec_parse(raw@) == Ok::<RomModel, RomError>(rom@) && rom_inv(rom@),
                Err(e) => spec_parse(raw@) == Err::<RomModel, RomError>(e),
            },
    {
        if raw.len() < 16 {
            return Err(RomError::Truncated);
        }
        if !(raw[0] == 0x4e && raw[1] == 0x45 && raw[2] == 0x53 && raw[3] == 0x1a) {
            return Err(RomError::BadMagic);
        }
        let prg_pages: usize = raw[4] as usize;
        let chr_pages: usize = raw[5] as usize;
        let flags6: u8 = raw[6];
        let mapper: u8 = (raw[7] & 0xf0) | (flags6 >> 4);
        if mapper != 0 || !(prg_pages == 1 || prg_pages == 2) || chr_pages > 1 {
            return Err(RomError::UnsupportedMapper);
        }
        let prg_offset: usize = if flags6 & 0x04 != 0 {
            16 + 512
        } else {
            16
        };
        let prg_len: usize = prg_pages * 16384;
        let chr_len: usize = chr_pages * 8192;
        if raw.len() < prg_offset + prg_len + chr_len {
            return Err(RomError::Truncated);
        }
        let prg_rom = copy_range(raw, prg_offset, prg_len);
        let chr_rom = copy_range(raw, prg_offset + prg_len, chr_len);
        let screen_mirroring = if flags6 & 0x08 != 0 {
            Mirroring::FourScreen
        } else if flags6 & 0x01 != 0 {
            Mirroring::Vertical
        } else {
            Mirroring::Horizontal
        };
        Ok(Rom { prg_rom, chr_rom, mapper: 0, screen_mirroring })
    }

    /// Writes the cartridge back out as its canonical iNES byte stream.
    pub fn serialize(&self) -> (out: Vec<u8>)
        ensures
            out@ == spec_serialize(self@),
    {
        let mut out: Vec<u8> = Vec::new();
        out.push(0x4e);
        out.push(0x45);
        out.push(0x53);
        out.push(0x1a);
        out.push((self.prg_rom.len() / 16384) as u8);
        out.push((self.chr_rom.len() / 8192) as u8);
        let flags6: u8 = (match self.screen_mirroring {
            Mirroring::FourScreen => 0x08u8,
            Mirroring::Vertical => 0x01u8,
            Mirroring::Horizontal => 0x00u8,
        }) | ((self.mapper & 0x0f) << 4);
        out.push(flags6);
        out.push(self.mapper & 0xf0);
        let mut pad: usize = 0;
        while pad < 8
            invariant
                out@.len() == 8 + pad,
                pad <= 8,
                out@.subrange(0, 8) == spec_serialize(self@).subrange(0, 8),
                forall|j: int| 8 <= j < 8 + pad ==> out@[j] == 0u8,
            decreases 8 - pad,
    {
            out.push(0);
            pad = pad + 1;
        }
        let mut i: usize = 0;
        while i < self.prg_rom.len()
            invariant
                out@.len() == 16 + i,
                i <= self.prg_rom.len(),
                out@.subrange(0, 16) == spec_serialize(self@).subrange(0, 16),
                forall|j: int| 0 <= j < i ==> out@[16 + j] == self.prg_rom@[j],
            decreases self.prg_rom.len() - i,
        {
            out.push(self.prg_rom[i]);
            i = i + 1;
        }
        let mut k: usize = 0;
        while k < self.chr_rom.len()
            invariant
                out@.len() == 16 + self.prg_rom@.len() + k,
                k <= self.chr_rom.len(),
                out@.subrange(0, 16) == spec_serialize(self@).subrange(0, 16),
                forall|j: int| 0 <= j < self.prg_rom@.len() ==> out@[16 + j] == self.prg_rom@[j],
                forall|j: int| 0 <= j < k ==> out@[16 + self.prg_rom@.len() + j] == self.chr_rom@[j],
            decreases self.chr_rom.len() - k,
        {
            out.push(self.chr_rom[k]);
            k = k + 1;
        }
        proof {
            let s = spec_serialize(self@);
            assert(s.len() == 16 + self.prg_rom@.len() + self.chr_rom@.len());
            assert forall|j: int| 0 <= j < s.len() implies out@[j] == s[j] by {
                if j < 16 {
                    assert(out@[j] == out@.subrange(0, 16)[j]);
                    assert(s[j] == s.subrange(0, 16)[j]);
                } else if j < 16 + self.prg_rom@.len() {
                    assert(s[j] == self.prg_rom@[j - 16]);
                } else {
                    assert(s[j] == self.chr_rom@[j - 16 - self.prg_rom@.len()]);
                }
            }
            assert(out@ =~= spec_serialize(self@));
        }
        out
    }
}

/// Parsing the canonical byte stream of a mapper-0 cartridge yields the
/// cartridge back: the loader inverts the serializer.
pub proof fn lemma_parse_serialize(m: RomModel)
    requires
        m.mapper == 0,
        rom_inv(m),
    ensures
        spec_parse(spec_serialize(m)) == Ok::<RomModel, RomError>(m),
{
    let raw = spec_serialize(m);
    let flags6 = (match m.mirroring {
        Mirroring::FourScreen => 0x08u8,
        Mirroring::Vertical => 0x01u8,
        Mirroring::Horizontal => 0x00u8,
    }) | ((0u8 & 0x0f) << 4);
    assert((0u8 & 0x0f) << 4 == 0 && (0x08u8 | 0u8) == 0x08u8 && (0x01u8 | 0u8) == 0x01u8 && (0x00u8
        | 0u8) == 0u8 && (0u8 & 0xf0) == 0u8) by (bit_vector);
    assert((0x08u8 >> 4) == 0 && (0x01u8 >> 4) == 0 && (0x00u8 >> 4) == 0 && (0u8 | 0u8) == 0u8
        && (0x08u8 & 0x04) == 0 && (0x01u8 & 0x04) == 0 && (0x00u8 & 0x04) == 0 && (0x08u8 & 0x08)
        != 0 && (0x01u8 & 0x08) == 0 && (0x00u8 & 0x08) == 0 && (0x01u8 & 0x01) != 0 && (0x00u8
        & 0x01) == 0) by (bit_vector);
    assert(raw.len() == 16 + m.prg.len() + m.chr.len());
    assert(raw[4] == (m.prg.len() / 16384) as u8 && raw[5] == (m.chr.len() / 8192) as u8 && raw[6]
        == flags6 && raw[7] == 0u8);
    assert(raw.subrange(16, 16 + m.prg.len() as int) =~= m.prg);
    assert(raw.subrange(16 + m.prg.len() as int, 16 + m.prg.len() as int + m.chr.len() as int)
        =~= m.chr);
}

} // verus!
