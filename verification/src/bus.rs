//! CPU memory bus: 2 KiB of RAM mirrored four times, the PPU register
//! window mirrored every eight bytes, and cartridge PRG-ROM mirrored
//! when only one 16 KiB bank is present.
use crate::ppu::NisePPU;
use crate::ppu::PpuModel;
use crate::ppu::ppu_inv;
use crate::ppu::spec_ppu_new;
use crate::ppu::spec_reg_read_val;
use crate::ppu::spec_reg_read_after;
use crate::ppu::spec_reg_write_after;
use crate::rom::Rom;
use crate::rom::RomModel;
use crate::rom::rom_inv;
use vstd::prelude::*;
use vstd::arithmetic::div_mod::lemma_mod_multiples_vanish;
use vstd::arithmetic::div_mod::lemma_small_mod;

verus! {

/// Mathematical image of the bus.
pub ghost struct BusModel {
    pub ram: Seq<u8>,
    pub ppu: PpuModel,
    pub prg: Seq<u8>,
}

/// Well-formedness: 2 KiB of RAM, a well-formed PPU, and one or two
/// 16 KiB PRG banks.
pub open spec fn bus_inv(b: BusModel) -> bool {
    &&& b.ram.len() == 2048
    &&& ppu_inv(b.ppu)
    &&& b.prg.len() == 16384 || b.prg.len() == 32768
}

/// The byte a CPU read returns: RAM at `addr % 0x800`, a PPU register
/// at `addr % 8`, PRG-ROM at `(addr - 0x8000) % prg_len`, and open bus
/// in the APU and expansion windows.
pub open spec fn spec_bus_read_val(b: BusModel, addr: u16) -> u8 {
    if addr < 0x2000 {
        b.ram[(addr % 0x800) as int]
    } else if addr < 0x4000 {
        spec_reg_read_val(b.ppu, addr % 8)
    } else if addr >= 0x8000 {
        b.prg[(addr - 0x8000) % (b.prg.len() as int)]
    } else {
        0
    }
}

/// The bus after a CPU read: only a read in the PPU register window
/// moves anything, and only inside the PPU.
pub open spec fn spec_bus_read_after(b: BusModel, addr: u16) -> BusModel {
    if 0x2000 <= addr < 0x4000 {
        BusModel { ppu: spec_reg_read_after(b.ppu, addr % 8), ..b }
    } else {
        b
    }
}

/// The bus after a CPU write: RAM takes the byte at `addr % 0x800`, the
/// PPU register window forwards it, and writes to ROM and to the
/// out-of-scope windows fall away.
pub open spec fn spec_bus_write_after(b: BusModel, addr: u16, data: u8) -> BusModel {
    if addr < 0x2000 {
        BusModel { ram: b.ram.update((addr % 0x800) as int, data), ..b }
    } else if addr < 0x4000 {
        BusModel { ppu: spec_reg_write_after(b.ppu, addr % 8, data), ..b }
    } else {
        b
    }
}

/// The memory bus a cartridge is wrapped in.
pub struct NiseBus {
    pub memory: Vec<u8>,
    pub ppu: NisePPU,
    pub prg_rom: Vec<u8>,
}

impl View for NiseBus {
    type V = BusModel;

    open spec fn view(&self) -> BusModel {
        BusModel { ram: self.memory@, ppu: self.ppu@, prg: self.prg_rom@ }
    }
}

/// A vector of `n` zero bytes.
fn zero_vec(n: usize) -> (out: Vec<u8>)
    ensures
        out@ == Seq::new(n as nat, |i: int| 0u8),
{
    let mut out: Vec<u8> = Vec::new();
    let mut i: usize = 0;
    while i < n
        invariant
            i <= n,
            out@.len() == i,
            forall|j: int| 0 <= j < i ==> out@[j] == 0u8,
        decreases n - i,
    {
        out.push(0);
        i = i + 1;
    }
    proof {
        assert(out@ =~= Seq::new(n as nat, |i: int| 0u8));
    }
    out
}

impl NiseBus {
    /// Wraps a parsed cartridge: zeroed RAM, a fresh PPU bound to the
    /// cartridge's CHR image and mirroring, and the PRG image mapped at
    /// `$8000`.
    pub fn new(rom: Rom) -> (r: Self)
        requires
            rom_inv(rom@),
        ensures
            bus_inv(r@),
            r@.ram == Seq::new(2048, |i: int| 0u8),
            r@.ppu == spec_ppu_new(rom@.chr, rom@.mirroring),
            r@.prg == rom@.prg,
    {
        let ppu = NisePPU::new(rom.chr_rom, rom.screen_mirroring);
        NiseBus { memory: zero_vec(2048), ppu, prg_rom: rom.prg_rom }
    }

    /// The PRG-ROM byte at a CPU address in `$8000..=$FFFF`; a single
    /// 16 KiB bank answers for both halves of the window.
    fn read_prg_rom(&self, addr: u16) -> (r: u8)
        requires
            bus_inv(self@),
            addr >= 0x8000,
        ensures
            r == self@.prg[(addr - 0x8000) % (self@.prg.len() as int)],
    {
        let mut a: usize = (addr - 0x8000) as usize;
        if self.prg_rom.len() == 0x4000 && a >= 0x4000 {
            a = a % 0x4000;
        }
        proof {
            if self@.prg.len() == 0x4000 {
                if addr - 0x8000 < 0x4000 {
                    lemma_small_mod((addr - 0x8000) as nat, 0x4000);
                } else {
                    lemma_mod_multiples_vanish(1, a as int, 0x4000);
                    lemma_small_mod(a as nat, 0x4000);
                }
            } else {
                lemma_small_mod((addr - 0x8000) as nat, 0x8000);
            }
        }
        self.prg_rom[a]
    }

    /// A CPU read. Reads in the PPU register window may move PPU state;
    /// nothing else on the bus changes.
    pub fn read(&mut self, address: u16) -> (r: u8)
        requires
            bus_inv(old(self)@),
        ensures
            bus_inv(final(self)@),
            r == spec_bus_read_val(old(self)@, address),
            final(self)@ == spec_bus_read_after(old(self)@, address),
    {
        if address < 0x2000 {
            self.memory[(address % 0x800) as usize]
        } else if address < 0x4000 {
            self.ppu.read_register(address % 8)
        } else if address >= 0x8000 {
            self.read_prg_rom(address)
        } else {
            0
        }
    }

    /// A CPU write. RAM and the PPU register window take it; writes to
    /// the cartridge ROM window and the out-of-scope windows fall away.
    pub fn write(&mut self, address: u16, data: u8)
        requires
            bus_inv(old(self)@),
        ensures
            bus_inv(final(self)@),
            final(self)@ == spec_bus_write_after(old(self)@, address, data),
    {
        if address < 0x2000 {
            self.memory.set((address % 0x800) as usize, data);
        } else if address < 0x4000 {
            self.ppu.write_register(address % 8, data);
        }
    }
}

/// RAM is 2 KiB mirrored four times: flipping the two mirror bits of an
/// address below `$2000` changes neither what a read returns nor what a
/// write does.
pub proof fn lemma_ram_mirroring(b: BusModel, addr: u16, k: u16, data: u8)
    requires
        addr < 0x2000,
        k < 4,
    ensures
        spec_bus_read_val(b, addr) == spec_bus_read_val(b, addr ^ ((k * 0x800) as u16)),
        spec_bus_write_after(b, addr, data) == spec_bus_write_after(
            b,
            addr ^ ((k * 0x800) as u16),
            data,
        ),
{
    assert((addr ^ ((k * 0x800) as u16)) < 0x2000 && (addr ^ ((k * 0x800) as u16)) % 0x800 == addr
        % 0x800)
        by (bit_vector)
        requires
            addr < 0x2000,
            k < 4,
    ;
}

/// The eight PPU registers answer all through `$2000..=$3FFF`: moving a
/// register address up by any multiple of eight that stays inside the
/// window changes neither reads nor writes.
pub proof fn lemma_ppu_register_mirroring(b: BusModel, addr: u16, k: u16, data: u8)
    requires
        0x2000 <= addr < 0x4000,
        addr + k * 8 < 0x4000,
    ensures
        spec_bus_read_val(b, (addr + k * 8) as u16) == spec_bus_read_val(b, addr),
        spec_bus_read_after(b, (addr + k * 8) as u16) == spec_bus_read_after(b, addr),
        spec_bus_write_after(b, (addr + k * 8) as u16, data) == spec_bus_write_after(b, addr, data),
{
    lemma_mod_multiples_vanish(k as int, addr as int, 8);
}

/// With a single 16 KiB PRG bank, the upper half of the cartridge
/// window reads the same bytes as the lower half.
pub proof fn lemma_prg_mirroring(b: BusModel, a: u16)
    requires
        b.prg.len() == 16384,
        a < 0x4000,
    ensures
        spec_bus_read_val(b, (0x8000 + a) as u16) == spec_bus_read_val(b, (0xc000 + a) as u16),
{
    lemma_small_mod(a as nat, 0x4000);
    lemma_mod_multiples_vanish(1, a as int, 0x4000);
}

} // verus!
