//! Cycle-counted 6502 CPU: register file, status flags, stack, the 13
//! addressing modes and the 151 official opcodes, each step pinned to a
//! functional model of the whole machine.
use crate::bus::BusModel;
use crate::bus::NiseBus;
use crate::bus::bus_inv;
use crate::bus::spec_bus_read_val;
use crate::bus::spec_bus_read_after;
use crate::bus::spec_bus_write_after;
use crate::ppu::PpuModel;
use vstd::prelude::*;

verus! {

/// Mathematical image of the CPU together with everything it can
/// reach over the bus.
pub ghost struct CpuModel {
    pub pc: u16,
    pub s: u8,
    pub p: u8,
    pub a: u8,
    pub x: u8,
    pub y: u8,
    pub bus: BusModel,
    pub cycle_count: u32,
}

/// Well-formedness of the machine: the bus behind the CPU is sound.
pub open spec fn cpu_inv(c: CpuModel) -> bool {
    bus_inv(c.bus)
}

/// Result of an addressing-mode computation.
pub struct Operand {
    pub value: u8,
    pub address: u16,
}

/// A snapshot of the register file, as a driver logs it between ticks.
pub struct Nise6502State {
    pub pc: u16,
    pub s: u8,
    pub p: u8,
    pub a: u8,
    pub x: u8,
    pub y: u8,
    pub cycle_count: u32,
}

/// The byte a bus read returns.
pub open spec fn rd(b: BusModel, addr: u16) -> u8 {
    spec_bus_read_val(b, addr)
}

/// The bus after a read.
pub open spec fn rda(b: BusModel, addr: u16) -> BusModel {
    spec_bus_read_after(b, addr)
}

/// The bus after a write.
pub open spec fn wr(b: BusModel, addr: u16, data: u8) -> BusModel {
    spec_bus_write_after(b, addr, data)
}

pub open spec fn wadd16(a: u16, b: u16) -> u16 {
    vstd::wrapping::u16_specs::wrapping_add(a, b)
}

pub open spec fn wsub16(a: u16, b: u16) -> u16 {
    vstd::wrapping::u16_specs::wrapping_sub(a, b)
}

pub open spec fn wadd8(a: u8, b: u8) -> u8 {
    vstd::wrapping::u8_specs::wrapping_add(a, b)
}

pub open spec fn wsub8(a: u8, b: u8) -> u8 {
    vstd::wrapping::u8_specs::wrapping_sub(a, b)
}

/// The little-endian word read at `addr` then `addr + 1`, threading
/// the bus through both reads.
pub open spec fn rd16_val(b: BusModel, addr: u16) -> u16 {
    (rd(b, addr) + rd(rda(b, addr), wadd16(addr, 1)) * 256) as u16
}

/// The bus after the two reads of a 16-bit fetch.
pub open spec fn rd16_after(b: BusModel, addr: u16) -> BusModel {
    rda(rda(b, addr), wadd16(addr, 1))
}

/// The status byte after the N and Z flags are set from `v`: Z is `v ==
/// 0`, N is bit 7 of `v`, and every other flag keeps its value.
pub open spec fn spec_set_nz(p: u8, v: u8) -> u8 {
    (p & 0x7d) | (if v == 0 {
        2u8
    } else {
        0u8
    }) | (v & 0x80)
}

/// The machine after a stack push: the byte lands in the base page at
/// `$0100 + s` and `s` steps down, wrapping within the page.
pub open spec fn spec_push(c: CpuModel, value: u8) -> CpuModel {
    CpuModel { bus: wr(c.bus, (0x100 + c.s) as u16, value), s: wsub8(c.s, 1), ..c }
}

/// The byte a stack pop returns: `s` steps up first, wrapping within
/// the page.
pub open spec fn spec_pop_val(c: CpuModel) -> u8 {
    rd(c.bus, (0x100 + wadd8(c.s, 1)) as u16)
}

/// The machine after a stack pop.
pub open spec fn spec_pop_after(c: CpuModel) -> CpuModel {
    CpuModel { s: wadd8(c.s, 1), bus: rda(c.bus, (0x100 + wadd8(c.s, 1)) as u16), ..c }
}

// Instruction semantics. Each function is the machine after one
// instruction body, the operand already fetched; the addressing mode's
// cycles are already in `cycle_count` and the instruction adds its own.

pub open spec fn spec_adc(c: CpuModel, o: Operand) -> CpuModel {
    let sum = c.a + o.value + (c.p & 1);
    let result = (sum % 256) as u8;
    let carry = (sum / 256) as u8;
    let p1 = (c.p & 0xbe) | carry;
    let p2 = p1 | ((!(c.a ^ o.value) & (c.a ^ result) & 0x80) >> 1);
    CpuModel { a: result, p: spec_set_nz(p2, result), ..c }
}

pub open spec fn spec_sbc(c: CpuModel, o: Operand) -> CpuModel {
    spec_adc(c, Operand { value: !o.value, address: o.address })
}

pub open spec fn spec_and(c: CpuModel, o: Operand) -> CpuModel {
    let r = c.a & o.value;
    CpuModel { a: r, p: spec_set_nz(c.p, r), ..c }
}

pub open spec fn spec_ora(c: CpuModel, o: Operand) -> CpuModel {
    let r = c.a | o.value;
    CpuModel { a: r, p: spec_set_nz(c.p, r), ..c }
}

pub open spec fn spec_eor(c: CpuModel, o: Operand) -> CpuModel {
    let r = c.a ^ o.value;
    CpuModel { a: r, p: spec_set_nz(c.p, r), ..c }
}

pub open spec fn spec_asl(c: CpuModel, o: Operand) -> CpuModel {
    let p1 = (c.p & 0xfe) | (o.value >> 7);
    let result = o.value << 1;
    CpuModel {
        cycle_count: (c.cycle_count + 2) as u32,
        p: spec_set_nz(p1, result),
        bus: wr(c.bus, o.address, result),
        ..c
    }
}

pub open spec fn spec_asl_a(c: CpuModel) -> CpuModel {
    let p1 = (c.p & 0xfe) | (c.a >> 7);
    let result = c.a << 1;
    CpuModel {
        cycle_count: (c.cycle_count + 2) as u32,
        p: spec_set_nz(p1, result),
        a: result,
        ..c
    }
}

pub open spec fn spec_lsr(c: CpuModel, o: Operand) -> CpuModel {
    let p1 = (c.p & 0xfe) | (o.value & 1);
    let result = o.value >> 1;
    CpuModel {
        cycle_count: (c.cycle_count + 2) as u32,
        p: spec_set_nz(p1, result),
        bus: wr(c.bus, o.address, result),
        ..c
    }
}

pub open spec fn spec_lsr_a(c: CpuModel) -> CpuModel {
    let p1 = (c.p & 0xfe) | (c.a & 1);
    let result = c.a >> 1;
    CpuModel {
        cycle_count: (c.cycle_count + 2) as u32,
        p: spec_set_nz(p1, result),
        a: result,
        ..c
    }
}

pub open spec fn spec_rol(c: CpuModel, o: Operand) -> CpuModel {
    let result = (o.value << 1) | (c.p & 1);
    let p1 = (c.p & 0xfe) | (o.value >> 7);
    CpuModel {
        cycle_count: (c.cycle_count + 2) as u32,
        p: spec_set_nz(p1, result),
        bus: wr(c.bus, o.address, result),
        ..c
    }
}

pub open spec fn spec_rol_a(c: CpuModel) -> CpuModel {
    let result = (c.a << 1) | (c.p & 1);
    let p1 = (c.p & 0xfe) | (c.a >> 7);
    CpuModel {
        cycle_count: (c.cycle_count + 2) as u32,
        p: spec_set_nz(p1, result),
        a: result,
        ..c
    }
}

pub open spec fn spec_ror(c: CpuModel, o: Operand) -> CpuModel {
    let result = (o.value >> 1) | ((c.p & 1) << 7);
    let p1 = (c.p & 0xfe) | (o.value & 1);
    CpuModel {
        cycle_count: (c.cycle_count + 2) as u32,
        p: spec_set_nz(p1, result),
        bus: wr(c.bus, o.address, result),
        ..c
    }
}

pub open spec fn spec_ror_a(c: CpuModel) -> CpuModel {
    let result = (c.a >> 1) | ((c.p & 1) << 7);
    let p1 = (c.p & 0xfe) | (c.a & 1);
    CpuModel {
        cycle_count: (c.cycle_count + 2) as u32,
        p: spec_set_nz(p1, result),
        a: result,
        ..c
    }
}

pub open spec fn spec_bit(c: CpuModel, o: Operand) -> CpuModel {
    let p1 = (c.p & 0xfd) | (if c.a & o.value == 0 {
        2u8
    } else {
        0u8
    });
    CpuModel { p: (p1 & 0x3f) | (o.value & 0xc0), ..c }
}

/// The status byte after a comparison of `l` against `r`: C is `l >=
/// r`, Z is `l == r`, N is bit 7 of the wrapped difference.
pub open spec fn spec_compare_p(p: u8, l: u8, r: u8) -> u8 {
    let result = wsub8(l, r);
    let p1 = if l == r {
        (p & 0x7e) | 3
    } else if l >= r {
        (p & 0x7d) | 1
    } else {
        p & 0x7c
    };
    p1 | (result & 0x80)
}

pub open spec fn spec_cmp(c: CpuModel, o: Operand) -> CpuModel {
    CpuModel { p: spec_compare_p(c.p, c.a, o.value), ..c }
}

pub open spec fn spec_cpx(c: CpuModel, o: Operand) -> CpuModel {
    CpuModel { p: spec_compare_p(c.p, c.x, o.value), ..c }
}

pub open spec fn spec_cpy(c: CpuModel, o: Operand) -> CpuModel {
    CpuModel { p: spec_compare_p(c.p, c.y, o.value), ..c }
}

/// A taken branch: the program counter moves by the signed offset and
/// the instruction pays one extra cycle, two if the target sits on
/// another page than the instruction's end.
pub open spec fn spec_branch(c: CpuModel, v: u8) -> CpuModel {
    let target = wadd16(c.pc, v as i8 as i16 as u16);
    let extra: u32 = if target / 256 == c.pc / 256 {
        1
    } else {
        2
    };
    CpuModel { pc: target, cycle_count: (c.cycle_count + extra) as u32, ..c }
}

pub open spec fn spec_branch_if(c: CpuModel, o: Operand, taken: bool) -> CpuModel {
    if taken {
        spec_branch(c, o.value)
    } else {
        c
    }
}

pub open spec fn spec_brk(c: CpuModel) -> CpuModel {
    let pc1 = wadd16(c.pc, 1);
    let c0 = CpuModel { cycle_count: (c.cycle_count + 7) as u32, pc: pc1, ..c };
    let c1 = spec_push(c0, (pc1 >> 8) as u8);
    let c2 = spec_push(c1, (pc1 & 0xff) as u8);
    let c3 = spec_push(c2, c.p | 0x30);
    CpuModel {
        pc: rd16_val(c3.bus, 0xfffe),
        bus: rd16_after(c3.bus, 0xfffe),
        p: c.p | 0x04,
        ..c3
    }
}

pub open spec fn spec_jmp(c: CpuModel, o: Operand) -> CpuModel {
    CpuModel { cycle_count: (c.cycle_count - 1) as u32, pc: o.address, ..c }
}

pub open spec fn spec_jsr(c: CpuModel, o: Operand) -> CpuModel {
    let ret = wsub16(c.pc, 1);
    let c0 = CpuModel { cycle_count: (c.cycle_count + 2) as u32, pc: ret, ..c };
    let c1 = spec_push(c0, (ret >> 8) as u8);
    let c2 = spec_push(c1, (ret & 0xff) as u8);
    CpuModel { pc: o.address, ..c2 }
}

pub open spec fn spec_rts(c: CpuModel) -> CpuModel {
    let c0 = CpuModel { cycle_count: (c.cycle_count + 6) as u32, ..c };
    let lo = spec_pop_val(c0);
    let c1 = spec_pop_after(c0);
    let hi = spec_pop_val(c1);
    let c2 = spec_pop_after(c1);
    CpuModel { pc: wadd16((lo + hi * 256) as u16, 1), ..c2 }
}

pub open spec fn spec_rti(c: CpuModel) -> CpuModel {
    let c0 = CpuModel { cycle_count: (c.cycle_count + 6) as u32, ..c };
    let pv = spec_pop_val(c0);
    let c1 = CpuModel { p: (pv | 0x20) & 0xef, ..spec_pop_after(c0) };
    let lo = spec_pop_val(c1);
    let c2 = spec_pop_after(c1);
    let hi = spec_pop_val(c2);
    let c3 = spec_pop_after(c2);
    CpuModel { pc: (lo + hi * 256) as u16, ..c3 }
}

pub open spec fn spec_pha(c: CpuModel) -> CpuModel {
    spec_push(CpuModel { cycle_count: (c.cycle_count + 3) as u32, ..c }, c.a)
}

pub open spec fn spec_php(c: CpuModel) -> CpuModel {
    spec_push(CpuModel { cycle_count: (c.cycle_count + 3) as u32, ..c }, c.p | 0x30)
}

pub open spec fn spec_pla(c: CpuModel) -> CpuModel {
    let c0 = CpuModel { cycle_count: (c.cycle_count + 4) as u32, ..c };
    let v = spec_pop_val(c0);
    let c1 = spec_pop_after(c0);
    CpuModel { a: v, p: spec_set_nz(c1.p, v), ..c1 }
}

pub open spec fn spec_plp(c: CpuModel) -> CpuModel {
    let c0 = CpuModel { cycle_count: (c.cycle_count + 4) as u32, ..c };
    let v = spec_pop_val(c0);
    let c1 = spec_pop_after(c0);
    CpuModel { p: (v | 0x20) & 0xef, ..c1 }
}

pub open spec fn spec_lda(c: CpuModel, o: Operand) -> CpuModel {
    CpuModel { a: o.value, p: spec_set_nz(c.p, o.value), ..c }
}

pub open spec fn spec_ldx(c: CpuModel, o: Operand) -> CpuModel {
    CpuModel { x: o.value, p: spec_set_nz(c.p, o.value), ..c }
}

pub open spec fn spec_ldy(c: CpuModel, o: Operand) -> CpuModel {
    CpuModel { y: o.value, p: spec_set_nz(c.p, o.value), ..c }
}

pub open spec fn spec_sta(c: CpuModel, o: Operand) -> CpuModel {
    CpuModel { bus: wr(c.bus, o.address, c.a), ..c }
}

pub open spec fn spec_stx(c: CpuModel, o: Operand) -> CpuModel {
    CpuModel { bus: wr(c.bus, o.address, c.x), ..c }
}

pub open spec fn spec_sty(c: CpuModel, o: Operand) -> CpuModel {
    CpuModel { bus: wr(c.bus, o.address, c.y), ..c }
}

pub open spec fn spec_inc(c: CpuModel, o: Operand) -> CpuModel {
    let result = wadd8(o.value, 1);
    CpuModel {
        cycle_count: (c.cycle_count + 2) as u32,
        bus: wr(c.bus, o.address, result),
        p: spec_set_nz(c.p, result),
        ..c
    }
}

pub open spec fn spec_dec(c: CpuModel, o: Operand) -> CpuModel {
    let result = wsub8(o.value, 1);
    CpuModel {
        cycle_count: (c.cycle_count + 2) as u32,
        bus: wr(c.bus, o.address, result),
        p: spec_set_nz(c.p, result),
        ..c
    }
}

pub open spec fn spec_inx(c: CpuModel) -> CpuModel {
    let r = wadd8(c.x, 1);
    CpuModel { cycle_count: (c.cycle_count + 2) as u32, x: r, p: spec_set_nz(c.p, r), ..c }
}

pub open spec fn spec_iny(c: CpuModel) -> CpuModel {
    let r = wadd8(c.y, 1);
    CpuModel { cycle_count: (c.cycle_count + 2) as u32, y: r, p: spec_set_nz(c.p, r), ..c }
}

pub open spec fn spec_dex(c: CpuModel) -> CpuModel {
    let r = wsub8(c.x, 1);
    CpuModel { cycle_count: (c.cycle_count + 2) as u32, x: r, p: spec_set_nz(c.p, r), ..c }
}

pub open spec fn spec_dey(c: CpuModel) -> CpuModel {
    let r = wsub8(c.y, 1);
    CpuModel { cycle_count: (c.cycle_count + 2) as u32, y: r, p: spec_set_nz(c.p, r), ..c }
}

pub open spec fn spec_clc(c: CpuModel) -> CpuModel {
    CpuModel { cycle_count: (c.cycle_count + 2) as u32, p: c.p & 0xfe, ..c }
}

pub open spec fn spec_cld(c: CpuModel) -> CpuModel {
    CpuModel { cycle_count: (c.cycle_count + 2) as u32, p: c.p & 0xf7, ..c }
}

pub open spec fn spec_cli(c: CpuModel) -> CpuModel {
    CpuModel { cycle_count: (c.cycle_count + 2) as u32, p: c.p & 0xfb, ..c }
}

pub open spec fn spec_clv(c: CpuModel) -> CpuModel {
    CpuModel { cycle_count: (c.cycle_count + 2) as u32, p: c.p & 0xbf, ..c }
}

pub open spec fn spec_sec(c: CpuModel) -> CpuModel {
    CpuModel { cycle_count: (c.cycle_count + 2) as u32, p: c.p | 0x01, ..c }
}

pub open spec fn spec_sed(c: CpuModel) -> CpuModel {
    CpuModel { cycle_count: (c.cycle_count + 2) as u32, p: c.p | 0x08, ..c }
}

pub open spec fn spec_sei(c: CpuModel) -> CpuModel {
    CpuModel { cycle_count: (c.cycle_count + 2) as u32, p: c.p | 0x04, ..c }
}

pub open spec fn spec_tax(c: CpuModel) -> CpuModel {
    CpuModel { cycle_count: (c.cycle_count + 2) as u32, x: c.a, p: spec_set_nz(c.p, c.a), ..c }
}

pub open spec fn spec_tay(c: CpuModel) -> CpuModel {
    CpuModel { cycle_count: (c.cycle_count + 2) as u32, y: c.a, p: spec_set_nz(c.p, c.a), ..c }
}

pub open spec fn spec_tsx(c: CpuModel) -> CpuModel {
    CpuModel { cycle_count: (c.cycle_count + 2) as u32, x: c.s, p: spec_set_nz(c.p, c.s), ..c }
}

pub open spec fn spec_txa(c: CpuModel) -> CpuModel {
    CpuModel { cycle_count: (c.cycle_count + 2) as u32, a: c.x, p: spec_set_nz(c.p, c.x), ..c }
}

pub open spec fn spec_txs(c: CpuModel) -> CpuModel {
    CpuModel { cycle_count: (c.cycle_count + 2) as u32, s: c.x, ..c }
}

pub open spec fn spec_tya(c: CpuModel) -> CpuModel {
    CpuModel { cycle_count: (c.cycle_count + 2) as u32, a: c.y, p: spec_set_nz(c.p, c.y), ..c }
}

pub open spec fn spec_nop(c: CpuModel) -> CpuModel {
    CpuModel { cycle_count: (c.cycle_count + 2) as u32, ..c }
}

// Addressing modes. Each returns the machine with the operand bytes
// consumed, the mode's base cycles added, and the operand fetched.

pub open spec fn spec_imm(c: CpuModel) -> (CpuModel, Operand) {
    (
        CpuModel {
            pc: wadd16(c.pc, 1),
            cycle_count: (c.cycle_count + 2) as u32,
            bus: rda(c.bus, c.pc),
            ..c
        },
        Operand { value: rd(c.bus, c.pc), address: c.pc },
    )
}

pub open spec fn spec_zpa(c: CpuModel) -> (CpuModel, Operand) {
    let ea = rd(c.bus, c.pc) as u16;
    let b1 = rda(c.bus, c.pc);
    (
        CpuModel {
            pc: wadd16(c.pc, 1),
            cycle_count: (c.cycle_count + 3) as u32,
            bus: rda(b1, ea),
            ..c
        },
        Operand { value: rd(b1, ea), address: ea },
    )
}

/// Zero-page indexed: the pointer byte plus the index wraps within
/// `$00..=$FF`.
pub open spec fn spec_zpi(c: CpuModel, idx: u8) -> (CpuModel, Operand) {
    let ea = wadd8(rd(c.bus, c.pc), idx) as u16;
    let b1 = rda(c.bus, c.pc);
    (
        CpuModel {
            pc: wadd16(c.pc, 1),
            cycle_count: (c.cycle_count + 4) as u32,
            bus: rda(b1, ea),
            ..c
        },
        Operand { value: rd(b1, ea), address: ea },
    )
}

pub open spec fn spec_abs(c: CpuModel) -> (CpuModel, Operand) {
    let ea = rd16_val(c.bus, c.pc);
    let b1 = rd16_after(c.bus, c.pc);
    (
        CpuModel {
            pc: wadd16(c.pc, 2),
            cycle_count: (c.cycle_count + 4) as u32,
            bus: rda(b1, ea),
            ..c
        },
        Operand { value: rd(b1, ea), address: ea },
    )
}

/// Absolute indexed: one extra cycle when adding the index carries into
/// the high address byte.
pub open spec fn spec_absolute_indexed(c: CpuModel, idx: u8) -> (CpuModel, Operand, bool) {
    let lo = rd(c.bus, c.pc);
    let b1 = rda(c.bus, c.pc);
    let crossed = lo + idx > 255;
    let low = wadd8(lo, idx);
    let hi = rd(b1, wadd16(c.pc, 1));
    let b2 = rda(b1, wadd16(c.pc, 1));
    let ea0 = (low + hi * 256) as u16;
    let ea = if crossed {
        wadd16(ea0, 0x100)
    } else {
        ea0
    };
    let cycles: u32 = if crossed {
        5
    } else {
        4
    };
    (
        CpuModel {
            pc: wadd16(c.pc, 2),
            cycle_count: (c.cycle_count + cycles) as u32,
            bus: rda(b2, ea),
            ..c
        },
        Operand { value: rd(b2, ea), address: ea },
        crossed,
    )
}

/// Write-form absolute indexed: five cycles whether or not the page is
/// crossed.
pub open spec fn spec_absolute_indexed_w(c: CpuModel, idx: u8) -> (CpuModel, Operand) {
    let (cm, o, crossed) = spec_absolute_indexed(c, idx);
    if !crossed {
        (CpuModel { cycle_count: (cm.cycle_count + 1) as u32, ..cm }, o)
    } else {
        (cm, o)
    }
}

/// Indirect: the pointer's high byte is fetched with the page-wrap
/// bug, from `(ptr & $FF00) | ((ptr + 1) & $FF)`.
pub open spec fn spec_ind(c: CpuModel) -> (CpuModel, Operand) {
    let ptr = rd16_val(c.bus, c.pc);
    let b1 = rd16_after(c.bus, c.pc);
    let lo = rd(b1, ptr);
    let b2 = rda(b1, ptr);
    let hi_addr = (ptr & 0xff00) | (wadd8((ptr & 0xff) as u8, 1) as u16);
    let hi = rd(b2, hi_addr);
    let b3 = rda(b2, hi_addr);
    (
        CpuModel {
            pc: wadd16(c.pc, 2),
            cycle_count: (c.cycle_count + 6) as u32,
            bus: b3,
            ..c
        },
        Operand { value: 0, address: (lo + hi * 256) as u16 },
    )
}

/// Indexed indirect: the zero-page pointer plus X wraps within the
/// zero page, and so does the fetch of its high byte.
pub open spec fn spec_idx(c: CpuModel) -> (CpuModel, Operand) {
    let ptr = rd(c.bus, c.pc);
    let b1 = rda(c.bus, c.pc);
    let indexed = wadd8(ptr, c.x);
    let lo = rd(b1, indexed as u16);
    let b2 = rda(b1, indexed as u16);
    let hi = rd(b2, wadd8(indexed, 1) as u16);
    let b3 = rda(b2, wadd8(indexed, 1) as u16);
    let ea = (lo + hi * 256) as u16;
    (
        CpuModel {
            pc: wadd16(c.pc, 1),
            cycle_count: (c.cycle_count + 6) as u32,
            bus: rda(b3, ea),
            ..c
        },
        Operand { value: rd(b3, ea), address: ea },
    )
}

/// Indirect indexed: the zero-page pointer's high byte is fetched from
/// `(ptr + 1) & $FF`, and Y is added with a page-cross penalty.
pub open spec fn spec_indirected_indexed(c: CpuModel) -> (CpuModel, Operand, bool) {
    let ptr = rd(c.bus, c.pc);
    let b1 = rda(c.bus, c.pc);
    let lo_base = rd(b1, ptr as u16);
    let b2 = rda(b1, ptr as u16);
    let crossed = lo_base + c.y > 255;
    let low = wadd8(lo_base, c.y);
    let hi = rd(b2, wadd8(ptr, 1) as u16);
    let b3 = rda(b2, wadd8(ptr, 1) as u16);
    let ea0 = (low + hi * 256) as u16;
    let ea = if crossed {
        wadd16(ea0, 0x100)
    } else {
        ea0
    };
    let cycles: u32 = if crossed {
        6
    } else {
        5
    };
    (
        CpuModel {
            pc: wadd16(c.pc, 1),
            cycle_count: (c.cycle_count + cycles) as u32,
            bus: rda(b3, ea),
            ..c
        },
        Operand { value: rd(b3, ea), address: ea },
        crossed,
    )
}

/// Write-form indirect indexed: six cycles whether or not the page is
/// crossed.
pub open spec fn spec_idy_w(c: CpuModel) -> (CpuModel, Operand) {
    let (cm, o, crossed) = spec_indirected_indexed(c);
    if !crossed {
        (CpuModel { cycle_count: (cm.cycle_count + 1) as u32, ..cm }, o)
    } else {
        (cm, o)
    }
}

pub open spec fn spec_rel(c: CpuModel) -> (CpuModel, Operand) {
    (
        CpuModel {
            pc: wadd16(c.pc, 1),
            cycle_count: (c.cycle_count + 2) as u32,
            bus: rda(c.bus, c.pc),
            ..c
        },
        Operand { value: rd(c.bus, c.pc), address: c.pc },
    )
}

/// The cycle-count ceiling under which every helper is free of
/// overflow; a dispatch starts at zero and no instruction adds more
/// than a handful of cycles.
pub open spec fn small_cycles(c: CpuModel) -> bool {
    c.cycle_count <= 64
}

/// The 6502 core.
pub struct Nise6502 {
    pub pc: u16,
    pub s: u8,
    pub p: u8,
    pub a: u8,
    pub x: u8,
    pub y: u8,
    pub bus: NiseBus,
    pub cycle_count: u32,
}

impl View for Nise6502 {
    type V = CpuModel;

    open spec fn view(&self) -> CpuModel {
        CpuModel {
            pc: self.pc,
            s: self.s,
            p: self.p,
            a: self.a,
            x: self.x,
            y: self.y,
            bus: self.bus@,
            cycle_count: self.cycle_count,
        }
    }
}

impl Nise6502 {
    /// The CPU as it comes out of reset: `s = $FD`, `p = $24`, the
    /// program counter left for the driver to set.
    pub fn new(bus: NiseBus) -> (r: Self)
        requires
            bus_inv(bus@),
        ensures
            cpu_inv(r@),
            r@ == (CpuModel {
                pc: 0,
                s: 0xfd,
                p: 0x24,
                a: 0,
                x: 0,
                y: 0,
                bus: bus@,
                cycle_count: 0,
            }),
    {
        Nise6502 { pc: 0, s: 0xfd, p: 0x24, a: 0, x: 0, y: 0, bus, cycle_count: 0 }
    }

    /// A snapshot of the register file.
    pub fn state(&self) -> (r: Nise6502State)
        ensures
            r.pc == self.pc,
            r.s == self.s,
            r.p == self.p,
            r.a == self.a,
            r.x == self.x,
            r.y == self.y,
            r.cycle_count == self.cycle_count,
    {
        Nise6502State {
            pc: self.pc,
            s: self.s,
            p: self.p,
            a: self.a,
            x: self.x,
            y: self.y,
            cycle_count: self.cycle_count,
        }
    }

    fn read(&mut self, address: u16) -> (r: u8)
        requires
            cpu_inv(old(self)@),
        ensures
            cpu_inv(final(self)@),
            r == rd(old(self)@.bus, address),
            final(self)@ == (CpuModel { bus: rda(old(self)@.bus, address), ..old(self)@ }),
    {
        self.bus.read(address)
    }

    fn read16(&mut self, address: u16) -> (r: u16)
        requires
            cpu_inv(old(self)@),
        ensures
            cpu_inv(final(self)@),
            r == rd16_val(old(self)@.bus, address),
            final(self)@ == (CpuModel { bus: rd16_after(old(self)@.bus, address), ..old(self)@ }),
    {
        let l = self.read(address);
        let h = self.read(address.wrapping_add(1));
        self.to_u16(l, h)
    }

    fn to_u16(&self, l: u8, h: u8) -> (r: u16)
        ensures
            r == l + h * 256,
    {
        (l as u16) + (h as u16) * 256
    }

    fn set_nz(&mut self, value: u8)
        ensures
            final(self)@ == (CpuModel { p: spec_set_nz(old(self).p, value), ..old(self)@ }),
    {
        self.p = (self.p & 0x7d) | (if value == 0 {
            2
        } else {
            0
        }) | (value & 0x80);
    }

    /// Stack push: the byte always lands inside the base page
    /// `$0100..=$01FF` and `s` wraps within it.
    fn push(&mut self, value: u8)
        requires
            cpu_inv(old(self)@),
        ensures
            cpu_inv(final(self)@),
            final(self)@ == spec_push(old(self)@, value),
    {
        self.bus.write(0x100 + self.s as u16, value);
        self.s = self.s.wrapping_sub(1);
    }

    /// Stack pop, wrapping within the base page.
    fn pop(&mut self) -> (r: u8)
        requires
            cpu_inv(old(self)@),
        ensures
            cpu_inv(final(self)@),
            r == spec_pop_val(old(self)@),
            final(self)@ == spec_pop_after(old(self)@),
    {
        self.s = self.s.wrapping_add(1);
        self.read(0x100 + self.s as u16)
    }

    fn adc(&mut self, operand: Operand)
        requires
            cpu_inv(old(self)@),
        ensures
            cpu_inv(final(self)@),
            final(self)@ == spec_adc(old(self)@, operand),
    {
        let sum: u16 = self.a as u16 + operand.value as u16 + (self.p & 1) as u16;
        let result: u8 = (sum % 256) as u8;
        let carry: u8 = (sum / 256) as u8;
        self.p = (self.p & 0xbe) | carry;
        self.p = self.p | ((!(self.a ^ operand.value) & (self.a ^ result) & 0x80) >> 1);
        self.a = result;
        self.set_nz(result);
    }

    fn sbc(&mut self, operand: Operand)
        requires
            cpu_inv(old(self)@),
        ensures
            cpu_inv(final(self)@),
            final(self)@ == spec_sbc(old(self)@, operand),
    {
        self.adc(Operand { value: !operand.value, address: operand.address });
    }

    fn and(&mut self, operand: Operand)
        requires
            cpu_inv(old(self)@),
        ensures
            cpu_inv(final(self)@),
            final(self)@ == spec_and(old(self)@, operand),
    {
        self.a = self.a & operand.value;
        let a = self.a;
        self.set_nz(a);
    }

    fn ora(&mut self, operand: Operand)
        requires
            cpu_inv(old(self)@),
        ensures
            cpu_inv(final(self)@),
            final(self)@ == spec_ora(old(self)@, operand),
    {
        self.a = self.a | operand.value;
        let a = self.a;
        self.set_nz(a);
    }

    fn eor(&mut self, operand: Operand)
        requires
            cpu_inv(old(self)@),
        ensures
            cpu_inv(final(self)@),
            final(self)@ == spec_eor(old(self)@, operand),
    {
        self.a = self.a ^ operand.value;
        let a = self.a;
        self.set_nz(a);
    }

    fn asl(&mut self, operand: Operand)
        requires
            cpu_inv(old(self)@),
            small_cycles(old(self)@),
        ensures
            cpu_inv(final(self)@),
            final(self)@ == spec_asl(old(self)@, operand),
    {
        self.cycle_count = self.cycle_count + 2;
        self.p = (self.p & 0xfe) | (operand.value >> 7);
        let result = operand.value << 1;
        self.bus.write(operand.address, result);
        self.set_nz(result);
    }

    fn asl_a(&mut self, _operand: Operand)
        requires
            cpu_inv(old(self)@),
            small_cycles(old(self)@),
        ensures
            cpu_inv(final(self)@),
            final(self)@ == spec_asl_a(old(self)@),
    {
        self.cycle_count = self.cycle_count + 2;
        self.p = (self.p & 0xfe) | (self.a >> 7);
        self.a = self.a << 1;
        let a = self.a;
        self.set_nz(a);
    }

    fn lsr(&mut self, operand: Operand)
        requires
            cpu_inv(old(self)@),
            small_cycles(old(self)@),
        ensures
            cpu_inv(final(self)@),
            final(self)@ == spec_lsr(old(self)@, operand),
    {
        self.cycle_count = self.cycle_count + 2;
        self.p = (self.p & 0xfe) | (operand.value & 1);
        let result = operand.value >> 1;
        self.bus.write(operand.address, result);
        self.set_nz(result);
    }

    fn lsr_a(&mut self, _operand: Operand)
        requires
            cpu_inv(old(self)@),
            small_cycles(old(self)@),
        ensures
            cpu_inv(final(self)@),
            final(self)@ == spec_lsr_a(old(self)@),
    {
        self.cycle_count = self.cycle_count + 2;
        self.p = (self.p & 0xfe) | (self.a & 1);
        self.a = self.a >> 1;
        let a = self.a;
        self.set_nz(a);
    }

    fn rol(&mut self, operand: Operand)
        requires
            cpu_inv(old(self)@),
            small_cycles(old(self)@),
        ensures
            cpu_inv(final(self)@),
            final(self)@ == spec_rol(old(self)@, operand),
    {
        self.cycle_count = self.cycle_count + 2;
        let result = (operand.value << 1) | (self.p & 1);
        self.p = (self.p & 0xfe) | (operand.value >> 7);
        self.bus.write(operand.address, result);
        self.set_nz(result);
    }

    fn rol_a(&mut self, _operand: Operand)
        requires
            cpu_inv(old(self)@),
            small_cycles(old(self)@),
        ensures
            cpu_inv(final(self)@),
            final(self)@ == spec_rol_a(old(self)@),
    {
        self.cycle_count = self.cycle_count + 2;
        let result = (self.a << 1) | (self.p & 1);
        self.p = (self.p & 0xfe) | (self.a >> 7);
        self.a = result;
        self.set_nz(result);
    }

    fn ror(&mut self, operand: Operand)
        requires
            cpu_inv(old(self)@),
            small_cycles(old(self)@),
        ensures
            cpu_inv(final(self)@),
            final(self)@ == spec_ror(old(self)@, operand),
    {
        self.cycle_count = self.cycle_count + 2;
        let result = (operand.value >> 1) | ((self.p & 1) << 7);
        self.p = (self.p & 0xfe) | (operand.value & 1);
        self.bus.write(operand.address, result);
        self.set_nz(result);
    }

    fn ror_a(&mut self, _operand: Operand)
        requires
            cpu_inv(old(self)@),
            small_cycles(old(self)@),
        ensures
            cpu_inv(final(self)@),
            final(self)@ == spec_ror_a(old(self)@),
    {
        self.cycle_count = self.cycle_count + 2;
        let result = (self.a >> 1) | ((self.p & 1) << 7);
        self.p = (self.p & 0xfe) | (self.a & 1);
        self.a = result;
        self.set_nz(result);
    }

    fn bit(&mut self, operand: Operand)
        requires
            cpu_inv(old(self)@),
        ensures
            cpu_inv(final(self)@),
            final(self)@ == spec_bit(old(self)@, operand),
    {
        self.p = (self.p & 0xfd) | (if self.a & operand.value == 0 {
            2
        } else {
            0
        });
        self.p = (self.p & 0x3f) | (operand.value & 0xc0);
    }

    fn compare(&mut self, operand_left: u8, operand_right: u8)
        ensures
            final(self)@ == (CpuModel {
                p: spec_compare_p(old(self).p, operand_left, operand_right),
                ..old(self)@
            }),
    {
        let result = operand_left.wrapping_sub(operand_right);
        if operand_left == operand_right {
            self.p = (self.p & 0x7e) | 3;
        } else if operand_left >= operand_right {
            self.p = (self.p & 0x7d) | 1;
        } else {
            self.p = self.p & 0x7c;
        }
        self.p = self.p | (result & 0x80);
    }

    fn cmp(&mut self, operand: Operand)
        requires
            cpu_inv(old(self)@),
        ensures
            cpu_inv(final(self)@),
            final(self)@ == spec_cmp(old(self)@, operand),
    {
        let a = self.a;
        self.compare(a, operand.value);
    }

    fn cpx(&mut self, operand: Operand)
        requires
            cpu_inv(old(self)@),
        ensures
            cpu_inv(final(self)@),
            final(self)@ == spec_cpx(old(self)@, operand),
    {
        let x = self.x;
        self.compare(x, operand.value);
    }

    fn cpy(&mut self, operand: Operand)
        requires
            cpu_inv(old(self)@),
        ensures
            cpu_inv(final(self)@),
            final(self)@ == spec_cpy(old(self)@, operand),
    {
        let y = self.y;
        self.compare(y, operand.value);
    }

    fn branch(&mut self, value: u8)
        requires
            small_cycles(old(self)@),
        ensures
            final(self)@ == spec_branch(old(self)@, value),
    {
        let target = self.pc.wrapping_add(value as i8 as i16 as u16);
        if target / 256 == self.pc / 256 {
            self.cycle_count = self.cycle_count + 1;
        } else {
            self.cycle_count = self.cycle_count + 2;
        }
        self.pc = target;
    }

    fn bcc(&mut self, operand: Operand)
        requires
            cpu_inv(old(self)@),
            small_cycles(old(self)@),
        ensures
            cpu_inv(final(self)@),
            final(self)@ == spec_branch_if(old(self)@, operand, old(self).p & 1 == 0),
    {
        if (self.p & 1) == 0 {
            self.branch(operand.value);
        }
    }

    fn bcs(&mut self, operand: Operand)
        requires
            cpu_inv(old(self)@),
            small_cycles(old(self)@),
        ensures
            cpu_inv(final(self)@),
            final(self)@ == spec_branch_if(old(self)@, operand, old(self).p & 1 == 1),
    {
        if (self.p & 1) == 1 {
            self.branch(operand.value);
        }
    }

    fn beq(&mut self, operand: Operand)
        requires
            cpu_inv(old(self)@),
            small_cycles(old(self)@),
        ensures
            cpu_inv(final(self)@),
            final(self)@ == spec_branch_if(old(self)@, operand, (old(self).p >> 1) & 1 == 1),
    {
        if ((self.p >> 1) & 1) == 1 {
            self.branch(operand.value);
        }
    }

    fn bne(&mut self, operand: Operand)
        requires
            cpu_inv(old(self)@),
            small_cycles(old(self)@),
        ensures
            cpu_inv(final(self)@),
            final(self)@ == spec_branch_if(old(self)@, operand, (old(self).p >> 1) & 1 == 0),
    {
        if ((self.p >> 1) & 1) == 0 {
            self.branch(operand.value);
        }
    }

    fn bmi(&mut self, operand: Operand)
        requires
            cpu_inv(old(self)@),
            small_cycles(old(self)@),
        ensures
            cpu_inv(final(self)@),
            final(self)@ == spec_branch_if(old(self)@, operand, (old(self).p >> 7) & 1 == 1),
    {
        if ((self.p >> 7) & 1) == 1 {
            self.branch(operand.value);
        }
    }

    fn bpl(&mut self, operand: Operand)
        requires
            cpu_inv(old(self)@),
            small_cycles(old(self)@),
        ensures
            cpu_inv(final(self)@),
            final(self)@ == spec_branch_if(old(self)@, operand, (old(self).p >> 7) & 1 == 0),
    {
        if ((self.p >> 7) & 1) == 0 {
            self.branch(operand.value);
        }
    }

    fn bvc(&mut self, operand: Operand)
        requires
            cpu_inv(old(self)@),
            small_cycles(old(self)@),
        ensures
            cpu_inv(final(self)@),
            final(self)@ == spec_branch_if(old(self)@, operand, (old(self).p >> 6) & 1 == 0),
    {
        if ((self.p >> 6) & 1) == 0 {
            self.branch(operand.value);
        }
    }

    fn bvs(&mut self, operand: Operand)
        requires
            cpu_inv(old(self)@),
            small_cycles(old(self)@),
        ensures
            cpu_inv(final(self)@),
            final(self)@ == spec_branch_if(old(self)@, operand, (old(self).p >> 6) & 1 == 1),
    {
        if ((self.p >> 6) & 1) == 1 {
            self.branch(operand.value);
        }
    }

    fn brk(&mut self, _operand: Operand)
        requires
            cpu_inv(old(self)@),
            small_cycles(old(self)@),
        ensures
            cpu_inv(final(self)@),
            final(self)@ == spec_brk(old(self)@),
    {
        let p_at_entry = self.p;
        self.cycle_count = self.cycle_count + 7;
        self.pc = self.pc.wrapping_add(1);
        self.push((self.pc >> 8) as u8);
        self.push((self.pc & 0xff) as u8);
        self.push(p_at_entry | 0x30);
        self.pc = self.read16(0xfffe);
        self.p = p_at_entry | 0x04;
    }

    fn jmp(&mut self, operand: Operand)
        requires
            old(self).cycle_count >= 1,
        ensures
            final(self)@ == spec_jmp(old(self)@, operand),
    {
        self.cycle_count = self.cycle_count - 1;
        self.pc = operand.address;
    }

    fn jsr(&mut self, operand: Operand)
        requires
            cpu_inv(old(self)@),
            small_cycles(old(self)@),
        ensures
            cpu_inv(final(self)@),
            final(self)@ == spec_jsr(old(self)@, operand),
    {
        self.cycle_count = self.cycle_count + 2;
        self.pc = self.pc.wrapping_sub(1);
        self.push((self.pc >> 8) as u8);
        self.push((self.pc & 0xff) as u8);
        self.pc = operand.address;
    }

    fn rts(&mut self, _operand: Operand)
        requires
            cpu_inv(old(self)@),
            small_cycles(old(self)@),
        ensures
            cpu_inv(final(self)@),
            final(self)@ == spec_rts(old(self)@),
    {
        self.cycle_count = self.cycle_count + 6;
        let pcl = self.pop();
        let pch = self.pop();
        self.pc = self.to_u16(pcl, pch).wrapping_add(1);
    }

    fn rti(&mut self, _operand: Operand)
        requires
            cpu_inv(old(self)@),
            small_cycles(old(self)@),
        ensures
            cpu_inv(final(self)@),
            final(self)@ == spec_rti(old(self)@),
    {
        self.cycle_count = self.cycle_count + 6;
        self.p = (self.pop() | 0x20) & 0xef;
        let pcl = self.pop();
        let pch = self.pop();
        self.pc = self.to_u16(pcl, pch);
    }

    fn pha(&mut self, _operand: Operand)
        requires
            cpu_inv(old(self)@),
            small_cycles(old(self)@),
        ensures
            cpu_inv(final(self)@),
            final(self)@ == spec_pha(old(self)@),
    {
        self.cycle_count = self.cycle_count + 3;
        let a = self.a;
        self.push(a);
    }

    fn php(&mut self, _operand: Operand)
        requires
            cpu_inv(old(self)@),
            small_cycles(old(self)@),
        ensures
            cpu_inv(final(self)@),
            final(self)@ == spec_php(old(self)@),
    {
        self.cycle_count = self.cycle_count + 3;
        let v = self.p | 0x30;
        self.push(v);
    }

    fn pla(&mut self, _operand: Operand)
        requires
            cpu_inv(old(self)@),
            small_cycles(old(self)@),
        ensures
            cpu_inv(final(self)@),
            final(self)@ == spec_pla(old(self)@),
    {
        self.cycle_count = self.cycle_count + 4;
        self.a = self.pop();
        let a = self.a;
        self.set_nz(a);
    }

    fn plp(&mut self, _operand: Operand)
        requires
            cpu_inv(old(self)@),
            small_cycles(old(self)@),
        ensures
            cpu_inv(final(self)@),
            final(self)@ == spec_plp(old(self)@),
    {
        self.cycle_count = self.cycle_count + 4;
        self.p = (self.pop() | 0x20) & 0xef;
    }

    fn lda(&mut self, operand: Operand)
        requires
            cpu_inv(old(self)@),
        ensures
            cpu_inv(final(self)@),
            final(self)@ == spec_lda(old(self)@, operand),
    {
        self.a = operand.value;
        self.set_nz(operand.value);
    }

    fn ldx(&mut self, operand: Operand)
        requires
            cpu_inv(old(self)@),
        ensures
            cpu_inv(final(self)@),
            final(self)@ == spec_ldx(old(self)@, operand),
    {
        self.x = operand.value;
        self.set_nz(operand.value);
    }

    fn ldy(&mut self, operand: Operand)
        requires
            cpu_inv(old(self)@),
        ensures
            cpu_inv(final(self)@),
            final(self)@ == spec_ldy(old(self)@, operand),
    {
        self.y = operand.value;
        self.set_nz(operand.value);
    }

    fn sta(&mut self, operand: Operand)
        requires
            cpu_inv(old(self)@),
        ensures
            cpu_inv(final(self)@),
            final(self)@ == spec_sta(old(self)@, operand),
    {
        let a = self.a;
        self.bus.write(operand.address, a);
    }

    fn stx(&mut self, operand: Operand)
        requires
            cpu_inv(old(self)@),
        ensures
            cpu_inv(final(self)@),
            final(self)@ == spec_stx(old(self)@, operand),
    {
        let x = self.x;
        self.bus.write(operand.address, x);
    }

    fn sty(&mut self, operand: Operand)
        requires
            cpu_inv(old(self)@),
        ensures
            cpu_inv(final(self)@),
            final(self)@ == spec_sty(old(self)@, operand),
    {
        let y = self.y;
        self.bus.write(operand.address, y);
    }

    fn inc(&mut self, operand: Operand)
        requires
            cpu_inv(old(self)@),
            small_cycles(old(self)@),
        ensures
            cpu_inv(final(self)@),
            final(self)@ == spec_inc(old(self)@, operand),
    {
        self.cycle_count = self.cycle_count + 2;
        let result = operand.value.wrapping_add(1);
        self.bus.write(operand.address, result);
        self.set_nz(result);
    }

    fn dec(&mut self, operand: Operand)
        requires
            cpu_inv(old(self)@),
            small_cycles(old(self)@),
        ensures
            cpu_inv(final(self)@),
            final(self)@ == spec_dec(old(self)@, operand),
    {
        self.cycle_count = self.cycle_count + 2;
        let result = operand.value.wrapping_sub(1);
        self.bus.write(operand.address, result);
        self.set_nz(result);
    }

    fn inx(&mut self, _operand: Operand)
        requires
            cpu_inv(old(self)@),
            small_cycles(old(self)@),
        ensures
            cpu_inv(final(self)@),
            final(self)@ == spec_inx(old(self)@),
    {
        self.cycle_count = self.cycle_count + 2;
        self.x = self.x.wrapping_add(1);
        let x = self.x;
        self.set_nz(x);
    }

    fn iny(&mut self, _operand: Operand)
        requires
            cpu_inv(old(self)@),
            small_cycles(old(self)@),
        ensures
            cpu_inv(final(self)@),
            final(self)@ == spec_iny(old(self)@),
    {
        self.cycle_count = self.cycle_count + 2;
        self.y = self.y.wrapping_add(1);
        let y = self.y;
        self.set_nz(y);
    }

    fn dex(&mut self, _operand: Operand)
        requires
            cpu_inv(old(self)@),
            small_cycles(old(self)@),
        ensures
            cpu_inv(final(self)@),
            final(self)@ == spec_dex(old(self)@),
    {
        self.cycle_count = self.cycle_count + 2;
        self.x = self.x.wrapping_sub(1);
        let x = self.x;
        self.set_nz(x);
    }

    fn dey(&mut self, _operand: Operand)
        requires
            cpu_inv(old(self)@),
            small_cycles(old(self)@),
        ensures
            cpu_inv(final(self)@),
            final(self)@ == spec_dey(old(self)@),
    {
        self.cycle_count = self.cycle_count + 2;
        self.y = self.y.wrapping_sub(1);
        let y = self.y;
        self.set_nz(y);
    }

    fn clc(&mut self, _operand: Operand)
        requires
            cpu_inv(old(self)@),
            small_cycles(old(self)@),
        ensures
            cpu_inv(final(self)@),
            final(self)@ == spec_clc(old(self)@),
    {
        self.cycle_count = self.cycle_count + 2;
        self.p = self.p & 0xfe;
    }

    fn cld(&mut self, _operand: Operand)
        requires
            cpu_inv(old(self)@),
            small_cycles(old(self)@),
        ensures
            cpu_inv(final(self)@),
            final(self)@ == spec_cld(old(self)@),
    {
        self.cycle_count = self.cycle_count + 2;
        self.p = self.p & 0xf7;
    }

    fn cli(&mut self, _operand: Operand)
        requires
            cpu_inv(old(self)@),
            small_cycles(old(self)@),
        ensures
            cpu_inv(final(self)@),
            final(self)@ == spec_cli(old(self)@),
    {
        self.cycle_count = self.cycle_count + 2;
        self.p = self.p & 0xfb;
    }

    fn clv(&mut self, _operand: Operand)
        requires
            cpu_inv(old(self)@),
            small_cycles(old(self)@),
        ensures
            cpu_inv(final(self)@),
            final(self)@ == spec_clv(old(self)@),
    {
        self.cycle_count = self.cycle_count + 2;
        self.p = self.p & 0xbf;
    }

    fn sec(&mut self, _operand: Operand)
        requires
            cpu_inv(old(self)@),
            small_cycles(old(self)@),
        ensures
            cpu_inv(final(self)@),
            final(self)@ == spec_sec(old(self)@),
    {
        self.cycle_count = self.cycle_count + 2;
        self.p = self.p | 0x01;
    }

    fn sed(&mut self, _operand: Operand)
        requires
            cpu_inv(old(self)@),
            small_cycles(old(self)@),
        ensures
            cpu_inv(final(self)@),
            final(self)@ == spec_sed(old(self)@),
    {
        self.cycle_count = self.cycle_count + 2;
        self.p = self.p | 0x08;
    }

    fn sei(&mut self, _operand: Operand)
        requires
            cpu_inv(old(self)@),
            small_cycles(old(self)@),
        ensures
            cpu_inv(final(self)@),
            final(self)@ == spec_sei(old(self)@),
    {
        self.cycle_count = self.cycle_count + 2;
        self.p = self.p | 0x04;
    }

    fn tax(&mut self, _operand: Operand)
        requires
            cpu_inv(old(self)@),
            small_cycles(old(self)@),
        ensures
            cpu_inv(final(self)@),
            final(self)@ == spec_tax(old(self)@),
    {
        self.cycle_count = self.cycle_count + 2;
        self.x = self.a;
        let x = self.x;
        self.set_nz(x);
    }

    fn tay(&mut self, _operand: Operand)
        requires
            cpu_inv(old(self)@),
            small_cycles(old(self)@),
        ensures
            cpu_inv(final(self)@),
            final(self)@ == spec_tay(old(self)@),
    {
        self.cycle_count = self.cycle_count + 2;
        self.y = self.a;
        let y = self.y;
        self.set_nz(y);
    }

    fn tsx(&mut self, _operand: Operand)
        requires
            cpu_inv(old(self)@),
            small_cycles(old(self)@),
        ensures
            cpu_inv(final(self)@),
            final(self)@ == spec_tsx(old(self)@),
    {
        self.cycle_count = self.cycle_count + 2;
        self.x = self.s;
        let x = self.x;
        self.set_nz(x);
    }

    fn txa(&mut self, _operand: Operand)
        requires
            cpu_inv(old(self)@),
            small_cycles(old(self)@),
        ensures
            cpu_inv(final(self)@),
            final(self)@ == spec_txa(old(self)@),
    {
        self.cycle_count = self.cycle_count + 2;
        self.a = self.x;
        let a = self.a;
        self.set_nz(a);
    }

    fn txs(&mut self, _operand: Operand)
        requires
            cpu_inv(old(self)@),
            small_cycles(old(self)@),
        ensures
            cpu_inv(final(self)@),
            final(self)@ == spec_txs(old(self)@),
    {
        self.cycle_count = self.cycle_count + 2;
        self.s = self.x;
    }

    fn tya(&mut self, _operand: Operand)
        requires
            cpu_inv(old(self)@),
            small_cycles(old(self)@),
        ensures
            cpu_inv(final(self)@),
            final(self)@ == spec_tya(old(self)@),
    {
        self.cycle_count = self.cycle_count + 2;
        self.a = self.y;
        let a = self.a;
        self.set_nz(a);
    }

    fn nop(&mut self, _operand: Operand)
        requires
            cpu_inv(old(self)@),
            small_cycles(old(self)@),
        ensures
            cpu_inv(final(self)@),
            final(self)@ == spec_nop(old(self)@),
    {
        self.cycle_count = self.cycle_count + 2;
    }

    // Addressing modes.

    fn imm(&mut self) -> (o: Operand)
        requires
            cpu_inv(old(self)@),
            small_cycles(old(self)@),
        ensures
            cpu_inv(final(self)@),
            (final(self)@, o) == spec_imm(old(self)@),
    {
        self.cycle_count = self.cycle_count + 2;
        let address = self.pc;
        self.pc = self.pc.wrapping_add(1);
        let value = self.read(address);
        Operand { value, address }
    }

    fn zpa(&mut self) -> (o: Operand)
        requires
            cpu_inv(old(self)@),
            small_cycles(old(self)@),
        ensures
            cpu_inv(final(self)@),
            (final(self)@, o) == spec_zpa(old(self)@),
    {
        self.cycle_count = self.cycle_count + 3;
        let pc = self.pc;
        let ea = self.read(pc) as u16;
        self.pc = self.pc.wrapping_add(1);
        let value = self.read(ea);
        Operand { value, address: ea }
    }

    fn zero_page_indexed(&mut self, index: u8) -> (o: Operand)
        requires
            cpu_inv(old(self)@),
            small_cycles(old(self)@),
        ensures
            cpu_inv(final(self)@),
            (final(self)@, o) == spec_zpi(old(self)@, index),
    {
        self.cycle_count = self.cycle_count + 4;
        let pc = self.pc;
        let ea = self.read(pc).wrapping_add(index) as u16;
        self.pc = self.pc.wrapping_add(1);
        let value = self.read(ea);
        Operand { value, address: ea }
    }

    fn zpx(&mut self) -> (o: Operand)
        requires
            cpu_inv(old(self)@),
            small_cycles(old(self)@),
        ensures
            cpu_inv(final(self)@),
            (final(self)@, o) == spec_zpi(old(self)@, old(self).x),
    {
        let x = self.x;
        self.zero_page_indexed(x)
    }

    fn zpy(&mut self) -> (o: Operand)
        requires
            cpu_inv(old(self)@),
            small_cycles(old(self)@),
        ensures
            cpu_inv(final(self)@),
            (final(self)@, o) == spec_zpi(old(self)@, old(self).y),
    {
        let y = self.y;
        self.zero_page_indexed(y)
    }

    fn abs(&mut self) -> (o: Operand)
        requires
            cpu_inv(old(self)@),
            small_cycles(old(self)@),
        ensures
            cpu_inv(final(self)@),
            (final(self)@, o) == spec_abs(old(self)@),
    {
        self.cycle_count = self.cycle_count + 4;
        let pc = self.pc;
        let ea = self.read16(pc);
        self.pc = self.pc.wrapping_add(2);
        let value = self.read(ea);
        Operand { value, address: ea }
    }

    fn absolute_indexed(&mut self, index: u8) -> (r: (Operand, bool))
        requires
            cpu_inv(old(self)@),
            small_cycles(old(self)@),
        ensures
            cpu_inv(final(self)@),
            (final(self)@, r.0, r.1) == spec_absolute_indexed(old(self)@, index),
    {
        let pc = self.pc;
        let lo = self.read(pc);
        let crossed = (lo as u16) + (index as u16) > 0xff;
        let low_byte = lo.wrapping_add(index);
        let hi = self.read(pc.wrapping_add(1));
        let ea0 = self.to_u16(low_byte, hi);
        let ea = if crossed {
            self.cycle_count = self.cycle_count + 5;
            ea0.wrapping_add(0x100)
        } else {
            self.cycle_count = self.cycle_count + 4;
            ea0
        };
        self.pc = self.pc.wrapping_add(2);
        let value = self.read(ea);
        (Operand { value, address: ea }, crossed)
    }

    fn abx(&mut self) -> (o: Operand)
        requires
            cpu_inv(old(self)@),
            small_cycles(old(self)@),
        ensures
            cpu_inv(final(self)@),
            (final(self)@, o) == (
                spec_absolute_indexed(old(self)@, old(self).x).0,
                spec_absolute_indexed(old(self)@, old(self).x).1,
            ),
    {
        let x = self.x;
        let (operand, _) = self.absolute_indexed(x);
        operand
    }

    fn aby(&mut self) -> (o: Operand)
        requires
            cpu_inv(old(self)@),
            small_cycles(old(self)@),
        ensures
            cpu_inv(final(self)@),
            (final(self)@, o) == (
                spec_absolute_indexed(old(self)@, old(self).y).0,
                spec_absolute_indexed(old(self)@, old(self).y).1,
            ),
    {
        let y = self.y;
        let (operand, _) = self.absolute_indexed(y);
        operand
    }

    fn absolute_indexed_w(&mut self, index: u8) -> (o: Operand)
        requires
            cpu_inv(old(self)@),
            small_cycles(old(self)@),
        ensures
            cpu_inv(final(self)@),
            (final(self)@, o) == spec_absolute_indexed_w(old(self)@, index),
    {
        let (operand, crossed) = self.absolute_indexed(index);
        if !crossed {
            self.cycle_count = self.cycle_count + 1;
        }
        operand
    }

    fn abx_w(&mut self) -> (o: Operand)
        requires
            cpu_inv(old(self)@),
            small_cycles(old(self)@),
        ensures
            cpu_inv(final(self)@),
            (final(self)@, o) == spec_absolute_indexed_w(old(self)@, old(self).x),
    {
        let x = self.x;
        self.absolute_indexed_w(x)
    }

    fn aby_w(&mut self) -> (o: Operand)
        requires
            cpu_inv(old(self)@),
            small_cycles(old(self)@),
        ensures
            cpu_inv(final(self)@),
            (final(self)@, o) == spec_absolute_indexed_w(old(self)@, old(self).y),
    {
        let y = self.y;
        self.absolute_indexed_w(y)
    }

    fn ind(&mut self) -> (o: Operand)
        requires
            cpu_inv(old(self)@),
            small_cycles(old(self)@),
        ensures
            cpu_inv(final(self)@),
            (final(self)@, o) == spec_ind(old(self)@),
    {
        self.cycle_count = self.cycle_count + 6;
        let pc = self.pc;
        let ptr = self.read16(pc);
        let lo = self.read(ptr);
        let hi_addr = (ptr & 0xff00) | (((ptr & 0xff) as u8).wrapping_add(1) as u16);
        let hi = self.read(hi_addr);
        self.pc = self.pc.wrapping_add(2);
        let address = self.to_u16(lo, hi);
        Operand { value: 0, address }
    }

    fn idx(&mut self) -> (o: Operand)
        requires
            cpu_inv(old(self)@),
            small_cycles(old(self)@),
        ensures
            cpu_inv(final(self)@),
            (final(self)@, o) == spec_idx(old(self)@),
    {
        self.cycle_count = self.cycle_count + 6;
        let pc = self.pc;
        let ptr = self.read(pc);
        self.pc = self.pc.wrapping_add(1);
        let indexed = ptr.wrapping_add(self.x);
        let lo = self.read(indexed as u16);
        let hi = self.read(indexed.wrapping_add(1) as u16);
        let ea = self.to_u16(lo, hi);
        let value = self.read(ea);
        Operand { value, address: ea }
    }

    fn indirected_indexed(&mut self) -> (r: (Operand, bool))
        requires
            cpu_inv(old(self)@),
            small_cycles(old(self)@),
        ensures
            cpu_inv(final(self)@),
            (final(self)@, r.0, r.1) == spec_indirected_indexed(old(self)@),
    {
        let pc = self.pc;
        let ptr = self.read(pc);
        self.pc = self.pc.wrapping_add(1);
        let lo_base = self.read(ptr as u16);
        let crossed = (lo_base as u16) + (self.y as u16) > 0xff;
        let low = lo_base.wrapping_add(self.y);
        let hi = self.read(ptr.wrapping_add(1) as u16);
        let ea0 = self.to_u16(low, hi);
        let ea = if crossed {
            self.cycle_count = self.cycle_count + 6;
            ea0.wrapping_add(0x100)
        } else {
            self.cycle_count = self.cycle_count + 5;
            ea0
        };
        let value = self.read(ea);
        (Operand { value, address: ea }, crossed)
    }

    fn idy(&mut self) -> (o: Operand)
        requires
            cpu_inv(old(self)@),
            small_cycles(old(self)@),
        ensures
            cpu_inv(final(self)@),
            (final(self)@, o) == (
                spec_indirected_indexed(old(self)@).0,
                spec_indirected_indexed(old(self)@).1,
            ),
    {
        let (operand, _) = self.indirected_indexed();
        operand
    }

    fn idy_w(&mut self) -> (o: Operand)
        requires
            cpu_inv(old(self)@),
            small_cycles(old(self)@),
        ensures
            cpu_inv(final(self)@),
            (final(self)@, o) == spec_idy_w(old(self)@),
    {
        let (operand, crossed) = self.indirected_indexed();
        if !crossed {
            self.cycle_count = self.cycle_count + 1;
        }
        operand
    }

    fn rel(&mut self) -> (o: Operand)
        requires
            cpu_inv(old(self)@),
            small_cycles(old(self)@),
        ensures
            cpu_inv(final(self)@),
            (final(self)@, o) == spec_rel(old(self)@),
    {
        self.cycle_count = self.cycle_count + 2;
        let address = self.pc;
        self.pc = self.pc.wrapping_add(1);
        let value = self.read(address);
        Operand { value, address }
    }

    fn imp(&mut self) -> (o: Operand)
        ensures
            final(self)@ == old(self)@,
            o == (Operand { value: 0, address: 0 }),
    {
        Operand { value: 0, address: 0 }
    }
}

/// The machine after the instruction whose opcode is `op`, the
/// opcode byte already consumed. A byte outside the official set
/// behaves as a two-cycle NOP.
pub open spec fn spec_exec_opcode(c0: CpuModel, op: u8) -> CpuModel {
    if op == 0x69 {
        { let (cm, o) = spec_imm(c0); spec_adc(cm, o) }
    } else if op == 0x65 {
        { let (cm, o) = spec_zpa(c0); spec_adc(cm, o) }
    } else if op == 0x75 {
        { let (cm, o) = spec_zpi(c0, c0.x); spec_adc(cm, o) }
    } else if op == 0x6d {
        { let (cm, o) = spec_abs(c0); spec_adc(cm, o) }
    } else if op == 0x7d {
        { let t = spec_absolute_indexed(c0, c0.x); spec_adc(t.0, t.1) }
    } else if op == 0x79 {
        { let t = spec_absolute_indexed(c0, c0.y); spec_adc(t.0, t.1) }
    } else if op == 0x61 {
        { let (cm, o) = spec_idx(c0); spec_adc(cm, o) }
    } else if op == 0x71 {
        { let t = spec_indirected_indexed(c0); spec_adc(t.0, t.1) }
    } else if op == 0x29 {
        { let (cm, o) = spec_imm(c0); spec_and(cm, o) }
    } else if op == 0x25 {
        { let (cm, o) = spec_zpa(c0); spec_and(cm, o) }
    } else if op == 0x35 {
        { let (cm, o) = spec_zpi(c0, c0.x); spec_and(cm, o) }
    } else if op == 0x2d {
        { let (cm, o) = spec_abs(c0); spec_and(cm, o) }
    } else if op == 0x3d {
        { let t = spec_absolute_indexed(c0, c0.x); spec_and(t.0, t.1) }
    } else if op == 0x39 {
        { let t = spec_absolute_indexed(c0, c0.y); spec_and(t.0, t.1) }
    } else if op == 0x21 {
        { let (cm, o) = spec_idx(c0); spec_and(cm, o) }
    } else if op == 0x31 {
        { let t = spec_indirected_indexed(c0); spec_and(t.0, t.1) }
    } else if op == 0x0a {
        spec_asl_a(c0)
    } else if op == 0x06 {
        { let (cm, o) = spec_zpa(c0); spec_asl(cm, o) }
    } else if op == 0x16 {
        { let (cm, o) = spec_zpi(c0, c0.x); spec_asl(cm, o) }
    } else if op == 0x0e {
        { let (cm, o) = spec_abs(c0); spec_asl(cm, o) }
    } else if op == 0x1e {
        { let (cm, o) = spec_absolute_indexed_w(c0, c0.x); spec_asl(cm, o) }
    } else if op == 0x90 {
        { let (cm, o) = spec_rel(c0); spec_branch_if(cm, o, cm.p & 1 == 0) }
    } else if op == 0xb0 {
        { let (cm, o) = spec_rel(c0); spec_branch_if(cm, o, cm.p & 1 == 1) }
    } else if op == 0xf0 {
        { let (cm, o) = spec_rel(c0); spec_branch_if(cm, o, (cm.p >> 1) & 1 == 1) }
    } else if op == 0x24 {
        { let (cm, o) = spec_zpa(c0); spec_bit(cm, o) }
    } else if op == 0x2c {
        { let (cm, o) = spec_abs(c0); spec_bit(cm, o) }
    } else if op == 0x30 {
        { let (cm, o) = spec_rel(c0); spec_branch_if(cm, o, (cm.p >> 7) & 1 == 1) }
    } else if op == 0xd0 {
        { let (cm, o) = spec_rel(c0); spec_branch_if(cm, o, (cm.p >> 1) & 1 == 0) }
    } else if op == 0x10 {
        { let (cm, o) = spec_rel(c0); spec_branch_if(cm, o, (cm.p >> 7) & 1 == 0) }
    } else if op == 0x00 {
        spec_brk(c0)
    } else if op == 0x50 {
        { let (cm, o) = spec_rel(c0); spec_branch_if(cm, o, (cm.p >> 6) & 1 == 0) }
    } else if op == 0x70 {
        { let (cm, o) = spec_rel(c0); spec_branch_if(cm, o, (cm.p >> 6) & 1 == 1) }
    } else if op == 0x18 {
        spec_clc(c0)
    } else if op == 0xd8 {
        spec_cld(c0)
    } else if op == 0x58 {
        spec_cli(c0)
    } else if op == 0xb8 {
        spec_clv(c0)
    } else if op == 0xc9 {
        { let (cm, o) = spec_imm(c0); spec_cmp(cm, o) }
    } else if op == 0xc5 {
        { let (cm, o) = spec_zpa(c0); spec_cmp(cm, o) }
    } else if op == 0xd5 {
        { let (cm, o) = spec_zpi(c0, c0.x); spec_cmp(cm, o) }
    } else if op == 0xcd {
        { let (cm, o) = spec_abs(c0); spec_cmp(cm, o) }
    } else if op == 0xdd {
        { let t = spec_absolute_indexed(c0, c0.x); spec_cmp(t.0, t.1) }
    } else if op == 0xd9 {
        { let t = spec_absolute_indexed(c0, c0.y); spec_cmp(t.0, t.1) }
    } else if op == 0xc1 {
        { let (cm, o) = spec_idx(c0); spec_cmp(cm, o) }
    } else if op == 0xd1 {
        { let t = spec_indirected_indexed(c0); spec_cmp(t.0, t.1) }
    } else if op == 0xe0 {
        { let (cm, o) = spec_imm(c0); spec_cpx(cm, o) }
    } else if op == 0xe4 {
        { let (cm, o) = spec_zpa(c0); spec_cpx(cm, o) }
    } else if op == 0xec {
        { let (cm, o) = spec_abs(c0); spec_cpx(cm, o) }
    } else if op == 0xc0 {
        { let (cm, o) = spec_imm(c0); spec_cpy(cm, o) }
    } else if op == 0xc4 {
        { let (cm, o) = spec_zpa(c0); spec_cpy(cm, o) }
    } else if op == 0xcc {
        { let (cm, o) = spec_abs(c0); spec_cpy(cm, o) }
    } else if op == 0xc6 {
        { let (cm, o) = spec_zpa(c0); spec_dec(cm, o) }
    } else if op == 0xd6 {
        { let (cm, o) = spec_zpi(c0, c0.x); spec_dec(cm, o) }
    } else if op == 0xce {
        { let (cm, o) = spec_abs(c0); spec_dec(cm, o) }
    } else if op == 0xde {
        { let (cm, o) = spec_absolute_indexed_w(c0, c0.x); spec_dec(cm, o) }
    } else if op == 0xca {
        spec_dex(c0)
    } else if op == 0x88 {
        spec_dey(c0)
    } else if op == 0x49 {
        { let (cm, o) = spec_imm(c0); spec_eor(cm, o) }
    } else if op == 0x45 {
        { let (cm, o) = spec_zpa(c0); spec_eor(cm, o) }
    } else if op == 0x55 {
        { let (cm, o) = spec_zpi(c0, c0.x); spec_eor(cm, o) }
    } else if op == 0x4d {
        { let (cm, o) = spec_abs(c0); spec_eor(cm, o) }
    } else if op == 0x5d {
        { let t = spec_absolute_indexed(c0, c0.x); spec_eor(t.0, t.1) }
    } else if op == 0x59 {
        { let t = spec_absolute_indexed(c0, c0.y); spec_eor(t.0, t.1) }
    } else if op == 0x41 {
        { let (cm, o) = spec_idx(c0); spec_eor(cm, o) }
    } else if op == 0x51 {
        { let t = spec_indirected_indexed(c0); spec_eor(t.0, t.1) }
    } else if op == 0xe6 {
        { let (cm, o) = spec_zpa(c0); spec_inc(cm, o) }
    } else if op == 0xf6 {
        { let (cm, o) = spec_zpi(c0, c0.x); spec_inc(cm, o) }
    } else if op == 0xee {
        { let (cm, o) = spec_abs(c0); spec_inc(cm, o) }
    } else if op == 0xfe {
        { let (cm, o) = spec_absolute_indexed_w(c0, c0.x); spec_inc(cm, o) }
    } else if op == 0xe8 {
        spec_inx(c0)
    } else if op == 0xc8 {
        spec_iny(c0)
    } else if op == 0x4c {
        { let (cm, o) = spec_abs(c0); spec_jmp(cm, o) }
    } else if op == 0x6c {
        { let (cm, o) = spec_ind(c0); spec_jmp(cm, o) }
    } else if op == 0x20 {
        { let (cm, o) = spec_abs(c0); spec_jsr(cm, o) }
    } else if op == 0xa9 {
        { let (cm, o) = spec_imm(c0); spec_lda(cm, o) }
    } else if op == 0xa5 {
        { let (cm, o) = spec_zpa(c0); spec_lda(cm, o) }
    } else if op == 0xb5 {
        { let (cm, o) = spec_zpi(c0, c0.x); spec_lda(cm, o) }
    } else if op == 0xad {
        { let (cm, o) = spec_abs(c0); spec_lda(cm, o) }
    } else if op == 0xbd {
        { let t = spec_absolute_indexed(c0, c0.x); spec_lda(t.0, t.1) }
    } else if op == 0xb9 {
        { let t = spec_absolute_indexed(c0, c0.y); spec_lda(t.0, t.1) }
    } else if op == 0xa1 {
        { let (cm, o) = spec_idx(c0); spec_lda(cm, o) }
    } else if op == 0xb1 {
        { let t = spec_indirected_indexed(c0); spec_lda(t.0, t.1) }
    } else if op == 0xa2 {
        { let (cm, o) = spec_imm(c0); spec_ldx(cm, o) }
    } else if op == 0xa6 {
        { let (cm, o) = spec_zpa(c0); spec_ldx(cm, o) }
    } else if op == 0xb6 {
        { let (cm, o) = spec_zpi(c0, c0.y); spec_ldx(cm, o) }
    } else if op == 0xae {
        { let (cm, o) = spec_abs(c0); spec_ldx(cm, o) }
    } else if op == 0xbe {
        { let t = spec_absolute_indexed(c0, c0.y); spec_ldx(t.0, t.1) }
    } else if op == 0xa0 {
        { let (cm, o) = spec_imm(c0); spec_ldy(cm, o) }
    } else if op == 0xa4 {
        { let (cm, o) = spec_zpa(c0); spec_ldy(cm, o) }
    } else if op == 0xb4 {
        { let (cm, o) = spec_zpi(c0, c0.x); spec_ldy(cm, o) }
    } else if op == 0xac {
        { let (cm, o) = spec_abs(c0); spec_ldy(cm, o) }
    } else if op == 0xbc {
        { let t = spec_absolute_indexed(c0, c0.x); spec_ldy(t.0, t.1) }
    } else if op == 0x4a {
        spec_lsr_a(c0)
    } else if op == 0x46 {
        { let (cm, o) = spec_zpa(c0); spec_lsr(cm, o) }
    } else if op == 0x56 {
        { let (cm, o) = spec_zpi(c0, c0.x); spec_lsr(cm, o) }
    } else if op == 0x4e {
        { let (cm, o) = spec_abs(c0); spec_lsr(cm, o) }
    } else if op == 0x5e {
        { let (cm, o) = spec_absolute_indexed_w(c0, c0.x); spec_lsr(cm, o) }
    } else if op == 0xea {
        spec_nop(c0)
    } else if op == 0x09 {
        { let (cm, o) = spec_imm(c0); spec_ora(cm, o) }
    } else if op == 0x05 {
        { let (cm, o) = spec_zpa(c0); spec_ora(cm, o) }
    } else if op == 0x15 {
        { let (cm, o) = spec_zpi(c0, c0.x); spec_ora(cm, o) }
    } else if op == 0x0d {
        { let (cm, o) = spec_abs(c0); spec_ora(cm, o) }
    } else if op == 0x1d {
        { let t = spec_absolute_indexed(c0, c0.x); spec_ora(t.0, t.1) }
    } else if op == 0x19 {
        { let t = spec_absolute_indexed(c0, c0.y); spec_ora(t.0, t.1) }
    } else if op == 0x01 {
        { let (cm, o) = spec_idx(c0); spec_ora(cm, o) }
    } else if op == 0x11 {
        { let t = spec_indirected_indexed(c0); spec_ora(t.0, t.1) }
    } else if op == 0x48 {
        spec_pha(c0)
    } else if op == 0x08 {
        spec_php(c0)
    } else if op == 0x68 {
        spec_pla(c0)
    } else if op == 0x28 {
        spec_plp(c0)
    } else if op == 0x2a {
        spec_rol_a(c0)
    } else if op == 0x26 {
        { let (cm, o) = spec_zpa(c0); spec_rol(cm, o) }
    } else if op == 0x36 {
        { let (cm, o) = spec_zpi(c0, c0.x); spec_rol(cm, o) }
    } else if op == 0x2e {
        { let (cm, o) = spec_abs(c0); spec_rol(cm, o) }
    } else if op == 0x3e {
        { let (cm, o) = spec_absolute_indexed_w(c0, c0.x); spec_rol(cm, o) }
    } else if op == 0x6a {
        spec_ror_a(c0)
    } else if op == 0x66 {
        { let (cm, o) = spec_zpa(c0); spec_ror(cm, o) }
    } else if op == 0x76 {
        { let (cm, o) = spec_zpi(c0, c0.x); spec_ror(cm, o) }
    } else if op == 0x6e {
        { let (cm, o) = spec_abs(c0); spec_ror(cm, o) }
    } else if op == 0x7e {
        { let (cm, o) = spec_absolute_indexed_w(c0, c0.x); spec_ror(cm, o) }
    } else if op == 0x40 {
        spec_rti(c0)
    } else if op == 0x60 {
        spec_rts(c0)
    } else if op == 0xe9 {
        { let (cm, o) = spec_imm(c0); spec_sbc(cm, o) }
    } else if op == 0xe5 {
        { let (cm, o) = spec_zpa(c0); spec_sbc(cm, o) }
    } else if op == 0xf5 {
        { let (cm, o) = spec_zpi(c0, c0.x); spec_sbc(cm, o) }
    } else if op == 0xed {
        { let (cm, o) = spec_abs(c0); spec_sbc(cm, o) }
    } else if op == 0xfd {
        { let t = spec_absolute_indexed(c0, c0.x); spec_sbc(t.0, t.1) }
    } else if op == 0xf9 {
        { let t = spec_absolute_indexed(c0, c0.y); spec_sbc(t.0, t.1) }
    } else if op == 0xe1 {
        { let (cm, o) = spec_idx(c0); spec_sbc(cm, o) }
    } else if op == 0xf1 {
        { let t = spec_indirected_indexed(c0); spec_sbc(t.0, t.1) }
    } else if op == 0x38 {
        spec_sec(c0)
    } else if op == 0xf8 {
        spec_sed(c0)
    } else if op == 0x78 {
        spec_sei(c0)
    } else if op == 0x85 {
        { let (cm, o) = spec_zpa(c0); spec_sta(cm, o) }
    } else if op == 0x95 {
        { let (cm, o) = spec_zpi(c0, c0.x); spec_sta(cm, o) }
    } else if op == 0x8d {
        { let (cm, o) = spec_abs(c0); spec_sta(cm, o) }
    } else if op == 0x9d {
        { let (cm, o) = spec_absolute_indexed_w(c0, c0.x); spec_sta(cm, o) }
    } else if op == 0x99 {
        { let (cm, o) = spec_absolute_indexed_w(c0, c0.y); spec_sta(cm, o) }
    } else if op == 0x81 {
        { let (cm, o) = spec_idx(c0); spec_sta(cm, o) }
    } else if op == 0x91 {
        { let (cm, o) = spec_idy_w(c0); spec_sta(cm, o) }
    } else if op == 0x86 {
        { let (cm, o) = spec_zpa(c0); spec_stx(cm, o) }
    } else if op == 0x96 {
        { let (cm, o) = spec_zpi(c0, c0.y); spec_stx(cm, o) }
    } else if op == 0x8e {
        { let (cm, o) = spec_abs(c0); spec_stx(cm, o) }
    } else if op == 0x84 {
        { let (cm, o) = spec_zpa(c0); spec_sty(cm, o) }
    } else if op == 0x94 {
        { let (cm, o) = spec_zpi(c0, c0.x); spec_sty(cm, o) }
    } else if op == 0x8c {
        { let (cm, o) = spec_abs(c0); spec_sty(cm, o) }
    } else if op == 0xaa {
        spec_tax(c0)
    } else if op == 0xa8 {
        spec_tay(c0)
    } else if op == 0xba {
        spec_tsx(c0)
    } else if op == 0x8a {
        spec_txa(c0)
    } else if op == 0x9a {
        spec_txs(c0)
    } else if op == 0x98 {
        spec_tya(c0)
    } else {
        spec_nop(c0)
    }
}

/// One full dispatch: the opcode is fetched at `pc`, the instruction
/// runs, and the fetch tick is taken off the instruction's cost.
pub open spec fn spec_step(c: CpuModel) -> CpuModel {
    let op = rd(c.bus, c.pc);
    let c0 = CpuModel { pc: wadd16(c.pc, 1), bus: rda(c.bus, c.pc), ..c };
    let c1 = spec_exec_opcode(c0, op);
    CpuModel { cycle_count: (c1.cycle_count - 1) as u32, ..c1 }
}

/// Taking the non-maskable interrupt: the line is acknowledged, the
/// return address and the status byte (break bit clear, unused bit
/// set) go to the stack, I is set, and control moves to the vector at
/// `$FFFA`, for seven cycles less the current tick.
pub open spec fn spec_nmi(c: CpuModel) -> CpuModel {
    let b0 = BusModel { ppu: PpuModel { nmi_pending: false, ..c.bus.ppu }, ..c.bus };
    let c0 = CpuModel { bus: b0, cycle_count: (c.cycle_count + 7) as u32, ..c };
    let c1 = spec_push(c0, (c.pc >> 8) as u8);
    let c2 = spec_push(c1, (c.pc & 0xff) as u8);
    let c3 = spec_push(c2, (c.p & 0xef) | 0x20);
    let c4 = CpuModel {
        p: c.p | 0x04,
        pc: rd16_val(c3.bus, 0xfffa),
        bus: rd16_after(c3.bus, 0xfffa),
        ..c3
    };
    CpuModel { cycle_count: (c4.cycle_count - 1) as u32, ..c4 }
}

/// What one call of `tick` does: pay down a pending cycle, else take a
/// pending NMI, else fetch and run one instruction.
pub open spec fn spec_tick(c: CpuModel) -> CpuModel {
    if c.cycle_count > 0 {
        CpuModel { cycle_count: (c.cycle_count - 1) as u32, ..c }
    } else if c.bus.ppu.nmi_pending {
        spec_nmi(c)
    } else {
        spec_step(c)
    }
}

/// The machine after `n` ticks.
pub open spec fn spec_run(c: CpuModel, n: nat) -> CpuModel
    decreases n,
{
    if n == 0 {
        c
    } else {
        spec_tick(spec_run(c, (n - 1) as nat))
    }
}

impl Nise6502 {
    /// One CPU clock. While `cycle_count` is positive the tick only
    /// pays it down; at zero, a pending NMI is taken, else the opcode
    /// at `pc` is fetched, dispatched, and charged its documented cost
    /// less the tick that fetched it. A byte outside the official
    /// opcode set runs as a two-cycle NOP.
    #[verifier::rlimit(100)]
    #[verifier::spinoff_prover]
    pub fn tick(&mut self)
        requires
            cpu_inv(old(self)@),
        ensures
            cpu_inv(final(self)@),
            final(self)@ == spec_tick(old(self)@),
    {
        if self.cycle_count > 0 {
            self.cycle_count = self.cycle_count - 1;
            return;
        }
        if self.bus.ppu.nmi_pending {
            self.bus.ppu.nmi_pending = false;
            self.cycle_count = self.cycle_count + 7;
            let pc = self.pc;
            let p_at_entry = self.p;
            self.push((pc >> 8) as u8);
            self.push((pc & 0xff) as u8);
            self.push((p_at_entry & 0xef) | 0x20);
            self.p = p_at_entry | 0x04;
            self.pc = self.read16(0xfffa);
            self.cycle_count = self.cycle_count - 1;
            return;
        }
        let pc0 = self.pc;
        let opcode = self.read(pc0);
        self.pc = self.pc.wrapping_add(1);
        match opcode {
            0x69 => {
                let o = self.imm();
                self.adc(o);
            },
            0x65 => {
                let o = self.zpa();
                self.adc(o);
            },
            0x75 => {
                let o = self.zpx();
                self.adc(o);
            },
            0x6d => {
                let o = self.abs();
                self.adc(o);
            },
            0x7d => {
                let o = self.abx();
                self.adc(o);
            },
            0x79 => {
                let o = self.aby();
                self.adc(o);
            },
            0x61 => {
                let o = self.idx();
                self.adc(o);
            },
            0x71 => {
                let o = self.idy();
                self.adc(o);
            },
            0x29 => {
                let o = self.imm();
                self.and(o);
            },
            0x25 => {
                let o = self.zpa();
                self.and(o);
            },
            0x35 => {
                let o = self.zpx();
                self.and(o);
            },
            0x2d => {
                let o = self.abs();
                self.and(o);
            },
            0x3d => {
                let o = self.abx();
                self.and(o);
            },
            0x39 => {
                let o = self.aby();
                self.and(o);
            },
            0x21 => {
                let o = self.idx();
                self.and(o);
            },
            0x31 => {
                let o = self.idy();
                self.and(o);
            },
            0x0a => {
                let o = self.imp();
                self.asl_a(o);
            },
            0x06 => {
                let o = self.zpa();
                self.asl(o);
            },
            0x16 => {
                let o = self.zpx();
                self.asl(o);
            },
            0x0e => {
                let o = self.abs();
                self.asl(o);
            },
            0x1e => {
                let o = self.abx_w();
                self.asl(o);
            },
            0x90 => {
                let o = self.rel();
                self.bcc(o);
            },
            0xb0 => {
                let o = self.rel();
                self.bcs(o);
            },
            0xf0 => {
                let o = self.rel();
                self.beq(o);
            },
            0x24 => {
                let o = self.zpa();
                self.bit(o);
            },
            0x2c => {
                let o = self.abs();
                self.bit(o);
            },
            0x30 => {
                let o = self.rel();
                self.bmi(o);
            },
            0xd0 => {
                let o = self.rel();
                self.bne(o);
            },
            0x10 => {
                let o = self.rel();
                self.bpl(o);
            },
            0x00 => {
                let o = self.imp();
                self.brk(o);
            },
            0x50 => {
                let o = self.rel();
                self.bvc(o);
            },
            0x70 => {
                let o = self.rel();
                self.bvs(o);
            },
            0x18 => {
                let o = self.imp();
                self.clc(o);
            },
            0xd8 => {
                let o = self.imp();
                self.cld(o);
            },
            0x58 => {
                let o = self.imp();
                self.cli(o);
            },
            0xb8 => {
                let o = self.imp();
                self.clv(o);
            },
            0xc9 => {
                let o = self.imm();
                self.cmp(o);
            },
            0xc5 => {
                let o = self.zpa();
                self.cmp(o);
            },
            0xd5 => {
                let o = self.zpx();
                self.cmp(o);
            },
            0xcd => {
                let o = self.abs();
                self.cmp(o);
            },
            0xdd => {
                let o = self.abx();
                self.cmp(o);
            },
            0xd9 => {
                let o = self.aby();
                self.cmp(o);
            },
            0xc1 => {
                let o = self.idx();
                self.cmp(o);
            },
            0xd1 => {
                let o = self.idy();
                self.cmp(o);
            },
            0xe0 => {
                let o = self.imm();
                self.cpx(o);
            },
            0xe4 => {
                let o = self.zpa();
                self.cpx(o);
            },
            0xec => {
                let o = self.abs();
                self.cpx(o);
            },
            0xc0 => {
                let o = self.imm();
                self.cpy(o);
            },
            0xc4 => {
                let o = self.zpa();
                self.cpy(o);
            },
            0xcc => {
                let o = self.abs();
                self.cpy(o);
            },
            0xc6 => {
                let o = self.zpa();
                self.dec(o);
            },
            0xd6 => {
                let o = self.zpx();
                self.dec(o);
            },
            0xce => {
                let o = self.abs();
                self.dec(o);
            },
            0xde => {
                let o = self.abx_w();
                self.dec(o);
            },
            0xca => {
                let o = self.imp();
                self.dex(o);
            },
            0x88 => {
                let o = self.imp();
                self.dey(o);
            },
            0x49 => {
                let o = self.imm();
                self.eor(o);
            },
            0x45 => {
                let o = self.zpa();
                self.eor(o);
            },
            0x55 => {
                let o = self.zpx();
                self.eor(o);
            },
            0x4d => {
                let o = self.abs();
                self.eor(o);
            },
            0x5d => {
                let o = self.abx();
                self.eor(o);
            },
            0x59 => {
                let o = self.aby();
                self.eor(o);
            },
            0x41 => {
                let o = self.idx();
                self.eor(o);
            },
            0x51 => {
                let o = self.idy();
                self.eor(o);
            },
            0xe6 => {
                let o = self.zpa();
                self.inc(o);
            },
            0xf6 => {
                let o = self.zpx();
                self.inc(o);
            },
            0xee => {
                let o = self.abs();
                self.inc(o);
            },
            0xfe => {
                let o = self.abx_w();
                self.inc(o);
            },
            0xe8 => {
                let o = self.imp();
                self.inx(o);
            },
            0xc8 => {
                let o = self.imp();
                self.iny(o);
            },
            0x4c => {
                let o = self.abs();
                self.jmp(o);
            },
            0x6c => {
                let o = self.ind();
                self.jmp(o);
            },
            0x20 => {
                let o = self.abs();
                self.jsr(o);
            },
            0xa9 => {
                let o = self.imm();
                self.lda(o);
            },
            0xa5 => {
                let o = self.zpa();
                self.lda(o);
            },
            0xb5 => {
                let o = self.zpx();
                self.lda(o);
            },
            0xad => {
                let o = self.abs();
                self.lda(o);
            },
            0xbd => {
                let o = self.abx();
                self.lda(o);
            },
            0xb9 => {
                let o = self.aby();
                self.lda(o);
            },
            0xa1 => {
                let o = self.idx();
                self.lda(o);
            },
            0xb1 => {
                let o = self.idy();
                self.lda(o);
            },
            0xa2 => {
                let o = self.imm();
                self.ldx(o);
            },
            0xa6 => {
                let o = self.zpa();
                self.ldx(o);
            },
            0xb6 => {
                let o = self.zpy();
                self.ldx(o);
            },
            0xae => {
                let o = self.abs();
                self.ldx(o);
            },
            0xbe => {
                let o = self.aby();
                self.ldx(o);
            },
            0xa0 => {
                let o = self.imm();
                self.ldy(o);
            },
            0xa4 => {
                let o = self.zpa();
                self.ldy(o);
            },
            0xb4 => {
                let o = self.zpx();
                self.ldy(o);
            },
            0xac => {
                let o = self.abs();
                self.ldy(o);
            },
            0xbc => {
                let o = self.abx();
                self.ldy(o);
            },
            0x4a => {
                let o = self.imp();
                self.lsr_a(o);
            },
            0x46 => {
                let o = self.zpa();
                self.lsr(o);
            },
            0x56 => {
                let o = self.zpx();
                self.lsr(o);
            },
            0x4e => {
                let o = self.abs();
                self.lsr(o);
            },
            0x5e => {
                let o = self.abx_w();
                self.lsr(o);
            },
            0xea => {
                let o = self.imp();
                self.nop(o);
            },
            0x09 => {
                let o = self.imm();
                self.ora(o);
            },
            0x05 => {
                let o = self.zpa();
                self.ora(o);
            },
            0x15 => {
                let o = self.zpx();
                self.ora(o);
            },
            0x0d => {
                let o = self.abs();
                self.ora(o);
            },
            0x1d => {
                let o = self.abx();
                self.ora(o);
            },
            0x19 => {
                let o = self.aby();
                self.ora(o);
            },
            0x01 => {
                let o = self.idx();
                self.ora(o);
            },
            0x11 => {
                let o = self.idy();
                self.ora(o);
            },
            0x48 => {
                let o = self.imp();
                self.pha(o);
            },
            0x08 => {
                let o = self.imp();
                self.php(o);
            },
            0x68 => {
                let o = self.imp();
                self.pla(o);
            },
            0x28 => {
                let o = self.imp();
                self.plp(o);
            },
            0x2a => {
                let o = self.imp();
                self.rol_a(o);
            },
            0x26 => {
                let o = self.zpa();
                self.rol(o);
            },
            0x36 => {
                let o = self.zpx();
                self.rol(o);
            },
            0x2e => {
                let o = self.abs();
                self.rol(o);
            },
            0x3e => {
                let o = self.abx_w();
                self.rol(o);
            },
            0x6a => {
                let o = self.imp();
                self.ror_a(o);
            },
            0x66 => {
                let o = self.zpa();
                self.ror(o);
            },
            0x76 => {
                let o = self.zpx();
                self.ror(o);
            },
            0x6e => {
                let o = self.abs();
                self.ror(o);
            },
            0x7e => {
                let o = self.abx_w();
                self.ror(o);
            },
            0x40 => {
                let o = self.imp();
                self.rti(o);
            },
            0x60 => {
                let o = self.imp();
                self.rts(o);
            },
            0xe9 => {
                let o = self.imm();
                self.sbc(o);
            },
            0xe5 => {
                let o = self.zpa();
                self.sbc(o);
            },
            0xf5 => {
                let o = self.zpx();
                self.sbc(o);
            },
            0xed => {
                let o = self.abs();
                self.sbc(o);
            },
            0xfd => {
                let o = self.abx();
                self.sbc(o);
            },
            0xf9 => {
                let o = self.aby();
                self.sbc(o);
            },
            0xe1 => {
                let o = self.idx();
                self.sbc(o);
            },
            0xf1 => {
                let o = self.idy();
                self.sbc(o);
            },
            0x38 => {
                let o = self.imp();
                self.sec(o);
            },
            0xf8 => {
                let o = self.imp();
                self.sed(o);
            },
            0x78 => {
                let o = self.imp();
                self.sei(o);
            },
            0x85 => {
                let o = self.zpa();
                self.sta(o);
            },
            0x95 => {
                let o = self.zpx();
                self.sta(o);
            },
            0x8d => {
                let o = self.abs();
                self.sta(o);
            },
            0x9d => {
                let o = self.abx_w();
                self.sta(o);
            },
            0x99 => {
                let o = self.aby_w();
                self.sta(o);
            },
            0x81 => {
                let o = self.idx();
                self.sta(o);
            },
            0x91 => {
                let o = self.idy_w();
                self.sta(o);
            },
            0x86 => {
                let o = self.zpa();
                self.stx(o);
            },
            0x96 => {
                let o = self.zpy();
                self.stx(o);
            },
            0x8e => {
                let o = self.abs();
                self.stx(o);
            },
            0x84 => {
                let o = self.zpa();
                self.sty(o);
            },
            0x94 => {
                let o = self.zpx();
                self.sty(o);
            },
            0x8c => {
                let o = self.abs();
                self.sty(o);
            },
            0xaa => {
                let o = self.imp();
                self.tax(o);
            },
            0xa8 => {
                let o = self.imp();
                self.tay(o);
            },
            0xba => {
                let o = self.imp();
                self.tsx(o);
            },
            0x8a => {
                let o = self.imp();
                self.txa(o);
            },
            0x9a => {
                let o = self.imp();
                self.txs(o);
            },
            0x98 => {
                let o = self.imp();
                self.tya(o);
            },
            _ => {
                self.cycle_count = self.cycle_count + 2;
            },
        }
        self.cycle_count = self.cycle_count - 1;
    }

    /// Drives the classic CPU test entry: the program counter moves to
    /// `$C000` and the core runs forty thousand ticks.
    pub fn nestest(&mut self)
        requires
            cpu_inv(old(self)@),
        ensures
            cpu_inv(final(self)@),
            final(self)@ == spec_run(CpuModel { pc: 0xc000, ..old(self)@ }, 40000),
    {
        self.pc = 0xc000;
        let ghost start = self@;
        let mut i: u32 = 0;
        while i < 40000
            invariant
                cpu_inv(self@),
                i <= 40000,
                self@ == spec_run(start, i as nat),
            decreases 40000 - i,
        {
            self.tick();
            i = i + 1;
        }
    }
}

/// The stack never leaves the base page: a push writes exactly one
/// RAM byte, at `$0100 + s` (always inside `$0100..=$01FF`), steps `s`
/// down within the page, and touches nothing else; a pop reads from
/// `$0100 + (s + 1)` and moves no memory.
pub proof fn lemma_stack_stays_in_base_page(c: CpuModel, value: u8)
    requires
        cpu_inv(c),
    ensures
        0x100 <= 0x100 + c.s <= 0x1ff,
        spec_push(c, value).bus.ram == c.bus.ram.update(0x100 + c.s, value),
        spec_push(c, value).bus.ppu == c.bus.ppu,
        spec_push(c, value).bus.prg == c.bus.prg,
        spec_push(c, value).s == wsub8(c.s, 1),
        spec_pop_val(c) == c.bus.ram[0x100 + wadd8(c.s, 1)],
        0x100 <= 0x100 + wadd8(c.s, 1) <= 0x1ff,
        spec_pop_after(c).bus == c.bus,
{
    vstd::arithmetic::div_mod::lemma_small_mod((0x100 + c.s) as nat, 0x800);
    vstd::arithmetic::div_mod::lemma_small_mod((0x100 + wadd8(c.s, 1)) as nat, 0x800);
}

/// The status byte on the stack always shows bit 5 set; bit 4 tells
/// the pusher apart: PHP (and BRK) push it set, the NMI entry pushes
/// it clear.
pub proof fn lemma_status_pushed_bits(c: CpuModel)
    requires
        cpu_inv(c),
    ensures
        spec_php(c).bus.ram[0x100 + c.s] == (c.p | 0x30),
        (c.p | 0x30) & 0x20 == 0x20,
        (c.p | 0x30) & 0x10 == 0x10,
        ((c.p & 0xef) | 0x20) & 0x20 == 0x20,
        ((c.p & 0xef) | 0x20) & 0x10 == 0,
{
    let p = c.p;
    assert((p | 0x30) & 0x20 == 0x20 && (p | 0x30) & 0x10 == 0x10 && ((p & 0xef) | 0x20) & 0x20
        == 0x20 && ((p & 0xef) | 0x20) & 0x10 == 0) by (bit_vector);
    lemma_stack_stays_in_base_page(
        CpuModel { cycle_count: (c.cycle_count + 3) as u32, ..c },
        c.p | 0x30,
    );
}

/// PHA then PLA restores the accumulator and the stack pointer; PHP
/// then PLP restores every status flag but bits 4 and 5.
pub proof fn lemma_push_pull_round_trip(c: CpuModel)
    requires
        cpu_inv(c),
    ensures
        spec_pla(spec_pha(c)).a == c.a,
        spec_pla(spec_pha(c)).s == c.s,
        spec_plp(spec_php(c)).p & 0xcf == c.p & 0xcf,
        spec_plp(spec_php(c)).s == c.s,
{
    vstd::arithmetic::div_mod::lemma_small_mod((0x100 + c.s) as nat, 0x800);
    let p = c.p;
    assert((((p | 0x30) | 0x20) & 0xef) & 0xcf == p & 0xcf) by (bit_vector);
}

/// The page-wrap bug of indirect JMP: when the pointer sits at the
/// end of a page, its high byte comes from the start of that same
/// page, not from the next one.
pub proof fn lemma_indirect_jmp_page_wrap(c: CpuModel)
    requires
        cpu_inv(c),
        rd16_val(c.bus, c.pc) & 0xff == 0xff,
    ensures
        ({
            let ptr = rd16_val(c.bus, c.pc);
            let b1 = rd16_after(c.bus, c.pc);
            let b2 = rda(b1, ptr);
            spec_ind(c).1.address == rd(b1, ptr) + rd(b2, ptr & 0xff00) * 256
        }),
{
    let ptr = rd16_val(c.bus, c.pc);
    assert((ptr & 0xff) as u8 == 0xff && (ptr & 0xff00) | 0u16 == ptr & 0xff00) by (bit_vector)
        requires
            ptr & 0xff == 0xff,
    ;
}

/// Zero-page indexed addressing wraps within the zero page: the
/// effective address is the pointer byte plus the index modulo 256,
/// and never leaves `$00..=$FF`.
pub proof fn lemma_zero_page_index_wraps(c: CpuModel, idx: u8)
    ensures
        spec_zpi(c, idx).1.address == wadd8(rd(c.bus, c.pc), idx) as u16,
        spec_zpi(c, idx).1.address < 0x100,
{
}

/// Both zero-page pointer reads of indexed-indirect and
/// indirect-indexed addressing stay inside the zero page: the high
/// pointer byte is fetched from `(ptr + 1) mod 256`.
pub proof fn lemma_indirect_pointer_wraps(c: CpuModel)
    ensures
        ({
            let indexed = wadd8(rd(c.bus, c.pc), c.x);
            let b1 = rda(c.bus, c.pc);
            let b2 = rda(b1, indexed as u16);
            &&& (indexed as u16) < 0x100
            &&& (wadd8(indexed, 1) as u16) < 0x100
            &&& spec_idx(c).1.address == (rd(b1, indexed as u16) + rd(
                b2,
                wadd8(indexed, 1) as u16,
            ) * 256) as u16
        }),
        ({
            let ptr = rd(c.bus, c.pc);
            &&& (ptr as u16) < 0x100
            &&& (wadd8(ptr, 1) as u16) < 0x100
        }),
{
}

/// The cycle cost of each official opcode as the 6502 reference
/// documents it, before conditional penalties; 0 marks a byte outside
/// the official set.
pub open spec fn spec_documented_cycles(op: u8) -> u32 {
    if op == 0x69 {
        2
    } else if op == 0x65 {
        3
    } else if op == 0x75 {
        4
    } else if op == 0x6d {
        4
    } else if op == 0x7d {
        4
    } else if op == 0x79 {
        4
    } else if op == 0x61 {
        6
    } else if op == 0x71 {
        5
    } else if op == 0x29 {
        2
    } else if op == 0x25 {
        3
    } else if op == 0x35 {
        4
    } else if op == 0x2d {
        4
    } else if op == 0x3d {
        4
    } else if op == 0x39 {
        4
    } else if op == 0x21 {
        6
    } else if op == 0x31 {
        5
    } else if op == 0x0a {
        2
    } else if op == 0x06 {
        5
    } else if op == 0x16 {
        6
    } else if op == 0x0e {
        6
    } else if op == 0x1e {
        7
    } else if op == 0x90 {
        2
    } else if op == 0xb0 {
        2
    } else if op == 0xf0 {
        2
    } else if op == 0x24 {
        3
    } else if op == 0x2c {
        4
    } else if op == 0x30 {
        2
    } else if op == 0xd0 {
        2
    } else if op == 0x10 {
        2
    } else if op == 0x00 {
        7
    } else if op == 0x50 {
        2
    } else if op == 0x70 {
        2
    } else if op == 0x18 {
        2
    } else if op == 0xd8 {
        2
    } else if op == 0x58 {
        2
    } else if op == 0xb8 {
        2
    } else if op == 0xc9 {
        2
    } else if op == 0xc5 {
        3
    } else if op == 0xd5 {
        4
    } else if op == 0xcd {
        4
    } else if op == 0xdd {
        4
    } else if op == 0xd9 {
        4
    } else if op == 0xc1 {
        6
    } else if op == 0xd1 {
        5
    } else if op == 0xe0 {
        2
    } else if op == 0xe4 {
        3
    } else if op == 0xec {
        4
    } else if op == 0xc0 {
        2
    } else if op == 0xc4 {
        3
    } else if op == 0xcc {
        4
    } else if op == 0xc6 {
        5
    } else if op == 0xd6 {
        6
    } else if op == 0xce {
        6
    } else if op == 0xde {
        7
    } else if op == 0xca {
        2
    } else if op == 0x88 {
        2
    } else if op == 0x49 {
        2
    } else if op == 0x45 {
        3
    } else if op == 0x55 {
        4
    } else if op == 0x4d {
        4
    } else if op == 0x5d {
        4
    } else if op == 0x59 {
        4
    } else if op == 0x41 {
        6
    } else if op == 0x51 {
        5
    } else if op == 0xe6 {
        5
    } else if op == 0xf6 {
        6
    } else if op == 0xee {
        6
    } else if op == 0xfe {
        7
    } else if op == 0xe8 {
        2
    } else if op == 0xc8 {
        2
    } else if op == 0x4c {
        3
    } else if op == 0x6c {
        5
    } else if op == 0x20 {
        6
    } else if op == 0xa9 {
        2
    } else if op == 0xa5 {
        3
    } else if op == 0xb5 {
        4
    } else if op == 0xad {
        4
    } else if op == 0xbd {
        4
    } else if op == 0xb9 {
        4
    } else if op == 0xa1 {
        6
    } else if op == 0xb1 {
        5
    } else if op == 0xa2 {
        2
    } else if op == 0xa6 {
        3
    } else if op == 0xb6 {
        4
    } else if op == 0xae {
        4
    } else if op == 0xbe {
        4
    } else if op == 0xa0 {
        2
    } else if op == 0xa4 {
        3
    } else if op == 0xb4 {
        4
    } else if op == 0xac {
        4
    } else if op == 0xbc {
        4
    } else if op == 0x4a {
        2
    } else if op == 0x46 {
        5
    } else if op == 0x56 {
        6
    } else if op == 0x4e {
        6
    } else if op == 0x5e {
        7
    } else if op == 0xea {
        2
    } else if op == 0x09 {
        2
    } else if op == 0x05 {
        3
    } else if op == 0x15 {
        4
    } else if op == 0x0d {
        4
    } else if op == 0x1d {
        4
    } else if op == 0x19 {
        4
    } else if op == 0x01 {
        6
    } else if op == 0x11 {
        5
    } else if op == 0x48 {
        3
    } else if op == 0x08 {
        3
    } else if op == 0x68 {
        4
    } else if op == 0x28 {
        4
    } else if op == 0x2a {
        2
    } else if op == 0x26 {
        5
    } else if op == 0x36 {
        6
    } else if op == 0x2e {
        6
    } else if op == 0x3e {
        7
    } else if op == 0x6a {
        2
    } else if op == 0x66 {
        5
    } else if op == 0x76 {
        6
    } else if op == 0x6e {
        6
    } else if op == 0x7e {
        7
    } else if op == 0x40 {
        6
    } else if op == 0x60 {
        6
    } else if op == 0xe9 {
        2
    } else if op == 0xe5 {
        3
    } else if op == 0xf5 {
        4
    } else if op == 0xed {
        4
    } else if op == 0xfd {
        4
    } else if op == 0xf9 {
        4
    } else if op == 0xe1 {
        6
    } else if op == 0xf1 {
        5
    } else if op == 0x38 {
        2
    } else if op == 0xf8 {
        2
    } else if op == 0x78 {
        2
    } else if op == 0x85 {
        3
    } else if op == 0x95 {
        4
    } else if op == 0x8d {
        4
    } else if op == 0x9d {
        5
    } else if op == 0x99 {
        5
    } else if op == 0x81 {
        6
    } else if op == 0x91 {
        6
    } else if op == 0x86 {
        3
    } else if op == 0x96 {
        4
    } else if op == 0x8e {
        4
    } else if op == 0x84 {
        3
    } else if op == 0x94 {
        4
    } else if op == 0x8c {
        4
    } else if op == 0xaa {
        2
    } else if op == 0xa8 {
        2
    } else if op == 0xba {
        2
    } else if op == 0x8a {
        2
    } else if op == 0x9a {
        2
    } else if op == 0x98 {
        2
    } else {
        0
    }
}

/// The documented conditional penalty an opcode pays in state `c0`
/// (the opcode byte already consumed): one cycle when an indexed read
/// crosses a page, one for a taken branch and one more when the branch
/// target crosses a page.
pub open spec fn spec_cycle_penalty(c0: CpuModel, op: u8) -> u32 {
    if op == 0x7d {
        if spec_absolute_indexed(c0, c0.x).2 {
            1
        } else {
            0
        }
    } else if op == 0x79 {
        if spec_absolute_indexed(c0, c0.y).2 {
            1
        } else {
            0
        }
    } else if op == 0x71 {
        if spec_indirected_indexed(c0).2 {
            1
        } else {
            0
        }
    } else if op == 0x3d {
        if spec_absolute_indexed(c0, c0.x).2 {
            1
        } else {
            0
        }
    } else if op == 0x39 {
        if spec_absolute_indexed(c0, c0.y).2 {
            1
        } else {
            0
        }
    } else if op == 0x31 {
        if spec_indirected_indexed(c0).2 {
            1
        } else {
            0
        }
    } else if op == 0x90 {
        let cm = spec_rel(c0).0;
        let o = spec_rel(c0).1;
        if cm.p & 1 == 0 {
            let target = wadd16(cm.pc, o.value as i8 as i16 as u16);
            if target / 256 == cm.pc / 256 {
                1
            } else {
                2
            }
        } else {
            0
        }
    } else if op == 0xb0 {
        let cm = spec_rel(c0).0;
        let o = spec_rel(c0).1;
        if cm.p & 1 == 1 {
            let target = wadd16(cm.pc, o.value as i8 as i16 as u16);
            if target / 256 == cm.pc / 256 {
                1
            } else {
                2
            }
        } else {
            0
        }
    } else if op == 0xf0 {
        let cm = spec_rel(c0).0;
        let o = spec_rel(c0).1;
        if (cm.p >> 1) & 1 == 1 {
            let target = wadd16(cm.pc, o.value as i8 as i16 as u16);
            if target / 256 == cm.pc / 256 {
                1
            } else {
                2
            }
        } else {
            0
        }
    } else if op == 0x30 {
        let cm = spec_rel(c0).0;
        let o = spec_rel(c0).1;
        if (cm.p >> 7) & 1 == 1 {
            let target = wadd16(cm.pc, o.value as i8 as i16 as u16);
            if target / 256 == cm.pc / 256 {
                1
            } else {
                2
            }
        } else {
            0
        }
    } else if op == 0xd0 {
        let cm = spec_rel(c0).0;
        let o = spec_rel(c0).1;
        if (cm.p >> 1) & 1 == 0 {
            let target = wadd16(cm.pc, o.value as i8 as i16 as u16);
            if target / 256 == cm.pc / 256 {
                1
            } else {
                2
            }
        } else {
            0
        }
    } else if op == 0x10 {
        let cm = spec_rel(c0).0;
        let o = spec_rel(c0).1;
        if (cm.p >> 7) & 1 == 0 {
            let target = wadd16(cm.pc, o.value as i8 as i16 as u16);
            if target / 256 == cm.pc / 256 {
                1
            } else {
                2
            }
        } else {
            0
        }
    } else if op == 0x50 {
        let cm = spec_rel(c0).0;
        let o = spec_rel(c0).1;
        if (cm.p >> 6) & 1 == 0 {
            let target = wadd16(cm.pc, o.value as i8 as i16 as u16);
            if target / 256 == cm.pc / 256 {
                1
            } else {
                2
            }
        } else {
            0
        }
    } else if op == 0x70 {
        let cm = spec_rel(c0).0;
        let o = spec_rel(c0).1;
        if (cm.p >> 6) & 1 == 1 {
            let target = wadd16(cm.pc, o.value as i8 as i16 as u16);
            if target / 256 == cm.pc / 256 {
                1
            } else {
                2
            }
        } else {
            0
        }
    } else if op == 0xdd {
        if spec_absolute_indexed(c0, c0.x).2 {
            1
        } else {
            0
        }
    } else if op == 0xd9 {
        if spec_absolute_indexed(c0, c0.y).2 {
            1
        } else {
            0
        }
    } else if op == 0xd1 {
        if spec_indirected_indexed(c0).2 {
            1
        } else {
            0
        }
    } else if op == 0x5d {
        if spec_absolute_indexed(c0, c0.x).2 {
            1
        } else {
            0
        }
    } else if op == 0x59 {
        if spec_absolute_indexed(c0, c0.y).2 {
            1
        } else {
            0
        }
    } else if op == 0x51 {
        if spec_indirected_indexed(c0).2 {
            1
        } else {
            0
        }
    } else if op == 0xbd {
        if spec_absolute_indexed(c0, c0.x).2 {
            1
        } else {
            0
        }
    } else if op == 0xb9 {
        if spec_absolute_indexed(c0, c0.y).2 {
            1
        } else {
            0
        }
    } else if op == 0xb1 {
        if spec_indirected_indexed(c0).2 {
            1
        } else {
            0
        }
    } else if op == 0xbe {
        if spec_absolute_indexed(c0, c0.y).2 {
            1
        } else {
            0
        }
    } else if op == 0xbc {
        if spec_absolute_indexed(c0, c0.x).2 {
            1
        } else {
            0
        }
    } else if op == 0x1d {
        if spec_absolute_indexed(c0, c0.x).2 {
            1
        } else {
            0
        }
    } else if op == 0x19 {
        if spec_absolute_indexed(c0, c0.y).2 {
            1
        } else {
            0
        }
    } else if op == 0x11 {
        if spec_indirected_indexed(c0).2 {
            1
        } else {
            0
        }
    } else if op == 0xfd {
        if spec_absolute_indexed(c0, c0.x).2 {
            1
        } else {
            0
        }
    } else if op == 0xf9 {
        if spec_absolute_indexed(c0, c0.y).2 {
            1
        } else {
            0
        }
    } else if op == 0xf1 {
        if spec_indirected_indexed(c0).2 {
            1
        } else {
            0
        }
    } else {
        0
    }
}

/// Cycle accounting for the opcodes in `0x00..=0x3f`.
#[verifier::rlimit(100)]
#[verifier::spinoff_prover]
proof fn lemma_cycle_costs_quarter_0(c: CpuModel, op: u8)
    requires
        c.cycle_count == 0,
        op == rd(c.bus, c.pc),
        0x00 <= op < 0x040,
    ensures
        spec_documented_cycles(op) > 0 ==> spec_step(c).cycle_count == spec_documented_cycles(op)
            + spec_cycle_penalty(
            CpuModel { pc: wadd16(c.pc, 1), bus: rda(c.bus, c.pc), ..c },
            op,
        ) - 1,
        spec_documented_cycles(op) == 0 ==> spec_step(c).cycle_count == 1,
{
}

/// Cycle accounting for the opcodes in `0x40..=0x7f`.
#[verifier::rlimit(100)]
#[verifier::spinoff_prover]
proof fn lemma_cycle_costs_quarter_1(c: CpuModel, op: u8)
    requires
        c.cycle_count == 0,
        op == rd(c.bus, c.pc),
        0x40 <= op < 0x080,
    ensures
        spec_documented_cycles(op) > 0 ==> spec_step(c).cycle_count == spec_documented_cycles(op)
            + spec_cycle_penalty(
            CpuModel { pc: wadd16(c.pc, 1), bus: rda(c.bus, c.pc), ..c },
            op,
        ) - 1,
        spec_documented_cycles(op) == 0 ==> spec_step(c).cycle_count == 1,
{
}

/// Cycle accounting for the opcodes in `0x80..=0xbf`.
#[verifier::rlimit(100)]
#[verifier::spinoff_prover]
proof fn lemma_cycle_costs_quarter_2(c: CpuModel, op: u8)
    requires
        c.cycle_count == 0,
        op == rd(c.bus, c.pc),
        0x80 <= op < 0x0c0,
    ensures
        spec_documented_cycles(op) > 0 ==> spec_step(c).cycle_count == spec_documented_cycles(op)
            + spec_cycle_penalty(
            CpuModel { pc: wadd16(c.pc, 1), bus: rda(c.bus, c.pc), ..c },
            op,
        ) - 1,
        spec_documented_cycles(op) == 0 ==> spec_step(c).cycle_count == 1,
{
}

/// Cycle accounting for the opcodes in `0xc0..=0xff`.
#[verifier::rlimit(100)]
#[verifier::spinoff_prover]
proof fn lemma_cycle_costs_quarter_3(c: CpuModel, op: u8)
    requires
        c.cycle_count == 0,
        op == rd(c.bus, c.pc),
        0xc0 <= op < 0x100,
    ensures
        spec_documented_cycles(op) > 0 ==> spec_step(c).cycle_count == spec_documented_cycles(op)
            + spec_cycle_penalty(
            CpuModel { pc: wadd16(c.pc, 1), bus: rda(c.bus, c.pc), ..c },
            op,
        ) - 1,
        spec_documented_cycles(op) == 0 ==> spec_step(c).cycle_count == 1,
{
}

/// Cycle accounting over the whole opcode set: every official
/// instruction charges exactly its documented cost plus its documented
/// penalty, and an unofficial byte charges two cycles; after the
/// dispatch, `cycle_count` holds that cost less the tick that fetched
/// the opcode.
pub proof fn lemma_documented_cycle_costs(c: CpuModel, op: u8)
    requires
        c.cycle_count == 0,
        op == rd(c.bus, c.pc),
    ensures
        spec_documented_cycles(op) > 0 ==> spec_step(c).cycle_count == spec_documented_cycles(op)
            + spec_cycle_penalty(
            CpuModel { pc: wadd16(c.pc, 1), bus: rda(c.bus, c.pc), ..c },
            op,
        ) - 1,
        spec_documented_cycles(op) == 0 ==> spec_step(c).cycle_count == 1,
{
    if op < 0x40 {
        lemma_cycle_costs_quarter_0(c, op);
    } else if op < 0x80 {
        lemma_cycle_costs_quarter_1(c, op);
    } else if op < 0xc0 {
        lemma_cycle_costs_quarter_2(c, op);
    } else {
        lemma_cycle_costs_quarter_3(c, op);
    }
}


} // verus!
