use nise::bus::NiseBus;
use nise::cpu::Nise6502;
use nise::rom::{Mirroring, Rom};

fn cpu_with(program: &[u8]) -> Nise6502 {
    let mut prg = vec![0u8; 16384];
    prg[..program.len()].copy_from_slice(program);
    let rom = Rom { prg_rom: prg, chr_rom: Vec::new(), mapper: 0, screen_mirroring: Mirroring::Horizontal };
    let mut cpu = Nise6502::new(NiseBus::new(rom));
    cpu.pc = 0x8000;
    cpu
}

/// Runs exactly one instruction: the dispatch tick plus the ticks that
/// pay down its remaining cycles.
fn step(cpu: &mut Nise6502) {
    while cpu.cycle_count > 0 {
        cpu.tick();
    }
    cpu.tick();
    while cpu.cycle_count > 0 {
        cpu.tick();
    }
}

#[test]
fn immediate_lda_loads_and_sets_flags() {
    let mut cpu = cpu_with(&[0xa9, 0x42, 0x00]);
    cpu.tick();
    assert_eq!(cpu.a, 0x42);
    assert_eq!(cpu.p & 0x02, 0); // Z clear
    assert_eq!(cpu.p & 0x80, 0); // N clear
    assert_eq!(cpu.cycle_count, 1); // 2 documented cycles, fetch tick consumed
    assert_eq!(cpu.pc, 0x8002);
}

#[test]
fn lda_zero_sets_z_and_negative_sets_n() {
    let mut cpu = cpu_with(&[0xa9, 0x00, 0xa9, 0x90]);
    step(&mut cpu);
    assert_eq!(cpu.p & 0x02, 0x02);
    step(&mut cpu);
    assert_eq!(cpu.p & 0x02, 0);
    assert_eq!(cpu.p & 0x80, 0x80);
}

#[test]
fn adc_overflow_sets_v_and_n() {
    let mut cpu = cpu_with(&[0x69, 0x50]);
    cpu.a = 0x50;
    cpu.p &= !0x01;
    step(&mut cpu);
    assert_eq!(cpu.a, 0xa0);
    assert_eq!(cpu.p & 0x01, 0); // C
    assert_eq!(cpu.p & 0x40, 0x40); // V
    assert_eq!(cpu.p & 0x80, 0x80); // N
    assert_eq!(cpu.p & 0x02, 0); // Z
}

#[test]
fn adc_carries_out_and_wraps() {
    let mut cpu = cpu_with(&[0x69, 0x01]);
    cpu.a = 0xff;
    cpu.p &= !0x01;
    step(&mut cpu);
    assert_eq!(cpu.a, 0x00);
    assert_eq!(cpu.p & 0x01, 0x01);
    assert_eq!(cpu.p & 0x02, 0x02);
}

#[test]
fn sbc_subtracts_with_borrow() {
    let mut cpu = cpu_with(&[0xe9, 0x10]);
    cpu.a = 0x50;
    cpu.p |= 0x01; // carry set: no borrow
    step(&mut cpu);
    assert_eq!(cpu.a, 0x40);
    assert_eq!(cpu.p & 0x01, 0x01);
}

#[test]
fn cmp_equal_sets_z_and_c() {
    let mut cpu = cpu_with(&[0xc9, 0x10]);
    cpu.a = 0x10;
    step(&mut cpu);
    assert_eq!(cpu.p & 0x02, 0x02); // Z
    assert_eq!(cpu.p & 0x01, 0x01); // C
    assert_eq!(cpu.p & 0x80, 0); // N
}

#[test]
fn cmp_less_clears_c_sets_n() {
    let mut cpu = cpu_with(&[0xc9, 0x20]);
    cpu.a = 0x10;
    step(&mut cpu);
    assert_eq!(cpu.p & 0x01, 0);
    assert_eq!(cpu.p & 0x02, 0);
    assert_eq!(cpu.p & 0x80, 0x80); // 0x10 - 0x20 = 0xF0
}

#[test]
fn branch_not_taken_costs_two_cycles() {
    let mut cpu = cpu_with(&[0x90, 0x02]); // BCC +2 with C set
    cpu.p |= 0x01;
    cpu.tick();
    assert_eq!(cpu.pc, 0x8002);
    assert_eq!(cpu.cycle_count, 1);
}

#[test]
fn branch_taken_same_page_costs_three_cycles() {
    let mut cpu = cpu_with(&[0x90, 0x02]); // BCC +2 with C clear
    cpu.p &= !0x01;
    cpu.tick();
    assert_eq!(cpu.pc, 0x8004);
    assert_eq!(cpu.cycle_count, 2);
}

#[test]
fn branch_page_cross_costs_four_cycles() {
    let mut cpu = cpu_with(&[]);
    // BCC $02 at $80FD: operand ends at $80FF, target $8101 crosses a page.
    cpu.bus.prg_rom[0x00fd] = 0x90;
    cpu.bus.prg_rom[0x00fe] = 0x02;
    cpu.pc = 0x80fd;
    cpu.p &= !0x01;
    cpu.tick();
    assert_eq!(cpu.pc, 0x8101);
    assert_eq!(cpu.cycle_count, 3); // 2 base + 1 taken + 1 cross, fetch consumed
}

#[test]
fn backward_branch_wraps_correctly() {
    let mut cpu = cpu_with(&[0xd0, 0xfe]); // BNE -2: loop to itself
    cpu.p &= !0x02;
    cpu.tick();
    assert_eq!(cpu.pc, 0x8000);
}

#[test]
fn jsr_rts_round_trip_restores_pc_and_s() {
    let mut cpu = cpu_with(&[0x20, 0x00, 0x90]); // JSR $9000
    cpu.bus.prg_rom[0x1000] = 0x60; // RTS at $9000
    let s0 = cpu.s;
    cpu.tick();
    assert_eq!(cpu.pc, 0x9000);
    assert_eq!(cpu.cycle_count, 5); // JSR takes 6
    while cpu.cycle_count > 0 {
        cpu.tick();
    }
    step(&mut cpu); // RTS
    assert_eq!(cpu.pc, 0x8003);
    assert_eq!(cpu.s, s0);
}

#[test]
fn jmp_indirect_wraps_at_page_boundary() {
    let mut cpu = cpu_with(&[0x6c, 0xff, 0x02]); // JMP ($02FF)
    cpu.bus.write(0x02ff, 0x34);
    cpu.bus.write(0x0200, 0x12); // high byte from $0200, not $0300
    cpu.bus.write(0x0300, 0x77);
    cpu.tick();
    assert_eq!(cpu.pc, 0x1234);
    assert_eq!(cpu.cycle_count, 4); // indirect JMP takes 5
}

#[test]
fn jmp_absolute_takes_three_cycles() {
    let mut cpu = cpu_with(&[0x4c, 0x00, 0x90]);
    cpu.tick();
    assert_eq!(cpu.pc, 0x9000);
    assert_eq!(cpu.cycle_count, 2);
}

#[test]
fn zero_page_indexed_wraps_in_zero_page() {
    let mut cpu = cpu_with(&[0xb5, 0xf0]); // LDA $F0,X
    cpu.x = 0x20;
    cpu.bus.write(0x0010, 0x77); // ($F0 + $20) & $FF = $10
    cpu.bus.write(0x0110, 0x55);
    step(&mut cpu);
    assert_eq!(cpu.a, 0x77);
}

#[test]
fn indexed_indirect_wraps_pointer_in_zero_page() {
    let mut cpu = cpu_with(&[0xa1, 0xf0]); // LDA ($F0,X)
    cpu.x = 0x0f; // pointer at $FF; high byte from $00
    cpu.bus.write(0x00ff, 0x34);
    cpu.bus.write(0x0000, 0x12);
    cpu.bus.write(0x1234, 0x99);
    step(&mut cpu);
    assert_eq!(cpu.a, 0x99);
}

#[test]
fn indirect_indexed_wraps_pointer_in_zero_page() {
    let mut cpu = cpu_with(&[0xb1, 0xff]); // LDA ($FF),Y
    cpu.bus.write(0x00ff, 0x00);
    cpu.bus.write(0x0000, 0x02); // pointer $0200, high byte from $00
    cpu.y = 0x05;
    cpu.bus.write(0x0205, 0xab);
    step(&mut cpu);
    assert_eq!(cpu.a, 0xab);
}

#[test]
fn absolute_indexed_page_cross_adds_a_cycle() {
    let mut cpu = cpu_with(&[0xbd, 0xff, 0x00, 0xbd, 0x00, 0x01]); // LDA $00FF,X ; LDA $0100,X
    cpu.x = 0x01;
    cpu.bus.write(0x0100, 0x42);
    cpu.bus.write(0x0101, 0x43);
    cpu.tick();
    assert_eq!(cpu.a, 0x42);
    assert_eq!(cpu.cycle_count, 4); // 4 + 1 page cross, fetch consumed
    while cpu.cycle_count > 0 {
        cpu.tick();
    }
    cpu.tick();
    assert_eq!(cpu.a, 0x43);
    assert_eq!(cpu.cycle_count, 3); // no cross: 4 cycles
}

#[test]
fn pha_pla_round_trip_leaves_a_unchanged() {
    let mut cpu = cpu_with(&[0x48, 0xa9, 0x00, 0x68]); // PHA ; LDA #0 ; PLA
    cpu.a = 0x5a;
    let s0 = cpu.s;
    step(&mut cpu);
    assert_eq!(cpu.s, s0.wrapping_sub(1));
    assert_eq!(cpu.bus.read(0x0100 + s0 as u16), 0x5a); // stays in the base page
    step(&mut cpu);
    assert_eq!(cpu.a, 0x00);
    step(&mut cpu);
    assert_eq!(cpu.a, 0x5a);
    assert_eq!(cpu.s, s0);
}

#[test]
fn php_plp_round_trip_preserves_flags_modulo_bits_4_and_5() {
    let mut cpu = cpu_with(&[0x08, 0x28]); // PHP ; PLP
    cpu.p = 0xc3;
    let s0 = cpu.s;
    step(&mut cpu);
    let pushed = cpu.bus.read(0x0100 + s0 as u16);
    assert_eq!(pushed & 0x20, 0x20); // unused bit reads 1 on the stack
    assert_eq!(pushed & 0x10, 0x10); // PHP marks the break bit
    assert_eq!(pushed & 0xcf, 0xc3);
    step(&mut cpu);
    assert_eq!(cpu.p & 0xcf, 0xc3);
    assert_eq!(cpu.p & 0x20, 0x20); // PLP loads with unused set
    assert_eq!(cpu.p & 0x10, 0x00); // and break clear
}

#[test]
fn stack_pointer_wraps_within_base_page() {
    let mut cpu = cpu_with(&[0x48, 0x48, 0x48]); // three pushes from S = 1
    cpu.s = 0x01;
    cpu.a = 0x11;
    step(&mut cpu);
    step(&mut cpu);
    step(&mut cpu);
    assert_eq!(cpu.s, 0xfe); // wrapped past zero, never left the page
    assert_eq!(cpu.bus.read(0x0101), 0x11);
    assert_eq!(cpu.bus.read(0x0100), 0x11);
    assert_eq!(cpu.bus.read(0x01ff), 0x11);
}

#[test]
fn read_modify_write_inc_and_dec() {
    let mut cpu = cpu_with(&[0xe6, 0x10, 0xc6, 0x10, 0xc6, 0x10]); // INC $10 ; DEC $10 ; DEC $10
    cpu.bus.write(0x0010, 0x7f);
    cpu.tick();
    assert_eq!(cpu.bus.read(0x0010), 0x80);
    assert_eq!(cpu.p & 0x80, 0x80);
    assert_eq!(cpu.cycle_count, 4); // zero-page RMW takes 5
    while cpu.cycle_count > 0 {
        cpu.tick();
    }
    step(&mut cpu);
    assert_eq!(cpu.bus.read(0x0010), 0x7f);
    step(&mut cpu);
    assert_eq!(cpu.bus.read(0x0010), 0x7e);
}

#[test]
fn shifts_and_rotates_move_carry() {
    let mut cpu = cpu_with(&[0x0a, 0x2a, 0x4a, 0x6a]); // ASL A ; ROL A ; LSR A ; ROR A
    cpu.a = 0x81;
    cpu.p &= !0x01;
    step(&mut cpu); // ASL: a = 0x02, C = 1
    assert_eq!(cpu.a, 0x02);
    assert_eq!(cpu.p & 0x01, 0x01);
    step(&mut cpu); // ROL: a = 0x05, C = 0
    assert_eq!(cpu.a, 0x05);
    assert_eq!(cpu.p & 0x01, 0);
    step(&mut cpu); // LSR: a = 0x02, C = 1
    assert_eq!(cpu.a, 0x02);
    assert_eq!(cpu.p & 0x01, 0x01);
    step(&mut cpu); // ROR: a = 0x81, C = 0
    assert_eq!(cpu.a, 0x81);
    assert_eq!(cpu.p & 0x01, 0);
}

#[test]
fn bit_sets_flags_from_memory() {
    let mut cpu = cpu_with(&[0x24, 0x10]); // BIT $10
    cpu.bus.write(0x0010, 0xc0);
    cpu.a = 0x3f;
    step(&mut cpu);
    assert_eq!(cpu.p & 0x02, 0x02); // A & M == 0
    assert_eq!(cpu.p & 0x80, 0x80); // N from bit 7 of M
    assert_eq!(cpu.p & 0x40, 0x40); // V from bit 6 of M
}

#[test]
fn stores_never_touch_flags() {
    let mut cpu = cpu_with(&[0x85, 0x10]); // STA $10
    cpu.a = 0x00;
    let p0 = cpu.p;
    step(&mut cpu);
    assert_eq!(cpu.bus.read(0x0010), 0x00);
    assert_eq!(cpu.p, p0);
}

#[test]
fn transfers_set_flags_but_txs_does_not() {
    let mut cpu = cpu_with(&[0xaa, 0x9a]); // TAX ; TXS
    cpu.a = 0x00;
    step(&mut cpu);
    assert_eq!(cpu.x, 0);
    assert_eq!(cpu.p & 0x02, 0x02);
    cpu.p = 0x24;
    step(&mut cpu);
    assert_eq!(cpu.s, 0x00);
    assert_eq!(cpu.p, 0x24);
}

#[test]
fn flag_instructions_toggle_bits() {
    let mut cpu = cpu_with(&[0x38, 0xf8, 0x78, 0x18, 0xd8, 0x58, 0xb8]);
    cpu.p = 0x40;
    step(&mut cpu);
    assert_eq!(cpu.p & 0x01, 0x01);
    step(&mut cpu);
    assert_eq!(cpu.p & 0x08, 0x08);
    step(&mut cpu);
    assert_eq!(cpu.p & 0x04, 0x04);
    step(&mut cpu);
    assert_eq!(cpu.p & 0x01, 0);
    step(&mut cpu);
    assert_eq!(cpu.p & 0x08, 0);
    step(&mut cpu);
    assert_eq!(cpu.p & 0x04, 0);
    step(&mut cpu);
    assert_eq!(cpu.p & 0x40, 0);
}

#[test]
fn brk_pushes_state_and_vectors_through_fffe() {
    let mut cpu = cpu_with(&[0x00]); // BRK at $8000
    cpu.bus.prg_rom[0x3ffe] = 0x00; // $FFFE in a 16 KiB image
    cpu.bus.prg_rom[0x3fff] = 0x90;
    cpu.p = 0x24;
    let s0 = cpu.s;
    cpu.tick();
    assert_eq!(cpu.pc, 0x9000);
    assert_eq!(cpu.cycle_count, 6); // BRK takes 7
    assert_eq!(cpu.bus.read(0x0100 + s0 as u16), 0x80); // pc + 1 high
    assert_eq!(cpu.bus.read(0x0100 + s0.wrapping_sub(1) as u16), 0x02); // pc + 1 low
    let pushed = cpu.bus.read(0x0100 + s0.wrapping_sub(2) as u16);
    assert_eq!(pushed, 0x24 | 0x30);
    assert_eq!(cpu.p & 0x04, 0x04); // I set
}

#[test]
fn rti_restores_status_and_pc() {
    let mut cpu = cpu_with(&[0x40]); // RTI
    // hand-built interrupt frame: status $C3, return address $9123
    cpu.s = 0xfa;
    cpu.bus.write(0x01fb, 0xc3);
    cpu.bus.write(0x01fc, 0x23);
    cpu.bus.write(0x01fd, 0x91);
    step(&mut cpu);
    assert_eq!(cpu.pc, 0x9123);
    assert_eq!(cpu.p & 0xcf, 0xc3 & 0xcf);
    assert_eq!(cpu.p & 0x20, 0x20);
    assert_eq!(cpu.p & 0x10, 0);
    assert_eq!(cpu.s, 0xfd);
}

#[test]
fn unknown_opcode_runs_as_two_cycle_nop() {
    let mut cpu = cpu_with(&[0x02, 0xa9, 0x07]); // $02 is unofficial
    cpu.tick();
    assert_eq!(cpu.pc, 0x8001);
    assert_eq!(cpu.cycle_count, 1);
    step(&mut cpu);
    assert_eq!(cpu.a, 0x07);
}

#[test]
fn nmi_is_taken_at_the_tick_boundary() {
    let mut cpu = cpu_with(&[0xa9, 0x42]);
    cpu.bus.prg_rom[0x3ffa] = 0x00; // $FFFA in a 16 KiB image
    cpu.bus.prg_rom[0x3ffb] = 0x90;
    cpu.bus.ppu.nmi_pending = true;
    cpu.p = 0x24;
    let s0 = cpu.s;
    cpu.tick();
    assert_eq!(cpu.pc, 0x9000);
    assert_eq!(cpu.cycle_count, 6); // 7 cycles
    assert!(!cpu.bus.ppu.nmi_pending);
    assert_eq!(cpu.p & 0x04, 0x04);
    let pushed = cpu.bus.read(0x0100 + s0.wrapping_sub(2) as u16);
    assert_eq!(pushed & 0x20, 0x20); // unused set
    assert_eq!(pushed & 0x10, 0x00); // break clear on interrupt entry
}

#[test]
fn state_snapshot_mirrors_registers() {
    let mut cpu = cpu_with(&[0xa9, 0x42]);
    step(&mut cpu);
    let st = cpu.state();
    assert_eq!(st.a, 0x42);
    assert_eq!(st.pc, 0x8002);
    assert_eq!(st.s, 0xfd);
    assert_eq!(st.cycle_count, 0);
}

#[test]
fn nestest_entry_starts_at_c000_and_keeps_running() {
    // $C000 mirrors PRG offset 0 on a 16 KiB image: park a tight loop there.
    let mut cpu = cpu_with(&[0x4c, 0x00, 0xc0]); // JMP $C000
    cpu.nestest();
    assert_eq!(cpu.pc, 0xc000);
    assert_eq!(cpu.s, 0xfd);
}
