use rust_nes::cpu::opcodes::{decode, AddressingMode, Operation};
use rust_nes::cpu::status_flags::StatusFlags;
use rust_nes::cpu::{BusOperation, Cpu, CpuState};

/// An NROM image of 16 KiB whose program starts at $8000. The reset vector
/// points at $8000, the NMI vector at $9000 and the IRQ vector at $A000.
fn image(program: &[u8]) -> Vec<u8> {
    let mut bytes = vec![0x4E, 0x45, 0x53, 0x1A, 1, 1, 0, 0, 0, 0, 0, 0, 0, 0, 0, 0];
    let mut prg = vec![0xEAu8; 0x4000];
    prg[..program.len()].copy_from_slice(program);
    prg[0x3FFA] = 0x00;
    prg[0x3FFB] = 0x90;
    prg[0x3FFC] = 0x00;
    prg[0x3FFD] = 0x80;
    prg[0x3FFE] = 0x00;
    prg[0x3FFF] = 0xA0;
    bytes.extend_from_slice(&prg);
    bytes.extend_from_slice(&vec![0u8; 0x2000]);
    bytes
}

fn at_fetch(cpu: &Cpu) -> bool {
    matches!(cpu.core.state, CpuState::FetchOpcode)
}

/// Runs one instruction, or one interrupt sequence, and returns its cycles.
fn run_instruction(cpu: &mut Cpu) -> u32 {
    let mut cycles = 0;
    loop {
        cpu.next();
        cycles += 1;
        if at_fetch(cpu) {
            return cycles;
        }
        assert!(cycles < 20);
    }
}

/// A machine that has run its reset sequence and is about to fetch `program`.
fn machine(program: &[u8]) -> Cpu {
    let mut cpu = Cpu::load(&image(program)).unwrap();
    assert_eq!(run_instruction(&mut cpu), 7);
    cpu
}

#[test]
fn reset_loads_the_vector_and_the_reset_values() {
    let cpu = machine(&[0xEA]);
    assert_eq!(cpu.core.registers.program_counter, 0x8000);
    assert_eq!(cpu.core.registers.a, 0);
    assert_eq!(cpu.core.registers.x, 0);
    assert_eq!(cpu.core.registers.y, 0);
    assert_eq!(cpu.core.registers.stack_pointer, 0xFD);
    assert_eq!(cpu.core.registers.status_register.bits(), 0x34);
    assert_eq!(cpu.cycles, 7);
}

#[test]
fn reset_does_not_write_to_the_stack() {
    let cpu = machine(&[0xEA]);
    assert!(cpu.mmu.ram.iter().all(|byte| *byte == 0));
}

#[test]
fn lda_immediate_sets_zero_and_negative() {
    let mut cpu = machine(&[0xA9, 0x00, 0xA9, 0x80, 0xA9, 0x7F]);
    assert_eq!(run_instruction(&mut cpu), 2);
    assert!(cpu.core.registers.status_register.zero);
    assert!(!cpu.core.registers.status_register.negative);
    assert_eq!(run_instruction(&mut cpu), 2);
    assert_eq!(cpu.core.registers.a, 0x80);
    assert!(!cpu.core.registers.status_register.zero);
    assert!(cpu.core.registers.status_register.negative);
    assert_eq!(run_instruction(&mut cpu), 2);
    assert_eq!(cpu.core.registers.a, 0x7F);
    assert!(!cpu.core.registers.status_register.negative);
}

#[test]
fn sta_then_lda_goes_through_memory() {
    // LDA #$5A; STA $0234; LDA #$00; LDA $0234
    let mut cpu = machine(&[0xA9, 0x5A, 0x8D, 0x34, 0x02, 0xA9, 0x00, 0xAD, 0x34, 0x02]);
    run_instruction(&mut cpu);
    assert_eq!(run_instruction(&mut cpu), 4);
    assert_eq!(cpu.mmu.ram[0x234], 0x5A);
    run_instruction(&mut cpu);
    assert_eq!(cpu.core.registers.a, 0);
    assert_eq!(run_instruction(&mut cpu), 4);
    assert_eq!(cpu.core.registers.a, 0x5A);
}

#[test]
fn adc_carries_from_the_ninth_bit() {
    // SEC; LDA #$F0; ADC #$20 -> $11, carry set
    let mut cpu = machine(&[0x38, 0xA9, 0xF0, 0x69, 0x20]);
    run_instruction(&mut cpu);
    run_instruction(&mut cpu);
    run_instruction(&mut cpu);
    let flags = cpu.core.registers.status_register;
    assert_eq!(cpu.core.registers.a, 0x11);
    assert!(flags.carry);
    assert!(!flags.overflow);
    assert!(!flags.zero);
    assert!(!flags.negative);
}

#[test]
fn adc_overflows_on_signed_wraparound() {
    // CLC; LDA #$50; ADC #$50 -> $A0, overflow set, carry clear
    let mut cpu = machine(&[0x18, 0xA9, 0x50, 0x69, 0x50]);
    run_instruction(&mut cpu);
    run_instruction(&mut cpu);
    run_instruction(&mut cpu);
    let flags = cpu.core.registers.status_register;
    assert_eq!(cpu.core.registers.a, 0xA0);
    assert!(!flags.carry);
    assert!(flags.overflow);
    assert!(flags.negative);
}

#[test]
fn adc_ignores_the_decimal_flag() {
    // SED; CLC; LDA #$09; ADC #$01 -> $0A
    let mut cpu = machine(&[0xF8, 0x18, 0xA9, 0x09, 0x69, 0x01]);
    for _ in 0..4 {
        run_instruction(&mut cpu);
    }
    assert_eq!(cpu.core.registers.a, 0x0A);
    assert!(cpu.core.registers.status_register.decimal);
}

#[test]
fn adc_matches_the_formula_on_all_operands() {
    let mut registers = rust_nes::cpu::registers::Registers::power_on();
    for a in 0..=255u8 {
        for m in [0u8, 1, 0x7F, 0x80, 0xFF, 0x55] {
            for carry in [false, true] {
                registers.a = a;
                registers.status_register.carry = carry;
                let after = Cpu::adc(registers, m);
                let sum = a as u16 + m as u16 + carry as u16;
                assert_eq!(after.a, (sum & 0xFF) as u8);
                assert_eq!(after.status_register.carry, sum > 0xFF);
                let overflow = (a as u16 ^ sum) & (m as u16 ^ sum) & 0x80 != 0;
                assert_eq!(after.status_register.overflow, overflow);
                assert_eq!(after.status_register.zero, after.a == 0);
                assert_eq!(after.status_register.negative, after.a & 0x80 != 0);
            }
        }
    }
}

#[test]
fn sbc_borrows_when_the_carry_is_clear() {
    // SEC; LDA #$10; SBC #$01 -> $0F, carry set. CLC; SBC #$0F -> $FF, carry clear.
    let mut cpu = machine(&[0x38, 0xA9, 0x10, 0xE9, 0x01, 0x18, 0xE9, 0x0F]);
    for _ in 0..3 {
        run_instruction(&mut cpu);
    }
    assert_eq!(cpu.core.registers.a, 0x0F);
    assert!(cpu.core.registers.status_register.carry);
    run_instruction(&mut cpu);
    run_instruction(&mut cpu);
    assert_eq!(cpu.core.registers.a, 0xFF);
    assert!(!cpu.core.registers.status_register.carry);
    assert!(cpu.core.registers.status_register.negative);
}

#[test]
fn compare_sets_carry_zero_and_negative() {
    let registers = rust_nes::cpu::registers::Registers::power_on();
    let equal = Cpu::compare(registers, 0x40, 0x40).status_register;
    assert!(equal.carry && equal.zero && !equal.negative);
    let greater = Cpu::compare(registers, 0x10, 0x40).status_register;
    assert!(greater.carry && !greater.zero && !greater.negative);
    let less = Cpu::compare(registers, 0x41, 0x40).status_register;
    assert!(!less.carry && !less.zero && less.negative);
}

#[test]
fn increment_and_decrement_wrap() {
    let registers = rust_nes::cpu::registers::Registers::power_on();
    let up = Cpu::increment(registers, 0xFF);
    assert_eq!(up.value, 0);
    assert!(up.registers.status_register.zero);
    let down = Cpu::decrement(registers, 0x00);
    assert_eq!(down.value, 0xFF);
    assert!(down.registers.status_register.negative);
    let flags = Cpu::set_negative_zero_flags(registers, 0x80).status_register;
    assert!(flags.negative && !flags.zero);
}

#[test]
fn shifts_and_rotates_move_bits_through_carry() {
    let mut registers = rust_nes::cpu::registers::Registers::power_on();
    let left = Cpu::asl(registers, 0x81);
    assert_eq!(left.value, 0x02);
    assert!(left.registers.status_register.carry);
    let right = Cpu::lsr(registers, 0x81);
    assert_eq!(right.value, 0x40);
    assert!(right.registers.status_register.carry);
    registers.status_register.carry = true;
    let rolled = Cpu::rol(registers, 0x40);
    assert_eq!(rolled.value, 0x81);
    assert!(!rolled.registers.status_register.carry);
    let rored = Cpu::ror(registers, 0x02);
    assert_eq!(rored.value, 0x81);
    assert!(!rored.registers.status_register.carry);
}

#[test]
fn status_bits_round_trip() {
    for bits in 0..=255u8 {
        let flags = StatusFlags::from_bits_truncate(bits);
        assert_eq!(flags.bits(), (bits & 0b1100_1111) | 0b0010_0000);
    }
}

#[test]
fn every_opcode_takes_its_canonical_cycles() {
    for code in 0..=255u8 {
        let opcode = decode(code);
        assert_eq!(opcode.code, code);
        let mut cpu = machine(&[code, 0x10, 0x02]);
        let taken = matches!(
            opcode.operation,
            Operation::BPL | Operation::BVC | Operation::BCC | Operation::BNE
        );
        let expected = opcode.cycles as u32 + if taken { 1 } else { 0 };
        assert_eq!(run_instruction(&mut cpu), expected, "opcode {:02X}", code);
    }
}

#[test]
fn every_cycle_but_the_internal_ones_touches_the_bus() {
    for code in 0..=255u8 {
        let opcode = decode(code);
        let mut cpu = machine(&[code, 0x10, 0x02]);
        let mut transactions = 0;
        let mut cycles = 0;
        loop {
            if Cpu::bus_operation(cpu.core) != BusOperation::Idle {
                transactions += 1;
            }
            cpu.next();
            cycles += 1;
            if at_fetch(&cpu) {
                break;
            }
        }
        let internal = match opcode.operation {
            Operation::JSR | Operation::RTS => 1,
            Operation::BPL | Operation::BVC | Operation::BCC | Operation::BNE => 1,
            _ => 0,
        };
        assert_eq!(transactions + internal, cycles, "opcode {:02X}", code);
    }
}

#[test]
fn indexed_reads_pay_for_a_page_crossing() {
    // LDX #$01; LDA $02FF,X (crosses); LDA $0200,X (does not)
    let mut cpu = machine(&[0xA2, 0x01, 0xBD, 0xFF, 0x02, 0xBD, 0x00, 0x02]);
    run_instruction(&mut cpu);
    assert_eq!(run_instruction(&mut cpu), 5);
    assert_eq!(run_instruction(&mut cpu), 4);
}

#[test]
fn indexed_stores_always_take_the_extra_cycle() {
    // LDX #$01; STA $0200,X; STA $02FF,X
    let mut cpu = machine(&[0xA2, 0x01, 0x9D, 0x00, 0x02, 0x9D, 0xFF, 0x02]);
    run_instruction(&mut cpu);
    assert_eq!(run_instruction(&mut cpu), 5);
    assert_eq!(run_instruction(&mut cpu), 5);
}

#[test]
fn indirect_indexed_reads_pay_for_a_page_crossing() {
    // LDA #$FF; STA $10; LDA #$02; STA $11; LDY #$01; LDA ($10),Y; LDY #$00; LDA ($10),Y
    let mut cpu = machine(&[
        0xA9, 0xFF, 0x85, 0x10, 0xA9, 0x02, 0x85, 0x11, 0xA0, 0x01, 0xB1, 0x10, 0xA0, 0x00, 0xB1,
        0x10,
    ]);
    for _ in 0..5 {
        run_instruction(&mut cpu);
    }
    assert_eq!(run_instruction(&mut cpu), 6);
    run_instruction(&mut cpu);
    assert_eq!(run_instruction(&mut cpu), 5);
}

#[test]
fn read_modify_write_writes_the_old_byte_first() {
    // LDA #$41; STA $20; INC $20
    let mut cpu = machine(&[0xA9, 0x41, 0x85, 0x20, 0xE6, 0x20]);
    run_instruction(&mut cpu);
    run_instruction(&mut cpu);
    let mut writes = Vec::new();
    let mut cycles = 0;
    loop {
        if let BusOperation::Write { address, value } = Cpu::bus_operation(cpu.core) {
            writes.push((address, value));
        }
        cpu.next();
        cycles += 1;
        if at_fetch(&cpu) {
            break;
        }
    }
    assert_eq!(cycles, 5);
    assert_eq!(writes, vec![(0x20, 0x41), (0x20, 0x42)]);
    assert_eq!(cpu.mmu.ram[0x20], 0x42);
}

#[test]
fn zero_page_indexing_wraps_in_page_zero() {
    // LDA #$77; STA $05; LDX #$06; LDA #$00; LDA $FF,X
    let mut cpu = machine(&[0xA9, 0x77, 0x85, 0x05, 0xA2, 0x06, 0xA9, 0x00, 0xB5, 0xFF]);
    for _ in 0..4 {
        run_instruction(&mut cpu);
    }
    assert_eq!(run_instruction(&mut cpu), 4);
    assert_eq!(cpu.core.registers.a, 0x77);
}

#[test]
fn branches_take_two_three_or_four_cycles() {
    // SEC; BCC +2 (not taken); BCS +2 (taken, same page)
    let mut cpu = machine(&[0x38, 0x90, 0x02, 0xB0, 0x02]);
    run_instruction(&mut cpu);
    assert_eq!(run_instruction(&mut cpu), 2);
    assert_eq!(cpu.core.registers.program_counter, 0x8003);
    assert_eq!(run_instruction(&mut cpu), 3);
    assert_eq!(cpu.core.registers.program_counter, 0x8007);
    // BNE -3 from $8000 lands in the page below
    let mut cpu = machine(&[0xD0, 0xFD]);
    assert_eq!(run_instruction(&mut cpu), 4);
    assert_eq!(cpu.core.registers.program_counter, 0x7FFF);
}

#[test]
fn jsr_and_rts_take_six_cycles_each() {
    // JSR $8010 ... at $8010: RTS
    let mut program = vec![0xEA; 0x20];
    program[0] = 0x20;
    program[1] = 0x10;
    program[2] = 0x80;
    program[0x10] = 0x60;
    let mut cpu = machine(&program);
    assert_eq!(run_instruction(&mut cpu), 6);
    assert_eq!(cpu.core.registers.program_counter, 0x8010);
    assert_eq!(cpu.core.registers.stack_pointer, 0xFB);
    assert_eq!(cpu.mmu.ram[0x1FD], 0x80);
    assert_eq!(cpu.mmu.ram[0x1FC], 0x02);
    assert_eq!(run_instruction(&mut cpu), 6);
    assert_eq!(cpu.core.registers.program_counter, 0x8003);
    assert_eq!(cpu.core.registers.stack_pointer, 0xFD);
}

#[test]
fn jmp_indirect_does_not_carry_across_a_page() {
    // LDA #$34; STA $02FF; LDA #$12; STA $0200; LDA #$56; STA $0300; JMP ($02FF)
    let mut cpu = machine(&[
        0xA9, 0x34, 0x8D, 0xFF, 0x02, 0xA9, 0x12, 0x8D, 0x00, 0x02, 0xA9, 0x56, 0x8D, 0x00, 0x03,
        0x6C, 0xFF, 0x02,
    ]);
    for _ in 0..6 {
        run_instruction(&mut cpu);
    }
    assert_eq!(run_instruction(&mut cpu), 5);
    assert_eq!(cpu.core.registers.program_counter, 0x1234);
}

#[test]
fn php_pushes_the_break_bit_and_plp_drops_it() {
    // PHP; PLA; PHA; PLP
    let mut cpu = machine(&[0x08, 0x68, 0x48, 0x28]);
    assert_eq!(run_instruction(&mut cpu), 3);
    assert_eq!(cpu.mmu.ram[0x1FD], 0x34);
    assert_eq!(run_instruction(&mut cpu), 4);
    assert_eq!(cpu.core.registers.a, 0x34);
    assert_eq!(run_instruction(&mut cpu), 3);
    assert_eq!(run_instruction(&mut cpu), 4);
    assert_eq!(cpu.core.registers.status_register.bits(), 0x24);
    assert!(!cpu.core.registers.status_register.break_command);
}

#[test]
fn brk_takes_seven_cycles_and_rti_six() {
    let mut program = vec![0xEA; 0x2010];
    program[0] = 0x58; // CLI
    program[1] = 0x00; // BRK
    program[0x2000] = 0x40; // RTI at $A000
    let mut cpu = machine(&program);
    run_instruction(&mut cpu);
    assert_eq!(run_instruction(&mut cpu), 7);
    assert_eq!(cpu.core.registers.program_counter, 0xA000);
    assert!(cpu.core.registers.status_register.interrupt_disable);
    // return address $8003, status with the break bit and bit 5
    assert_eq!(cpu.mmu.ram[0x1FD], 0x80);
    assert_eq!(cpu.mmu.ram[0x1FC], 0x03);
    assert_eq!(cpu.mmu.ram[0x1FB], 0x30);
    assert_eq!(run_instruction(&mut cpu), 6);
    assert_eq!(cpu.core.registers.program_counter, 0x8003);
    assert!(!cpu.core.registers.status_register.interrupt_disable);
}

#[test]
fn nmi_is_taken_between_instructions() {
    let mut program = vec![0xEA; 0x1010];
    program[0x1000] = 0x40; // RTI at $9000
    let mut cpu = machine(&program);
    run_instruction(&mut cpu);
    cpu.core.nmi_pending = true;
    assert_eq!(run_instruction(&mut cpu), 7);
    assert_eq!(cpu.core.registers.program_counter, 0x9000);
    assert!(!cpu.core.nmi_pending);
    // pushed status has the break bit clear
    assert_eq!(cpu.mmu.ram[0x1FB] & 0x10, 0);
    assert_eq!(run_instruction(&mut cpu), 6);
    assert_eq!(cpu.core.registers.program_counter, 0x8001);
}

#[test]
fn irq_is_masked_by_the_interrupt_disable_flag() {
    let mut cpu = machine(&[0xEA, 0x58, 0xEA]);
    cpu.core.irq_line = true;
    assert_eq!(run_instruction(&mut cpu), 2);
    assert_eq!(cpu.core.registers.program_counter, 0x8001);
    run_instruction(&mut cpu); // CLI
    assert_eq!(run_instruction(&mut cpu), 7);
    assert_eq!(cpu.core.registers.program_counter, 0xA000);
}

#[test]
fn nmi_hijacks_a_brk() {
    let mut cpu = machine(&[0x00]);
    // fetch, padding read, push PCH, push PCL: the NMI arrives before the status is pushed
    for _ in 0..4 {
        cpu.next();
    }
    cpu.core.nmi_pending = true;
    while !at_fetch(&cpu) {
        cpu.next();
    }
    assert_eq!(cpu.core.registers.program_counter, 0x9000);
    assert_eq!(cpu.mmu.ram[0x1FB] & 0x10, 0x10);
}

#[test]
fn undocumented_loads_and_stores_work() {
    // LDA #$F0; STA $10; LAX $10; LDA #$3C; SAX $11 (X = $F0)
    let mut cpu = machine(&[0xA9, 0xF0, 0x85, 0x10, 0xA7, 0x10, 0xA9, 0x3C, 0x87, 0x11]);
    run_instruction(&mut cpu);
    run_instruction(&mut cpu);
    assert_eq!(run_instruction(&mut cpu), 3);
    assert_eq!(cpu.core.registers.a, 0xF0);
    assert_eq!(cpu.core.registers.x, 0xF0);
    run_instruction(&mut cpu);
    assert_eq!(run_instruction(&mut cpu), 3);
    assert_eq!(cpu.mmu.ram[0x11], 0x30);
}

#[test]
fn undocumented_read_modify_write_works() {
    // LDA #$01; STA $10; LDA #$80; SLO $10 -> memory $02, A = $82
    let mut cpu = machine(&[0xA9, 0x01, 0x85, 0x10, 0xA9, 0x80, 0x07, 0x10]);
    for _ in 0..3 {
        run_instruction(&mut cpu);
    }
    assert_eq!(run_instruction(&mut cpu), 5);
    assert_eq!(cpu.mmu.ram[0x10], 0x02);
    assert_eq!(cpu.core.registers.a, 0x82);
}

#[test]
fn the_matrix_has_the_documented_entries() {
    let lda = decode(0xA9);
    assert_eq!(lda.operation, Operation::LDA);
    assert_eq!(lda.address_mode, AddressingMode::Immediate);
    assert_eq!(lda.cycles, 2);
    let jmp = decode(0x6C);
    assert_eq!(jmp.operation, Operation::JMP);
    assert_eq!(jmp.address_mode, AddressingMode::Indirect);
    assert_eq!(jmp.cycles, 5);
    let dcp = decode(0xC3);
    assert_eq!(dcp.operation, Operation::DCP);
    assert_eq!(dcp.address_mode, AddressingMode::IndirectXIndexed);
    assert_eq!(dcp.cycles, 8);
    let mut documented = 0;
    for code in 0..=255u8 {
        let undocumented = matches!(
            decode(code).operation,
            Operation::LAX
                | Operation::SAX
                | Operation::DCP
                | Operation::ISC
                | Operation::SLO
                | Operation::RLA
                | Operation::SRE
                | Operation::RRA
                | Operation::ANC
                | Operation::ALR
                | Operation::ARR
                | Operation::XAA
                | Operation::AXS
                | Operation::AHX
                | Operation::SHX
                | Operation::SHY
                | Operation::TAS
                | Operation::LAS
        );
        if !undocumented {
            documented += 1;
        }
    }
    // 151 documented opcodes, the extra SBC, and 39 undocumented no-ops
    assert_eq!(documented, 151 + 1 + 27 + 12);
}

#[test]
fn the_cycle_counter_counts_every_step() {
    let mut cpu = machine(&[0xEA, 0xEA]);
    let before = cpu.cycles;
    assert!(cpu.next().is_none());
    assert_eq!(cpu.cycles, before + 1);
}
