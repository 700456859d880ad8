use rust_nes::cartridge::CartridgeErrorKind;
use rust_nes::checksum::{framebuffer_bytes, pixel_byte};
use rust_nes::cpu::opcodes::Operation;
use rust_nes::cpu::{Cpu, CpuState};
use rust_nes::determinism::ButtonEvent;
use rust_nes::io::{Button, Controller};
use rust_nes::mmu::{dma_cycles, ram_index};

fn image(program: &[u8]) -> Vec<u8> {
    let mut bytes = vec![0x4E, 0x45, 0x53, 0x1A, 1, 0, 0, 0, 0, 0, 0, 0, 0, 0, 0, 0];
    let mut prg = vec![0xEAu8; 0x4000];
    prg[..program.len()].copy_from_slice(program);
    prg[0x1000] = 0xE8; // NMI handler at $9000: INX; RTI
    prg[0x1001] = 0x40;
    prg[0x3FFA] = 0x00;
    prg[0x3FFB] = 0x90;
    prg[0x3FFC] = 0x00;
    prg[0x3FFD] = 0x80;
    prg[0x3FFE] = 0x00;
    prg[0x3FFF] = 0xA0;
    bytes.extend_from_slice(&prg);
    bytes
}

fn machine(program: &[u8]) -> Cpu {
    let mut cpu = Cpu::load(&image(program)).unwrap();
    for _ in 0..7 {
        cpu.next();
    }
    cpu
}

fn run_instruction(cpu: &mut Cpu) -> u32 {
    let mut cycles = 0;
    loop {
        cpu.next();
        cycles += 1;
        if matches!(cpu.core.state, CpuState::FetchOpcode) && cpu.mmu.dma_stall == 0 {
            return cycles;
        }
    }
}

#[test]
fn load_reports_the_errors_of_the_image() {
    assert_eq!(Cpu::load(&vec![0; 4]).err().unwrap().kind, CartridgeErrorKind::CartridgeFormat);
    let mut bytes = image(&[]);
    bytes[6] = 0x70;
    assert_eq!(Cpu::load(&bytes).err().unwrap().kind, CartridgeErrorKind::MapperUnsupported);
}

#[test]
fn a_loaded_machine_is_at_power_on() {
    let cpu = Cpu::load(&image(&[])).unwrap();
    assert_eq!(cpu.cycles, 0);
    assert!(cpu.core.reset_pending);
    assert_eq!(cpu.core.registers.stack_pointer, 0);
    assert_eq!(cpu.core.registers.status_register.bits(), 0x34);
    assert_eq!(cpu.mmu.ram, vec![0u8; 0x800]);
    assert_eq!(cpu.get_framebuffer().len(), 256 * 240);
}

#[test]
fn work_ram_is_mirrored_every_two_kib() {
    let mut cpu = machine(&[]);
    for address in [0x0000u16, 0x0001, 0x07FF, 0x0123] {
        let value = (address as u8) ^ 0x5A;
        cpu.mmu.write_byte(address, value, 0);
        for mirror in [0u16, 0x0800, 0x1000, 0x1800] {
            assert_eq!(cpu.mmu.read_byte(address + mirror), value);
            assert_eq!(ram_index(address + mirror), address as usize);
        }
    }
    cpu.mmu.write_byte(0x1FFF, 0x77, 0);
    assert_eq!(cpu.mmu.read_byte(0x07FF), 0x77);
}

#[test]
fn picture_unit_registers_alias_every_eight_bytes() {
    let mut cpu = machine(&[]);
    // set the video address through two different mirrors of $2006
    cpu.mmu.write_byte(0x2006, 0x3F, 0);
    cpu.mmu.write_byte(0x3FFE, 0x00, 0);
    assert_eq!(cpu.mmu.ppu.registers.v, 0x3F00);
    cpu.mmu.write_byte(0x2F0F, 0x2C, 0);
    assert_eq!(cpu.mmu.ppu.palette[0], 0x2C);
    cpu.mmu.write_byte(0x2006, 0x3F, 0);
    cpu.mmu.write_byte(0x2006, 0x00, 0);
    assert_eq!(cpu.mmu.read_byte(0x3007), 0x2C);
}

#[test]
fn disabled_registers_read_as_zero() {
    let mut cpu = machine(&[]);
    for address in [0x4000u16, 0x4014, 0x4015, 0x4018, 0x401F] {
        cpu.mmu.write_byte(address & 0xFFF3, 0xFF, 0);
        assert_eq!(cpu.mmu.read_byte(address), 0);
        assert_eq!(cpu.mmu.peek_byte(address), 0);
    }
}

#[test]
fn audio_registers_keep_what_is_written() {
    let mut cpu = machine(&[]);
    cpu.mmu.write_byte(0x4000, 0x3F, 0);
    cpu.mmu.write_byte(0x4017, 0x40, 0);
    assert_eq!(cpu.mmu.apu.registers[0], 0x3F);
    assert_eq!(cpu.mmu.apu.registers[0x17], 0x40);
    assert_eq!(cpu.mmu.apu.registers[0x16], 0);
}

#[test]
fn controllers_are_read_through_the_bus() {
    let mut cpu = machine(&[]);
    cpu.button_down(Controller::One, Button::Select);
    cpu.button_down(Controller::Two, Button::A);
    cpu.mmu.write_byte(0x4016, 1, 0);
    cpu.mmu.write_byte(0x4016, 0, 0);
    let one: Vec<u8> = (0..9).map(|_| cpu.mmu.read_byte(0x4016)).collect();
    let two: Vec<u8> = (0..9).map(|_| cpu.mmu.read_byte(0x4017)).collect();
    assert_eq!(one, vec![0, 0, 1, 0, 0, 0, 0, 0, 1]);
    assert_eq!(two, vec![1, 0, 0, 0, 0, 0, 0, 0, 1]);
    cpu.button_up(Controller::One, Button::Select);
    assert_eq!(cpu.mmu.io.one.pressed, 0);
}

#[test]
fn cartridge_writes_reach_both_chips() {
    let mut bytes = vec![0x4E, 0x45, 0x53, 0x1A, 2, 2, 0x30, 0, 0, 0, 0, 0, 0, 0, 0, 0];
    bytes.extend_from_slice(&vec![0xEAu8; 0x8000]);
    let mut chr = vec![0u8; 0x4000];
    chr[0x2000] = 0x99;
    bytes.extend_from_slice(&chr);
    let mut cpu = Cpu::load(&bytes).unwrap();
    cpu.mmu.write_byte(0x8000, 1, 0);
    assert_eq!(cpu.mmu.ppu.chr_address_bus.read_byte(0x0000), 0x99);
}

#[test]
fn sprite_dma_copies_a_page_and_halts_the_processor() {
    // LDA #$02; STA $4014; LDX #$01
    let mut cpu = machine(&[0xA9, 0x02, 0x8D, 0x14, 0x40, 0xA2, 0x01]);
    for i in 0..256usize {
        cpu.mmu.ram[0x200 + i] = (i as u8) ^ 0xA5;
    }
    run_instruction(&mut cpu);
    let before = cpu.cycles;
    let cycles = run_instruction(&mut cpu);
    // the store takes 4 cycles; its write falls in an even or odd cycle
    let write_cycle = before + 3;
    assert_eq!(cycles, 4 + dma_cycles(write_cycle) as u32);
    for i in 0..256usize {
        assert_eq!(cpu.mmu.ppu.oam[i], (i as u8) ^ 0xA5);
    }
    assert_eq!(run_instruction(&mut cpu), 2);
    assert_eq!(cpu.core.registers.x, 1);
}

#[test]
fn sprite_dma_takes_513_or_514_cycles() {
    assert_eq!(dma_cycles(0), 513);
    assert_eq!(dma_cycles(1), 514);
    assert_eq!(dma_cycles(1000), 513);
    assert_eq!(dma_cycles(1001), 514);
}

#[test]
fn sprite_dma_starts_at_the_sprite_address() {
    let mut cpu = machine(&[]);
    for i in 0..256usize {
        cpu.mmu.ram[0x300 + i] = i as u8;
    }
    cpu.mmu.write_byte(0x2003, 0x10, 0);
    cpu.mmu.write_byte(0x4014, 0x03, 4);
    assert_eq!(cpu.mmu.ppu.oam[0x10], 0);
    assert_eq!(cpu.mmu.ppu.oam[0xFF], 0xEF);
    assert_eq!(cpu.mmu.ppu.oam[0x00], 0xF0);
    assert_eq!(cpu.mmu.ppu.oam[0x0F], 0xFF);
    assert_eq!(cpu.mmu.ppu.registers.oam_address, 0x10);
    assert_eq!(cpu.mmu.dma_stall, 513);
}

#[test]
fn the_picture_unit_runs_three_dots_per_cycle() {
    let mut cpu = Cpu::load(&image(&[])).unwrap();
    for cycle in 1..=1000u32 {
        cpu.next();
        let dots = cpu.mmu.ppu.timing.scanline as u32 * 341 + cpu.mmu.ppu.timing.dot as u32;
        assert_eq!(dots, 3 * cycle);
    }
}

#[test]
fn frames_complete_every_89342_dots() {
    let mut cpu = Cpu::load(&image(&[0x4C, 0x00, 0x80])).unwrap();
    let mut completed = Vec::new();
    for cycle in 1..=90_000u32 {
        cpu.next();
        if cpu.is_frame_complete_cycle() {
            completed.push(cycle);
        }
    }
    // dot 0 of line 241 is dot 82181 of the frame; it is done after 82182 dots
    assert_eq!(completed, vec![27394, 57175, 86956]);
}

#[test]
fn the_vertical_blank_interrupts_the_program() {
    // LDA #$80; STA $2000; JMP $8005
    let mut cpu = machine(&[0xA9, 0x80, 0x8D, 0x00, 0x20, 0x4C, 0x05, 0x80]);
    let mut entered = None;
    for _ in 0..40_000 {
        cpu.next();
        if cpu.core.registers.program_counter == 0x9000 && entered.is_none() {
            entered = Some(cpu.cycles);
        }
    }
    let entered = entered.unwrap();
    // the blank starts in cycle 27395; the jump in flight ends, then seven cycles of sequence
    assert!(entered > 27395 && entered <= 27395 + 3 + 7, "entered at {}", entered);
    assert_eq!(cpu.core.registers.x, 1);
    assert_eq!(cpu.core.registers.program_counter & 0xFFF8, 0x8000);
}

#[test]
fn identical_runs_give_identical_frames() {
    let program = [0xA9, 0x1E, 0x8D, 0x01, 0x20, 0x4C, 0x05, 0x80];
    let mut first = machine(&program);
    let mut second = machine(&program);
    let mut frames = 0;
    while frames < 3 {
        first.next();
        second.next();
        if frames == 1 {
            first.button_down(Controller::One, Button::A);
            second.button_down(Controller::One, Button::A);
        }
        if first.is_frame_complete_cycle() {
            assert!(second.is_frame_complete_cycle());
            assert_eq!(first.framebuffer_crc32(), second.framebuffer_crc32());
            assert_eq!(first.get_framebuffer(), second.get_framebuffer());
            frames += 1;
        }
    }
    assert_eq!(first.cycles, second.cycles);
}

#[test]
fn the_checksum_is_the_crc32_of_the_frame_bytes() {
    let mut cpu = machine(&[]);
    let bytes = framebuffer_bytes(cpu.get_framebuffer());
    assert_eq!(bytes.len(), 256 * 240 * 4);
    assert_eq!(cpu.framebuffer_crc32(), crc32fast::hash(&bytes));
    // the frame changes once the backdrop is drawn, and the checksum with it
    let blank = cpu.framebuffer_crc32();
    for _ in 0..30_000 {
        cpu.next();
    }
    assert_ne!(cpu.framebuffer_crc32(), blank);
    let bytes = framebuffer_bytes(cpu.get_framebuffer());
    assert_eq!(cpu.framebuffer_crc32(), crc32fast::hash(&bytes));
    assert_eq!(&bytes[0..4], &[0x54, 0x54, 0x54, 0xFF]);
}

#[test]
fn pixels_are_split_least_significant_byte_first() {
    assert_eq!(pixel_byte(0xFF4C9AEC, 0), 0xEC);
    assert_eq!(pixel_byte(0xFF4C9AEC, 1), 0x9A);
    assert_eq!(pixel_byte(0xFF4C9AEC, 2), 0x4C);
    assert_eq!(pixel_byte(0xFF4C9AEC, 3), 0xFF);
    assert_eq!(framebuffer_bytes(&vec![0x01020304, 0xA0B0C0D0]), vec![4, 3, 2, 1, 0xD0, 0xC0, 0xB0, 0xA0]);
}

#[test]
fn the_dump_shows_video_memory_and_sprite_memory() {
    let mut cpu = machine(&[]);
    cpu.mmu.write_byte(0x2006, 0x20, 0);
    cpu.mmu.write_byte(0x2006, 0x10, 0);
    cpu.mmu.write_byte(0x2007, 0x42, 0);
    cpu.mmu.write_byte(0x2006, 0x3F, 0);
    cpu.mmu.write_byte(0x2006, 0x10, 0);
    cpu.mmu.write_byte(0x2007, 0x2A, 0);
    cpu.mmu.write_byte(0x2006, 0x01, 0);
    cpu.mmu.write_byte(0x2006, 0x23, 0);
    cpu.mmu.write_byte(0x2007, 0x99, 0);
    cpu.mmu.write_byte(0x2003, 0x05, 0);
    cpu.mmu.write_byte(0x2004, 0x77, 0);
    let mut vram = [0u8; 0x4000];
    let oam = cpu.dump_ppu_state(&mut vram);
    assert_eq!(vram[0x0123], 0x99);
    assert_eq!(vram[0x2010], 0x42);
    assert_eq!(vram[0x2410], 0x42);
    assert_eq!(vram[0x3010], 0x42);
    assert_eq!(vram[0x3F00], 0x2A);
    assert_eq!(vram[0x3F10], 0x2A);
    assert_eq!(vram[0x3FF0], 0x2A);
    assert_eq!(oam[5], 0x77);
    assert_eq!(oam.len(), 0x100);
}

#[test]
fn set_button_presses_and_releases() {
    let mut cpu = machine(&[]);
    cpu.set_button(Controller::Two, Button::Start, true);
    assert_eq!(cpu.mmu.io.two.pressed, 0b0000_1000);
    cpu.set_button(Controller::Two, Button::Start, false);
    assert_eq!(cpu.mmu.io.two.pressed, 0);
}

#[test]
fn the_trace_shows_the_instruction_that_was_fetched() {
    // LDA $1234
    let mut cpu = machine(&[0xAD, 0x34, 0x12]);
    assert!(cpu.fetched_opcode().is_none());
    cpu.next();
    let opcode = cpu.fetched_opcode().unwrap();
    assert_eq!(opcode.operation, Operation::LDA);
    let line = cpu.nes_test_log(&opcode);
    assert_eq!(line.address, 0x8000);
    assert_eq!(line.opcode.code, 0xAD);
    assert_eq!(line.first_operand, 0x34);
    assert_eq!(line.second_operand, 0x12);
    assert_eq!((line.a, line.x, line.y), (0, 0, 0));
    assert_eq!(line.status, 0x34);
    assert_eq!(line.stack_pointer, 0xFD);
    assert_eq!(line.cycles, 8);
    cpu.next();
    assert!(cpu.fetched_opcode().is_none());
}

#[test]
fn a_schedule_runs_one_cycle_per_entry() {
    let program = [0xA9, 0x1E, 0x8D, 0x01, 0x20, 0x4C, 0x05, 0x80];
    let mut stepped = machine(&program);
    let mut scheduled = machine(&program);
    let mut inputs = vec![None; 1000];
    inputs[10] = Some(ButtonEvent { controller: Controller::One, button: Button::B, held: true });
    inputs[500] = Some(ButtonEvent { controller: Controller::One, button: Button::B, held: false });
    inputs[600] = Some(ButtonEvent { controller: Controller::Two, button: Button::Up, held: true });
    scheduled.run(&inputs);
    for cycle in 0..1000 {
        if cycle == 10 {
            stepped.button_down(Controller::One, Button::B);
        }
        if cycle == 500 {
            stepped.button_up(Controller::One, Button::B);
        }
        if cycle == 600 {
            stepped.button_down(Controller::Two, Button::Up);
        }
        stepped.next();
    }
    assert_eq!(scheduled.cycles, stepped.cycles);
    assert_eq!(scheduled.cycles, 1007);
    assert_eq!(scheduled.core.registers, stepped.core.registers);
    assert_eq!(scheduled.mmu.io, stepped.mmu.io);
    assert_eq!(scheduled.mmu.io.one.pressed, 0);
    assert_eq!(scheduled.mmu.io.two.pressed, 0b0001_0000);
    assert_eq!(scheduled.mmu.ram, stepped.mmu.ram);
    assert_eq!(scheduled.get_framebuffer(), stepped.get_framebuffer());
    assert_eq!(scheduled.framebuffer_crc32(), stepped.framebuffer_crc32());
}
