use nesemulator::cpu::opcode::opcode_mapper;
use nesemulator::cpu::address_mode::AddressMode;
use nesemulator::cpu::instruction::Instruction;
use nesemulator::cpu::Status;
use nesemulator::Emulator;

/// A ROM image with one program bank, which holds `code` at 0x8000 (and so
/// at 0xC000), and with the three vectors as given.
fn image(code: &[u8], nmi: u16, reset: u16, irq: u16) -> Vec<u8> {
    let mut rom = vec![0x4E, 0x45, 0x53, 0x1A, 1, 0, 0, 0, 0, 0, 0, 0, 0, 0, 0, 0];
    let mut prg = vec![0u8; 0x4000];
    prg[..code.len()].copy_from_slice(code);
    prg[0x3FFA] = (nmi & 0xFF) as u8;
    prg[0x3FFB] = (nmi >> 8) as u8;
    prg[0x3FFC] = (reset & 0xFF) as u8;
    prg[0x3FFD] = (reset >> 8) as u8;
    prg[0x3FFE] = (irq & 0xFF) as u8;
    prg[0x3FFF] = (irq >> 8) as u8;
    rom.extend_from_slice(&prg);
    rom
}

fn machine(code: &[u8]) -> Emulator {
    let mut emulator = Emulator::new(image(code, 0x9000, 0x8000, 0xA000)).unwrap();
    emulator.cpu.status = Status {
        carry: false,
        zero: false,
        interrupt: false,
        decimal: false,
        something1: true,
        something2: true,
        overflow: false,
        negative: false,
    };
    emulator
}

/// Runs one instruction to its end and returns the cycles that it took.
fn run_instruction(emulator: &mut Emulator) -> u64 {
    let start = emulator.cpu.cycle;
    emulator.cpu.step();
    while emulator.cpu.skip_cycles > 0 {
        emulator.cpu.step();
    }
    emulator.cpu.cycle - start
}

#[test]
fn test_reset_vector_plumbing() {
    let emulator = Emulator::new(image(&[], 0, 0x1234, 0)).unwrap();
    assert_eq!(emulator.cpu.program_counter, 0x1234);
    assert_eq!(emulator.cpu.stack_pointer, 0xFD);
    assert!(emulator.cpu.status.interrupt);
    assert_eq!(emulator.cpu.cycle, 7);
    assert_eq!(emulator.cpu.status.get_as_byte(), 0x24);
}

#[test]
fn test_adc_overflow() {
    let mut emulator = machine(&[0x69, 0x01]);
    emulator.cpu.accumulator = 0x7F;
    emulator.cpu.step();
    assert_eq!(emulator.cpu.accumulator, 0x80);
    assert!(emulator.cpu.status.negative);
    assert!(emulator.cpu.status.overflow);
    assert!(!emulator.cpu.status.zero);
    assert!(!emulator.cpu.status.carry);
    assert_eq!(emulator.cpu.program_counter, 0x8002);
}

#[test]
fn test_adc_carry_out_and_in() {
    // ADC #$01 on 0xFF gives 0 with carry; ADC #$00 then adds the carry.
    let mut emulator = machine(&[0x69, 0x01, 0x69, 0x00]);
    emulator.cpu.accumulator = 0xFF;
    run_instruction(&mut emulator);
    assert_eq!(emulator.cpu.accumulator, 0x00);
    assert!(emulator.cpu.status.carry);
    assert!(emulator.cpu.status.zero);
    assert!(!emulator.cpu.status.overflow);
    run_instruction(&mut emulator);
    assert_eq!(emulator.cpu.accumulator, 0x01);
    assert!(!emulator.cpu.status.carry);
}

#[test]
fn test_sbc_borrow_and_overflow() {
    // SEC; SBC #$01 on 0x80 gives 0x7F: no borrow, signed overflow.
    let mut emulator = machine(&[0x38, 0xE9, 0x01, 0xE9, 0x80]);
    emulator.cpu.accumulator = 0x80;
    run_instruction(&mut emulator);
    run_instruction(&mut emulator);
    assert_eq!(emulator.cpu.accumulator, 0x7F);
    assert!(emulator.cpu.status.carry);
    assert!(emulator.cpu.status.overflow);
    assert!(!emulator.cpu.status.negative);
    // SBC #$80 on 0x7F gives 0xFF with a borrow.
    run_instruction(&mut emulator);
    assert_eq!(emulator.cpu.accumulator, 0xFF);
    assert!(!emulator.cpu.status.carry);
    assert!(emulator.cpu.status.negative);
    assert!(emulator.cpu.status.overflow);
}

#[test]
fn test_page_cross_penalty() {
    // LDA $12FF,X with X = 1 reads 0x1300: four cycles and one for the page.
    let mut emulator = machine(&[0xBD, 0xFF, 0x12]);
    emulator.cpu.x_index = 0x01;
    emulator.cpu.bus.write(0x1300, 0x5A);
    emulator.cpu.step();
    assert_eq!(emulator.cpu.skip_cycles, 4);
    assert!(emulator.cpu.page_crossed);
    assert_eq!(emulator.cpu.accumulator, 0x5A);
    let mut emulator = machine(&[0xBD, 0xFF, 0x12]);
    emulator.cpu.x_index = 0x01;
    assert_eq!(run_instruction(&mut emulator), 5);
}

#[test]
fn test_no_penalty_within_a_page() {
    let mut emulator = machine(&[0xBD, 0x00, 0x03]);
    emulator.cpu.x_index = 0x10;
    emulator.cpu.bus.write(0x0310, 0x80);
    assert_eq!(run_instruction(&mut emulator), 4);
    assert_eq!(emulator.cpu.accumulator, 0x80);
    assert!(emulator.cpu.status.negative);
    assert!(!emulator.cpu.status.zero);
}

#[test]
fn test_store_takes_no_penalty() {
    // STA $12FF,X always takes five cycles.
    let mut emulator = machine(&[0x9D, 0xFF, 0x12]);
    emulator.cpu.x_index = 0x01;
    emulator.cpu.accumulator = 0x42;
    assert_eq!(run_instruction(&mut emulator), 5);
    assert_eq!(emulator.cpu.bus.read(0x1300), 0x42);
}

#[test]
fn test_branch_cycles() {
    // BNE +2 not taken (zero set): 2 cycles.
    let mut emulator = machine(&[0xD0, 0x02]);
    emulator.cpu.status.zero = true;
    assert_eq!(run_instruction(&mut emulator), 2);
    assert_eq!(emulator.cpu.program_counter, 0x8002);
    // Taken within the page: 3 cycles.
    let mut emulator = machine(&[0xD0, 0x02]);
    assert_eq!(run_instruction(&mut emulator), 3);
    assert_eq!(emulator.cpu.program_counter, 0x8004);
    // Taken backwards onto the page before: 4 cycles.
    let mut emulator = machine(&[0xD0, 0xFC]);
    assert_eq!(run_instruction(&mut emulator), 4);
    assert_eq!(emulator.cpu.program_counter, 0x7FFE);
}

#[test]
fn test_indirect_jump_wraps_within_the_page() {
    // JMP ($02FF) takes its high byte from 0x0200, not from 0x0300.
    let mut emulator = machine(&[0x6C, 0xFF, 0x02]);
    emulator.cpu.bus.write(0x02FF, 0x34);
    emulator.cpu.bus.write(0x0200, 0x12);
    emulator.cpu.bus.write(0x0300, 0x56);
    assert_eq!(run_instruction(&mut emulator), 5);
    assert_eq!(emulator.cpu.program_counter, 0x1234);
}

#[test]
fn test_indexed_indirect_and_indirect_indexed() {
    // LDA ($FE,X) with X = 1 takes its pointer from 0xFF and 0x00.
    let mut emulator = machine(&[0xA1, 0xFE, 0xB1, 0x10]);
    emulator.cpu.x_index = 1;
    emulator.cpu.bus.write(0x00FF, 0x00);
    emulator.cpu.bus.write(0x0000, 0x04);
    emulator.cpu.bus.write(0x0400, 0x77);
    assert_eq!(run_instruction(&mut emulator), 6);
    assert_eq!(emulator.cpu.accumulator, 0x77);
    // LDA ($10),Y with the pointer 0x04F0 and Y = 0x20 crosses a page.
    emulator.cpu.y_index = 0x20;
    emulator.cpu.bus.write(0x0010, 0xF0);
    emulator.cpu.bus.write(0x0011, 0x04);
    emulator.cpu.bus.write(0x0510, 0x99);
    assert_eq!(run_instruction(&mut emulator), 6);
    assert_eq!(emulator.cpu.accumulator, 0x99);
}

#[test]
fn test_zero_page_index_wraps() {
    // LDA $F0,X with X = 0x20 reads 0x0010.
    let mut emulator = machine(&[0xB5, 0xF0]);
    emulator.cpu.x_index = 0x20;
    emulator.cpu.bus.write(0x0010, 0x11);
    emulator.cpu.bus.write(0x0110, 0x22);
    assert_eq!(run_instruction(&mut emulator), 4);
    assert_eq!(emulator.cpu.accumulator, 0x11);
}

#[test]
fn test_stack_push_and_pull() {
    // LDA #$42; PHA; LDA #$00; PLA
    let mut emulator = machine(&[0xA9, 0x42, 0x48, 0xA9, 0x00, 0x68]);
    run_instruction(&mut emulator);
    assert_eq!(run_instruction(&mut emulator), 3);
    assert_eq!(emulator.cpu.stack_pointer, 0xFC);
    assert_eq!(emulator.cpu.bus.read(0x01FD), 0x42);
    run_instruction(&mut emulator);
    assert!(emulator.cpu.status.zero);
    assert_eq!(run_instruction(&mut emulator), 4);
    assert_eq!(emulator.cpu.accumulator, 0x42);
    assert_eq!(emulator.cpu.stack_pointer, 0xFD);
    assert!(!emulator.cpu.status.zero);
}

#[test]
fn test_pushed_status_has_bit_5() {
    // PHP with every flag clear pushes 0x30; with every flag set 0xFF.
    let mut emulator = machine(&[0x08, 0x08]);
    run_instruction(&mut emulator);
    assert_eq!(emulator.cpu.bus.read(0x01FD), 0x30);
    emulator.cpu.status = Status {
        carry: true,
        zero: true,
        interrupt: true,
        decimal: true,
        something1: false,
        something2: false,
        overflow: true,
        negative: true,
    };
    run_instruction(&mut emulator);
    assert_eq!(emulator.cpu.bus.read(0x01FC), 0xFF);
    assert_eq!(emulator.cpu.status.get_as_byte(), 0xEF);
    assert_eq!(emulator.cpu.status.get_pushed_byte(true), 0xFF);
}

#[test]
fn test_plp_ignores_bits_4_and_5() {
    // LDA #$CF; PHA; PLP
    let mut emulator = machine(&[0xA9, 0xCF, 0x48, 0x28]);
    run_instruction(&mut emulator);
    run_instruction(&mut emulator);
    run_instruction(&mut emulator);
    assert!(emulator.cpu.status.carry);
    assert!(emulator.cpu.status.zero);
    assert!(emulator.cpu.status.interrupt);
    assert!(emulator.cpu.status.decimal);
    assert!(emulator.cpu.status.overflow);
    assert!(emulator.cpu.status.negative);
    assert!(emulator.cpu.status.something1);
    assert!(emulator.cpu.status.something2);
    assert_eq!(emulator.cpu.status.get_as_byte(), 0xEF);
}

#[test]
fn test_jsr_and_rts() {
    // JSR $8010 ... at 0x8010: RTS
    let mut code = vec![0u8; 0x20];
    code[0] = 0x20;
    code[1] = 0x10;
    code[2] = 0x80;
    code[0x10] = 0x60;
    let mut emulator = machine(&code);
    assert_eq!(run_instruction(&mut emulator), 6);
    assert_eq!(emulator.cpu.program_counter, 0x8010);
    assert_eq!(emulator.cpu.bus.read(0x01FD), 0x80);
    assert_eq!(emulator.cpu.bus.read(0x01FC), 0x02);
    assert_eq!(run_instruction(&mut emulator), 6);
    assert_eq!(emulator.cpu.program_counter, 0x8003);
    assert_eq!(emulator.cpu.stack_pointer, 0xFD);
}

#[test]
fn test_brk_and_rti() {
    // BRK at 0x8000; the handler at 0xA000 is RTI.
    let mut code = vec![0u8; 0x2001];
    code[0] = 0x00;
    code[0x2000] = 0x40;
    let mut emulator = machine(&code);
    emulator.cpu.status.carry = true;
    assert_eq!(run_instruction(&mut emulator), 7);
    assert_eq!(emulator.cpu.program_counter, 0xA000);
    assert!(emulator.cpu.status.interrupt);
    // The return address is two bytes behind the opcode; bits 4 and 5 are set.
    assert_eq!(emulator.cpu.bus.read(0x01FD), 0x80);
    assert_eq!(emulator.cpu.bus.read(0x01FC), 0x02);
    assert_eq!(emulator.cpu.bus.read(0x01FB), 0x31);
    assert_eq!(run_instruction(&mut emulator), 6);
    assert_eq!(emulator.cpu.program_counter, 0x8002);
    assert!(emulator.cpu.status.carry);
    assert!(!emulator.cpu.status.interrupt);
}

#[test]
fn test_shifts_and_rotates() {
    // ASL A; ROL A; LSR A; ROR A
    let mut emulator = machine(&[0x0A, 0x2A, 0x4A, 0x6A]);
    emulator.cpu.accumulator = 0x81;
    run_instruction(&mut emulator);
    assert_eq!(emulator.cpu.accumulator, 0x02);
    assert!(emulator.cpu.status.carry);
    run_instruction(&mut emulator);
    assert_eq!(emulator.cpu.accumulator, 0x05);
    assert!(!emulator.cpu.status.carry);
    run_instruction(&mut emulator);
    assert_eq!(emulator.cpu.accumulator, 0x02);
    assert!(emulator.cpu.status.carry);
    run_instruction(&mut emulator);
    assert_eq!(emulator.cpu.accumulator, 0x81);
    assert!(!emulator.cpu.status.carry);
    assert!(emulator.cpu.status.negative);
}

#[test]
fn test_rotate_sets_zero() {
    // ROL A on 0x80 with the carry clear leaves 0 and sets zero and carry.
    let mut emulator = machine(&[0x2A]);
    emulator.cpu.accumulator = 0x80;
    run_instruction(&mut emulator);
    assert_eq!(emulator.cpu.accumulator, 0x00);
    assert!(emulator.cpu.status.carry);
    assert!(emulator.cpu.status.zero);
    assert!(!emulator.cpu.status.negative);
}

#[test]
fn test_memory_shift_and_increment() {
    // ASL $10; INC $10; DEC $11; LSR $12; ROR $12
    let mut emulator = machine(&[0x06, 0x10, 0xE6, 0x10, 0xC6, 0x11, 0x46, 0x12, 0x66, 0x12]);
    emulator.cpu.bus.write(0x0010, 0xC0);
    emulator.cpu.bus.write(0x0012, 0x03);
    assert_eq!(run_instruction(&mut emulator), 5);
    assert_eq!(emulator.cpu.bus.read(0x0010), 0x80);
    assert!(emulator.cpu.status.carry);
    assert!(emulator.cpu.status.negative);
    assert_eq!(run_instruction(&mut emulator), 5);
    assert_eq!(emulator.cpu.bus.read(0x0010), 0x81);
    run_instruction(&mut emulator);
    assert_eq!(emulator.cpu.bus.read(0x0011), 0xFF);
    assert!(emulator.cpu.status.negative);
    run_instruction(&mut emulator);
    assert_eq!(emulator.cpu.bus.read(0x0012), 0x01);
    assert!(emulator.cpu.status.carry);
    run_instruction(&mut emulator);
    assert_eq!(emulator.cpu.bus.read(0x0012), 0x80);
    assert!(emulator.cpu.status.carry);
}

#[test]
fn test_compare() {
    // CMP #$10 with A = 0x10, 0x20 and 0x00; CPX #$01; CPY #$FF
    let mut emulator = machine(&[0xC9, 0x10, 0xC9, 0x10, 0xC9, 0x10, 0xE0, 0x01, 0xC0, 0xFF]);
    emulator.cpu.accumulator = 0x10;
    assert_eq!(run_instruction(&mut emulator), 2);
    assert!(emulator.cpu.status.carry && emulator.cpu.status.zero);
    assert!(!emulator.cpu.status.negative);
    emulator.cpu.accumulator = 0x20;
    run_instruction(&mut emulator);
    assert!(emulator.cpu.status.carry && !emulator.cpu.status.zero);
    emulator.cpu.accumulator = 0x00;
    run_instruction(&mut emulator);
    assert!(!emulator.cpu.status.carry && !emulator.cpu.status.zero);
    assert!(emulator.cpu.status.negative);
    emulator.cpu.x_index = 0x01;
    run_instruction(&mut emulator);
    assert!(emulator.cpu.status.carry && emulator.cpu.status.zero);
    emulator.cpu.y_index = 0x00;
    run_instruction(&mut emulator);
    assert!(!emulator.cpu.status.carry && !emulator.cpu.status.zero);
    assert!(!emulator.cpu.status.negative);
}

#[test]
fn test_bit() {
    let mut emulator = machine(&[0x24, 0x10]);
    emulator.cpu.bus.write(0x0010, 0xC0);
    emulator.cpu.accumulator = 0x3F;
    assert_eq!(run_instruction(&mut emulator), 3);
    assert!(emulator.cpu.status.zero);
    assert!(emulator.cpu.status.negative);
    assert!(emulator.cpu.status.overflow);
}

#[test]
fn test_logic_and_transfers() {
    // LDA #$F0; AND #$3C; ORA #$01; EOR #$FF; TAX; TAY; INX; DEY; TXA; TXS; TSX
    let mut emulator = machine(
        &[0xA9, 0xF0, 0x29, 0x3C, 0x09, 0x01, 0x49, 0xFF, 0xAA, 0xA8, 0xE8, 0x88, 0x8A, 0x9A, 0xBA],
    );
    run_instruction(&mut emulator);
    run_instruction(&mut emulator);
    assert_eq!(emulator.cpu.accumulator, 0x30);
    run_instruction(&mut emulator);
    assert_eq!(emulator.cpu.accumulator, 0x31);
    run_instruction(&mut emulator);
    assert_eq!(emulator.cpu.accumulator, 0xCE);
    assert!(emulator.cpu.status.negative);
    run_instruction(&mut emulator);
    run_instruction(&mut emulator);
    assert_eq!(emulator.cpu.x_index, 0xCE);
    assert_eq!(emulator.cpu.y_index, 0xCE);
    run_instruction(&mut emulator);
    run_instruction(&mut emulator);
    assert_eq!(emulator.cpu.x_index, 0xCF);
    assert_eq!(emulator.cpu.y_index, 0xCD);
    run_instruction(&mut emulator);
    assert_eq!(emulator.cpu.accumulator, 0xCF);
    run_instruction(&mut emulator);
    assert_eq!(emulator.cpu.stack_pointer, 0xCF);
    emulator.cpu.x_index = 0;
    run_instruction(&mut emulator);
    assert_eq!(emulator.cpu.x_index, 0xCF);
}

#[test]
fn test_flag_instructions() {
    // SEC; SED; SEI; CLC; CLD; CLI; CLV
    let mut emulator = machine(&[0x38, 0xF8, 0x78, 0x18, 0xD8, 0x58, 0xB8]);
    emulator.cpu.status.overflow = true;
    run_instruction(&mut emulator);
    run_instruction(&mut emulator);
    run_instruction(&mut emulator);
    assert!(emulator.cpu.status.carry);
    assert!(emulator.cpu.status.decimal);
    assert!(emulator.cpu.status.interrupt);
    run_instruction(&mut emulator);
    run_instruction(&mut emulator);
    run_instruction(&mut emulator);
    run_instruction(&mut emulator);
    assert!(!emulator.cpu.status.carry);
    assert!(!emulator.cpu.status.decimal);
    assert!(!emulator.cpu.status.interrupt);
    assert!(!emulator.cpu.status.overflow);
}

#[test]
fn test_cycle_counter_never_goes_down() {
    let mut emulator = machine(&[0xA9, 0x01, 0x4C, 0x00, 0x80]);
    let mut last = emulator.cpu.cycle;
    for _ in 0..1000 {
        emulator.step();
        assert_eq!(emulator.cpu.cycle, last + 1);
        last = emulator.cpu.cycle;
    }
}

#[test]
fn test_unofficial_opcode_is_stepped_over() {
    let mut emulator = machine(&[0x02, 0xEA]);
    assert_eq!(run_instruction(&mut emulator), 2);
    assert_eq!(emulator.cpu.program_counter, 0x8001);
    assert_eq!(run_instruction(&mut emulator), 2);
    assert_eq!(emulator.cpu.program_counter, 0x8002);
}

#[test]
fn test_opcode_table() {
    let lda = opcode_mapper(0xBD);
    assert!(lda.instruction == Instruction::LDA);
    assert!(lda.address_mode == AddressMode::AbsX);
    assert_eq!(lda.cycles, 4);
    let brk = opcode_mapper(0x00);
    assert!(brk.instruction == Instruction::BRK);
    assert_eq!(brk.cycles, 7);
    let jmp = opcode_mapper(0x6C);
    assert!(jmp.instruction == Instruction::JMP);
    assert!(jmp.address_mode == AddressMode::Ind);
    assert_eq!(jmp.cycles, 5);
    let mut official = 0;
    for byte in 0..=255u8 {
        if opcode_mapper(byte).instruction != Instruction::Invalid {
            official += 1;
        }
    }
    assert_eq!(official, 151);
}

#[test]
fn test_nmi_is_taken() {
    // An endless loop at 0x8000; the handler at 0x9000.
    let mut emulator = machine(&[0x4C, 0x00, 0x80]);
    emulator.cpu.bus.write(0x2000, 0x80);
    emulator.cpu.status.carry = true;
    emulator.cpu.bus.ppu.as_mut().unwrap().nmi_occurred = true;
    let pc = emulator.cpu.program_counter;
    emulator.cpu.handle_nmi();
    assert_eq!(emulator.cpu.program_counter, 0x9000);
    assert!(emulator.cpu.status.interrupt);
    assert_eq!(emulator.cpu.bus.read(0x01FD), (pc >> 8) as u8);
    assert_eq!(emulator.cpu.bus.read(0x01FC), (pc & 0xFF) as u8);
    // Bit 5 set, bit 4 clear, carry set.
    assert_eq!(emulator.cpu.bus.read(0x01FB), 0x21);
}

#[test]
fn test_nmi_at_vertical_blank() {
    // An endless loop at 0x8000; the handler at 0x9000 is an endless loop too.
    let mut code = vec![0u8; 0x1003];
    code[..3].copy_from_slice(&[0x4C, 0x00, 0x80]);
    code[0x1000..].copy_from_slice(&[0x4C, 0x00, 0x90]);
    let mut emulator = machine(&code);
    emulator.cpu.bus.write(0x2000, 0x80);
    let mut taken = false;
    for _ in 0..30000 {
        emulator.step();
        if emulator.cpu.program_counter == 0x9000 {
            taken = true;
            break;
        }
    }
    assert!(taken);
    let ppu = emulator.cpu.bus.ppu.as_ref().unwrap();
    assert_eq!(ppu.y, 241);
    assert!(ppu.x < 8);
}

#[test]
fn test_no_nmi_while_disabled() {
    let mut emulator = machine(&[0x4C, 0x00, 0x80]);
    for _ in 0..30000 {
        emulator.step();
        assert!(emulator.cpu.program_counter < 0x8004);
    }
}

#[test]
fn test_oamdma_copies_a_page_and_stalls() {
    // LDA #$02; STA $4014; NOP
    let mut emulator = machine(&[0xA9, 0x02, 0x8D, 0x14, 0x40, 0xEA]);
    for i in 0..256u16 {
        emulator.cpu.bus.write(0x0200 + i, (i as u8) ^ 0x5A);
    }
    run_instruction(&mut emulator);
    run_instruction(&mut emulator);
    assert!(emulator.cpu.bus.oamdma_occurred);
    assert_eq!(emulator.cpu.bus.oamdma_high_byte, 0x0200);
    let start = emulator.cpu.cycle;
    let parity = (start + 1) % 2;
    while emulator.cpu.program_counter == 0x8005 {
        emulator.cpu.step();
    }
    // The stall, then the first cycle of the NOP.
    assert_eq!(emulator.cpu.cycle - start, 513 + parity + 1);
    let ppu = emulator.cpu.bus.ppu.as_ref().unwrap();
    for i in 0..256usize {
        assert_eq!(ppu.oam_primary[i], (i as u8) ^ 0x5A);
    }
}
