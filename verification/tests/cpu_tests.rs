use rusty_gameboy::cli::Subcommand;
use rusty_gameboy::cpu_core::cpu::{Cpu, CpuError, RegIndex};

fn read_sp(cpu: &Cpu) -> u16 {
    cpu.read_reg(RegIndex::SP)
}

// Checks that A (of AF), BC, DE, and HL are zero.
// The flag register (F in AF) is checked separately.
fn check_scratch_regs_are_zero(cpu: &Cpu) {
    assert_eq!(cpu.read_reg_upper(RegIndex::AF), 0);

    assert_eq!(cpu.read_reg(RegIndex::BC), 0);
    assert_eq!(cpu.read_reg(RegIndex::DE), 0);
    assert_eq!(cpu.read_reg(RegIndex::HL), 0);
}

fn read_flag_reg(cpu: &Cpu) -> u8 {
    cpu.read_reg_lower(RegIndex::AF)
}

/*
    Tests that execute() correctly decodes each instruction.
    0xFF bytes are unused filler, inserted so that the instruction
    under test sits at an arbitrary program counter.
*/

#[test]
fn test_nop() {
    // 0x00 = opcode
    let rom: Vec<u8> = vec![0x00, 0xFF, 0xFF, 0x00, 0xFF];

    let mut cpu = Cpu::new_from_vec(rom);
    let start_pc = 3;
    cpu.write_reg(RegIndex::PC, start_pc);
    assert!(cpu.execute().is_ok());

    assert_eq!(cpu.read_pc(), start_pc + 1); // size of instruction
    check_scratch_regs_are_zero(&cpu);
}

// This opcode specifically loads into SP always.
// test_ld_d16_rp, on the other hand, can load into any register pair.
#[test]
fn test_ld_d16_sp() {
    let rom: Vec<u8> = vec![
        0xFF, 0xFF, 0x08, // 0x08 = opcode
        0xFF, // first byte of 16-bit data
        0xA7, // second byte of 16-bit data
        0xFF, 0xFF,
    ];
    let mut cpu = Cpu::new_from_vec(rom);
    let start_pc = 2;
    cpu.write_reg(RegIndex::PC, start_pc);
    assert!(cpu.execute().is_ok());

    assert_eq!(cpu.read_pc(), start_pc + 3); // size of instruction
    assert_eq!(read_sp(&cpu), 0xFFA7);
    check_scratch_regs_are_zero(&cpu);
}

#[test]
fn test_jr_d8() {
    // Opcode = 0x18
    let rom: Vec<u8> = vec![0xFF, 0x18, 0x05, 0xFF, 0xFF, 0xFF, 0xFF];

    let mut cpu = Cpu::new_from_vec(rom);
    let start_pc = 1;
    cpu.write_reg(RegIndex::PC, start_pc);
    assert!(cpu.execute().is_ok());

    assert_eq!(cpu.read_pc(), start_pc + 0x05);
    check_scratch_regs_are_zero(&cpu);
}

// Jump with a negative offset.
#[test]
fn test_jr_d8_negative() {
    // Opcode = 0x18
    // 0xFC = -4 (two's complement)
    let rom: Vec<u8> = vec![0xFF, 0x18, 0x05, 0xFF, 0xFF, 0x18, 0xFC];

    let mut cpu = Cpu::new_from_vec(rom);
    let start_pc = 5;
    cpu.write_reg(RegIndex::PC, start_pc);
    assert!(cpu.execute().is_ok());

    assert_eq!(cpu.read_pc(), start_pc - 0x04);
    check_scratch_regs_are_zero(&cpu);
    assert_eq!(read_flag_reg(&cpu), 0);
}

fn run_add_hl_rp(opcode: u8, reg_op: RegIndex, hl_val: u16, reg_op_val: u16, expected_flag_reg_val: u8) {
    let start_pc = 2; // arbitrary value
    // All bytes except at start_pc are arbitrary and unused.
    let mut rom: Vec<u8> = vec![0xFF, 0xFF, 0x00, 0x00, 0xFF, 0xFF, 0x00, 0x00];
    rom[start_pc as usize] = opcode;
    let mut cpu = Cpu::new_from_vec(rom);
    cpu.write_reg(RegIndex::PC, start_pc as u16);
    cpu.write_reg(RegIndex::HL, hl_val);
    cpu.write_reg(reg_op, reg_op_val);

    assert!(cpu.execute().is_ok());

    let overflow_check = hl_val.checked_add(reg_op_val);
    if reg_op == RegIndex::HL {
        if overflow_check != None {
            assert_eq!(cpu.read_reg(RegIndex::HL), reg_op_val + reg_op_val);
        }
    } else {
        if overflow_check != None {
            assert_eq!(cpu.read_reg(RegIndex::HL), hl_val + reg_op_val);
        }
        assert_eq!(cpu.read_reg(reg_op), reg_op_val); // the operand register is unchanged
    }
    assert_eq!(cpu.read_reg_lower(RegIndex::AF), expected_flag_reg_val);
}

#[test]
fn test_add_hl_rp() {
    run_add_hl_rp(0x09, RegIndex::BC, 151, 75, 0b0000_0000);
    run_add_hl_rp(0x09, RegIndex::BC, 4095, 10, 0b0010_0000);
    run_add_hl_rp(0x09, RegIndex::BC, 65535, 25, 0b0011_0000);
    run_add_hl_rp(0x19, RegIndex::DE, 151, 75, 0b0000_0000);
    run_add_hl_rp(0x29, RegIndex::HL, 151, 75, 0b0000_0000);
    run_add_hl_rp(0x39, RegIndex::SP, 151, 75, 0b0000_0000);
}

#[test]
fn test_add_hl_rp_wraps() {
    // 65535 + 25 wraps to 24 and reports both carries in the flags.
    run_add_hl_rp(0x09, RegIndex::BC, 65535, 25, 0b0011_0000);
    let rom: Vec<u8> = vec![0x09, 0xFF];
    let mut cpu = Cpu::new_from_vec(rom);
    cpu.write_reg(RegIndex::HL, 65535);
    cpu.write_reg(RegIndex::BC, 25);
    assert!(cpu.execute().is_ok());
    assert_eq!(cpu.read_reg(RegIndex::HL), 24);
}

fn run_ld_d16_rp(opcode: u8, reg: RegIndex) {
    let mut rom: Vec<u8> = vec![
        0xFF, 0xFF, 0x00, 0x41, // first byte of 16-bit data
        0x23, // second byte of 16-bit data
        0xFF, 0xFF,
    ];
    rom[2] = opcode;

    let mut cpu = Cpu::new_from_vec(rom);
    let start_pc = 2;
    cpu.write_reg(RegIndex::PC, start_pc);
    assert!(cpu.execute().is_ok());

    assert_eq!(cpu.read_pc(), start_pc + 3); // size of instruction
    assert_eq!(cpu.read_reg(reg), 0x4123);

    // Registers other than the target and PC were not modified.
    let regs_to_check = [RegIndex::AF, RegIndex::BC, RegIndex::DE, RegIndex::HL];
    for reg_to_check in regs_to_check.iter() {
        if reg == *reg_to_check {
            continue;
        }
        assert_eq!(cpu.read_reg(*reg_to_check), 0);
    }
}

#[test]
fn test_ld_d16_rp() {
    run_ld_d16_rp(0x01, RegIndex::BC);
    run_ld_d16_rp(0x11, RegIndex::DE);
    run_ld_d16_rp(0x21, RegIndex::HL);
    run_ld_d16_rp(0x31, RegIndex::SP);
}

// The byte at PC+1 becomes the high byte of the loaded pair: 0xFF then
// 0xA7 in the stream load SP = 0xFFA7.
#[test]
fn test_immediate_load_byte_order() {
    let rom: Vec<u8> = vec![0x31, 0xFF, 0xA7];
    let mut cpu = Cpu::new_from_vec(rom);
    assert!(cpu.execute().is_ok());
    assert_eq!(read_sp(&cpu), 0xFFA7);
    assert_eq!(cpu.read_pc(), 3);
    check_scratch_regs_are_zero(&cpu);
}

/*
    Conditional jumps:
    0x20: jump if the Zero flag is NOT set
    0x28: jump if the Zero flag is set
    0x30: jump if the Carry flag is NOT set
    0x38: jump if the Carry flag is set
    Taken jumps land on the displaced target; a jump not taken advances
    past the two-byte instruction. The flag register itself is unchanged
    either way.
*/

fn run_jr_d8_cond(opcode: u8, flag_reg_val: u8, start_pc: u16, expected_pc: u16) {
    // 0xFC = -4 (two's complement)
    let mut rom: Vec<u8> = vec![0xFF, 0x18, 0x05, 0xFF, 0xFF, 0x00, 0xFC];
    rom[start_pc as usize] = opcode;
    let mut cpu = Cpu::new_from_vec(rom);
    cpu.write_reg(RegIndex::PC, start_pc);
    cpu.write_reg_lower(RegIndex::AF, flag_reg_val);

    assert!(cpu.execute().is_ok());

    assert_eq!(cpu.read_pc(), expected_pc);
    check_scratch_regs_are_zero(&cpu);
    assert_eq!(read_flag_reg(&cpu), flag_reg_val);
}

#[test]
fn test_jr_d8_cond_nz_jump() {
    // The Zero flag (bit 7) is clear: NZ jumps.
    run_jr_d8_cond(0x20, 0b0111_1111, 5, 1);
}

#[test]
fn test_jr_d8_cond_nz_no_jump() {
    run_jr_d8_cond(0x20, 0b1000_0000, 5, 7);
}

#[test]
fn test_jr_d8_cond_z_jump() {
    run_jr_d8_cond(0x28, 0b1000_0000, 5, 1);
}

#[test]
fn test_jr_d8_cond_z_no_jump() {
    run_jr_d8_cond(0x28, 0b0111_1111, 5, 7);
}

#[test]
fn test_jr_d8_cond_nc_jump() {
    // The Carry flag (bit 4) is clear: NC jumps.
    run_jr_d8_cond(0x30, 0b1110_1111, 5, 1);
}

#[test]
fn test_jr_d8_cond_nc_no_jump() {
    run_jr_d8_cond(0x30, 0b0001_0000, 5, 7);
}

#[test]
fn test_jr_d8_cond_c_jump() {
    run_jr_d8_cond(0x38, 0b0001_0000, 5, 1);
}

#[test]
fn test_jr_d8_cond_c_no_jump() {
    run_jr_d8_cond(0x38, 0b1110_1111, 5, 7);
}

/*
    The defined failure outcomes.
*/

#[test]
fn test_stop_unimplemented() {
    // 0x10 = STOP: recognized, not built, never silently continued past.
    let rom: Vec<u8> = vec![0x10, 0x00];
    let mut cpu = Cpu::new_from_vec(rom);
    let result = cpu.execute();
    assert!(matches!(result, Err(CpuError::UnimplementedOpcode { opcode: 0x10, pc: 0, .. })));
    assert_eq!(cpu.read_pc(), 0); // nothing advanced
}

#[test]
fn test_high_x_unimplemented() {
    // 0x80 has x = 2: outside this core.
    let rom: Vec<u8> = vec![0x80];
    let mut cpu = Cpu::new_from_vec(rom);
    let result = cpu.execute();
    assert!(matches!(result, Err(CpuError::UnimplementedOpcode { opcode: 0x80, pc: 0, .. })));
    assert_eq!(cpu.read_pc(), 0);
}

#[test]
fn test_z_field_unimplemented() {
    // 0x02 has x = 0 and z = 2: a recognized row with no handler yet.
    let rom: Vec<u8> = vec![0x02];
    let mut cpu = Cpu::new_from_vec(rom);
    let result = cpu.execute();
    assert!(matches!(result, Err(CpuError::UnimplementedOpcode { opcode: 0x02, pc: 0, .. })));
    assert_eq!(cpu.read_pc(), 0);
}

#[test]
fn test_pc_beyond_image() {
    let rom: Vec<u8> = vec![0x00, 0x00];
    let mut cpu = Cpu::new_from_vec(rom);
    cpu.write_reg(RegIndex::PC, 2);
    let result = cpu.execute();
    assert_eq!(result, Err(CpuError::ProgramCounterOutOfBounds { pc: 2, image_len: 2 }));
    assert_eq!(cpu.read_pc(), 2);
}

#[test]
fn test_empty_image() {
    let mut cpu = Cpu::new_from_vec(Vec::new());
    let result = cpu.execute();
    assert_eq!(result, Err(CpuError::ProgramCounterOutOfBounds { pc: 0, image_len: 0 }));
}

#[test]
fn test_ld_missing_immediate() {
    // LD SP,d16 needs two bytes after the opcode; the image ends first.
    let rom: Vec<u8> = vec![0xFF, 0x31, 0x12];
    let mut cpu = Cpu::new_from_vec(rom);
    cpu.write_reg(RegIndex::PC, 1);
    let result = cpu.execute();
    assert_eq!(result, Err(CpuError::ProgramCounterOutOfBounds { pc: 1, image_len: 3 }));
    assert_eq!(read_sp(&cpu), 0); // nothing loaded
    assert_eq!(cpu.read_pc(), 1);
}

#[test]
fn test_jr_missing_displacement() {
    let rom: Vec<u8> = vec![0x18];
    let mut cpu = Cpu::new_from_vec(rom);
    let result = cpu.execute();
    assert_eq!(result, Err(CpuError::ProgramCounterOutOfBounds { pc: 0, image_len: 1 }));
    assert_eq!(cpu.read_pc(), 0);
}

#[test]
fn test_jr_target_before_image() {
    // A displacement of -5 from PC=0 would leave the 16-bit address range.
    let rom: Vec<u8> = vec![0x18, 0xFB];
    let mut cpu = Cpu::new_from_vec(rom);
    let result = cpu.execute();
    assert_eq!(result, Err(CpuError::ProgramCounterOutOfBounds { pc: 0, image_len: 2 }));
    assert_eq!(cpu.read_pc(), 0); // the failed jump moved nothing
}

/*
    The cycle counter and the run-once entry point.
*/

#[test]
fn test_cycle_counter() {
    let rom: Vec<u8> = vec![0x31, 0x01, 0x02, 0x18, 0xFD, 0x00];
    let mut cpu = Cpu::new_from_vec(rom);
    assert_eq!(cpu.read_cycle(), 0);
    assert!(cpu.execute().is_ok()); // LD SP,d16: 12 cycles
    assert_eq!(cpu.read_cycle(), 12);
    assert!(cpu.execute().is_ok()); // JR back to 0: 12 cycles
    assert_eq!(cpu.read_cycle(), 24);
    assert_eq!(cpu.read_pc(), 0);
}

#[test]
fn test_start_runs_one_step() {
    let rom: Vec<u8> = vec![0x00, 0x00];
    let mut cpu = Cpu::new_from_vec(rom);
    assert!(cpu.start(Subcommand::Run).is_ok());
    assert_eq!(cpu.read_pc(), 1);
    assert_eq!(cpu.rom_len(), 2);
}
