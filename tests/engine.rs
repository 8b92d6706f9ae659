use maxemu::cpu::{Status, CPU, PROGRAM_START, STATUS_ADDRESS};
use maxemu::display::{intensity, DISPLAY_PIXELS, DISPLAY_START};
use maxemu::input::{key_code, status_from_keys, InputKey};
use maxemu::isa::{instruction_length, parse_instruction, CpuError, Instruction};

fn run_program(program: Vec<u8>, registers: [u8; 4]) -> (CPU, Result<(), CpuError>) {
    let mut cpu = CPU::new();
    cpu.registers = registers;
    cpu.load(program).unwrap();
    let r = cpu.run();
    (cpu, r)
}

#[test]
fn load_immediate_every_register() {
    for r in 0u8..4 {
        for v in [0u8, 1, 127, 128, 255] {
            let (cpu, res) = run_program(vec![0x10, r, v, 0x00], [0; 4]);
            assert_eq!(res, Ok(()));
            assert_eq!(cpu.registers[r as usize], v);
        }
    }
}

#[test]
fn load_register_keeps_source() {
    let (cpu, res) = run_program(vec![0x11, 0x02, 0x03, 0x00], [0, 0, 0, 42]);
    assert_eq!(res, Ok(()));
    assert_eq!(cpu.registers, [0, 0, 42, 42]);
}

#[test]
fn add_reg_wraps() {
    let (cpu, _) = run_program(vec![0x52, 0x00, 0x01, 0x02, 0x00], [255, 5, 0, 0]);
    assert_eq!(cpu.registers[2], 4);
}

#[test]
fn sub_reg_wraps() {
    let (cpu, _) = run_program(vec![0x53, 0x00, 0x01, 0x02, 0x00], [0, 5, 0, 0]);
    assert_eq!(cpu.registers[2], 251);
}

#[test]
fn inc_and_dec_wrap() {
    let (cpu, _) = run_program(vec![0x50, 0x00, 0x51, 0x01, 0x00], [255, 0, 0, 0]);
    assert_eq!(cpu.registers[0], 0);
    assert_eq!(cpu.registers[1], 255);
}

#[test]
fn cmp_eq_reg_values() {
    let (cpu, _) = run_program(vec![0x30, 0x00, 0x01, 0x02, 0x00], [100, 100, 7, 0]);
    assert_eq!(cpu.registers[2], 1);
    let (cpu, _) = run_program(vec![0x30, 0x00, 0x01, 0x02, 0x00], [100, 200, 7, 0]);
    assert_eq!(cpu.registers[2], 0);
}

#[test]
fn cmp_gt_reg_values() {
    let (cpu, _) = run_program(vec![0x32, 0x00, 0x01, 0x02, 0x00], [9, 3, 7, 0]);
    assert_eq!(cpu.registers[2], 1);
    let (cpu, _) = run_program(vec![0x32, 0x00, 0x01, 0x02, 0x00], [3, 3, 7, 0]);
    assert_eq!(cpu.registers[2], 0);
}

#[test]
fn cmp_lt_compares_two_registers() {
    // The second operand names a register, not a literal.
    let (cpu, _) = run_program(vec![0x33, 0x00, 0x01, 0x02, 0x00], [3, 9, 7, 0]);
    assert_eq!(cpu.registers[2], 1);
    let (cpu, _) = run_program(vec![0x33, 0x00, 0x01, 0x02, 0x00], [3, 2, 7, 0]);
    assert_eq!(cpu.registers[2], 0);
    let (_, res) = run_program(vec![0x33, 0x00, 0x09, 0x02, 0x00], [3, 2, 7, 0]);
    assert_eq!(res, Err(CpuError::InvalidRegisterIndex));
}

#[test]
fn jump_if_taken_sets_pc_to_target() {
    let mut cpu = CPU::new();
    cpu.registers[1] = 1;
    cpu.load(vec![0x40, 0x01, 0x12, 0x34]).unwrap();
    assert_eq!(cpu.step(), Ok(Status::Running));
    assert_eq!(cpu.pc, 0x1234);
}

#[test]
fn jump_if_not_taken_skips_target() {
    let mut cpu = CPU::new();
    cpu.registers[1] = 2;
    cpu.load(vec![0x40, 0x01, 0x12, 0x34]).unwrap();
    assert_eq!(cpu.step(), Ok(Status::Running));
    assert_eq!(cpu.pc, PROGRAM_START + 4);
}

#[test]
fn halt_stops_before_later_instructions() {
    let (cpu, res) = run_program(vec![0x10, 0x00, 0x07, 0x00, 0x10, 0x00, 0x09, 0x00], [0; 4]);
    assert_eq!(res, Ok(()));
    assert_eq!(cpu.registers, [7, 0, 0, 0]);
    assert_eq!(cpu.pc, PROGRAM_START + 4);
}

#[test]
fn invalid_register_index_is_fatal() {
    let (cpu, res) = run_program(vec![0x10, 0x04, 0x07, 0x10, 0x00, 0x09, 0x00], [1, 2, 3, 4]);
    assert_eq!(res, Err(CpuError::InvalidRegisterIndex));
    assert_eq!(cpu.registers, [1, 2, 3, 4]);
    assert_eq!(cpu.pc, PROGRAM_START);
}

#[test]
fn store_with_bad_register_writes_nothing() {
    let (cpu, res) = run_program(vec![0x20, 0x00, 0xAB, 0xFF, 0x00], [9, 9, 9, 9]);
    assert_eq!(res, Err(CpuError::InvalidRegisterIndex));
    assert_eq!(cpu.mem_read(0x00AB), 0);
}

#[test]
fn unknown_opcode_is_fatal() {
    let (cpu, res) = run_program(vec![0x10, 0x00, 0x07, 0x99, 0x00], [0; 4]);
    assert_eq!(res, Err(CpuError::UnknownOpcode));
    assert_eq!(cpu.registers[0], 7);
    assert_eq!(cpu.pc, PROGRAM_START + 3);
}

#[test]
fn address_past_memory_is_fatal() {
    let (_, res) = run_program(vec![0x12, 0x00, 0xFF, 0xFF, 0x00], [0; 4]);
    assert_eq!(res, Err(CpuError::AddressOutOfRange));
    let mut cpu = CPU::new();
    cpu.pc = 0xFFFF;
    assert_eq!(cpu.step(), Err(CpuError::AddressOutOfRange));
    let mut cpu = CPU::new();
    cpu.mem_write(0xFFFE, 0x50);
    cpu.pc = 0xFFFE;
    assert_eq!(cpu.step(), Err(CpuError::AddressOutOfRange));
}

#[test]
fn load_is_verbatim_copy() {
    let mut cpu = CPU::new();
    cpu.pc = 12;
    let program = vec![3u8, 1, 4, 1, 5, 9, 2, 6];
    cpu.load(program.clone()).unwrap();
    assert_eq!(cpu.pc, PROGRAM_START);
    for (i, b) in program.iter().enumerate() {
        assert_eq!(cpu.mem_read(PROGRAM_START + i as u16), *b);
    }
    assert_eq!(cpu.mem_read(PROGRAM_START + 8), 0);
    assert_eq!(cpu.mem_read(PROGRAM_START - 1), 0);
}

#[test]
fn load_largest_and_too_large() {
    let mut cpu = CPU::new();
    assert_eq!(cpu.load(vec![0xFF; 0xFFFF - 0x8000]), Ok(()));
    assert_eq!(cpu.mem_read(0xFFFE), 0xFF);
    let mut cpu = CPU::new();
    cpu.pc = 5;
    assert_eq!(cpu.load(vec![0xFF; 0xFFFF - 0x8000 + 1]), Err(CpuError::ProgramTooLarge));
    assert_eq!(cpu.pc, 5);
    assert_eq!(cpu.mem_read(0x8000), 0);
}

#[test]
fn end_to_end_load_immediate() {
    let (cpu, res) = run_program(vec![0x10, 0x00, 0xFF, 0x00], [0; 4]);
    assert_eq!(res, Ok(()));
    assert_eq!(cpu.registers[0], 0xFF);
}

#[test]
fn end_to_end_add_wraps() {
    let (cpu, res) = run_program(vec![0x52, 0x00, 0x01, 0x02, 0x00], [255, 5, 0, 0]);
    assert_eq!(res, Ok(()));
    assert_eq!(cpu.registers[2], 4);
}

#[test]
fn imm_arithmetic_and_compare() {
    let (cpu, _) = run_program(
        vec![0x54, 0x00, 0x0A, 0x01, 0x55, 0x00, 0x0A, 0x02, 0x31, 0x01, 0x0F, 0x03, 0x00],
        [5, 0, 0, 0],
    );
    assert_eq!(cpu.registers, [5, 15, 251, 1]);
}

#[test]
fn store_then_load_memory() {
    let (cpu, res) = run_program(vec![0x20, 0x12, 0x34, 0x00, 0x12, 0x03, 0x12, 0x34, 0x00], [77, 0, 0, 0]);
    assert_eq!(res, Ok(()));
    assert_eq!(cpu.mem_read(0x1234), 77);
    assert_eq!(cpu.registers[3], 77);
}

#[test]
fn step_budget_cancels() {
    let mut cpu = CPU::new();
    cpu.load(vec![0xFF, 0xFF, 0xFF, 0x00]).unwrap();
    assert_eq!(cpu.run_for(2), Err(CpuError::AdapterCancelled));
    assert_eq!(cpu.pc, PROGRAM_START + 2);
    assert_eq!(cpu.run_for(2), Ok(()));
}

#[test]
fn cycle_writes_status_and_cancels() {
    let mut cpu = CPU::new();
    cpu.load(vec![0x12, 0x00, 0x01, 0x00, 0x00]).unwrap();
    assert_eq!(cpu.cycle(Some(3), true), Err(CpuError::AdapterCancelled));
    assert_eq!(cpu.mem_read(STATUS_ADDRESS), 3);
    assert_eq!(cpu.pc, PROGRAM_START);
    assert_eq!(cpu.cycle(Some(4), false), Ok(Status::Running));
    assert_eq!(cpu.registers[0], 4);
    assert_eq!(cpu.cycle(None, false), Ok(Status::Halted));
    assert_eq!(cpu.mem_read(STATUS_ADDRESS), 0);
}

#[test]
fn intensity_is_fourth_power() {
    assert_eq!(intensity(0), 0);
    assert_eq!(intensity(2), 16);
    assert_eq!(intensity(10), 10000);
    assert_eq!(intensity(255), 4_228_250_625);
}

#[test]
fn frame_reads_display_region() {
    let mut cpu = CPU::new();
    cpu.mem_write(DISPLAY_START, 3);
    cpu.mem_write(DISPLAY_START + 5, 1);
    cpu.mem_write(DISPLAY_START - 1, 9);
    let frame = cpu.frame_buffer();
    assert_eq!(frame.len(), DISPLAY_PIXELS);
    assert_eq!(frame[0], 81);
    assert_eq!(frame[5], 1);
    assert_eq!(frame[1], 0);
}

#[test]
fn keys_to_status() {
    assert_eq!(status_from_keys(&vec![]), None);
    assert_eq!(status_from_keys(&vec![InputKey::W]), Some(1));
    assert_eq!(status_from_keys(&vec![InputKey::W, InputKey::D]), Some(4));
    assert_eq!(status_from_keys(&vec![InputKey::S, InputKey::Other]), Some(0));
    assert_eq!(key_code(InputKey::A), 2);
    assert_eq!(key_code(InputKey::S), 3);
}

#[test]
fn decoding_helpers() {
    assert_eq!(instruction_length(0x40), 4);
    assert_eq!(instruction_length(0x11), 3);
    assert_eq!(instruction_length(0x99), 0);
    assert_eq!(
        parse_instruction(0x20, 0x12, 0x34, 0x02),
        Instruction::StoreMemory { address: 0x1234, src: 2 }
    );
    let mut cpu = CPU::new();
    cpu.load(vec![0x30, 0x00, 0x01, 0x05]).unwrap();
    assert_eq!(cpu.decode(), Err(CpuError::InvalidRegisterIndex));
}
