//! The instruction set: opcodes, operand layout and decoding rules.

use vstd::prelude::*;

verus! {

/// Number of general-purpose registers.
pub const REGISTER_COUNT: usize = 4;

/// Number of addressable memory cells; valid addresses are `0..MEMORY_SIZE`.
pub const MEMORY_SIZE: usize = 0xFFFF;

/// Why execution or loading stopped with a failure.
#[derive(Debug, Clone, Copy, PartialEq, Eq, Structural)]
pub enum CpuError {
    /// A register-index operand was outside `0..REGISTER_COUNT`.
    InvalidRegisterIndex,
    /// The opcode byte names no instruction.
    UnknownOpcode,
    /// The program does not fit between the load address and the end of memory.
    ProgramTooLarge,
    /// The host asked the run loop to stop.
    AdapterCancelled,
    /// An instruction byte or a data address lies outside memory.
    AddressOutOfRange,
}

/// One decoded instruction. Register fields hold register indices, `value`
/// fields raw byte literals, `address` and `target` 16-bit addresses.
#[derive(Debug, Clone, Copy, PartialEq, Eq, Structural)]
pub enum Instruction {
    Halt,
    Nop,
    LoadImmediate { dest: u8, value: u8 },
    LoadRegister { dest: u8, src: u8 },
    LoadMemory { dest: u8, address: u16 },
    StoreMemory { address: u16, src: u8 },
    CmpEqReg { a: u8, b: u8, dest: u8 },
    CmpEqImm { a: u8, value: u8, dest: u8 },
    CmpGtReg { a: u8, b: u8, dest: u8 },
    CmpLtReg { a: u8, b: u8, dest: u8 },
    JumpIf { cond: u8, target: u16 },
    Inc { reg: u8 },
    Dec { reg: u8 },
    AddReg { a: u8, b: u8, dest: u8 },
    SubReg { a: u8, b: u8, dest: u8 },
    AddImm { a: u8, value: u8, dest: u8 },
    SubImm { a: u8, value: u8, dest: u8 },
}

/// Total length in bytes (opcode included) of the instruction that `op`
/// starts, or 0 when `op` is no opcode.
pub open spec fn opcode_length(op: u8) -> int {
    if op == 0x00 || op == 0xFF {
        1
    } else if op == 0x50 || op == 0x51 {
        2
    } else if op == 0x10 || op == 0x11 {
        3
    } else if op == 0x12 || op == 0x20 || op == 0x40 || (0x30 <= op <= 0x33) || (0x52 <= op
        <= 0x55) {
        4
    } else {
        0
    }
}

/// Whether `op` names an instruction.
pub open spec fn is_opcode(op: u8) -> bool {
    opcode_length(op) > 0
}

/// Whether operand byte `k` (1-based, after the opcode) of opcode `op` is a
/// register index.
pub open spec fn is_register_operand(op: u8, k: int) -> bool {
    if op == 0x10 || op == 0x11 {
        k == 1 || (op == 0x11 && k == 2)
    } else if op == 0x12 || op == 0x40 || op == 0x50 || op == 0x51 {
        k == 1
    } else if op == 0x20 {
        k == 3
    } else if (0x30 <= op <= 0x33) || (0x52 <= op <= 0x55) {
        k == 1 || k == 3 || (k == 2 && op != 0x31 && op != 0x54 && op != 0x55)
    } else {
        false
    }
}

/// A 16-bit address stored most-significant byte first.
pub open spec fn be_u16(hi: u8, lo: u8) -> u16 {
    (hi as int * 256 + lo as int) as u16
}

/// The instruction spelled by opcode `op` and the operand bytes `b1 b2 b3`
/// that follow it (bytes past the instruction's length are ignored).
pub open spec fn parse(op: u8, b1: u8, b2: u8, b3: u8) -> Instruction {
    if op == 0x00 {
        Instruction::Halt
    } else if op == 0x10 {
        Instruction::LoadImmediate { dest: b1, value: b2 }
    } else if op == 0x11 {
        Instruction::LoadRegister { dest: b1, src: b2 }
    } else if op == 0x12 {
        Instruction::LoadMemory { dest: b1, address: be_u16(b2, b3) }
    } else if op == 0x20 {
        Instruction::StoreMemory { address: be_u16(b1, b2), src: b3 }
    } else if op == 0x30 {
        Instruction::CmpEqReg { a: b1, b: b2, dest: b3 }
    } else if op == 0x31 {
        Instruction::CmpEqImm { a: b1, value: b2, dest: b3 }
    } else if op == 0x32 {
        Instruction::CmpGtReg { a: b1, b: b2, dest: b3 }
    } else if op == 0x33 {
        Instruction::CmpLtReg { a: b1, b: b2, dest: b3 }
    } else if op == 0x40 {
        Instruction::JumpIf { cond: b1, target: be_u16(b2, b3) }
    } else if op == 0x50 {
        Instruction::Inc { reg: b1 }
    } else if op == 0x51 {
        Instruction::Dec { reg: b1 }
    } else if op == 0x52 {
        Instruction::AddReg { a: b1, b: b2, dest: b3 }
    } else if op == 0x53 {
        Instruction::SubReg { a: b1, b: b2, dest: b3 }
    } else if op == 0x54 {
        Instruction::AddImm { a: b1, value: b2, dest: b3 }
    } else if op == 0x55 {
        Instruction::SubImm { a: b1, value: b2, dest: b3 }
    } else {
        Instruction::Nop
    }
}

/// Whether `a` names a register.
pub open spec fn valid_register(a: u8) -> bool {
    (a as int) < REGISTER_COUNT
}

/// Whether `a` names a memory cell.
pub open spec fn valid_address(a: u16) -> bool {
    (a as int) < MEMORY_SIZE
}

/// Whether every register operand of `ins` names a register.
pub open spec fn registers_valid(ins: Instruction) -> bool {
    match ins {
        Instruction::Halt | Instruction::Nop => true,
        Instruction::LoadImmediate { dest, .. } => valid_register(dest),
        Instruction::LoadRegister { dest, src } => valid_register(dest) && valid_register(src),
        Instruction::LoadMemory { dest, .. } => valid_register(dest),
        Instruction::StoreMemory { src, .. } => valid_register(src),
        Instruction::CmpEqReg { a, b, dest }
        | Instruction::CmpGtReg { a, b, dest }
        | Instruction::CmpLtReg { a, b, dest }
        | Instruction::AddReg { a, b, dest }
        | Instruction::SubReg { a, b, dest } => valid_register(a) && valid_register(b)
            && valid_register(dest),
        Instruction::CmpEqImm { a, dest, .. }
        | Instruction::AddImm { a, dest, .. }
        | Instruction::SubImm { a, dest, .. } => valid_register(a) && valid_register(dest),
        Instruction::JumpIf { cond, .. } => valid_register(cond),
        Instruction::Inc { reg } | Instruction::Dec { reg } => valid_register(reg),
    }
}

/// Whether the data address that `ins` reads or writes, if any, names a cell.
pub open spec fn address_valid(ins: Instruction) -> bool {
    match ins {
        Instruction::LoadMemory { address, .. } => valid_address(address),
        Instruction::StoreMemory { address, .. } => valid_address(address),
        _ => true,
    }
}

/// The outcome of decoding the instruction at `pc` in `mem`: the opcode must
/// lie in memory, name an instruction, the whole instruction must lie in
/// memory, its register operands must name registers and its data address
/// must name a cell; the first of these that fails gives the error.
pub open spec fn decode_spec(mem: Seq<u8>, pc: int) -> Result<Instruction, CpuError> {
    if !(0 <= pc < mem.len()) {
        Err(CpuError::AddressOutOfRange)
    } else if !is_opcode(mem[pc]) {
        Err(CpuError::UnknownOpcode)
    } else if pc + opcode_length(mem[pc]) > mem.len() {
        Err(CpuError::AddressOutOfRange)
    } else {
        let ins = parse(mem[pc], mem[pc + 1], mem[pc + 2], mem[pc + 3]);
        if !registers_valid(ins) {
            Err(CpuError::InvalidRegisterIndex)
        } else if !address_valid(ins) {
            Err(CpuError::AddressOutOfRange)
        } else {
            Ok(ins)
        }
    }
}

/// Length in bytes of the instruction that opcode `op` starts, 0 for no opcode.
pub fn instruction_length(op: u8) -> (r: usize)
    ensures
        r as int == opcode_length(op),
{
    if op == 0x00 || op == 0xFF {
        1
    } else if op == 0x50 || op == 0x51 {
        2
    } else if op == 0x10 || op == 0x11 {
        3
    } else if op == 0x12 || op == 0x20 || op == 0x40 || (op >= 0x30 && op <= 0x33) || (op
        >= 0x52 && op <= 0x55) {
        4
    } else {
        0
    }
}

/// The instruction spelled by opcode `op` followed by the bytes `b1 b2 b3`.
pub fn parse_instruction(op: u8, b1: u8, b2: u8, b3: u8) -> (r: Instruction)
    ensures
        r == parse(op, b1, b2, b3),
{
    let hi_lo = |hi: u8, lo: u8| -> (a: u16)
        ensures
            a == be_u16(hi, lo),
        { (hi as u16) * 256 + lo as u16 };
    match op {
        0x00 => Instruction::Halt,
        0x10 => Instruction::LoadImmediate { dest: b1, value: b2 },
        0x11 => Instruction::LoadRegister { dest: b1, src: b2 },
        0x12 => Instruction::LoadMemory { dest: b1, address: hi_lo(b2, b3) },
        0x20 => Instruction::StoreMemory { address: hi_lo(b1, b2), src: b3 },
        0x30 => Instruction::CmpEqReg { a: b1, b: b2, dest: b3 },
        0x31 => Instruction::CmpEqImm { a: b1, value: b2, dest: b3 },
        0x32 => Instruction::CmpGtReg { a: b1, b: b2, dest: b3 },
        0x33 => Instruction::CmpLtReg { a: b1, b: b2, dest: b3 },
        0x40 => Instruction::JumpIf { cond: b1, target: hi_lo(b2, b3) },
        0x50 => Instruction::Inc { reg: b1 },
        0x51 => Instruction::Dec { reg: b1 },
        0x52 => Instruction::AddReg { a: b1, b: b2, dest: b3 },
        0x53 => Instruction::SubReg { a: b1, b: b2, dest: b3 },
        0x54 => Instruction::AddImm { a: b1, value: b2, dest: b3 },
        0x55 => Instruction::SubImm { a: b1, value: b2, dest: b3 },
        _ => Instruction::Nop,
    }
}

fn is_register(a: u8) -> (r: bool)
    ensures
        r == valid_register(a),
{
    (a as usize) < REGISTER_COUNT
}

impl Instruction {
    /// Whether every register operand names a register.
    pub fn registers_ok(&self) -> (r: bool)
        ensures
            r == registers_valid(*self),
    {
        match *self {
            Instruction::Halt | Instruction::Nop => true,
            Instruction::LoadImmediate { dest, .. } => is_register(dest),
            Instruction::LoadRegister { dest, src } => is_register(dest) && is_register(src),
            Instruction::LoadMemory { dest, .. } => is_register(dest),
            Instruction::StoreMemory { src, .. } => is_register(src),
            Instruction::CmpEqReg { a, b, dest }
            | Instruction::CmpGtReg { a, b, dest }
            | Instruction::CmpLtReg { a, b, dest }
            | Instruction::AddReg { a, b, dest }
            | Instruction::SubReg { a, b, dest } => is_register(a) && is_register(b)
                && is_register(dest),
            Instruction::CmpEqImm { a, dest, .. }
            | Instruction::AddImm { a, dest, .. }
            | Instruction::SubImm { a, dest, .. } => is_register(a) && is_register(dest),
            Instruction::JumpIf { cond, .. } => is_register(cond),
            Instruction::Inc { reg } | Instruction::Dec { reg } => is_register(reg),
        }
    }

    /// Whether the data address read or written, if any, names a memory cell.
    pub fn address_ok(&self) -> (r: bool)
        ensures
            r == address_valid(*self),
    {
        match *self {
            Instruction::LoadMemory { address, .. } => (address as usize) < MEMORY_SIZE,
            Instruction::StoreMemory { address, .. } => (address as usize) < MEMORY_SIZE,
            _ => true,
        }
    }
}

} // verus!
