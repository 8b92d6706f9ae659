//! The machine state and its fetch-decode-execute engine.

use vstd::prelude::*;
use crate::isa::{
    CpuError, Instruction, MEMORY_SIZE, REGISTER_COUNT, address_valid, decode_spec,
    instruction_length, opcode_length, parse_instruction, registers_valid,
};

verus! {

/// Address at which programs are loaded and execution starts.
pub const PROGRAM_START: u16 = 0x8000;

/// Address of the input status byte written before every instruction.
pub const STATUS_ADDRESS: u16 = 0x0100;

/// Whether the machine goes on after an instruction.
#[derive(Debug, Clone, Copy, PartialEq, Eq, Structural)]
pub enum Status {
    Running,
    Halted,
}

/// The abstract machine: registers, memory and program counter.
pub struct CpuState {
    pub registers: Seq<u8>,
    pub memory: Seq<u8>,
    pub pc: u16,
}

/// The machine.
pub struct CPU {
    pub registers: [u8; 4],
    pub memory: [u8; 0xFFFF],
    pub pc: u16,
}

/// Whether `s` has the machine's shape: four registers and a full memory.
pub open spec fn state_wf(s: CpuState) -> bool {
    s.registers.len() == REGISTER_COUNT && s.memory.len() == MEMORY_SIZE
}

impl View for CPU {
    type V = CpuState;

    open spec fn view(&self) -> CpuState {
        CpuState { registers: self.registers@, memory: self.memory@, pc: self.pc }
    }
}

/// `b` as a register value: 1 for true, 0 for false.
pub open spec fn flag(b: bool) -> u8 {
    if b {
        1
    } else {
        0
    }
}

/// `x + y` modulo 256.
pub open spec fn add_mod(x: u8, y: u8) -> u8 {
    ((x + y) % 256) as u8
}

/// `x - y` modulo 256.
pub open spec fn sub_mod(x: u8, y: u8) -> u8 {
    ((x - y) % 256) as u8
}

/// The state after executing `ins` in `s`, where `next` is the address just
/// past the instruction.
pub open spec fn execute_spec(s: CpuState, ins: Instruction, next: u16) -> CpuState {
    let r = s.registers;
    let m = s.memory;
    let set = |i: u8, v: u8| CpuState { registers: r.update(i as int, v), memory: m, pc: next };
    match ins {
        Instruction::Halt | Instruction::Nop => CpuState { registers: r, memory: m, pc: next },
        Instruction::LoadImmediate { dest, value } => set(dest, value),
        Instruction::LoadRegister { dest, src } => set(dest, r[src as int]),
        Instruction::LoadMemory { dest, address } => set(dest, m[address as int]),
        Instruction::StoreMemory { address, src } => CpuState {
            registers: r,
            memory: m.update(address as int, r[src as int]),
            pc: next,
        },
        Instruction::CmpEqReg { a, b, dest } => set(dest, flag(r[a as int] == r[b as int])),
        Instruction::CmpEqImm { a, value, dest } => set(dest, flag(r[a as int] == value)),
        Instruction::CmpGtReg { a, b, dest } => set(dest, flag(r[a as int] > r[b as int])),
        Instruction::CmpLtReg { a, b, dest } => set(dest, flag(r[a as int] < r[b as int])),
        Instruction::JumpIf { cond, target } => CpuState {
            registers: r,
            memory: m,
            pc: if r[cond as int] == 1 {
                target
            } else {
                next
            },
        },
        Instruction::Inc { reg } => set(reg, add_mod(r[reg as int], 1)),
        Instruction::Dec { reg } => set(reg, sub_mod(r[reg as int], 1)),
        Instruction::AddReg { a, b, dest } => set(dest, add_mod(r[a as int], r[b as int])),
        Instruction::SubReg { a, b, dest } => set(dest, sub_mod(r[a as int], r[b as int])),
        Instruction::AddImm { a, value, dest } => set(dest, add_mod(r[a as int], value)),
        Instruction::SubImm { a, value, dest } => set(dest, sub_mod(r[a as int], value)),
    }
}

/// One step of the engine: decode the instruction at the program counter and
/// execute it. On a failure the state is left exactly as it was.
pub open spec fn step_spec(s: CpuState) -> (CpuState, Result<Status, CpuError>) {
    match decode_spec(s.memory, s.pc as int) {
        Err(e) => (s, Err(e)),
        Ok(ins) => (
            execute_spec(s, ins, (s.pc + opcode_length(s.memory[s.pc as int])) as u16),
            Ok(
                if ins == Instruction::Halt {
                    Status::Halted
                } else {
                    Status::Running
                },
            ),
        ),
    }
}

/// The byte that an input report leaves at the status address: the reported
/// code, or 0 when nothing was reported.
pub open spec fn status_byte(input: Option<u8>) -> u8 {
    match input {
        Some(b) => b,
        None => 0,
    }
}

/// `s` with the input report written at the status address.
pub open spec fn with_status(s: CpuState, input: Option<u8>) -> CpuState {
    CpuState {
        registers: s.registers,
        memory: s.memory.update(STATUS_ADDRESS as int, status_byte(input)),
        pc: s.pc,
    }
}

/// One cycle of the run loop: record the input report, then stop if the host
/// asked to, else take one step.
pub open spec fn cycle_spec(s: CpuState, input: Option<u8>, cancel: bool) -> (
    CpuState,
    Result<Status, CpuError>,
) {
    if cancel {
        (with_status(s, input), Err(CpuError::AdapterCancelled))
    } else {
        step_spec(with_status(s, input))
    }
}

/// Running without a host for at most `fuel` steps: every cycle reports no
/// input, and the cycle after `fuel` steps is cancelled. The result is the
/// final state and `Ok` on `HALT` or the error that stopped the machine.
pub open spec fn run_spec(s: CpuState, fuel: nat) -> (CpuState, Result<(), CpuError>)
    decreases fuel,
{
    let (s1, r) = cycle_spec(s, None, fuel == 0);
    match r {
        Ok(Status::Halted) => (s1, Ok(())),
        Err(e) => (s1, Err(e)),
        Ok(Status::Running) => if fuel == 0 {
            (s1, Err(CpuError::AdapterCancelled))
        } else {
            run_spec(s1, (fuel - 1) as nat)
        },
    }
}

/// `mem` with `program` copied in from the program start address on.
pub open spec fn loaded_memory(mem: Seq<u8>, program: Seq<u8>) -> Seq<u8> {
    Seq::new(
        mem.len(),
        |i: int|
            if PROGRAM_START <= i < PROGRAM_START + program.len() {
                program[i - PROGRAM_START]
            } else {
                mem[i]
            },
    )
}

impl CPU {
    /// A machine with zeroed registers, memory and program counter.
    pub fn new() -> (r: CPU)
        ensures
            r.pc == 0,
            forall|i: int| 0 <= i < REGISTER_COUNT ==> r.registers@[i] == 0,
            forall|i: int| 0 <= i < MEMORY_SIZE ==> r.memory@[i] == 0,
    {
        CPU { registers: [0u8; 4], memory: [0u8; 0xFFFF], pc: 0 }
    }

    /// The byte at `addr`.
    pub fn mem_read(&self, addr: u16) -> (r: u8)
        requires
            (addr as int) < MEMORY_SIZE,
        ensures
            r == self.memory@[addr as int],
    {
        self.memory[addr as usize]
    }

    /// Writes `data` at `addr`.
    pub fn mem_write(&mut self, addr: u16, data: u8)
        requires
            (addr as int) < MEMORY_SIZE,
        ensures
            final(self).memory@ == old(self).memory@.update(addr as int, data),
            final(self).registers == old(self).registers,
            final(self).pc == old(self).pc,
    {
        self.memory[addr as usize] = data;
    }

    /// The byte at `addr`, or `None` when `addr` is past the end of memory.
    fn fetch(&self, addr: u32) -> (r: Option<u8>)
        ensures
            r == (if (addr as int) < MEMORY_SIZE {
                Some(self.memory@[addr as int])
            } else {
                None::<u8>
            }),
    {
        if (addr as usize) < MEMORY_SIZE {
            Some(self.memory[addr as usize])
        } else {
            None
        }
    }

    /// Decodes the instruction at the program counter without changing state.
    pub fn decode(&self) -> (r: Result<Instruction, CpuError>)
        ensures
            r == decode_spec(self.memory@, self.pc as int),
    {
        let pc = self.pc as usize;
        if pc >= MEMORY_SIZE {
            return Err(CpuError::AddressOutOfRange);
        }
        let op = self.memory[pc];
        let len = instruction_length(op);
        if len == 0 {
            return Err(CpuError::UnknownOpcode);
        }
        if pc + len > MEMORY_SIZE {
            return Err(CpuError::AddressOutOfRange);
        }
        let b1 = if len > 1 {
            self.memory[pc + 1]
        } else {
            0
        };
        let b2 = if len > 2 {
            self.memory[pc + 2]
        } else {
            0
        };
        let b3 = if len > 3 {
            self.memory[pc + 3]
        } else {
            0
        };
        let ins = parse_instruction(op, b1, b2, b3);
        if !ins.registers_ok() {
            Err(CpuError::InvalidRegisterIndex)
        } else if !ins.address_ok() {
            Err(CpuError::AddressOutOfRange)
        } else {
            Ok(ins)
        }
    }

    fn set_register(&mut self, i: u8, v: u8, next: u16)
        requires
            (i as int) < REGISTER_COUNT,
        ensures
            final(self).registers@ == old(self).registers@.update(i as int, v),
            final(self).memory == old(self).memory,
            final(self).pc == next,
    {
        self.registers[i as usize] = v;
        self.pc = next;
    }

    /// Executes a decoded instruction; `next` is the address just past it.
    fn execute(&mut self, ins: Instruction, next: u16)
        requires
            registers_valid(ins),
            address_valid(ins),
        ensures
            final(self)@ == execute_spec(old(self)@, ins, next),
    {
        let r = self.registers;
        match ins {
            Instruction::Halt | Instruction::Nop => {
                self.pc = next;
            },
            Instruction::LoadImmediate { dest, value } => self.set_register(dest, value, next),
            Instruction::LoadRegister { dest, src } => self.set_register(dest, r[src as usize], next),
            Instruction::LoadMemory { dest, address } => {
                let v = self.memory[address as usize];
                self.set_register(dest, v, next);
            },
            Instruction::StoreMemory { address, src } => {
                self.memory[address as usize] = r[src as usize];
                self.pc = next;
            },
            Instruction::CmpEqReg { a, b, dest } => {
                self.set_register(dest, (r[a as usize] == r[b as usize]) as u8, next)
            },
            Instruction::CmpEqImm { a, value, dest } => {
                self.set_register(dest, (r[a as usize] == value) as u8, next)
            },
            Instruction::CmpGtReg { a, b, dest } => {
                self.set_register(dest, (r[a as usize] > r[b as usize]) as u8, next)
            },
            Instruction::CmpLtReg { a, b, dest } => {
                self.set_register(dest, (r[a as usize] < r[b as usize]) as u8, next)
            },
            Instruction::JumpIf { cond, target } => {
                self.pc = if r[cond as usize] == 1 {
                    target
                } else {
                    next
                };
            },
            Instruction::Inc { reg } => self.set_register(reg, r[reg as usize].wrapping_add(1), next),
            Instruction::Dec { reg } => self.set_register(reg, r[reg as usize].wrapping_sub(1), next),
            Instruction::AddReg { a, b, dest } => {
                self.set_register(dest, r[a as usize].wrapping_add(r[b as usize]), next)
            },
            Instruction::SubReg { a, b, dest } => {
                self.set_register(dest, r[a as usize].wrapping_sub(r[b as usize]), next)
            },
            Instruction::AddImm { a, value, dest } => {
                self.set_register(dest, r[a as usize].wrapping_add(value), next)
            },
            Instruction::SubImm { a, value, dest } => {
                self.set_register(dest, r[a as usize].wrapping_sub(value), next)
            },
        }
        assert(self.registers@ =~= execute_spec(old(self)@, ins, next).registers);
        assert(self.memory@ =~= execute_spec(old(self)@, ins, next).memory);
    }

    /// Decodes and executes the instruction at the program counter. On an
    /// error nothing changes; `Halted` comes exactly from `HALT`.
    pub fn step(&mut self) -> (r: Result<Status, CpuError>)
        ensures
            (final(self)@, r) == step_spec(old(self)@),
    {
        match self.decode() {
            Err(e) => Err(e),
            Ok(ins) => {
                let len = instruction_length(self.memory[self.pc as usize]);
                let next = self.pc + len as u16;
                self.execute(ins, next);
                if matches!(ins, Instruction::Halt) {
                    Ok(Status::Halted)
                } else {
                    Ok(Status::Running)
                }
            },
        }
    }
    /// Copies `program` into memory from the program start address on and
    /// points the program counter there. A program that would run past the
    /// end of memory is refused, and nothing changes.
    pub fn load(&mut self, program: Vec<u8>) -> (r: Result<(), CpuError>)
        ensures
            program@.len() > MEMORY_SIZE - PROGRAM_START ==> r == Err::<(), CpuError>(
                CpuError::ProgramTooLarge,
            ) && final(self)@ == old(self)@,
            program@.len() <= MEMORY_SIZE - PROGRAM_START ==> r == Ok::<(), CpuError>(())
                && final(self).memory@ == loaded_memory(old(self).memory@, program@)
                && final(self).registers == old(self).registers && final(self).pc
                == PROGRAM_START,
    {
        if program.len() > MEMORY_SIZE - PROGRAM_START as usize {
            return Err(CpuError::ProgramTooLarge);
        }
        let start = PROGRAM_START as usize;
        let mut i: usize = 0;
        while i < program.len()
            invariant
                program@.len() <= MEMORY_SIZE - PROGRAM_START,
                start == PROGRAM_START,
                i <= program@.len(),
                self.registers == old(self).registers,
                forall|j: int|
                    0 <= j < MEMORY_SIZE ==> self.memory@[j] == (if start <= j < start + i {
                        program@[j - start]
                    } else {
                        old(self).memory@[j]
                    }),
            decreases program@.len() - i,
        {
            self.memory[start + i] = program[i];
            i = i + 1;
        }
        self.pc = PROGRAM_START;
        assert(self.memory@ =~= loaded_memory(old(self).memory@, program@));
        Ok(())
    }

    /// One cycle of the run loop driven by a host: writes the input report
    /// (`None` as 0) at the status address, then stops with
    /// `AdapterCancelled` if `cancel` is set, else takes one step.
    pub fn cycle(&mut self, input: Option<u8>, cancel: bool) -> (r: Result<Status, CpuError>)
        ensures
            (final(self)@, r) == cycle_spec(old(self)@, input, cancel),
    {
        let code = match input {
            Some(b) => b,
            None => 0,
        };
        self.memory[STATUS_ADDRESS as usize] = code;
        if cancel {
            return Err(CpuError::AdapterCancelled);
        }
        self.step()
    }

    /// Runs without a host for at most `max_steps` steps, until `HALT`
    /// (`Ok`), an error, or the step budget runs out (`AdapterCancelled`).
    pub fn run_for(&mut self, max_steps: u64) -> (r: Result<(), CpuError>)
        ensures
            (final(self)@, r) == run_spec(old(self)@, max_steps as nat),
    {
        let mut left: u64 = max_steps;
        loop
            invariant
                run_spec(self@, left as nat) == run_spec(old(self)@, max_steps as nat),
            decreases left,
        {
            let r = self.cycle(None, left == 0);
            match r {
                Ok(Status::Halted) => return Ok(()),
                Err(e) => return Err(e),
                Ok(Status::Running) => {
                    left = left - 1;
                },
            }
        }
    }

    /// Runs without a host until `HALT` or an error; the step budget is
    /// `u64::MAX`, so in practice only those two stop it.
    pub fn run(&mut self) -> (r: Result<(), CpuError>)
        ensures
            (final(self)@, r) == run_spec(old(self)@, u64::MAX as nat),
    {
        self.run_for(u64::MAX)
    }
}

} // verus!
