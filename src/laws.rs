//! Properties of the engine, stated over its abstract step and run functions.

use vstd::prelude::*;
use crate::cpu::{CpuState, Status, state_wf, step_spec, run_spec, with_status};
use crate::isa::{
    CpuError, MEMORY_SIZE, REGISTER_COUNT, be_u16, is_opcode, is_register_operand, opcode_length,
};

verus! {

/// `LOAD_IMMEDIATE r v` puts `v` in register `r`, leaves the other registers
/// and memory alone, and goes on with the next instruction.
pub proof fn lemma_load_immediate(s: CpuState, r: u8, v: u8)
    requires
        state_wf(s),
        (r as int) < REGISTER_COUNT,
        s.pc + 3 <= MEMORY_SIZE,
        s.memory[s.pc as int] == 0x10,
        s.memory[s.pc + 1] == r,
        s.memory[s.pc + 2] == v,
    ensures
        step_spec(s).1 == Ok::<Status, CpuError>(Status::Running),
        step_spec(s).0.registers[r as int] == v,
        forall|i: int| 0 <= i < REGISTER_COUNT && i != r ==> step_spec(s).0.registers[i] == s.registers[i],
        step_spec(s).0.memory == s.memory,
        step_spec(s).0.pc == s.pc + 3,
{
}

/// `LOAD_REGISTER dest src` copies register `src` into register `dest` and
/// leaves register `src`, like every other register but `dest`, unchanged.
pub proof fn lemma_load_register(s: CpuState, dest: u8, src: u8)
    requires
        state_wf(s),
        (dest as int) < REGISTER_COUNT,
        (src as int) < REGISTER_COUNT,
        s.pc + 3 <= MEMORY_SIZE,
        s.memory[s.pc as int] == 0x11,
        s.memory[s.pc + 1] == dest,
        s.memory[s.pc + 2] == src,
    ensures
        step_spec(s).1 == Ok::<Status, CpuError>(Status::Running),
        step_spec(s).0.registers[dest as int] == s.registers[src as int],
        step_spec(s).0.registers[src as int] == s.registers[src as int],
        forall|i: int| 0 <= i < REGISTER_COUNT && i != dest ==> step_spec(s).0.registers[i] == s.registers[i],
        step_spec(s).0.memory == s.memory,
{
}

/// `JUMP_IF cond target` sets the program counter to `target` when register
/// `cond` holds 1, and otherwise moves it past the two target bytes.
pub proof fn lemma_jump_if(s: CpuState, cond: u8, hi: u8, lo: u8)
    requires
        state_wf(s),
        (cond as int) < REGISTER_COUNT,
        s.pc + 4 <= MEMORY_SIZE,
        s.memory[s.pc as int] == 0x40,
        s.memory[s.pc + 1] == cond,
        s.memory[s.pc + 2] == hi,
        s.memory[s.pc + 3] == lo,
    ensures
        step_spec(s).1 == Ok::<Status, CpuError>(Status::Running),
        step_spec(s).0.registers == s.registers,
        step_spec(s).0.memory == s.memory,
        s.registers[cond as int] == 1 ==> step_spec(s).0.pc == be_u16(hi, lo),
        s.registers[cond as int] != 1 ==> step_spec(s).0.pc == s.pc + 4,
{
}

/// A run that reaches `HALT` stops there with success: registers and memory
/// are as they were just before it, and the program counter is just past it.
pub proof fn lemma_halt_stops_run(s: CpuState, fuel: nat)
    requires
        state_wf(s),
        fuel > 0,
        (s.pc as int) < MEMORY_SIZE,
        with_status(s, None).memory[s.pc as int] == 0x00,
    ensures
        run_spec(s, fuel).1 == Ok::<(), CpuError>(()),
        run_spec(s, fuel).0.registers == s.registers,
        run_spec(s, fuel).0.memory == with_status(s, None).memory,
        run_spec(s, fuel).0.pc == s.pc + 1,
{
}

/// A run that meets an instruction with a register operand outside the
/// register file stops there with `InvalidRegisterIndex`, and that
/// instruction changes nothing.
pub proof fn lemma_invalid_register_stops_run(s: CpuState, fuel: nat, k: int)
    requires
        state_wf(s),
        fuel > 0,
        (s.pc as int) < MEMORY_SIZE,
        is_opcode(with_status(s, None).memory[s.pc as int]),
        s.pc + opcode_length(with_status(s, None).memory[s.pc as int]) <= MEMORY_SIZE,
        1 <= k,
        is_register_operand(with_status(s, None).memory[s.pc as int], k),
        with_status(s, None).memory[s.pc + k] as int >= REGISTER_COUNT,
    ensures
        run_spec(s, fuel) == (with_status(s, None), Err::<(), CpuError>(
            CpuError::InvalidRegisterIndex,
        )),
{
}

} // verus!
