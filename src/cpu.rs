use vstd::prelude::*;

use crate::consts::{
    MEMORY_MAX, OP_ADD, OP_AND, OP_BR, OP_JMP, OP_JSR, OP_LD, OP_LDI, OP_LDR, OP_LEA, OP_NOT,
    OP_ST, OP_STI, OP_STR, OP_TRAP, RPC,
};
use crate::decode::{lemma_field_bounds, opcode, trap_vector};
use crate::errors::VmError;
use crate::machine::{is_keyboard_error, wrap_add, Machine};
use crate::opcodes::{
    add_spec, and, and_spec, br, br_spec, completes, jmp, jmp_spec, jsr, jsr_spec, ld,
    ld_spec, ldi, ldi_spec, ldr, ldr_spec, lea, lea_spec, not, not_spec, st, st_spec, sti,
    sti_spec, str, str_spec,
};
use crate::trap::{known_vector, trap, trap_spec, trap_waiting};
use crate::vm::VM;

verus! {

/// A TRAP instruction whose vector has no routine.
pub open spec fn illegal_trap(instr: u16) -> bool {
    opcode(instr) == OP_TRAP && !known_vector(trap_vector(instr))
}

/// The effect of one decoded instruction (`None`: it waits for a host byte).
/// RTI and RES do nothing.
pub open spec fn execute_spec(m: Machine, instr: u16) -> Option<Machine> {
    let op = opcode(instr);
    if op == OP_BR {
        Some(br_spec(m, instr))
    } else if op == OP_ADD {
        Some(add_spec(m, instr))
    } else if op == OP_LD {
        ld_spec(m, instr)
    } else if op == OP_ST {
        Some(st_spec(m, instr))
    } else if op == OP_JSR {
        Some(jsr_spec(m, instr))
    } else if op == OP_AND {
        Some(and_spec(m, instr))
    } else if op == OP_LDR {
        ldr_spec(m, instr)
    } else if op == OP_STR {
        Some(str_spec(m, instr))
    } else if op == OP_NOT {
        Some(not_spec(m, instr))
    } else if op == OP_LDI {
        ldi_spec(m, instr)
    } else if op == OP_STI {
        sti_spec(m, instr)
    } else if op == OP_JMP {
        Some(jmp_spec(m, instr))
    } else if op == OP_LEA {
        Some(lea_spec(m, instr))
    } else if op == OP_TRAP {
        trap_spec(m, instr)
    } else {
        Some(m)
    }
}

/// The state that an instruction leaves when it must wait for a host byte.
pub open spec fn execute_waiting(m: Machine, instr: u16) -> Machine {
    if opcode(instr) == OP_TRAP {
        trap_waiting(m, instr)
    } else {
        m
    }
}

/// Runs the handler that the opcode nibble of `instr` selects.
pub fn execute_instruction(instr: u16, vm: &mut VM) -> (r: Result<(), VmError>)
    ensures
        illegal_trap(instr) ==> (r matches Err(VmError::IllegalTrapError(v)) && v == trap_vector(
            instr,
        )) && final(vm)@ == old(vm)@,
        !illegal_trap(instr) ==> completes(
            r,
            execute_waiting(old(vm)@, instr),
            final(vm)@,
            execute_spec(old(vm)@, instr),
        ),
{
    proof {
        lemma_field_bounds(instr);
    }
    let op: u16 = instr >> 12;
    if op == OP_BR {
        br(instr, vm)
    } else if op == OP_ADD {
        crate::opcodes::add(instr, vm)
    } else if op == OP_LD {
        ld(instr, vm)
    } else if op == OP_ST {
        st(instr, vm)
    } else if op == OP_JSR {
        jsr(instr, vm)
    } else if op == OP_AND {
        and(instr, vm)
    } else if op == OP_LDR {
        ldr(instr, vm)
    } else if op == OP_STR {
        str(instr, vm)
    } else if op == OP_NOT {
        not(instr, vm)
    } else if op == OP_LDI {
        ldi(instr, vm)
    } else if op == OP_STI {
        sti(instr, vm)
    } else if op == OP_JMP {
        jmp(instr, vm)
    } else if op == OP_LEA {
        lea(instr, vm)
    } else if op == OP_TRAP {
        trap(instr, vm)
    } else {
        // RTI and RES are not used by programs: they do nothing
        Ok(())
    }
}

/// The machine still has instructions to run: no HALT yet, and the PC below
/// the top address.
pub open spec fn running(m: Machine) -> bool {
    !m.halted && m.pc() < MEMORY_MAX
}

/// The instruction that the next step fetches (when the fetch does not block).
pub open spec fn next_instr(m: Machine) -> u16 {
    m.read_value(m.pc())
}

/// The state after fetching: the read of `mem[PC]` done and PC advanced.
pub open spec fn fetched(m: Machine) -> Machine {
    m.after_read(m.pc()).set_reg(RPC, wrap_add(m.pc(), 1))
}

impl VM {
    /// Whether the machine still has instructions to run.
    pub fn is_running(&self) -> (r: bool)
        ensures
            r == running(self@),
    {
        let pc = self.get_register_value(RPC);
        match pc {
            Ok(pc) => !self.is_halted() && (pc as usize) < MEMORY_MAX,
            Err(_) => false,
        }
    }

    /// One instruction cycle: fetch `mem[PC]`, advance PC, execute. An
    /// instruction that must wait for a host byte fails with
    /// `KeyboardInputError` and leaves the machine as it was (but for the
    /// prompt of IN), so that it can be run again once a byte has been provided.
    pub fn step(&mut self) -> (r: Result<(), VmError>)
        ensures
            old(self)@.blocks_on(old(self)@.pc()) ==> is_keyboard_error(r) && final(self)@ == old(
                self,
            )@,
            !old(self)@.blocks_on(old(self)@.pc()) && illegal_trap(next_instr(old(self)@)) ==> (
            r matches Err(VmError::IllegalTrapError(v)) && v == trap_vector(next_instr(old(self)@)))
                && final(self)@ == fetched(old(self)@),
            !old(self)@.blocks_on(old(self)@.pc()) && !illegal_trap(next_instr(old(self)@))
                ==> completes(
                r,
                execute_waiting(old(self)@, next_instr(old(self)@)),
                final(self)@,
                execute_spec(fetched(old(self)@), next_instr(old(self)@)),
            ),
    {
        proof {
            self.lemma_wf();
        }
        let pc = self.get_register_value(RPC)?;
        let instr = self.mem_read(pc)?;
        proof {
            assert(0x8000u16 >> 12 == 8 && 0u16 >> 12 == 0) by (bit_vector);
        }
        self.update_register_value(RPC, pc.wrapping_add(1))?;
        match execute_instruction(instr, self) {
            Err(VmError::KeyboardInputError(reason)) => {
                // the instruction waits for input: take the fetch back
                self.update_register_value(RPC, pc)?;
                assert(self@.regs =~= old(self)@.regs);
                Err(VmError::KeyboardInputError(reason))
            },
            other => other,
        }
    }
}

} // verus!
