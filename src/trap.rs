use vstd::prelude::*;

use crate::consts::{
    MR_KBSR, RPC, RR0, RR7, TRAP_GETC, TRAP_HALT, TRAP_IN, TRAP_OUT, TRAP_PUTS, TRAP_PUTSP,
};
use crate::decode::{lemma_field_bounds, trap_vector};
use crate::errors::VmError;
use crate::machine::{is_keyboard_error, Machine};
use crate::opcodes::completes;
use crate::vm::VM;

verus! {

/// What the IN routine prints before it takes a character.
pub open spec fn in_prompt() -> Seq<u8> {
    seq![
        'E' as u8, 'n' as u8, 't' as u8, 'e' as u8, 'r' as u8, ' ' as u8, 'a' as u8, ' ' as u8, 'c' as u8, 'h' as u8, 'a' as u8, 'r' as u8, 'a' as u8, 'c' as u8, 't' as u8,
        'e' as u8, 'r' as u8, ':' as u8, ' ' as u8, '\n' as u8,
    ]
}

fn prompt_bytes() -> (r: Vec<u8>)
    ensures
        r@ == in_prompt(),
{
    vec![
        'E' as u8, 'n' as u8, 't' as u8, 'e' as u8, 'r' as u8, ' ' as u8, 'a' as u8, ' ' as u8, 'c' as u8, 'h' as u8, 'a' as u8, 'r' as u8, 'a' as u8, 'c' as u8, 't' as u8,
        'e' as u8, 'r' as u8, ':' as u8, ' ' as u8, '\n' as u8,
    ]
}

/// The characters that one string word stands for: its low byte, or for a
/// packed string the low byte and then the high byte unless that is zero.
pub open spec fn word_chars(c: u16, packed: bool) -> Seq<u8> {
    let lo = (c & 0xFF) as u8;
    let hi = (c >> 8) as u8;
    if packed && hi != 0 {
        seq![lo, hi]
    } else {
        seq![lo]
    }
}

/// Prints the string that starts at `index`: words are read in turn, each
/// printed as `word_chars`, until a zero word or the end of the address space.
/// `None` if one of the reads blocks on the keyboard.
pub open spec fn scan_spec(m: Machine, index: int, packed: bool) -> Option<Machine>
    decreases 0x10000 - index,
{
    if index < 0 || index >= 0x10000 {
        Some(m)
    } else {
        let a = index as u16;
        if m.blocks_on(a) {
            None
        } else {
            let c = m.read_value(a);
            if c == 0 {
                Some(m.after_read(a))
            } else {
                scan_spec(m.after_read(a).emit(word_chars(c, packed)), index + 1, packed)
            }
        }
    }
}

/// What IN prints for the character `k`: the prompt, unless a wait for input
/// has printed it already, then the character itself.
pub open spec fn in_text(prompted: bool, k: u8) -> Seq<u8> {
    if prompted {
        seq![k]
    } else {
        in_prompt().push(k)
    }
}

/// The state that a TRAP leaves when it must wait for a host byte: IN prints
/// its prompt first (once); the other routines change nothing.
pub open spec fn trap_waiting(m: Machine, instr: u16) -> Machine {
    if trap_vector(instr) == TRAP_IN && !m.prompted {
        Machine { prompted: true, ..m.emit(in_prompt()) }
    } else {
        m
    }
}

/// The trap vectors that have a routine.
pub open spec fn known_vector(v: u16) -> bool {
    TRAP_GETC <= v <= TRAP_HALT
}

/// The effect of a TRAP instruction whose vector is known: R7 takes the PC,
/// then the routine runs. `None` where it must wait for a host byte.
pub open spec fn trap_spec(m: Machine, instr: u16) -> Option<Machine> {
    let v = trap_vector(instr);
    let pc = m.pc();
    if v == TRAP_GETC {
        match m.input {
            Some(k) => Some(m.take_input().set_reg(RR7, pc).set_reg(RR0, k as u16)),
            None => None,
        }
    } else if v == TRAP_OUT {
        Some(m.set_reg(RR7, pc).emit(seq![(m.reg(RR0) & 0xFF) as u8]))
    } else if v == TRAP_PUTS || v == TRAP_PUTSP {
        match scan_spec(m, m.reg(RR0) as int, v == TRAP_PUTSP) {
            Some(after) => Some(after.set_reg(RR7, pc)),
            None => None,
        }
    } else if v == TRAP_IN {
        match m.input {
            Some(k) => Some(
                Machine {
                    prompted: false,
                    ..m.take_input().set_reg(RR7, pc).emit(in_text(m.prompted, k)).set_reg(
                        RR0,
                        k as u16,
                    ).set_flags(RR0)
                },
            ),
            None => None,
        }
    } else {
        Some(Machine { halted: true, ..m.set_reg(RR7, pc) })
    }
}

/// Reads the string that starts at `start` and returns its characters.
fn read_string(vm: &mut VM, start: u16, packed: bool) -> (r: Result<Vec<u8>, VmError>)
    ensures
        match scan_spec(old(vm)@, start as int, packed) {
            Some(m) => (r matches Ok(out) && final(vm)@.emit(out@) == m) && final(vm)@.output
                == old(vm)@.output,
            None => is_keyboard_error(r) && final(vm)@ == old(vm)@,
        },
{
    let ghost m0 = vm@;
    let mut index: u32 = start as u32;
    let mut out: Vec<u8> = Vec::new();
    let mut done = false;
    while index < 0x10000 && !done
        invariant
            m0 == old(vm)@,
            start <= index <= 0x10000,
            vm@.output == m0.output,
            index <= MR_KBSR ==> vm@ == m0,
            done ==> scan_spec(m0, start as int, packed) == Some(vm@.emit(out@)),
            !done ==> scan_spec(vm@.emit(out@), index as int, packed) == scan_spec(
                m0,
                start as int,
                packed,
            ),
        decreases 0x10000 - index,
    {
        let ghost before = vm@;
        let c = vm.mem_read(index as u16)?;
        let ghost chars_before = out@;
        assert(before.emit(chars_before).after_read(index as u16) == vm@.emit(chars_before));
        if c == 0 {
            done = true;
        } else {
            assert(c & 0xFF < 256 && c >> 8 < 256) by (bit_vector);
            out.push((c & 0xFF) as u8);
            if packed {
                let hi = (c >> 8) as u8;
                if hi != 0 {
                    out.push(hi);
                }
            }
            assert(out@ =~= chars_before + word_chars(c, packed));
            assert(vm@.emit(chars_before).emit(word_chars(c, packed)).output =~= vm@.emit(
                out@,
            ).output);
        }
        index += 1;
    }
    Ok(out)
}

/// TRAP: saves the PC in R7 and runs the routine that the low byte names.
/// GETC and IN take the pending host byte; OUT, PUTS, PUTSP and IN write to
/// the console output; HALT stops the machine. An unknown vector is an error
/// that changes nothing. A routine that waits for a host byte fails and leaves
/// the machine as `trap_waiting` says.
pub fn trap(instr: u16, vm: &mut VM) -> (r: Result<(), VmError>)
    ensures
        known_vector(trap_vector(instr)) ==> completes(
            r,
            trap_waiting(old(vm)@, instr),
            final(vm)@,
            trap_spec(old(vm)@, instr),
        ),
        !known_vector(trap_vector(instr)) ==> (r matches Err(VmError::IllegalTrapError(v)) && v
            == trap_vector(instr)) && final(vm)@ == old(vm)@,
{
    proof {
        lemma_field_bounds(instr);
    }
    let pc = vm.get_register_value(RPC)?;
    let vector = instr & 0xFF;
    if vector == TRAP_GETC {
        let byte = vm.read_char()?;
        vm.update_register_value(RR7, pc)?;
        vm.update_register_value(RR0, byte as u16)?;
    } else if vector == TRAP_OUT {
        let c = vm.get_register_value(RR0)?;
        vm.update_register_value(RR7, pc)?;
        assert(c & 0xFF < 256) by (bit_vector);
        let text = vec![(c & 0xFF) as u8];
        vm.emit(&text);
        assert(text@ =~= seq![(c & 0xFF) as u8]);
    } else if vector == TRAP_PUTS || vector == TRAP_PUTSP {
        let start = vm.get_register_value(RR0)?;
        let text = read_string(vm, start, vector == TRAP_PUTSP)?;
        vm.update_register_value(RR7, pc)?;
        vm.emit(&text);
    } else if vector == TRAP_IN {
        let prompted = vm.is_prompted();
        if !vm.has_input() {
            // the prompt goes out before the wait, and only once
            if !prompted {
                vm.emit(&prompt_bytes());
                vm.set_prompted(true);
            }
            return Err(VmError::KeyboardInputError("no input byte available".to_owned()));
        }
        let byte = vm.read_char()?;
        vm.update_register_value(RR7, pc)?;
        let mut text = if prompted {
            Vec::new()
        } else {
            prompt_bytes()
        };
        text.push(byte);
        vm.emit(&text);
        vm.set_prompted(false);
        vm.update_register_value(RR0, byte as u16)?;
        vm.update_flags(RR0)?;
    } else if vector == TRAP_HALT {
        vm.update_register_value(RR7, pc)?;
        vm.halt();
    } else {
        return Err(VmError::IllegalTrapError(vector));
    }
    Ok(())
}

} // verus!
