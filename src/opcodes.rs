use vstd::prelude::*;

use crate::consts::{MR_KBSR, RCOND, RPC, RR7};
use crate::decode::{
    base_field, dest_field, imm5, imm_flag, lemma_field_bounds, long_flag, offset11, offset6,
    offset9, sign_extend, src2_field,
};
use crate::errors::VmError;
use crate::machine::{is_keyboard_error, wrap_add, Machine};
use crate::vm::VM;

verus! {

/// `r` and `after` agree with an instruction whose effect is `expected`: the
/// new state on success, or `None` where the instruction must wait for a host
/// byte; it then fails and leaves the machine `waiting`.
pub open spec fn completes(
    r: Result<(), VmError>,
    waiting: Machine,
    after: Machine,
    expected: Option<Machine>,
) -> bool {
    match expected {
        Some(m) => r is Ok && after == m,
        None => is_keyboard_error(r) && after == waiting,
    }
}

/// ADD: first source plus the sign-extended imm5 (bit 5 set) or the second
/// source, modulo 65536, into the destination; then the flags.
pub open spec fn add_spec(m: Machine, instr: u16) -> Machine {
    let operand = if imm_flag(instr) {
        imm5(instr)
    } else {
        m.reg(src2_field(instr))
    };
    let dr = dest_field(instr);
    m.set_reg(dr, wrap_add(m.reg(base_field(instr)), operand)).set_flags(dr)
}

/// AND: like ADD with the bitwise and.
pub open spec fn and_spec(m: Machine, instr: u16) -> Machine {
    let operand = if imm_flag(instr) {
        imm5(instr)
    } else {
        m.reg(src2_field(instr))
    };
    let dr = dest_field(instr);
    m.set_reg(dr, m.reg(base_field(instr)) & operand).set_flags(dr)
}

/// NOT: the complement of the source into the destination; then the flags.
pub open spec fn not_spec(m: Machine, instr: u16) -> Machine {
    let dr = dest_field(instr);
    m.set_reg(dr, !m.reg(base_field(instr))).set_flags(dr)
}

/// The branch is taken when the mask in bits 11..9 shares a bit with COND.
pub open spec fn br_spec(m: Machine, instr: u16) -> Machine {
    if dest_field(instr) & m.cond() != 0 {
        m.set_reg(RPC, wrap_add(m.pc(), offset9(instr)))
    } else {
        m
    }
}

/// JMP: the PC takes the base register.
pub open spec fn jmp_spec(m: Machine, instr: u16) -> Machine {
    m.set_reg(RPC, m.reg(base_field(instr)))
}

/// R7 takes the PC first; the new PC is then PC + offset, or the base register
/// as it reads after that write.
pub open spec fn jsr_spec(m: Machine, instr: u16) -> Machine {
    let linked = m.set_reg(RR7, m.pc());
    if long_flag(instr) {
        linked.set_reg(RPC, wrap_add(m.pc(), offset11(instr)))
    } else {
        linked.set_reg(RPC, linked.reg(base_field(instr)))
    }
}

/// The register load of the value read at `a`, with flags; `None` if the read blocks.
pub open spec fn load_spec(m: Machine, dr: u16, a: u16) -> Option<Machine> {
    if m.blocks_on(a) {
        None
    } else {
        Some(m.after_read(a).set_reg(dr, m.read_value(a)).set_flags(dr))
    }
}

/// LD: reads PC + offset9.
pub open spec fn ld_spec(m: Machine, instr: u16) -> Option<Machine> {
    load_spec(m, dest_field(instr), wrap_add(m.pc(), offset9(instr)))
}

/// LDI: reads the pointer at PC + offset9, then the word it points to.
pub open spec fn ldi_spec(m: Machine, instr: u16) -> Option<Machine> {
    let a = wrap_add(m.pc(), offset9(instr));
    if m.blocks_on(a) {
        None
    } else {
        load_spec(m.after_read(a), dest_field(instr), m.read_value(a))
    }
}

/// LDR: reads base register + offset6.
pub open spec fn ldr_spec(m: Machine, instr: u16) -> Option<Machine> {
    load_spec(m, dest_field(instr), wrap_add(m.reg(base_field(instr)), offset6(instr)))
}

/// LEA: the address PC + offset9 itself into the destination; then the flags.
pub open spec fn lea_spec(m: Machine, instr: u16) -> Machine {
    let dr = dest_field(instr);
    m.set_reg(dr, wrap_add(m.pc(), offset9(instr))).set_flags(dr)
}

/// ST: the source register (bits 11..9) stored at PC + offset9.
pub open spec fn st_spec(m: Machine, instr: u16) -> Machine {
    m.write(wrap_add(m.pc(), offset9(instr)), m.reg(dest_field(instr)))
}

/// STI: the source register stored where the pointer at PC + offset9 points.
pub open spec fn sti_spec(m: Machine, instr: u16) -> Option<Machine> {
    let a = wrap_add(m.pc(), offset9(instr));
    if m.blocks_on(a) {
        None
    } else {
        Some(m.after_read(a).write(m.read_value(a), m.reg(dest_field(instr))))
    }
}

/// STR: the source register stored at base register + offset6.
pub open spec fn str_spec(m: Machine, instr: u16) -> Machine {
    m.write(wrap_add(m.reg(base_field(instr)), offset6(instr)), m.reg(dest_field(instr)))
}

proof fn lemma_wrapping_add(a: u16, b: u16)
    ensures
        a.wrapping_add(b) == wrap_add(a, b),
{
}

/// ADD: destination = first source + (sign-extended imm5 or second source), with flags.
pub fn add(instr: u16, vm: &mut VM) -> (r: Result<(), VmError>)
    ensures
        r is Ok,
        final(vm)@ == add_spec(old(vm)@, instr),
{
    proof {
        lemma_field_bounds(instr);
    }
    let dest_reg = (instr >> 9) & 0x7;
    let sr1 = (instr >> 6) & 0x7;
    let operand = if (instr >> 5) & 0x1 == 1 {
        sign_extend(instr & 0x1F, 5)
    } else {
        vm.get_register_value(instr & 0x7)?
    };
    let first = vm.get_register_value(sr1)?;
    proof {
        lemma_wrapping_add(first, operand);
    }
    vm.update_register_value(dest_reg, first.wrapping_add(operand))?;
    vm.update_flags(dest_reg)?;
    Ok(())
}

/// AND: destination = first source & (sign-extended imm5 or second source), with flags.
pub fn and(instr: u16, vm: &mut VM) -> (r: Result<(), VmError>)
    ensures
        r is Ok,
        final(vm)@ == and_spec(old(vm)@, instr),
{
    proof {
        lemma_field_bounds(instr);
    }
    let dest_reg = (instr >> 9) & 0x7;
    let sr1 = (instr >> 6) & 0x7;
    let operand = if (instr >> 5) & 0x1 == 1 {
        sign_extend(instr & 0x1F, 5)
    } else {
        vm.get_register_value(instr & 0x7)?
    };
    let first = vm.get_register_value(sr1)?;
    vm.update_register_value(dest_reg, first & operand)?;
    vm.update_flags(dest_reg)?;
    Ok(())
}

/// NOT: destination = bitwise complement of the source, with flags.
pub fn not(instr: u16, vm: &mut VM) -> (r: Result<(), VmError>)
    ensures
        r is Ok,
        final(vm)@ == not_spec(old(vm)@, instr),
{
    proof {
        lemma_field_bounds(instr);
    }
    let dest_reg = (instr >> 9) & 0x7;
    let base_reg = (instr >> 6) & 0x7;
    let val = !vm.get_register_value(base_reg)?;
    vm.update_register_value(dest_reg, val)?;
    vm.update_flags(dest_reg)?;
    Ok(())
}

/// BR: adds the sign-extended 9-bit offset to PC when the mask meets COND.
pub fn br(instr: u16, vm: &mut VM) -> (r: Result<(), VmError>)
    ensures
        r is Ok,
        final(vm)@ == br_spec(old(vm)@, instr),
{
    let pc_offset = sign_extend(instr & 0x1FF, 9);
    let cond_flag = (instr >> 9) & 0x7;
    if cond_flag & vm.get_register_value(RCOND)? != 0 {
        let pc = vm.get_register_value(RPC)?;
        proof {
            lemma_wrapping_add(pc, pc_offset);
        }
        vm.update_register_value(RPC, pc.wrapping_add(pc_offset))?;
    }
    Ok(())
}

/// JMP: PC = base register.
pub fn jmp(instr: u16, vm: &mut VM) -> (r: Result<(), VmError>)
    ensures
        r is Ok,
        final(vm)@ == jmp_spec(old(vm)@, instr),
{
    proof {
        lemma_field_bounds(instr);
    }
    let base_reg = (instr >> 6) & 0x7;
    let target = vm.get_register_value(base_reg)?;
    vm.update_register_value(RPC, target)?;
    Ok(())
}

/// JSR / JSRR: R7 = PC, then PC = PC + offset11 (bit 11 set) or the base register.
pub fn jsr(instr: u16, vm: &mut VM) -> (r: Result<(), VmError>)
    ensures
        r is Ok,
        final(vm)@ == jsr_spec(old(vm)@, instr),
{
    proof {
        lemma_field_bounds(instr);
    }
    let use_offset = (instr >> 11) & 1;
    let pc = vm.get_register_value(RPC)?;
    vm.update_register_value(RR7, pc)?;
    if use_offset != 0 {
        assert(use_offset != 0 <==> use_offset == 1) by (bit_vector)
            requires
                use_offset == (instr >> 11) & 1,
        ;
        let pc_offset = sign_extend(instr & 0x7FF, 11);
        proof {
            lemma_wrapping_add(pc, pc_offset);
        }
        vm.update_register_value(RPC, pc.wrapping_add(pc_offset))?;
    } else {
        let base_reg = (instr >> 6) & 0x7;
        let target = vm.get_register_value(base_reg)?;
        vm.update_register_value(RPC, target)?;
    }
    Ok(())
}

/// Loads the word at `address` into `dest_reg` and sets the flags.
fn load(dest_reg: u16, address: u16, vm: &mut VM) -> (r: Result<(), VmError>)
    requires
        dest_reg < 8,
    ensures
        completes(r, old(vm)@, final(vm)@, load_spec(old(vm)@, dest_reg, address)),
{
    let value = vm.mem_read(address)?;
    vm.update_register_value(dest_reg, value)?;
    vm.update_flags(dest_reg)?;
    Ok(())
}

/// LD: destination = mem[PC + offset9], with flags.
pub fn ld(instr: u16, vm: &mut VM) -> (r: Result<(), VmError>)
    ensures
        completes(r, old(vm)@, final(vm)@, ld_spec(old(vm)@, instr)),
{
    proof {
        lemma_field_bounds(instr);
    }
    let dest_reg = (instr >> 9) & 0x7;
    let pc_offset = sign_extend(instr & 0x1FF, 9);
    let pc = vm.get_register_value(RPC)?;
    proof {
        lemma_wrapping_add(pc, pc_offset);
    }
    load(dest_reg, pc.wrapping_add(pc_offset), vm)
}

/// LDI: destination = mem[mem[PC + offset9]], with flags.
pub fn ldi(instr: u16, vm: &mut VM) -> (r: Result<(), VmError>)
    ensures
        completes(r, old(vm)@, final(vm)@, ldi_spec(old(vm)@, instr)),
{
    proof {
        lemma_field_bounds(instr);
    }
    let dest_reg = (instr >> 9) & 0x7;
    let pc_offset = sign_extend(instr & 0x1FF, 9);
    let pc = vm.get_register_value(RPC)?;
    proof {
        lemma_wrapping_add(pc, pc_offset);
    }
    let ghost before = vm@;
    proof {
        vm.lemma_wf();
    }
    let pointer = vm.mem_read(pc.wrapping_add(pc_offset))?;
    proof {
        // a poll leaves 0x8000 or 0 in the status word, so it never feeds a second poll
        if pc.wrapping_add(pc_offset) == MR_KBSR {
            assert(pointer == 0x8000 || pointer == 0);
        } else {
            assert(vm@ == before);
        }
    }
    load(dest_reg, pointer, vm)
}

/// LDR: destination = mem[base + offset6], with flags.
pub fn ldr(instr: u16, vm: &mut VM) -> (r: Result<(), VmError>)
    ensures
        completes(r, old(vm)@, final(vm)@, ldr_spec(old(vm)@, instr)),
{
    proof {
        lemma_field_bounds(instr);
    }
    let dest_reg = (instr >> 9) & 0x7;
    let base_reg = (instr >> 6) & 0x7;
    let pc_offset = sign_extend(instr & 0x3F, 6);
    let base = vm.get_register_value(base_reg)?;
    proof {
        lemma_wrapping_add(base, pc_offset);
    }
    load(dest_reg, base.wrapping_add(pc_offset), vm)
}

/// LEA: destination = PC + offset9 (no memory access), with flags.
pub fn lea(instr: u16, vm: &mut VM) -> (r: Result<(), VmError>)
    ensures
        r is Ok,
        final(vm)@ == lea_spec(old(vm)@, instr),
{
    proof {
        lemma_field_bounds(instr);
    }
    let dest_reg = (instr >> 9) & 0x7;
    let pc_offset = sign_extend(instr & 0x1FF, 9);
    let pc = vm.get_register_value(RPC)?;
    proof {
        lemma_wrapping_add(pc, pc_offset);
    }
    vm.update_register_value(dest_reg, pc.wrapping_add(pc_offset))?;
    vm.update_flags(dest_reg)?;
    Ok(())
}

/// ST: mem[PC + offset9] = source register.
pub fn st(instr: u16, vm: &mut VM) -> (r: Result<(), VmError>)
    ensures
        r is Ok,
        final(vm)@ == st_spec(old(vm)@, instr),
{
    proof {
        lemma_field_bounds(instr);
    }
    let source_reg = (instr >> 9) & 0x7;
    let pc_offset = sign_extend(instr & 0x1FF, 9);
    let pc = vm.get_register_value(RPC)?;
    proof {
        lemma_wrapping_add(pc, pc_offset);
    }
    let value = vm.get_register_value(source_reg)?;
    vm.mem_write(pc.wrapping_add(pc_offset), value);
    Ok(())
}

/// STI: mem[mem[PC + offset9]] = source register.
pub fn sti(instr: u16, vm: &mut VM) -> (r: Result<(), VmError>)
    ensures
        completes(r, old(vm)@, final(vm)@, sti_spec(old(vm)@, instr)),
{
    proof {
        lemma_field_bounds(instr);
    }
    let source_reg = (instr >> 9) & 0x7;
    let pc_offset = sign_extend(instr & 0x1FF, 9);
    let pc = vm.get_register_value(RPC)?;
    proof {
        lemma_wrapping_add(pc, pc_offset);
    }
    let address = vm.mem_read(pc.wrapping_add(pc_offset))?;
    let value = vm.get_register_value(source_reg)?;
    vm.mem_write(address, value);
    Ok(())
}

/// STR: mem[base + offset6] = source register.
pub fn str(instr: u16, vm: &mut VM) -> (r: Result<(), VmError>)
    ensures
        r is Ok,
        final(vm)@ == str_spec(old(vm)@, instr),
{
    proof {
        lemma_field_bounds(instr);
    }
    let source_reg = (instr >> 9) & 0x7;
    let base_reg = (instr >> 6) & 0x7;
    let pc_offset = sign_extend(instr & 0x3F, 6);
    let base = vm.get_register_value(base_reg)?;
    proof {
        lemma_wrapping_add(base, pc_offset);
    }
    let value = vm.get_register_value(source_reg)?;
    vm.mem_write(base.wrapping_add(pc_offset), value);
    Ok(())
}

} // verus!
