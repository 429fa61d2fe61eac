use vstd::prelude::*;

verus! {

/// A `k`-bit two's-complement field widened to 16 bits: when bit `k - 1` is
/// set every bit from `k` up is set too; otherwise the value is left as it is.
pub open spec fn sext(x: u16, k: u16) -> u16 {
    if k >= 16 {
        x
    } else if (x >> ((k - 1) as u16)) & 1 == 1 {
        x | (0xFFFFu16 << k)
    } else {
        x
    }
}

/// Destination (or store source) register: bits 11..9.
pub open spec fn dest_field(instr: u16) -> u16 {
    (instr >> 9) & 7
}

/// First source (or base) register: bits 8..6.
pub open spec fn base_field(instr: u16) -> u16 {
    (instr >> 6) & 7
}

/// Second source register: bits 2..0.
pub open spec fn src2_field(instr: u16) -> u16 {
    instr & 7
}

/// Immediate-mode bit of ADD and AND: bit 5.
pub open spec fn imm_flag(instr: u16) -> bool {
    (instr >> 5) & 1 == 1
}

/// Long-offset bit of JSR: bit 11.
pub open spec fn long_flag(instr: u16) -> bool {
    (instr >> 11) & 1 == 1
}

pub open spec fn imm5(instr: u16) -> u16 {
    sext(instr & 0x1F, 5)
}

pub open spec fn offset6(instr: u16) -> u16 {
    sext(instr & 0x3F, 6)
}

pub open spec fn offset9(instr: u16) -> u16 {
    sext(instr & 0x1FF, 9)
}

pub open spec fn offset11(instr: u16) -> u16 {
    sext(instr & 0x7FF, 11)
}

pub open spec fn opcode(instr: u16) -> u16 {
    instr >> 12
}

pub open spec fn trap_vector(instr: u16) -> u16 {
    instr & 0xFF
}

/// Every register field names one of R0..R7, and the opcode is a nibble.
pub proof fn lemma_field_bounds(instr: u16)
    ensures
        dest_field(instr) < 8,
        base_field(instr) < 8,
        src2_field(instr) < 8,
        opcode(instr) < 16,
        trap_vector(instr) < 256,
{
    assert((instr >> 9) & 7 < 8 && (instr >> 6) & 7 < 8 && instr & 7 < 8 && instr >> 12 < 16
        && instr & 0xFF < 256) by (bit_vector);
}

/// Widens the `bit_count`-bit two's-complement value `x` to 16 bits.
pub fn sign_extend(mut x: u16, bit_count: i32) -> (r: u16)
    requires
        1 <= bit_count <= 16,
    ensures
        r == sext(x, bit_count as u16),
{
    if bit_count < 16 {
        let k: u16 = bit_count as u16;
        let top: u16 = (x >> (k - 1)) & 1;
        assert(top != 0 <==> top == 1) by (bit_vector)
            requires
                top == (x >> ((k - 1) as u16)) & 1,
        ;
        if top != 0 {
            x |= 0xFFFFu16 << k;
        }
    }
    x
}

} // verus!
