use vstd::prelude::*;

use crate::consts::{FL_NEG, FL_POS, FL_ZRO, MR_KBSR, OP_ADD, OP_AND, RPC, RR7};
use crate::decode::{base_field, dest_field, long_flag, offset11, offset9, sext, src2_field};
use crate::loader::{be_word, image_words, load_words, loaded};
use crate::machine::{flag_for, wrap_add, Machine};
use crate::opcodes::{add_spec, and_spec, br_spec, jsr_spec, ld_spec, ldi_spec, st_spec, sti_spec};

verus! {

/// The flags that describe `v`: ZRO for zero, NEG when bit 15 is set, POS otherwise.
pub open spec fn flag_describes(f: u16, v: u16) -> bool {
    &&& v == 0 ==> f == FL_ZRO
    &&& 0x8000 <= v ==> f == FL_NEG
    &&& 0 < v < 0x8000 ==> f == FL_POS
}

/// A register-mode ADD or AND instruction word.
pub open spec fn encode_register_op(op: u16, d: u16, s1: u16, s2: u16) -> u16 {
    (op << 12) | (d << 9) | (s1 << 6) | s2
}

proof fn lemma_register_op_fields(op: u16, d: u16, s1: u16, s2: u16)
    requires
        op < 16,
        d < 8,
        s1 < 8,
        s2 < 8,
    ensures
        dest_field(encode_register_op(op, d, s1, s2)) == d,
        base_field(encode_register_op(op, d, s1, s2)) == s1,
        src2_field(encode_register_op(op, d, s1, s2)) == s2,
        (encode_register_op(op, d, s1, s2) >> 5) & 1 == 0,
{
    assert({
        let i = (op << 12) | (d << 9) | (s1 << 6) | s2;
        &&& (i >> 9) & 7 == d
        &&& (i >> 6) & 7 == s1
        &&& i & 7 == s2
        &&& (i >> 5) & 1 == 0
    }) by (bit_vector)
        requires
            op < 16,
            d < 8,
            s1 < 8,
            s2 < 8,
    ;
}

/// Register-mode ADD and AND compute the native wrapping sum and bitwise AND of
/// any two of R0..R7 into any of them, and COND then describes the result.
pub proof fn law_add_and_native(m: Machine, d: u16, s1: u16, s2: u16)
    requires
        m.wf(),
        d < 8,
        s1 < 8,
        s2 < 8,
    ensures
        add_spec(m, encode_register_op(OP_ADD, d, s1, s2)).reg(d) == m.reg(s1).wrapping_add(
            m.reg(s2),
        ),
        flag_describes(
            add_spec(m, encode_register_op(OP_ADD, d, s1, s2)).cond(),
            m.reg(s1).wrapping_add(m.reg(s2)),
        ),
        and_spec(m, encode_register_op(OP_AND, d, s1, s2)).reg(d) == m.reg(s1) & m.reg(s2),
        flag_describes(
            and_spec(m, encode_register_op(OP_AND, d, s1, s2)).cond(),
            m.reg(s1) & m.reg(s2),
        ),
{
    lemma_register_op_fields(OP_ADD, d, s1, s2);
    lemma_register_op_fields(OP_AND, d, s1, s2);
}

/// Sign extension leaves its own result unchanged.
pub proof fn law_sign_extend_idempotent(x: u16, k: u16)
    requires
        1 <= k <= 16,
    ensures
        sext(sext(x, k), k) == sext(x, k),
{
    assert(k < 16 && (x >> ((k - 1) as u16)) & 1 == 1 ==> ((x | (0xFFFFu16 << k)) >> ((k
        - 1) as u16)) & 1 == 1 && (x | (0xFFFFu16 << k)) | (0xFFFFu16 << k) == x | (0xFFFFu16
        << k)) by (bit_vector);
}

/// The bits of `x` below position `k`.
pub open spec fn low_bits(x: u16, k: u16) -> u16 {
    x & !(0xFFFFu16 << k)
}

/// `x` is a `k`-bit field, or its bit `k - 1` is set.
pub open spec fn field_or_negative(x: u16, k: u16) -> bool {
    x >> k == 0 || (x >> ((k - 1) as u16)) & 1 == 1
}

/// Sign extension depends on the low `k` bits alone, for values that are
/// `k`-bit fields or whose sign bit is set. (A value with bits above the field
/// and a clear sign bit comes back unchanged, high bits included.)
pub proof fn law_sign_extend_low_bits(x: u16, y: u16, k: u16)
    requires
        1 <= k <= 16,
        low_bits(x, k) == low_bits(y, k),
        field_or_negative(x, k),
        field_or_negative(y, k),
    ensures
        sext(x, k) == sext(y, k),
{
    assert(k < 16 && x & !(0xFFFFu16 << k) == y & !(0xFFFFu16 << k) && (x >> k == 0 || (x >> ((k
        - 1) as u16)) & 1 == 1) && (y >> k == 0 || (y >> ((k - 1) as u16)) & 1 == 1) ==> ((x >> ((k
        - 1) as u16)) & 1 == (y >> ((k - 1) as u16)) & 1) && (((x >> ((k - 1) as u16)) & 1 == 1)
        ==> x | (0xFFFFu16 << k) == y | (0xFFFFu16 << k)) && (((x >> ((k - 1) as u16)) & 1 != 1)
        ==> x == y)) by (bit_vector);
    assert(k == 16 ==> (x & !(0xFFFFu16 << k) == x && y & !(0xFFFFu16 << k) == y)) by (bit_vector);
}

/// A word stored by ST is what LD at the same effective address reads back,
/// unless that address is the keyboard status register, whose reads poll.
pub proof fn law_st_ld_round_trip(m: Machine, st_instr: u16, ld_instr: u16)
    requires
        m.wf(),
        offset9(st_instr) == offset9(ld_instr),
        wrap_add(m.pc(), offset9(st_instr)) != MR_KBSR,
    ensures
        ld_spec(st_spec(m, st_instr), ld_instr) is Some,
        ld_spec(st_spec(m, st_instr), ld_instr)->Some_0.reg(dest_field(ld_instr)) == m.reg(
            dest_field(st_instr),
        ),
{
    crate::decode::lemma_field_bounds(ld_instr);
    crate::decode::lemma_field_bounds(st_instr);
}

/// STI and LDI round-trip a value through two pointer words stored apart that
/// hold the same target, where neither pointer word nor the target is the
/// keyboard status register and the target is not LDI's own pointer word.
pub proof fn law_sti_ldi_round_trip(m: Machine, sti_instr: u16, ldi_instr: u16)
    requires
        m.wf(),
        ({
            let p1 = wrap_add(m.pc(), offset9(sti_instr));
            let p2 = wrap_add(m.pc(), offset9(ldi_instr));
            &&& m.word(p1) == m.word(p2)
            &&& p1 != MR_KBSR
            &&& p2 != MR_KBSR
            &&& m.word(p1) != MR_KBSR
            &&& m.word(p1) != p2
        }),
    ensures
        sti_spec(m, sti_instr) is Some,
        ldi_spec(sti_spec(m, sti_instr)->Some_0, ldi_instr) is Some,
        ldi_spec(sti_spec(m, sti_instr)->Some_0, ldi_instr)->Some_0.reg(dest_field(ldi_instr))
            == m.reg(dest_field(sti_instr)),
{
    crate::decode::lemma_field_bounds(ldi_instr);
    crate::decode::lemma_field_bounds(sti_instr);
}

/// BR moves the PC only when its mask meets COND, and then to PC + offset9;
/// it changes nothing else.
pub proof fn law_br_moves_pc_only_when_taken(m: Machine, instr: u16)
    requires
        m.wf(),
    ensures
        dest_field(instr) & m.cond() == 0 ==> br_spec(m, instr) == m,
        dest_field(instr) & m.cond() != 0 ==> br_spec(m, instr).pc() == wrap_add(
            m.pc(),
            offset9(instr),
        ),
        br_spec(m, instr).mem == m.mem,
        forall|r: u16| r < 11 && r != RPC ==> #[trigger] br_spec(m, instr).reg(r) == m.reg(r),
        br_spec(m, instr).pc() != m.pc() ==> dest_field(instr) & m.cond() != 0,
{
}

/// JSR and JSRR leave the PC that preceded the call in R7, whichever way the
/// target is formed; the target is PC + offset11, or the base register as it
/// reads once R7 holds the return address.
pub proof fn law_jsr_links_r7(m: Machine, instr: u16)
    requires
        m.wf(),
    ensures
        jsr_spec(m, instr).reg(RR7) == m.pc(),
        long_flag(instr) ==> jsr_spec(m, instr).pc() == wrap_add(m.pc(), offset11(instr)),
        !long_flag(instr) && base_field(instr) != RR7 ==> jsr_spec(m, instr).pc() == m.reg(
            base_field(instr),
        ),
        !long_flag(instr) && base_field(instr) == RR7 ==> jsr_spec(m, instr).pc() == m.pc(),
{
    crate::decode::lemma_field_bounds(instr);
}

/// Updating the flags from a register: ZRO for 0, NEG for 0x8000..=0xFFFF,
/// POS for 0x0001..=0x7FFF; nothing but COND changes.
pub proof fn law_update_flags(m: Machine, r: u16)
    requires
        m.wf(),
        r < 11,
    ensures
        flag_describes(m.set_flags(r).cond(), m.reg(r)),
        m.set_flags(r).cond() == flag_for(m.reg(r)),
        m.set_flags(r).mem == m.mem,
        m.set_flags(r) == m.set_reg(9, flag_for(m.reg(r))),
{
}

/// Storing words that fit below the top of memory puts word `i` at `addr + i`
/// and leaves every other address as it was.
pub proof fn lemma_load_words(mem: Seq<u16>, addr: u16, words: Seq<u16>)
    requires
        mem.len() == 0x10000,
        addr + words.len() <= 0x10000,
    ensures
        load_words(mem, addr, words).len() == 0x10000,
        forall|i: int|
            0 <= i < words.len() ==> #[trigger] load_words(mem, addr, words)[addr + i] == words[i],
        forall|a: int|
            0 <= a < 0x10000 && !(addr <= a < addr + words.len()) ==> #[trigger] load_words(
                mem,
                addr,
                words,
            )[a] == mem[a],
    decreases words.len(),
{
    if words.len() > 0 {
        let next = wrap_add(addr, 1);
        let rest = words.drop_first();
        let stored = mem.update(addr as int, words[0]);
        if addr as int + 1 < 0x10000 {
            assert(next == addr + 1);
        } else {
            assert(rest.len() == 0);
        }
        lemma_load_words(stored, next, rest);
        assert forall|i: int| 0 <= i < words.len() implies #[trigger] load_words(
            mem,
            addr,
            words,
        )[addr + i] == words[i] by {
            if i > 0 {
                assert(rest[i - 1] == words[i]);
                assert(next + (i - 1) == addr + i);
            }
        }
    }
}

/// Loading an image whose words fit between its base address and the top of
/// memory stores word `i` at `base + i`, changes no other address, and an
/// image that ends right after its base address changes no memory at all.
pub proof fn law_loader_places_words(m: Machine, image: Seq<u8>)
    requires
        m.wf(),
        image.len() >= 2,
        be_word(image, 0) + image_words(image).len() <= 0x10000,
    ensures
        forall|i: int|
            0 <= i < image_words(image).len() ==> #[trigger] loaded(m, image).mem[be_word(image, 0)
                + i] == image_words(image)[i],
        forall|a: int|
            0 <= a < 0x10000 && !(be_word(image, 0) <= a < be_word(image, 0) + image_words(
                image,
            ).len()) ==> #[trigger] loaded(m, image).mem[a] == m.mem[a],
        image.len() < 4 ==> loaded(m, image).mem == m.mem,
{
    lemma_load_words(m.mem, be_word(image, 0), image_words(image));
    if image.len() < 4 {
        assert(image_words(image).len() == 0);
    }
}

} // verus!
