use lc3_vm::consts;
use lc3_vm::opcodes;
use lc3_vm::trap::trap;
use lc3_vm::VM;

#[test]
fn opcodes_test_01() {
    // Adding two numbers in registers leaves the sum in a third register
    let mut vm = VM::new();
    vm.update_register_value(consts::RR1, 1).unwrap();
    vm.update_register_value(consts::RR2, 1).unwrap();

    // ADD R3 = R1 + R2
    let instr: u16 = 0b0001011001000010;
    opcodes::add(instr, &mut vm).unwrap();

    assert_eq!(2, vm.get_register_value(consts::RR3).unwrap());
}

#[test]
fn opcodes_test_02() {
    // Adding a register and an imm5 leaves the sum in a third register
    let mut vm = VM::new();
    vm.update_register_value(consts::RR1, 3).unwrap();

    // ADD R3 = R1 + 7
    let instr: u16 = 0b0001011001100111;
    opcodes::add(instr, &mut vm).unwrap();

    assert_eq!(10, vm.get_register_value(consts::RR3).unwrap());
}

#[test]
fn opcodes_test_03() {
    // A positive sum turns on the positive flag
    let mut vm = VM::new();
    vm.update_register_value(consts::RR1, 3).unwrap();

    let instr: u16 = 0b0001011001100111;
    opcodes::add(instr, &mut vm).unwrap();

    assert_eq!(consts::FL_POS, vm.get_register_value(consts::RCOND).unwrap());
}

#[test]
fn opcodes_test_04() {
    // A zero sum turns on the zero flag
    let mut vm = VM::new();
    vm.update_register_value(consts::RR1, 0).unwrap();

    let instr: u16 = 0b0001011001100000;
    opcodes::add(instr, &mut vm).unwrap();

    assert_eq!(consts::FL_ZRO, vm.get_register_value(consts::RCOND).unwrap());
}

#[test]
fn opcodes_test_05() {
    // A negative sum turns on the negative flag
    let mut vm = VM::new();
    vm.update_register_value(consts::RR1, 0).unwrap();

    let instr: u16 = 0b0001011001110000;
    opcodes::add(instr, &mut vm).unwrap();

    assert_eq!(consts::FL_NEG, vm.get_register_value(consts::RCOND).unwrap());
}

#[test]
fn add_test_01() {
    let mut vm = VM::new();
    vm.update_register_value(consts::RR1, 1).unwrap();
    vm.update_register_value(consts::RR2, 1).unwrap();

    let instr: u16 = 0b0001011001000010;
    opcodes::add(instr, &mut vm).unwrap();

    assert_eq!(2, vm.get_register_value(consts::RR3).unwrap());
}

#[test]
fn add_test_02() {
    let mut vm = VM::new();
    vm.update_register_value(consts::RR1, 3).unwrap();

    let instr: u16 = 0b0001011001100111;
    opcodes::add(instr, &mut vm).unwrap();

    assert_eq!(10, vm.get_register_value(consts::RR3).unwrap());
}

#[test]
fn add_test_03() {
    let mut vm = VM::new();
    vm.update_register_value(consts::RR1, 3).unwrap();

    let instr: u16 = 0b0001011001100111;
    opcodes::add(instr, &mut vm).unwrap();

    assert_eq!(consts::FL_POS, vm.get_register_value(consts::RCOND).unwrap());
}

#[test]
fn add_test_04() {
    let mut vm = VM::new();
    vm.update_register_value(consts::RR1, 0).unwrap();

    let instr: u16 = 0b0001011001100000;
    opcodes::add(instr, &mut vm).unwrap();

    assert_eq!(consts::FL_ZRO, vm.get_register_value(consts::RCOND).unwrap());
}

#[test]
fn add_test_05() {
    let mut vm = VM::new();
    vm.update_register_value(consts::RR1, 0).unwrap();

    let instr: u16 = 0b0001011001110000;
    opcodes::add(instr, &mut vm).unwrap();

    assert_eq!(consts::FL_NEG, vm.get_register_value(consts::RCOND).unwrap());
}

#[test]
fn and_test_01() {
    // AND of two registers lands in a third register
    let mut vm = VM::new();
    vm.update_register_value(consts::RR1, 2).unwrap();
    vm.update_register_value(consts::RR2, 3).unwrap();

    let instr: u16 = 0b0101011001000010;
    opcodes::and(instr, &mut vm).unwrap();

    assert_eq!(2, vm.get_register_value(consts::RR3).unwrap());
}

#[test]
fn and_test_02() {
    // AND of a register and an imm5
    let mut vm = VM::new();
    vm.update_register_value(consts::RR1, 15).unwrap();

    let instr: u16 = 0b0101011001100111;
    opcodes::and(instr, &mut vm).unwrap();

    assert_eq!(7, vm.get_register_value(consts::RR3).unwrap());
}

#[test]
fn and_test_03() {
    let mut vm = VM::new();
    vm.update_register_value(consts::RR1, 3).unwrap();

    let instr: u16 = 0b0001011001100111;
    opcodes::and(instr, &mut vm).unwrap();

    assert_eq!(consts::FL_POS, vm.get_register_value(consts::RCOND).unwrap());
}

#[test]
fn and_test_04() {
    let mut vm = VM::new();
    vm.update_register_value(consts::RR1, 0).unwrap();

    let instr: u16 = 0b0001011001111111;
    opcodes::and(instr, &mut vm).unwrap();

    assert_eq!(consts::FL_ZRO, vm.get_register_value(consts::RCOND).unwrap());
}

#[test]
fn br_test_01() {
    // A zero result, then a branch on zero
    let mut vm = VM::new();
    vm.update_register_value(consts::RR1, 0).unwrap();
    vm.update_register_value(consts::RR2, 0).unwrap();

    let add_instr: u16 = 0b0001011001000010;
    opcodes::add(add_instr, &mut vm).unwrap();

    assert!(vm.get_register_value(consts::RCOND).unwrap() == consts::FL_ZRO);

    let br_instr = 0b0000010001100000;
    opcodes::br(br_instr, &mut vm).unwrap();

    assert_eq!(96, vm.get_register_value(consts::RPC).unwrap());
}

#[test]
fn br_test_02() {
    // A positive result, then a branch on positive
    let mut vm = VM::new();
    vm.update_register_value(consts::RR1, 1).unwrap();
    vm.update_register_value(consts::RR2, 4).unwrap();

    let add_instr: u16 = 0b0001011001000010;
    opcodes::add(add_instr, &mut vm).unwrap();

    assert!(vm.get_register_value(consts::RCOND).unwrap() == consts::FL_POS);

    let br_instr = 0b0000001001000001;
    opcodes::br(br_instr, &mut vm).unwrap();

    assert_eq!(65, vm.get_register_value(consts::RPC).unwrap());
}

#[test]
fn br_test_03() {
    // A negative result, then a branch on negative
    let mut vm = VM::new();
    vm.update_register_value(consts::RR1, 1).unwrap();
    vm.update_register_value(consts::RR2, 4).unwrap();

    let add_instr: u16 = 0b0001011001111110;
    opcodes::add(add_instr, &mut vm).unwrap();

    assert!(vm.get_register_value(consts::RCOND).unwrap() == consts::FL_NEG);

    let br_instr = 0b0000100001000011;
    opcodes::br(br_instr, &mut vm).unwrap();

    assert_eq!(67, vm.get_register_value(consts::RPC).unwrap());
}

#[test]
fn br_test_04() {
    // A zero result, then a branch on negative or zero
    let mut vm = VM::new();
    vm.update_register_value(consts::RR1, 162).unwrap();
    vm.update_register_value(consts::RR2, 0).unwrap();

    let and_instr: u16 = 0b0101011001000010;
    opcodes::and(and_instr, &mut vm).unwrap();

    assert!(vm.get_register_value(consts::RCOND).unwrap() == consts::FL_ZRO);

    let br_instr = 0b0000110001100001;
    opcodes::br(br_instr, &mut vm).unwrap();

    assert_eq!(97, vm.get_register_value(consts::RPC).unwrap());
}

#[test]
fn br_test_05() {
    // An unconditional branch moves the PC
    let mut vm = VM::new();
    vm.update_register_value(consts::RCOND, consts::FL_POS).unwrap();

    let br_instr = 0b0000111011100001;
    opcodes::br(br_instr, &mut vm).unwrap();

    assert_eq!(225, vm.get_register_value(consts::RPC).unwrap());
}

#[test]
fn jmp_test_01() {
    // JMP sets the PC to the base register
    let mut vm = VM::new();
    vm.update_register_value(consts::RR1, 16).unwrap();

    let instr: u16 = 0b1100000001000000;
    opcodes::jmp(instr, &mut vm).unwrap();

    assert_eq!(16, vm.get_register_value(consts::RPC).unwrap());
}

#[test]
fn jmp_test_02() {
    // JMP through R7 returns to the PC saved by JSR
    let mut vm = VM::new();
    vm.update_register_value(consts::RR1, 16).unwrap();

    let instr: u16 = 0b1100000001000000;
    opcodes::jmp(instr, &mut vm).unwrap();

    let instr: u16 = 0b0100100000011111;
    opcodes::jsr(instr, &mut vm).unwrap();

    let instr: u16 = 0b1100000111000000;
    opcodes::jmp(instr, &mut vm).unwrap();

    assert_eq!(16, vm.get_register_value(consts::RPC).unwrap());
}

#[test]
fn jsr_test_01() {
    // JSR saves the PC and adds the offset to it
    let mut vm = VM::new();
    vm.update_register_value(consts::RR1, 16).unwrap();

    let jmp_instr: u16 = 0b1100000001000000;
    opcodes::jmp(jmp_instr, &mut vm).unwrap();

    let instr: u16 = 0b0100100000011111; // 31
    opcodes::jsr(instr, &mut vm).unwrap();

    assert_eq!(16, vm.get_register_value(consts::RR7).unwrap());
    assert_eq!(47, vm.get_register_value(consts::RPC).unwrap());
}

#[test]
fn jsr_test_02() {
    // JSRR saves the PC and jumps to the base register
    let mut vm = VM::new();
    vm.update_register_value(consts::RR1, 8).unwrap();
    vm.update_register_value(consts::RR2, 40).unwrap();

    let jmp_instr: u16 = 0b1100000001000000;
    opcodes::jmp(jmp_instr, &mut vm).unwrap();

    let instr: u16 = 0b0100000010000000;
    opcodes::jsr(instr, &mut vm).unwrap();

    assert_eq!(8, vm.get_register_value(consts::RR7).unwrap());
    assert_eq!(40, vm.get_register_value(consts::RPC).unwrap());
}

#[test]
fn ld_test_01() {
    // LD reads back what ST stored at the same offset
    let mut vm = VM::new();
    vm.update_register_value(consts::RR1, 31).unwrap();

    let st_instr: u16 = 0b0011001000000001;
    opcodes::st(st_instr, &mut vm).unwrap();

    let ld_instr: u16 = 0b0010011000000001;
    opcodes::ld(ld_instr, &mut vm).unwrap();

    assert_eq!(31, vm.get_register_value(consts::RR3).unwrap());
    assert!(vm.get_register_value(consts::RCOND).unwrap() == consts::FL_POS);
}

#[test]
fn ld_test_02() {
    // Loading a negative value turns on the negative flag
    let mut vm = VM::new();
    vm.update_register_value(consts::RR1, u16::MAX).unwrap();

    let st_instr: u16 = 0b0011001000000001;
    opcodes::st(st_instr, &mut vm).unwrap();

    let ld_instr: u16 = 0b0010011000000001;
    opcodes::ld(ld_instr, &mut vm).unwrap();

    assert!(vm.get_register_value(consts::RCOND).unwrap() == consts::FL_NEG);
}

#[test]
fn ldi_test_01() {
    // LDI follows the pointer stored at PC + offset
    let mut vm = VM::new();
    vm.update_register_value(consts::RR1, 31).unwrap();

    let st1_instr: u16 = 0b0011001000000001; // 1
    opcodes::st(st1_instr, &mut vm).unwrap();

    vm.update_register_value(consts::RR2, 96).unwrap();

    let st2_instr: u16 = 0b0011010000011111; // 31
    opcodes::st(st2_instr, &mut vm).unwrap();

    let ldi_instr: u16 = 0b1010011000000001;
    opcodes::ldi(ldi_instr, &mut vm).unwrap();

    assert_eq!(96, vm.get_register_value(consts::RR3).unwrap());
    assert!(vm.get_register_value(consts::RCOND).unwrap() == consts::FL_POS);
}

#[test]
fn ldi_test_02() {
    // Loading zero turns on the zero flag
    let mut vm = VM::new();

    let ldi_instr: u16 = 0b1010011000000001;
    opcodes::ldi(ldi_instr, &mut vm).unwrap();

    assert!(vm.get_register_value(consts::RCOND).unwrap() == consts::FL_ZRO);
}

#[test]
fn ldr_test_01() {
    // LDR reads at base register + offset
    let mut vm = VM::new();
    vm.update_register_value(consts::RR1, 49).unwrap();
    vm.update_register_value(consts::RR2, 16).unwrap();

    let st_instr: u16 = 0b0011001000011111; // 31
    opcodes::st(st_instr, &mut vm).unwrap();

    let ldr_instr: u16 = 0b0110011010001111;
    opcodes::ldr(ldr_instr, &mut vm).unwrap();

    assert_eq!(49, vm.get_register_value(consts::RR3).unwrap());
    assert!(vm.get_register_value(consts::RCOND).unwrap() == consts::FL_POS);
}

#[test]
fn ldr_test_02() {
    let mut vm = VM::new();

    let ldr_instr: u16 = 0b0110001000000001;
    opcodes::ldr(ldr_instr, &mut vm).unwrap();

    assert!(vm.get_register_value(consts::RCOND).unwrap() == consts::FL_ZRO);
}

#[test]
fn lea_test_01() {
    // LEA puts PC + offset in the destination register
    let mut vm = VM::new();
    vm.update_register_value(consts::RR1, 16).unwrap();

    let jmp_instr: u16 = 0b1100000001000010;
    opcodes::jmp(jmp_instr, &mut vm).unwrap();

    let instr: u16 = 0b1110100000011111; // 31
    opcodes::lea(instr, &mut vm).unwrap();

    assert_eq!(47, vm.get_register_value(consts::RR4).unwrap());
}

#[test]
fn not_test_01() {
    // NOT complements the base register into the destination
    let mut vm = VM::new();
    vm.update_register_value(consts::RR1, u16::MAX).unwrap();
    vm.update_register_value(consts::RR2, 5).unwrap();

    let instr: u16 = 0b1001010001111111;
    opcodes::not(instr, &mut vm).unwrap();

    assert_eq!(0, vm.get_register_value(consts::RR2).unwrap());
}

#[test]
fn not_test_02() {
    let mut vm = VM::new();
    vm.update_register_value(consts::RR1, 6).unwrap();

    let instr: u16 = 0b1001010001111111;
    opcodes::not(instr, &mut vm).unwrap();

    assert_eq!(consts::FL_NEG, vm.get_register_value(consts::RCOND).unwrap());
}

#[test]
fn not_test_03() {
    let mut vm = VM::new();
    vm.update_register_value(consts::RR1, u16::MAX - 10).unwrap();

    let instr: u16 = 0b1001010001111111;
    opcodes::not(instr, &mut vm).unwrap();

    assert_eq!(consts::FL_POS, vm.get_register_value(consts::RCOND).unwrap());
}

#[test]
fn st_test_01() {
    // ST stores the source register at PC + offset
    let mut vm = VM::new();
    vm.update_register_value(consts::RR1, 16).unwrap();

    let st_instr: u16 = 0b0011001000000001;
    opcodes::st(st_instr, &mut vm).unwrap();

    let ld_instr: u16 = 0b0010011000000001;
    opcodes::ld(ld_instr, &mut vm).unwrap();

    assert_eq!(16, vm.get_register_value(consts::RR3).unwrap());
}

#[test]
fn sti_test_01() {
    // STI stores through the pointer at PC + offset
    let mut vm = VM::new();
    vm.update_register_value(consts::RR1, 16).unwrap();
    vm.update_register_value(consts::RR2, 47).unwrap();

    let st_instr: u16 = 0b0011001000000011;
    opcodes::st(st_instr, &mut vm).unwrap();

    let sti_instr: u16 = 0b1011010000000011;
    opcodes::sti(sti_instr, &mut vm).unwrap();

    let ld_instr: u16 = 0b0010011000010000;
    opcodes::ld(ld_instr, &mut vm).unwrap();

    assert_eq!(47, vm.get_register_value(consts::RR3).unwrap());
}

#[test]
fn str_test_01() {
    // STR stores at base register + offset
    let mut vm = VM::new();
    vm.update_register_value(consts::RR1, 16).unwrap();
    vm.update_register_value(consts::RR2, 57).unwrap();

    let str_instr: u16 = 0b0111010001000001;
    opcodes::str(str_instr, &mut vm).unwrap();

    let ld_instr: u16 = 0b0010011000010001;
    opcodes::ld(ld_instr, &mut vm).unwrap();

    assert_eq!(57, vm.get_register_value(consts::RR3).unwrap());
}

#[test]
fn trap_test_01() {
    // TRAP saves the PC in R7
    let mut vm = VM::new();
    vm.update_register_value(consts::RR1, 16).unwrap();

    let jmp_instr: u16 = 0b1100000001000000;
    opcodes::jmp(jmp_instr, &mut vm).unwrap();

    trap(consts::TRAP_OUT, &mut vm).unwrap();

    assert_eq!(16, vm.get_register_value(consts::RR7).unwrap());
}
