use vstd::prelude::*;

verus! {

// Condition flags: exactly one of them is held in the COND register.
pub const FL_POS: u16 = 1;
pub const FL_ZRO: u16 = 2;
pub const FL_NEG: u16 = 4;

/// Number of words in the address space.
pub const MEMORY_SIZE: usize = 65536;

/// Execution stops once the program counter reaches this address.
pub const MEMORY_MAX: usize = 65535;

/// Keyboard status register (memory mapped).
pub const MR_KBSR: u16 = 0xFE00;

/// Keyboard data register (memory mapped).
pub const MR_KBDR: u16 = 0xFE02;

// Registers.
pub const RR0: u16 = 0;
pub const RR1: u16 = 1;
pub const RR2: u16 = 2;
pub const RR3: u16 = 3;
pub const RR4: u16 = 4;
pub const RR5: u16 = 5;
pub const RR6: u16 = 6;
pub const RR7: u16 = 7;
pub const RPC: u16 = 8;
pub const RCOND: u16 = 9;
pub const RCOUNT: u16 = 10;

/// Number of slots in the register file.
pub const REG_COUNT: usize = 11;

/// Usual load address of a program image.
pub const PC_START: u16 = 0x3000;

// Opcodes: the top nibble of an instruction word.
pub const OP_BR: u16 = 0;
pub const OP_ADD: u16 = 1;
pub const OP_LD: u16 = 2;
pub const OP_ST: u16 = 3;
pub const OP_JSR: u16 = 4;
pub const OP_AND: u16 = 5;
pub const OP_LDR: u16 = 6;
pub const OP_STR: u16 = 7;
pub const OP_RTI: u16 = 8;
pub const OP_NOT: u16 = 9;
pub const OP_LDI: u16 = 10;
pub const OP_STI: u16 = 11;
pub const OP_JMP: u16 = 12;
pub const OP_RES: u16 = 13;
pub const OP_LEA: u16 = 14;
pub const OP_TRAP: u16 = 15;

// Trap vectors: the low byte of a TRAP instruction.
pub const TRAP_GETC: u16 = 0x20;
pub const TRAP_OUT: u16 = 0x21;
pub const TRAP_PUTS: u16 = 0x22;
pub const TRAP_IN: u16 = 0x23;
pub const TRAP_PUTSP: u16 = 0x24;
pub const TRAP_HALT: u16 = 0x25;

} // verus!
