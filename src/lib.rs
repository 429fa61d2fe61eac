//! A 16-bit instruction-set computer: 65536 words of memory, eleven registers,
//! sixteen opcodes and six console routines behind the TRAP instruction.
//!
//! The machine never touches the host console itself. A blocking read takes a
//! byte that the host has handed over with `VM::provide_input`; with none there
//! the instruction fails with `KeyboardInputError` and leaves the machine as it
//! was (IN prints its prompt first), so the host can read a byte and run it
//! again. Console output collects in the machine until the host takes it with
//! `VM::take_output`.

pub mod consts;
pub mod cpu;
pub mod decode;
pub mod errors;
pub mod laws;
pub mod loader;
pub mod machine;
pub mod opcodes;
pub mod trap;
pub mod vm;

pub use errors::VmError;
pub use vm::VM;
