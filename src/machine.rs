use vstd::prelude::*;

use crate::consts::{FL_NEG, FL_POS, FL_ZRO, MEMORY_SIZE, MR_KBDR, MR_KBSR, RCOND, REG_COUNT};
use crate::errors::VmError;

verus! {

/// The mathematical state of the machine: what every contract speaks of.
pub struct Machine {
    /// The 65536 words of the address space.
    pub mem: Seq<u16>,
    /// R0..R7, PC, COND, COUNT.
    pub regs: Seq<u16>,
    /// The host byte waiting to be taken by the next blocking read, if any.
    pub input: Option<u8>,
    /// Bytes written to the console and not yet handed to the host.
    pub output: Seq<u8>,
    /// Set once the HALT routine has run.
    pub halted: bool,
    /// The IN routine has printed its prompt and waits for a host byte.
    pub prompted: bool,
}

/// The flag that describes a value just written to a register.
pub open spec fn flag_for(v: u16) -> u16 {
    if v == 0 {
        FL_ZRO
    } else if v >= 0x8000 {
        FL_NEG
    } else {
        FL_POS
    }
}

/// 16-bit addition modulo 65536.
pub open spec fn wrap_add(a: u16, b: u16) -> u16 {
    ((a as int + b as int) % 0x10000) as u16
}

/// `r` is the error of a blocking read that found no host byte.
pub open spec fn is_keyboard_error<T>(r: Result<T, VmError>) -> bool {
    r matches Err(VmError::KeyboardInputError(_))
}

impl Machine {
    pub open spec fn wf(self) -> bool {
        &&& self.mem.len() == MEMORY_SIZE
        &&& self.regs.len() == REG_COUNT
    }

    pub open spec fn reg(self, r: u16) -> u16 {
        self.regs[r as int]
    }

    pub open spec fn pc(self) -> u16 {
        self.regs[8]
    }

    pub open spec fn cond(self) -> u16 {
        self.regs[9]
    }

    pub open spec fn word(self, a: u16) -> u16 {
        self.mem[a as int]
    }

    pub open spec fn set_reg(self, r: u16, v: u16) -> Machine {
        Machine { regs: self.regs.update(r as int, v), ..self }
    }

    /// COND set from the value now held in register `r`.
    pub open spec fn set_flags(self, r: u16) -> Machine {
        self.set_reg(RCOND, flag_for(self.reg(r)))
    }

    pub open spec fn write(self, a: u16, v: u16) -> Machine {
        Machine { mem: self.mem.update(a as int, v), ..self }
    }

    pub open spec fn emit(self, bytes: Seq<u8>) -> Machine {
        Machine { output: self.output + bytes, ..self }
    }

    /// A read of `a` would have to wait for a host byte that is not there.
    pub open spec fn blocks_on(self, a: u16) -> bool {
        a == MR_KBSR && self.input is None
    }

    /// The keyboard poll with host byte `k`: a nonzero byte sets the ready bit
    /// and lands in the data register, a zero byte clears the status word.
    pub open spec fn poll(self, k: u8) -> Machine {
        let m = Machine { input: None, ..self };
        if k != 0 {
            m.write(MR_KBSR, 0x8000).write(MR_KBDR, k as u16)
        } else {
            m.write(MR_KBSR, 0)
        }
    }

    /// The state after reading address `a` (when the read does not block).
    pub open spec fn after_read(self, a: u16) -> Machine {
        if a == MR_KBSR && self.input is Some {
            self.poll(self.input->Some_0)
        } else {
            self
        }
    }

    /// The word that a read of `a` returns (when it does not block).
    pub open spec fn read_value(self, a: u16) -> u16 {
        self.after_read(a).word(a)
    }

    /// The state once a blocking character read has taken the pending byte.
    pub open spec fn take_input(self) -> Machine {
        Machine { input: None, ..self }
    }
}

} // verus!
