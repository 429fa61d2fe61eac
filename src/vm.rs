use vstd::prelude::*;

use crate::consts::{FL_NEG, FL_POS, FL_ZRO, MEMORY_SIZE, MR_KBDR, MR_KBSR, RCOND, REG_COUNT};
use crate::errors::VmError;
use crate::machine::{flag_for, is_keyboard_error, Machine};

verus! {

/// The machine: memory, register file, and the console buffers that the host
/// fills and drains between instructions.
pub struct VM {
    memory: [u16; MEMORY_SIZE],
    regs: [u16; REG_COUNT],
    input: Option<u8>,
    output: Vec<u8>,
    halted: bool,
    prompted: bool,
}

impl View for VM {
    type V = Machine;

    closed spec fn view(&self) -> Machine {
        Machine {
            mem: self.memory@,
            regs: self.regs@,
            input: self.input,
            output: self.output@,
            halted: self.halted,
            prompted: self.prompted,
        }
    }
}

/// Sets COND in `regs` from the value held in register `r`.
pub fn update_flags(r: u16, regs: &mut [u16; REG_COUNT])
    requires
        r < REG_COUNT,
    ensures
        final(regs)@ == old(regs)@.update(RCOND as int, flag_for(old(regs)@[r as int])),
{
    let v = regs[r as usize];
    if v == 0 {
        regs[RCOND as usize] = FL_ZRO;
    } else if v >= 0x8000 {
        // the top bit marks a negative value
        regs[RCOND as usize] = FL_NEG;
    } else {
        regs[RCOND as usize] = FL_POS;
    }
}

impl VM {
    /// A machine with every word and register zero, no pending input and no output.
    pub fn new() -> (vm: VM)
        ensures
            vm@.wf(),
            forall|a: int| 0 <= a < MEMORY_SIZE ==> #[trigger] vm@.mem[a] == 0,
            forall|r: int| 0 <= r < REG_COUNT ==> #[trigger] vm@.regs[r] == 0,
            vm@.input is None,
            vm@.output.len() == 0,
            !vm@.halted,
            !vm@.prompted,
    {
        VM {
            memory: [0u16; MEMORY_SIZE],
            regs: [0u16; REG_COUNT],
            input: None,
            output: Vec::new(),
            halted: false,
            prompted: false,
        }
    }

    /// Every view of a machine has the architectural sizes.
    pub proof fn lemma_wf(&self)
        ensures
            self@.wf(),
    {
    }

    /// Stores `value` at `address`; every address can be written.
    pub fn mem_write(&mut self, address: u16, value: u16)
        ensures
            final(self)@ == old(self)@.write(address, value),
    {
        self.memory[address as usize] = value;
    }

    /// Reads `address`. Reading the keyboard status register first polls the
    /// keyboard, which takes the pending host byte; with none pending the read
    /// fails and nothing changes.
    pub fn mem_read(&mut self, address: u16) -> (r: Result<u16, VmError>)
        ensures
            old(self)@.blocks_on(address) ==> is_keyboard_error(r) && final(self)@ == old(self)@,
            !old(self)@.blocks_on(address) ==> r == Ok::<u16, VmError>(old(self)@.read_value(address))
                && final(self)@ == old(self)@.after_read(address),
    {
        if address == MR_KBSR {
            self.handle_keyboard()?;
        }
        Ok(self.memory[address as usize])
    }

    fn handle_keyboard(&mut self) -> (r: Result<(), VmError>)
        ensures
            old(self)@.input is None ==> is_keyboard_error(r) && final(self)@ == old(self)@,
            old(self)@.input is Some ==> r is Ok && final(self)@ == old(self)@.poll(
                old(self)@.input->Some_0,
            ),
    {
        match self.input.take() {
            Some(byte) => {
                if byte != 0 {
                    self.mem_write(MR_KBSR, 0x8000);
                    self.mem_write(MR_KBDR, byte as u16);
                } else {
                    self.mem_write(MR_KBSR, 0);
                }
                Ok(())
            },
            None => Err(VmError::KeyboardInputError("no input byte available".to_owned())),
        }
    }

    /// Sets COND from the value in register `register_number`.
    pub fn update_flags(&mut self, register_number: u16) -> (r: Result<(), VmError>)
        ensures
            register_number >= REG_COUNT ==> (r matches Err(VmError::OutOfBoundsError))
                && final(self)@ == old(self)@,
            register_number < REG_COUNT ==> r is Ok && final(self)@ == old(self)@.set_flags(
                register_number,
            ),
    {
        if register_number as usize >= REG_COUNT {
            Err(VmError::OutOfBoundsError)
        } else {
            update_flags(register_number, &mut self.regs);
            Ok(())
        }
    }

    /// The value of register `register_number`.
    pub fn get_register_value(&self, register_number: u16) -> (r: Result<u16, VmError>)
        ensures
            register_number >= REG_COUNT ==> (r matches Err(VmError::OutOfBoundsError)),
            register_number < REG_COUNT ==> r == Ok::<u16, VmError>(self@.reg(register_number)),
    {
        if register_number as usize >= REG_COUNT {
            Err(VmError::OutOfBoundsError)
        } else {
            Ok(self.regs[register_number as usize])
        }
    }

    /// Stores `value` in register `register_number`.
    pub fn update_register_value(&mut self, register_number: u16, value: u16) -> (r: Result<
        (),
        VmError,
    >)
        ensures
            register_number >= REG_COUNT ==> (r matches Err(VmError::OutOfBoundsError))
                && final(self)@ == old(self)@,
            register_number < REG_COUNT ==> r is Ok && final(self)@ == old(self)@.set_reg(
                register_number,
                value,
            ),
    {
        if register_number as usize >= REG_COUNT {
            Err(VmError::OutOfBoundsError)
        } else {
            self.regs[register_number as usize] = value;
            Ok(())
        }
    }
    /// Hands the machine the host byte that the next blocking read will take.
    pub fn provide_input(&mut self, byte: u8)
        ensures
            final(self)@ == (Machine { input: Some(byte), ..old(self)@ }),
    {
        self.input = Some(byte);
    }

    /// Whether a host byte is waiting to be taken.
    pub fn has_input(&self) -> (r: bool)
        ensures
            r == self@.input is Some,
    {
        self.input.is_some()
    }

    /// Takes the pending host byte for a blocking character read; with none
    /// pending the read fails and nothing changes.
    pub fn read_char(&mut self) -> (r: Result<u8, VmError>)
        ensures
            old(self)@.input is None ==> is_keyboard_error(r) && final(self)@ == old(self)@,
            old(self)@.input is Some ==> r == Ok::<u8, VmError>(old(self)@.input->Some_0)
                && final(self)@ == old(self)@.take_input(),
    {
        match self.input.take() {
            Some(byte) => Ok(byte),
            None => Err(VmError::KeyboardInputError("no input byte available".to_owned())),
        }
    }

    /// Appends `bytes` to the console output.
    pub fn emit(&mut self, bytes: &Vec<u8>)
        ensures
            final(self)@ == old(self)@.emit(bytes@),
    {
        let mut i: usize = 0;
        while i < bytes.len()
            invariant
                0 <= i <= bytes@.len(),
                self@ == old(self)@.emit(bytes@.subrange(0, i as int)),
            decreases bytes@.len() - i,
        {
            self.output.push(bytes[i]);
            i += 1;
            assert(self.output@ =~= old(self).output@ + bytes@.subrange(0, i as int));
        }
        assert(bytes@.subrange(0, bytes@.len() as int) == bytes@);
    }

    /// Hands over the console output written so far and clears it.
    pub fn take_output(&mut self) -> (out: Vec<u8>)
        ensures
            out@ == old(self)@.output,
            final(self)@ == (Machine { output: Seq::empty(), ..old(self)@ }),
    {
        let mut out: Vec<u8> = Vec::new();
        std::mem::swap(&mut out, &mut self.output);
        out
    }

    /// Stops the machine for good.
    pub fn halt(&mut self)
        ensures
            final(self)@ == (Machine { halted: true, ..old(self)@ }),
    {
        self.halted = true;
    }

    /// Records whether the IN routine has printed its prompt and waits.
    pub fn set_prompted(&mut self, prompted: bool)
        ensures
            final(self)@ == (Machine { prompted, ..old(self)@ }),
    {
        self.prompted = prompted;
    }

    /// Whether the IN routine has printed its prompt and waits.
    pub fn is_prompted(&self) -> (r: bool)
        ensures
            r == self@.prompted,
    {
        self.prompted
    }

    /// Whether the HALT routine has run.
    pub fn is_halted(&self) -> (r: bool)
        ensures
            r == self@.halted,
    {
        self.halted
    }
}

impl Default for VM {
    fn default() -> (vm: VM)
        ensures
            vm@.wf(),
            forall|a: int| 0 <= a < MEMORY_SIZE ==> #[trigger] vm@.mem[a] == 0,
            forall|r: int| 0 <= r < REG_COUNT ==> #[trigger] vm@.regs[r] == 0,
            vm@.input is None,
            vm@.output.len() == 0,
            !vm@.halted,
            !vm@.prompted,
    {
        VM::new()
    }
}

} // verus!
