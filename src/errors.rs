use vstd::prelude::*;

verus! {

/// Everything that can stop the machine short of a HALT.
#[derive(Debug)]
pub enum VmError {
    /// A register index of 11 or more.
    OutOfBoundsError,
    /// A blocking read found no input byte; carries the host's reason.
    KeyboardInputError(String),
    /// No image path was given.
    NotEnoughArguments,
    /// The image file could not be opened: its path and the reason.
    IncorrectFileNameError(String, String),
    /// The image could not be read to its end.
    BadFileError(String),
    /// A TRAP instruction named a vector with no routine behind it.
    IllegalTrapError(u16),
}

} // verus!
