use vstd::prelude::*;

verus! {

/// Every failure that loading or executing a program can report.
#[derive(Debug, Clone, PartialEq, Eq)]
pub enum Error {
    /// The divisor of a division was zero; the instruction had no effect.
    DivisionByZero,
    /// The byte at the program counter is no instruction: (byte, program counter).
    UnknownOpcode(u8, usize),
    /// The object file could not be opened.
    FileNotFound(String),
    /// The size of the object file could not be determined.
    CannotReadFileMetadata(String),
    /// The object file could not be read in full (its reported size in bytes).
    ObjectFileTooLarge(usize),
    /// A call was made with the call stack at its maximum depth.
    StackOverflow,
    /// A return was made with an empty call stack.
    StackUnderflow,
    /// The assembler met a character that starts no token.
    InvalidCharacter(char),
    /// A string literal of the assembly source has no closing quote (the line where the source ends).
    UnterminatedString(usize),
    /// The instruction at this program counter runs past the end of the code image.
    CodeOutOfBounds(usize),
    /// A shift amount outside `0..16`.
    InvalidShift(i16),
    /// `run` executed `u64::MAX` instructions without reaching a halt.
    StepLimitReached,
}

} // verus!
