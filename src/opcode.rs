use vstd::prelude::*;

pub use crate::scanner::{Scanner, Token, TokenType};

verus! {
/// The instruction set. Each opcode is one byte, `0x01` for the first
/// variant up to `0x31` for the last, in the order listed.
#[derive(Debug, Clone, Copy, PartialEq, Eq, Structural)]
pub enum Opcode {
    CpRR,
    CpRImm,
    CpMemR,
    CpRMem,
    AddRR,
    AddRImm,
    AddRMem,
    SubRR,
    SubRImm,
    SubRMem,
    MulRR,
    MulRImm,
    MulRMem,
    DivRR,
    DivRImm,
    DivRMem,
    NegR,
    NegMem,
    XorRR,
    XorRImm,
    XorRMem,
    AndRR,
    AndRImm,
    AndRMem,
    OrRR,
    OrRImm,
    OrRMem,
    NotR,
    NotMem,
    ShrRR,
    ShrRImm,
    ShlRR,
    ShlRImm,
    CmpRR,
    CmpRImm,
    CmpRMem,
    Be,
    Bne,
    Bg,
    Bge,
    Bl,
    Ble,
    Bc,
    Jmp,
    PutS,
    GetC,
    Call,
    Ret,
    Halt,
}

/// The opcode that byte `b` encodes, if any.
pub open spec fn opcode_of(b: u8) -> Option<Opcode> {
    match b {
        0x01 => Some(Opcode::CpRR),
        0x02 => Some(Opcode::CpRImm),
        0x03 => Some(Opcode::CpMemR),
        0x04 => Some(Opcode::CpRMem),
        0x05 => Some(Opcode::AddRR),
        0x06 => Some(Opcode::AddRImm),
        0x07 => Some(Opcode::AddRMem),
        0x08 => Some(Opcode::SubRR),
        0x09 => Some(Opcode::SubRImm),
        0x0a => Some(Opcode::SubRMem),
        0x0b => Some(Opcode::MulRR),
        0x0c => Some(Opcode::MulRImm),
        0x0d => Some(Opcode::MulRMem),
        0x0e => Some(Opcode::DivRR),
        0x0f => Some(Opcode::DivRImm),
        0x10 => Some(Opcode::DivRMem),
        0x11 => Some(Opcode::NegR),
        0x12 => Some(Opcode::NegMem),
        0x13 => Some(Opcode::XorRR),
        0x14 => Some(Opcode::XorRImm),
        0x15 => Some(Opcode::XorRMem),
        0x16 => Some(Opcode::AndRR),
        0x17 => Some(Opcode::AndRImm),
        0x18 => Some(Opcode::AndRMem),
        0x19 => Some(Opcode::OrRR),
        0x1a => Some(Opcode::OrRImm),
        0x1b => Some(Opcode::OrRMem),
        0x1c => Some(Opcode::NotR),
        0x1d => Some(Opcode::NotMem),
        0x1e => Some(Opcode::ShrRR),
        0x1f => Some(Opcode::ShrRImm),
        0x20 => Some(Opcode::ShlRR),
        0x21 => Some(Opcode::ShlRImm),
        0x22 => Some(Opcode::CmpRR),
        0x23 => Some(Opcode::CmpRImm),
        0x24 => Some(Opcode::CmpRMem),
        0x25 => Some(Opcode::Be),
        0x26 => Some(Opcode::Bne),
        0x27 => Some(Opcode::Bg),
        0x28 => Some(Opcode::Bge),
        0x29 => Some(Opcode::Bl),
        0x2a => Some(Opcode::Ble),
        0x2b => Some(Opcode::Bc),
        0x2c => Some(Opcode::Jmp),
        0x2d => Some(Opcode::PutS),
        0x2e => Some(Opcode::GetC),
        0x2f => Some(Opcode::Call),
        0x30 => Some(Opcode::Ret),
        0x31 => Some(Opcode::Halt),
        _ => None,
    }
}

impl Opcode {
    /// Total length in bytes of an instruction with this opcode.
    pub open spec fn len_spec(self) -> nat {
        match self {
            Opcode::PutS | Opcode::GetC | Opcode::Ret | Opcode::Halt => 1,
            Opcode::CpRR | Opcode::AddRR | Opcode::SubRR | Opcode::MulRR | Opcode::DivRR | Opcode::NegR | Opcode::XorRR | Opcode::AndRR | Opcode::OrRR | Opcode::NotR | Opcode::ShrRR | Opcode::ShlRR | Opcode::CmpRR => 2,
            Opcode::NegMem | Opcode::NotMem | Opcode::Be | Opcode::Bne | Opcode::Bg | Opcode::Bge | Opcode::Bl | Opcode::Ble | Opcode::Bc | Opcode::Jmp | Opcode::Call => 3,
            Opcode::CpRImm | Opcode::CpMemR | Opcode::CpRMem | Opcode::AddRImm | Opcode::AddRMem | Opcode::SubRImm | Opcode::SubRMem | Opcode::MulRImm | Opcode::MulRMem | Opcode::DivRImm | Opcode::DivRMem | Opcode::XorRImm | Opcode::XorRMem | Opcode::AndRImm | Opcode::AndRMem | Opcode::OrRImm | Opcode::OrRMem | Opcode::ShrRImm | Opcode::ShlRImm | Opcode::CmpRImm | Opcode::CmpRMem => 4,
        }
    }

    /// Decodes an opcode byte; `None` for `0x00` and for every byte past `0x31`.
    pub fn from_byte(b: u8) -> (r: Option<Opcode>)
        ensures
            r == opcode_of(b),
    {
        match b {
            0x01 => Some(Opcode::CpRR),
            0x02 => Some(Opcode::CpRImm),
            0x03 => Some(Opcode::CpMemR),
            0x04 => Some(Opcode::CpRMem),
            0x05 => Some(Opcode::AddRR),
            0x06 => Some(Opcode::AddRImm),
            0x07 => Some(Opcode::AddRMem),
            0x08 => Some(Opcode::SubRR),
            0x09 => Some(Opcode::SubRImm),
            0x0a => Some(Opcode::SubRMem),
            0x0b => Some(Opcode::MulRR),
            0x0c => Some(Opcode::MulRImm),
            0x0d => Some(Opcode::MulRMem),
            0x0e => Some(Opcode::DivRR),
            0x0f => Some(Opcode::DivRImm),
            0x10 => Some(Opcode::DivRMem),
            0x11 => Some(Opcode::NegR),
            0x12 => Some(Opcode::NegMem),
            0x13 => Some(Opcode::XorRR),
            0x14 => Some(Opcode::XorRImm),
            0x15 => Some(Opcode::XorRMem),
            0x16 => Some(Opcode::AndRR),
            0x17 => Some(Opcode::AndRImm),
            0x18 => Some(Opcode::AndRMem),
            0x19 => Some(Opcode::OrRR),
            0x1a => Some(Opcode::OrRImm),
            0x1b => Some(Opcode::OrRMem),
            0x1c => Some(Opcode::NotR),
            0x1d => Some(Opcode::NotMem),
            0x1e => Some(Opcode::ShrRR),
            0x1f => Some(Opcode::ShrRImm),
            0x20 => Some(Opcode::ShlRR),
            0x21 => Some(Opcode::ShlRImm),
            0x22 => Some(Opcode::CmpRR),
            0x23 => Some(Opcode::CmpRImm),
            0x24 => Some(Opcode::CmpRMem),
            0x25 => Some(Opcode::Be),
            0x26 => Some(Opcode::Bne),
            0x27 => Some(Opcode::Bg),
            0x28 => Some(Opcode::Bge),
            0x29 => Some(Opcode::Bl),
            0x2a => Some(Opcode::Ble),
            0x2b => Some(Opcode::Bc),
            0x2c => Some(Opcode::Jmp),
            0x2d => Some(Opcode::PutS),
            0x2e => Some(Opcode::GetC),
            0x2f => Some(Opcode::Call),
            0x30 => Some(Opcode::Ret),
            0x31 => Some(Opcode::Halt),
            _ => None,
        }
    }

    /// Total length in bytes of an instruction with this opcode.
    pub fn len(&self) -> (n: usize)
        ensures
            n == self.len_spec(),
    {
        match self {
            Opcode::PutS | Opcode::GetC | Opcode::Ret | Opcode::Halt => 1,
            Opcode::CpRR | Opcode::AddRR | Opcode::SubRR | Opcode::MulRR | Opcode::DivRR | Opcode::NegR | Opcode::XorRR | Opcode::AndRR | Opcode::OrRR | Opcode::NotR | Opcode::ShrRR | Opcode::ShlRR | Opcode::CmpRR => 2,
            Opcode::NegMem | Opcode::NotMem | Opcode::Be | Opcode::Bne | Opcode::Bg | Opcode::Bge | Opcode::Bl | Opcode::Ble | Opcode::Bc | Opcode::Jmp | Opcode::Call => 3,
            Opcode::CpRImm | Opcode::CpMemR | Opcode::CpRMem | Opcode::AddRImm | Opcode::AddRMem | Opcode::SubRImm | Opcode::SubRMem | Opcode::MulRImm | Opcode::MulRMem | Opcode::DivRImm | Opcode::DivRMem | Opcode::XorRImm | Opcode::XorRMem | Opcode::AndRImm | Opcode::AndRMem | Opcode::OrRImm | Opcode::OrRMem | Opcode::ShrRImm | Opcode::ShlRImm | Opcode::CmpRImm | Opcode::CmpRMem => 4,
        }
    }
}

/// The defined opcodes are exactly the bytes `0x01` through `0x31`.
pub proof fn lemma_opcode_range(b: u8)
    ensures
        opcode_of(b) is None <==> (b == 0 || b > 0x31),
{
}

} // verus!
