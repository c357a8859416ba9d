use vstd::prelude::*;

use crate::alu::AluOp;
use crate::error::Error;
use crate::opcode::{opcode_of, Opcode};

verus! {

/// The second operand of a two-operand instruction.
#[derive(Debug, Clone, Copy, PartialEq, Eq, Structural)]
pub enum Source {
    Reg(u8),
    Imm(i16),
    Mem(u16),
}

/// The condition under which a branch is taken.
#[derive(Debug, Clone, Copy, PartialEq, Eq, Structural)]
pub enum Cond {
    Equal,
    NotEqual,
    Greater,
    GreaterOrEqual,
    Less,
    LessOrEqual,
    Carry,
    Always,
}

/// A decoded instruction with its operands.
#[derive(Debug, Clone, Copy, PartialEq, Eq, Structural)]
pub enum Instr {
    /// A two-operand operation on a register and a source.
    Alu(AluOp, u8, Source),
    /// `cp mem, r`: stores a register at an address.
    Store(u16, u8),
    NegReg(u8),
    NegMem(u16),
    NotReg(u8),
    NotMem(u16),
    /// A conditional branch, or with `Cond::Always` a jump, to an absolute address.
    Branch(Cond, u16),
    Call(u16),
    Ret,
    PutS,
    GetC,
    Halt,
}

impl Instr {
    /// Every register index is a 4-bit value.
    pub open spec fn wf(self) -> bool {
        match self {
            Instr::Alu(_, d, s) => d < 16 && (s matches Source::Reg(x) ==> x < 16),
            Instr::Store(_, s) => s < 16,
            Instr::NegReg(d) => d < 16,
            Instr::NotReg(d) => d < 16,
            _ => true,
        }
    }
}

/// High nibble of an operand byte.
pub open spec fn hi(b: u8) -> u8 {
    (b / 16) as u8
}

/// Low nibble of an operand byte.
pub open spec fn lo(b: u8) -> u8 {
    (b % 16) as u8
}

/// The little-endian unsigned 16-bit value at `code[i..i + 2]`.
pub open spec fn word_at(code: Seq<u8>, i: int) -> u16 {
    (code[i] + 256 * code[i + 1]) as u16
}

/// The little-endian two's-complement 16-bit value at `code[i..i + 2]`.
pub open spec fn imm_at(code: Seq<u8>, i: int) -> i16 {
    let w = word_at(code, i);
    if w >= 32768 { (w - 65536) as i16 } else { w as i16 }
}

/// The operands of an instruction with opcode `op` at `pc`, by the layout of its opcode.
pub open spec fn instr_spec(op: Opcode, code: Seq<u8>, pc: int) -> Instr {
    match op {
        Opcode::CpRR => Instr::Alu(AluOp::Cp, hi(code[pc + 1]), Source::Reg(lo(code[pc + 1]))),
        Opcode::CpRImm => Instr::Alu(AluOp::Cp, lo(code[pc + 1]), Source::Imm(imm_at(code, pc + 2))),
        Opcode::CpMemR => Instr::Store(word_at(code, pc + 1), lo(code[pc + 3])),
        Opcode::CpRMem => Instr::Alu(AluOp::Cp, lo(code[pc + 1]), Source::Mem(word_at(code, pc + 2))),
        Opcode::AddRR => Instr::Alu(AluOp::Add, hi(code[pc + 1]), Source::Reg(lo(code[pc + 1]))),
        Opcode::AddRImm => Instr::Alu(AluOp::Add, lo(code[pc + 1]), Source::Imm(imm_at(code, pc + 2))),
        Opcode::AddRMem => Instr::Alu(AluOp::Add, lo(code[pc + 1]), Source::Mem(word_at(code, pc + 2))),
        Opcode::SubRR => Instr::Alu(AluOp::Sub, hi(code[pc + 1]), Source::Reg(lo(code[pc + 1]))),
        Opcode::SubRImm => Instr::Alu(AluOp::Sub, lo(code[pc + 1]), Source::Imm(imm_at(code, pc + 2))),
        Opcode::SubRMem => Instr::Alu(AluOp::Sub, lo(code[pc + 1]), Source::Mem(word_at(code, pc + 2))),
        Opcode::MulRR => Instr::Alu(AluOp::Mul, hi(code[pc + 1]), Source::Reg(lo(code[pc + 1]))),
        Opcode::MulRImm => Instr::Alu(AluOp::Mul, lo(code[pc + 1]), Source::Imm(imm_at(code, pc + 2))),
        Opcode::MulRMem => Instr::Alu(AluOp::Mul, lo(code[pc + 1]), Source::Mem(word_at(code, pc + 2))),
        Opcode::DivRR => Instr::Alu(AluOp::Div, hi(code[pc + 1]), Source::Reg(lo(code[pc + 1]))),
        Opcode::DivRImm => Instr::Alu(AluOp::Div, lo(code[pc + 1]), Source::Imm(imm_at(code, pc + 2))),
        Opcode::DivRMem => Instr::Alu(AluOp::Div, lo(code[pc + 1]), Source::Mem(word_at(code, pc + 2))),
        Opcode::NegR => Instr::NegReg(lo(code[pc + 1])),
        Opcode::NegMem => Instr::NegMem(word_at(code, pc + 1)),
        Opcode::XorRR => Instr::Alu(AluOp::Xor, hi(code[pc + 1]), Source::Reg(lo(code[pc + 1]))),
        Opcode::XorRImm => Instr::Alu(AluOp::Xor, lo(code[pc + 1]), Source::Imm(imm_at(code, pc + 2))),
        Opcode::XorRMem => Instr::Alu(AluOp::Xor, lo(code[pc + 1]), Source::Mem(word_at(code, pc + 2))),
        Opcode::AndRR => Instr::Alu(AluOp::And, hi(code[pc + 1]), Source::Reg(lo(code[pc + 1]))),
        Opcode::AndRImm => Instr::Alu(AluOp::And, lo(code[pc + 1]), Source::Imm(imm_at(code, pc + 2))),
        Opcode::AndRMem => Instr::Alu(AluOp::And, lo(code[pc + 1]), Source::Mem(word_at(code, pc + 2))),
        Opcode::OrRR => Instr::Alu(AluOp::Or, hi(code[pc + 1]), Source::Reg(lo(code[pc + 1]))),
        Opcode::OrRImm => Instr::Alu(AluOp::Or, lo(code[pc + 1]), Source::Imm(imm_at(code, pc + 2))),
        Opcode::OrRMem => Instr::Alu(AluOp::Or, lo(code[pc + 1]), Source::Mem(word_at(code, pc + 2))),
        Opcode::NotR => Instr::NotReg(lo(code[pc + 1])),
        Opcode::NotMem => Instr::NotMem(word_at(code, pc + 1)),
        Opcode::ShrRR => Instr::Alu(AluOp::Shr, hi(code[pc + 1]), Source::Reg(lo(code[pc + 1]))),
        Opcode::ShrRImm => Instr::Alu(AluOp::Shr, lo(code[pc + 1]), Source::Imm(imm_at(code, pc + 2))),
        Opcode::ShlRR => Instr::Alu(AluOp::Shl, hi(code[pc + 1]), Source::Reg(lo(code[pc + 1]))),
        Opcode::ShlRImm => Instr::Alu(AluOp::Shl, lo(code[pc + 1]), Source::Imm(imm_at(code, pc + 2))),
        Opcode::CmpRR => Instr::Alu(AluOp::Cmp, hi(code[pc + 1]), Source::Reg(lo(code[pc + 1]))),
        Opcode::CmpRImm => Instr::Alu(AluOp::Cmp, lo(code[pc + 1]), Source::Imm(imm_at(code, pc + 2))),
        Opcode::CmpRMem => Instr::Alu(AluOp::Cmp, lo(code[pc + 1]), Source::Mem(word_at(code, pc + 2))),
        Opcode::Be => Instr::Branch(Cond::Equal, word_at(code, pc + 1)),
        Opcode::Bne => Instr::Branch(Cond::NotEqual, word_at(code, pc + 1)),
        Opcode::Bg => Instr::Branch(Cond::Greater, word_at(code, pc + 1)),
        Opcode::Bge => Instr::Branch(Cond::GreaterOrEqual, word_at(code, pc + 1)),
        Opcode::Bl => Instr::Branch(Cond::Less, word_at(code, pc + 1)),
        Opcode::Ble => Instr::Branch(Cond::LessOrEqual, word_at(code, pc + 1)),
        Opcode::Bc => Instr::Branch(Cond::Carry, word_at(code, pc + 1)),
        Opcode::Jmp => Instr::Branch(Cond::Always, word_at(code, pc + 1)),
        Opcode::PutS => Instr::PutS,
        Opcode::GetC => Instr::GetC,
        Opcode::Call => Instr::Call(word_at(code, pc + 1)),
        Opcode::Ret => Instr::Ret,
        Opcode::Halt => Instr::Halt,
    }
}

/// The instruction at `pc` with its length, or the reason that there is none:
/// the opcode byte is unknown, or the instruction runs past the end of the code.
pub open spec fn decode_spec(code: Seq<u8>, pc: usize) -> Result<(Instr, usize), Error> {
    if pc >= code.len() {
        Err(Error::CodeOutOfBounds(pc))
    } else {
        match opcode_of(code[pc as int]) {
            None => Err(Error::UnknownOpcode(code[pc as int], pc)),
            Some(op) => if pc + op.len_spec() > code.len() {
                Err(Error::CodeOutOfBounds(pc))
            } else {
                Ok((instr_spec(op, code, pc as int), op.len_spec() as usize))
            },
        }
    }
}

/// Reads a little-endian unsigned 16-bit value.
pub fn read_word(code: &Vec<u8>, i: usize) -> (w: u16)
    requires
        i + 2 <= code@.len(),
    ensures
        w == word_at(code@, i as int),
{
    let n = code.len();
    assert(i + 1 < n);
    code[i] as u16 + 256 * (code[i + 1] as u16)
}

/// Reads a little-endian two's-complement 16-bit value.
pub fn read_imm(code: &Vec<u8>, i: usize) -> (v: i16)
    requires
        i + 2 <= code@.len(),
    ensures
        v == imm_at(code@, i as int),
{
    let w = read_word(code, i);
    if w >= 32768 {
        (w as i32 - 65536) as i16
    } else {
        w as i16
    }
}

/// Decodes the instruction at `pc`, reading only within the code image.
pub fn decode(code: &Vec<u8>, pc: usize) -> (r: Result<(Instr, usize), Error>)
    ensures
        r == decode_spec(code@, pc),
        r matches Ok((ins, n)) ==> ins.wf() && 1 <= n <= 4 && pc + n <= code@.len(),
{
    if pc >= code.len() {
        return Err(Error::CodeOutOfBounds(pc));
    }
    let op = match Opcode::from_byte(code[pc]) {
        None => return Err(Error::UnknownOpcode(code[pc], pc)),
        Some(op) => op,
    };
    let n = op.len();
    if n > code.len() - pc {
        return Err(Error::CodeOutOfBounds(pc));
    }
    let ins = match op {
        Opcode::CpRR => Instr::Alu(AluOp::Cp, code[pc + 1] / 16, Source::Reg(code[pc + 1] % 16)),
        Opcode::CpRImm => Instr::Alu(AluOp::Cp, code[pc + 1] % 16, Source::Imm(read_imm(code, pc + 2))),
        Opcode::CpMemR => Instr::Store(read_word(code, pc + 1), code[pc + 3] % 16),
        Opcode::CpRMem => Instr::Alu(AluOp::Cp, code[pc + 1] % 16, Source::Mem(read_word(code, pc + 2))),
        Opcode::AddRR => Instr::Alu(AluOp::Add, code[pc + 1] / 16, Source::Reg(code[pc + 1] % 16)),
        Opcode::AddRImm => Instr::Alu(AluOp::Add, code[pc + 1] % 16, Source::Imm(read_imm(code, pc + 2))),
        Opcode::AddRMem => Instr::Alu(AluOp::Add, code[pc + 1] % 16, Source::Mem(read_word(code, pc + 2))),
        Opcode::SubRR => Instr::Alu(AluOp::Sub, code[pc + 1] / 16, Source::Reg(code[pc + 1] % 16)),
        Opcode::SubRImm => Instr::Alu(AluOp::Sub, code[pc + 1] % 16, Source::Imm(read_imm(code, pc + 2))),
        Opcode::SubRMem => Instr::Alu(AluOp::Sub, code[pc + 1] % 16, Source::Mem(read_word(code, pc + 2))),
        Opcode::MulRR => Instr::Alu(AluOp::Mul, code[pc + 1] / 16, Source::Reg(code[pc + 1] % 16)),
        Opcode::MulRImm => Instr::Alu(AluOp::Mul, code[pc + 1] % 16, Source::Imm(read_imm(code, pc + 2))),
        Opcode::MulRMem => Instr::Alu(AluOp::Mul, code[pc + 1] % 16, Source::Mem(read_word(code, pc + 2))),
        Opcode::DivRR => Instr::Alu(AluOp::Div, code[pc + 1] / 16, Source::Reg(code[pc + 1] % 16)),
        Opcode::DivRImm => Instr::Alu(AluOp::Div, code[pc + 1] % 16, Source::Imm(read_imm(code, pc + 2))),
        Opcode::DivRMem => Instr::Alu(AluOp::Div, code[pc + 1] % 16, Source::Mem(read_word(code, pc + 2))),
        Opcode::NegR => Instr::NegReg(code[pc + 1] % 16),
        Opcode::NegMem => Instr::NegMem(read_word(code, pc + 1)),
        Opcode::XorRR => Instr::Alu(AluOp::Xor, code[pc + 1] / 16, Source::Reg(code[pc + 1] % 16)),
        Opcode::XorRImm => Instr::Alu(AluOp::Xor, code[pc + 1] % 16, Source::Imm(read_imm(code, pc + 2))),
        Opcode::XorRMem => Instr::Alu(AluOp::Xor, code[pc + 1] % 16, Source::Mem(read_word(code, pc + 2))),
        Opcode::AndRR => Instr::Alu(AluOp::And, code[pc + 1] / 16, Source::Reg(code[pc + 1] % 16)),
        Opcode::AndRImm => Instr::Alu(AluOp::And, code[pc + 1] % 16, Source::Imm(read_imm(code, pc + 2))),
        Opcode::AndRMem => Instr::Alu(AluOp::And, code[pc + 1] % 16, Source::Mem(read_word(code, pc + 2))),
        Opcode::OrRR => Instr::Alu(AluOp::Or, code[pc + 1] / 16, Source::Reg(code[pc + 1] % 16)),
        Opcode::OrRImm => Instr::Alu(AluOp::Or, code[pc + 1] % 16, Source::Imm(read_imm(code, pc + 2))),
        Opcode::OrRMem => Instr::Alu(AluOp::Or, code[pc + 1] % 16, Source::Mem(read_word(code, pc + 2))),
        Opcode::NotR => Instr::NotReg(code[pc + 1] % 16),
        Opcode::NotMem => Instr::NotMem(read_word(code, pc + 1)),
        Opcode::ShrRR => Instr::Alu(AluOp::Shr, code[pc + 1] / 16, Source::Reg(code[pc + 1] % 16)),
        Opcode::ShrRImm => Instr::Alu(AluOp::Shr, code[pc + 1] % 16, Source::Imm(read_imm(code, pc + 2))),
        Opcode::ShlRR => Instr::Alu(AluOp::Shl, code[pc + 1] / 16, Source::Reg(code[pc + 1] % 16)),
        Opcode::ShlRImm => Instr::Alu(AluOp::Shl, code[pc + 1] % 16, Source::Imm(read_imm(code, pc + 2))),
        Opcode::CmpRR => Instr::Alu(AluOp::Cmp, code[pc + 1] / 16, Source::Reg(code[pc + 1] % 16)),
        Opcode::CmpRImm => Instr::Alu(AluOp::Cmp, code[pc + 1] % 16, Source::Imm(read_imm(code, pc + 2))),
        Opcode::CmpRMem => Instr::Alu(AluOp::Cmp, code[pc + 1] % 16, Source::Mem(read_word(code, pc + 2))),
        Opcode::Be => Instr::Branch(Cond::Equal, read_word(code, pc + 1)),
        Opcode::Bne => Instr::Branch(Cond::NotEqual, read_word(code, pc + 1)),
        Opcode::Bg => Instr::Branch(Cond::Greater, read_word(code, pc + 1)),
        Opcode::Bge => Instr::Branch(Cond::GreaterOrEqual, read_word(code, pc + 1)),
        Opcode::Bl => Instr::Branch(Cond::Less, read_word(code, pc + 1)),
        Opcode::Ble => Instr::Branch(Cond::LessOrEqual, read_word(code, pc + 1)),
        Opcode::Bc => Instr::Branch(Cond::Carry, read_word(code, pc + 1)),
        Opcode::Jmp => Instr::Branch(Cond::Always, read_word(code, pc + 1)),
        Opcode::PutS => Instr::PutS,
        Opcode::GetC => Instr::GetC,
        Opcode::Call => Instr::Call(read_word(code, pc + 1)),
        Opcode::Ret => Instr::Ret,
        Opcode::Halt => Instr::Halt,
    };
    Ok((ins, n))
}

} // verus!
