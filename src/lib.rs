//! A small virtual machine with sixteen 16-bit registers, a 65536-cell
//! word-addressed memory and a bounded call stack. `Machine::step` decodes and
//! executes one instruction of a byte-coded program; `Machine::run` steps until
//! a halt or an error. Every step either completes or fails with the machine
//! left exactly as it was.
//!
//! Choices where the instruction set leaves room:
//! - negation reports overflow (negating `i16::MIN`) through the carry flag;
//! - shifts are logical, and an amount outside `0..16` is an `InvalidShift` error;
//! - `cmp r, mem` has the layout of the other register-memory forms: register
//!   nibble in byte 1, address in bytes 2 and 3;
//! - before any comparison no conditional branch on the comparison state is taken;
//! - `puts` and `getc` are one-byte instructions that have no effect yet
//!   beyond moving on to the next instruction.

use vstd::prelude::*;

pub mod alu;
pub mod compiler;
pub mod decode;
pub mod error;
pub mod lemmas;
pub mod opcode;
pub mod scanner;

use crate::alu::{alu, alu_spec, fits16, neg16, wrap16, AluResult};
use crate::decode::{decode, decode_spec, Cond, Instr, Source};
use crate::error::Error;

verus! {

/// Maximum depth of the call stack.
pub const STACK_SIZE: usize = 1000;
/// Number of registers.
pub const MAX_REGISTERS: usize = 16;
/// Number of memory cells: one for every 16-bit address.
pub const MEMORY_SIZE: usize = 65536;
/// Rows of the text screen.
pub const SCREEN_HEIGHT: usize = 24;
/// Columns of the text screen.
pub const SCREEN_WIDTH: usize = 80;

/// Outcome of the most recent comparison instruction.
#[derive(Debug, Clone, Copy, PartialEq, Eq, Structural)]
pub enum ComparisonResult {
    Unset,
    LessThan,
    Equal,
    GreaterThan,
}

/// A call frame: the register file at the call and the address to return to.
#[derive(Clone, Copy)]
pub struct State {
    pub r: [i16; 16],
    pub pc: usize,
}

impl View for State {
    type V = (Seq<i16>, usize);

    open spec fn view(&self) -> (Seq<i16>, usize) {
        (self.r@, self.pc)
    }
}

/// The abstract state of a machine.
pub struct MachineModel {
    pub pc: usize,
    pub r: Seq<i16>,
    pub carry: bool,
    pub cmp: ComparisonResult,
    pub mem: Seq<i16>,
    pub code: Seq<u8>,
    pub screen: Seq<u8>,
    pub stack: Seq<(Seq<i16>, usize)>,
}

/// The machine: registers, flags, data memory, code image, text screen
/// and call stack.
pub struct Machine {
    pub pc: usize,
    pub r: [i16; 16],
    pub carry: bool,
    pub cmp: ComparisonResult,
    pub mem: Vec<i16>,
    pub code: Vec<u8>,
    pub screen: Vec<u8>,
    pub stack: Vec<State>,
}

impl View for Machine {
    type V = MachineModel;

    open spec fn view(&self) -> MachineModel {
        MachineModel {
            pc: self.pc,
            r: self.r@,
            carry: self.carry,
            cmp: self.cmp,
            mem: self.mem@,
            code: self.code@,
            screen: self.screen@,
            stack: self.stack@.map_values(|s: State| s@),
        }
    }
}

impl MachineModel {
    /// The memory covers the whole 16-bit address range and the call stack
    /// stays within its bound.
    pub open spec fn wf(self) -> bool {
        &&& self.r.len() == MAX_REGISTERS
        &&& self.mem.len() == MEMORY_SIZE
        &&& self.stack.len() <= STACK_SIZE
        &&& forall|i: int| 0 <= i < self.stack.len() ==> (#[trigger] self.stack[i]).0.len() == MAX_REGISTERS
    }
}

/// Whether a branch with condition `cond` is taken in the given flag state.
pub open spec fn branch_taken(cond: Cond, cmp: ComparisonResult, carry: bool) -> bool {
    match cond {
        Cond::Equal => cmp == ComparisonResult::Equal,
        Cond::NotEqual => cmp == ComparisonResult::LessThan || cmp == ComparisonResult::GreaterThan,
        Cond::Greater => cmp == ComparisonResult::GreaterThan,
        Cond::GreaterOrEqual => cmp == ComparisonResult::Equal || cmp == ComparisonResult::GreaterThan,
        Cond::Less => cmp == ComparisonResult::LessThan,
        Cond::LessOrEqual => cmp == ComparisonResult::Equal || cmp == ComparisonResult::LessThan,
        Cond::Carry => carry,
        Cond::Always => true,
    }
}

/// The value that a source operand denotes in state `m`.
pub open spec fn source_value(m: MachineModel, s: Source) -> i16 {
    match s {
        Source::Reg(x) => m.r[x as int],
        Source::Imm(v) => v,
        Source::Mem(a) => m.mem[a as int],
    }
}

/// The state after a call to `target` from an instruction that ends at `next`,
/// or `None` when the call stack is full.
pub open spec fn call_spec(m: MachineModel, target: u16, next: usize) -> Option<MachineModel> {
    if m.stack.len() >= STACK_SIZE {
        None
    } else {
        Some(MachineModel { stack: m.stack.push((m.r, next)), pc: target as usize, ..m })
    }
}

/// The state after a return, or `None` when the call stack is empty.
pub open spec fn return_spec(m: MachineModel) -> Option<MachineModel> {
    if m.stack.len() == 0 {
        None
    } else {
        Some(MachineModel { r: m.stack.last().0, pc: m.stack.last().1, stack: m.stack.drop_last(), ..m })
    }
}

/// The effect of a decoded instruction of length `n`: `Ok(true)` to go on,
/// `Ok(false)` on halt, or an error with the state untouched.
pub open spec fn exec_spec(m: MachineModel, ins: Instr, n: usize) -> (Result<bool, Error>, MachineModel) {
    let next = (m.pc + n) as usize;
    match ins {
        Instr::Alu(op, d, s) => match alu_spec(op, m.r[d as int], source_value(m, s)) {
            Err(e) => (Err(e), m),
            Ok(AluResult::Value(v)) => (Ok(true), MachineModel { r: m.r.update(d as int, v), pc: next, ..m }),
            Ok(AluResult::ValueCarry(v, c)) => (Ok(true), MachineModel { r: m.r.update(d as int, v), carry: c, pc: next, ..m }),
            Ok(AluResult::Compare(c)) => (Ok(true), MachineModel { cmp: c, pc: next, ..m }),
        },
        Instr::Store(a, s) => (Ok(true), MachineModel { mem: m.mem.update(a as int, m.r[s as int]), pc: next, ..m }),
        Instr::NegReg(d) => (Ok(true), MachineModel {
            r: m.r.update(d as int, wrap16(-m.r[d as int]) as i16),
            carry: !fits16(-m.r[d as int]),
            pc: next,
            ..m
        }),
        Instr::NegMem(a) => (Ok(true), MachineModel {
            mem: m.mem.update(a as int, wrap16(-m.mem[a as int]) as i16),
            carry: !fits16(-m.mem[a as int]),
            pc: next,
            ..m
        }),
        Instr::NotReg(d) => (Ok(true), MachineModel { r: m.r.update(d as int, !m.r[d as int]), pc: next, ..m }),
        Instr::NotMem(a) => (Ok(true), MachineModel { mem: m.mem.update(a as int, !m.mem[a as int]), pc: next, ..m }),
        Instr::Branch(c, t) => (Ok(true), MachineModel {
            pc: if branch_taken(c, m.cmp, m.carry) { t as usize } else { next },
            ..m
        }),
        Instr::Call(t) => match call_spec(m, t, next) {
            None => (Err(Error::StackOverflow), m),
            Some(m2) => (Ok(true), m2),
        },
        Instr::Ret => match return_spec(m) {
            None => (Err(Error::StackUnderflow), m),
            Some(m2) => (Ok(true), m2),
        },
        Instr::PutS => (Ok(true), MachineModel { pc: next, ..m }),
        Instr::GetC => (Ok(true), MachineModel { pc: next, ..m }),
        Instr::Halt => (Ok(false), m),
    }
}

/// One fetch-decode-execute step from state `m`.
pub open spec fn step_spec(m: MachineModel) -> (Result<bool, Error>, MachineModel) {
    match decode_spec(m.code, m.pc) {
        Err(e) => (Err(e), m),
        Ok((ins, n)) => exec_spec(m, ins, n),
    }
}

/// Steps from `m` until a halt (`Ok`), an error, or `fuel` steps have gone by.
pub open spec fn run_spec(m: MachineModel, fuel: nat) -> (Result<(), Error>, MachineModel)
    decreases fuel,
{
    if fuel == 0 {
        (Err(Error::StepLimitReached), m)
    } else {
        let (r, m2) = step_spec(m);
        match r {
            Err(e) => (Err(e), m2),
            Ok(false) => (Ok(()), m2),
            Ok(true) => run_spec(m2, (fuel - 1) as nat),
        }
    }
}

impl Machine {
    pub open spec fn wf(&self) -> bool {
        self@.wf()
    }

    /// A machine with cleared registers, memory and flags, an empty code image
    /// and an empty call stack.
    pub fn new() -> (m: Self)
        ensures
            m.wf(),
            m.pc == 0,
            forall|i: int| 0 <= i < MAX_REGISTERS ==> m.r[i] == 0,
            !m.carry,
            m.cmp == ComparisonResult::Unset,
            forall|i: int| 0 <= i < MEMORY_SIZE ==> m.mem@[i] == 0,
            m.code@.len() == 0,
            m.screen@ == Seq::new((SCREEN_HEIGHT * SCREEN_WIDTH) as nat, |i: int| 0x20u8),
            m.stack@.len() == 0,
    {
        let m = Machine {
            pc: 0,
            r: [0i16; 16],
            carry: false,
            cmp: ComparisonResult::Unset,
            mem: vec![0i16; MEMORY_SIZE],
            code: Vec::new(),
            screen: vec![0x20u8; SCREEN_HEIGHT * SCREEN_WIDTH],
            stack: Vec::new(),
        };
        assert(m.screen@ =~= Seq::new((SCREEN_HEIGHT * SCREEN_WIDTH) as nat, |i: int| 0x20u8));
        m
    }

    /// Pushes a call frame holding the current registers and `pc`.
    pub fn push(&mut self, pc: usize) -> (res: Result<(), Error>)
        requires
            old(self).wf(),
        ensures
            final(self).wf(),
            old(self).stack@.len() >= STACK_SIZE ==> res == Err::<(), Error>(Error::StackOverflow)
                && final(self)@ == old(self)@,
            old(self).stack@.len() < STACK_SIZE ==> res is Ok && final(self)@ == (MachineModel {
                stack: old(self)@.stack.push((old(self).r@, pc)),
                ..old(self)@
            }),
    {
        if self.stack.len() >= STACK_SIZE {
            return Err(Error::StackOverflow);
        }
        let frame = State { r: self.r, pc: pc };
        self.stack.push(frame);
        proof {
            assert(self@.stack =~= old(self)@.stack.push((old(self).r@, pc)));
        }
        Ok(())
    }

    /// Removes and returns the most recent call frame.
    pub fn pop(&mut self) -> (res: Result<State, Error>)
        requires
            old(self).wf(),
        ensures
            final(self).wf(),
            old(self).stack@.len() == 0 ==> res == Err::<State, Error>(Error::StackUnderflow)
                && final(self)@ == old(self)@,
            old(self).stack@.len() > 0 ==> res is Ok
                && res->Ok_0@ == old(self)@.stack.last()
                && final(self)@ == (MachineModel {
                    stack: old(self)@.stack.drop_last(),
                    ..old(self)@
                }),
    {
        match self.stack.pop() {
            Some(state) => {
                proof {
                    assert(self@.stack =~= old(self)@.stack.drop_last());
                }
                Ok(state)
            },
            None => Err(Error::StackUnderflow),
        }
    }

    /// Installs a program image that was read from a file expected to hold
    /// `expected_len` bytes; an image of another length is refused.
    pub fn install_image(&mut self, image: Vec<u8>, expected_len: usize) -> (res: Result<(), Error>)
        requires
            old(self).wf(),
        ensures
            final(self).wf(),
            image@.len() == expected_len ==> res is Ok && final(self)@ == (MachineModel { code: image@, ..old(self)@ }),
            image@.len() != expected_len ==> res == Err::<(), Error>(Error::ObjectFileTooLarge(expected_len))
                && final(self)@ == old(self)@,
    {
        if image.len() != expected_len {
            return Err(Error::ObjectFileTooLarge(expected_len));
        }
        self.code = image;
        Ok(())
    }

    fn set_reg(&mut self, d: u8, v: i16)
        requires
            old(self).wf(),
            d < 16,
        ensures
            final(self).wf(),
            final(self)@ == (MachineModel { r: old(self)@.r.update(d as int, v), ..old(self)@ }),
    {
        self.r[d as usize] = v;
        assert(self@.r =~= old(self)@.r.update(d as int, v));
    }

    fn set_mem(&mut self, a: u16, v: i16)
        requires
            old(self).wf(),
        ensures
            final(self).wf(),
            final(self)@ == (MachineModel { mem: old(self)@.mem.update(a as int, v), ..old(self)@ }),
    {
        self.mem.set(a as usize, v);
        assert(self@.mem =~= old(self)@.mem.update(a as int, v));
    }

    fn fetch(&self, s: Source) -> (v: i16)
        requires
            self.wf(),
            s matches Source::Reg(x) ==> x < 16,
        ensures
            v == source_value(self@, s),
    {
        match s {
            Source::Reg(x) => self.r[x as usize],
            Source::Imm(v) => v,
            Source::Mem(a) => self.mem[a as usize],
        }
    }

    /// Executes the instruction at the program counter. On an error nothing
    /// of the machine changes.
    pub fn step(&mut self) -> (res: Result<bool, Error>)
        requires
            old(self).wf(),
        ensures
            final(self).wf(),
            (res, final(self)@) == step_spec(old(self)@),
    {
        let (ins, n) = match decode(&self.code, self.pc) {
            Ok(d) => d,
            Err(e) => return Err(e),
        };
        let code_len = self.code.len();
        assert(self.pc + n <= code_len);
        let next = self.pc + n;
        match ins {
            Instr::Alu(op, d, s) => {
                let a = self.r[d as usize];
                let b = self.fetch(s);
                match alu(op, a, b) {
                    Err(e) => return Err(e),
                    Ok(AluResult::Value(v)) => {
                        self.set_reg(d, v);
                    },
                    Ok(AluResult::ValueCarry(v, c)) => {
                        self.set_reg(d, v);
                        self.carry = c;
                    },
                    Ok(AluResult::Compare(c)) => {
                        self.cmp = c;
                    },
                }
                self.pc = next;
            },
            Instr::Store(a, s) => {
                let v = self.r[s as usize];
                self.set_mem(a, v);
                self.pc = next;
            },
            Instr::NegReg(d) => {
                let (v, c) = neg16(self.r[d as usize]);
                self.set_reg(d, v);
                self.carry = c;
                self.pc = next;
            },
            Instr::NegMem(a) => {
                let (v, c) = neg16(self.mem[a as usize]);
                self.set_mem(a, v);
                self.carry = c;
                self.pc = next;
            },
            Instr::NotReg(d) => {
                let v = !self.r[d as usize];
                self.set_reg(d, v);
                self.pc = next;
            },
            Instr::NotMem(a) => {
                let v = !self.mem[a as usize];
                self.set_mem(a, v);
                self.pc = next;
            },
            Instr::Branch(c, t) => {
                let taken = match c {
                    Cond::Equal => self.cmp == ComparisonResult::Equal,
                    Cond::NotEqual => self.cmp == ComparisonResult::LessThan || self.cmp == ComparisonResult::GreaterThan,
                    Cond::Greater => self.cmp == ComparisonResult::GreaterThan,
                    Cond::GreaterOrEqual => self.cmp == ComparisonResult::Equal || self.cmp == ComparisonResult::GreaterThan,
                    Cond::Less => self.cmp == ComparisonResult::LessThan,
                    Cond::LessOrEqual => self.cmp == ComparisonResult::Equal || self.cmp == ComparisonResult::LessThan,
                    Cond::Carry => self.carry,
                    Cond::Always => true,
                };
                self.pc = if taken { t as usize } else { next };
            },
            Instr::Call(t) => {
                match self.push(next) {
                    Ok(()) => {},
                    Err(e) => return Err(e),
                }
                self.pc = t as usize;
            },
            Instr::Ret => {
                let frame = match self.pop() {
                    Ok(frame) => frame,
                    Err(e) => return Err(e),
                };
                self.r = frame.r;
                self.pc = frame.pc;
            },
            Instr::PutS => {
                self.pc = next;
            },
            Instr::GetC => {
                self.pc = next;
            },
            Instr::Halt => {
                return Ok(false);
            },
        }
        Ok(true)
    }

    /// Steps until a halt (`Ok`) or the first error, which is returned as it
    /// came; after `u64::MAX` steps without either it gives up.
    pub fn run(&mut self) -> (res: Result<(), Error>)
        requires
            old(self).wf(),
        ensures
            final(self).wf(),
            (res, final(self)@) == run_spec(old(self)@, u64::MAX as nat),
    {
        let mut left: u64 = u64::MAX;
        while left > 0
            invariant
                self.wf(),
                run_spec(old(self)@, u64::MAX as nat) == run_spec(self@, left as nat),
            decreases left,
        {
            match self.step() {
                Ok(true) => {},
                Ok(false) => return Ok(()),
                Err(e) => return Err(e),
            }
            left = left - 1;
        }
        Err(Error::StepLimitReached)
    }
}

} // verus!
