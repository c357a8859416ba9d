use vstd::prelude::*;

use crate::alu::{fits16, trunc_div, wrap16, AluOp};
use crate::decode::{decode_spec, imm_at, word_at, Cond, Instr};
use crate::error::Error;
use crate::opcode::{opcode_of, Opcode};
use crate::{
    branch_taken, call_spec, exec_spec, return_spec, source_value, step_spec, ComparisonResult,
    MachineModel, STACK_SIZE,
};

verus! {

/// Makes `targets.len()` nested calls starting from `m`: call `i` is made from
/// the instruction at `sites[i]`, with the register file `regs[i]` that the
/// program holds at that moment, and goes to `targets[i]`. `None` when a call
/// finds the stack full.
pub open spec fn descend(
    m: MachineModel,
    sites: Seq<usize>,
    targets: Seq<u16>,
    regs: Seq<Seq<i16>>,
) -> Option<MachineModel>
    decreases targets.len(),
{
    if targets.len() == 0 {
        Some(m)
    } else {
        let at = MachineModel { pc: sites[0], r: regs[0], ..m };
        match call_spec(at, targets[0], (sites[0] + 3) as usize) {
            None => None,
            Some(m1) => descend(m1, sites.drop_first(), targets.drop_first(), regs.drop_first()),
        }
    }
}

/// Makes `exits.len()` returns from `m`; before return `i` the routine has
/// left the register file `exits[i]`. `None` when a return finds the stack empty.
pub open spec fn unwind(m: MachineModel, exits: Seq<Seq<i16>>) -> Option<MachineModel>
    decreases exits.len(),
{
    if exits.len() == 0 {
        Some(m)
    } else {
        match return_spec(MachineModel { r: exits[0], ..m }) {
            None => None,
            Some(m1) => unwind(m1, exits.drop_first()),
        }
    }
}

proof fn lemma_unwind_split(m: MachineModel, a: Seq<Seq<i16>>, b: Seq<Seq<i16>>)
    ensures
        unwind(m, a + b) == (match unwind(m, a) {
            None => None,
            Some(y) => unwind(y, b),
        }),
    decreases a.len(),
{
    if a.len() == 0 {
        assert(a + b =~= b);
    } else {
        assert((a + b).drop_first() =~= a.drop_first() + b);
        match return_spec(MachineModel { r: a[0], ..m }) {
            None => {},
            Some(m1) => lemma_unwind_split(m1, a.drop_first(), b),
        }
    }
}

/// Nested calls succeed exactly while the call stack stays within its bound:
/// from an empty stack the first 1000 calls succeed and the 1001st overflows.
pub proof fn lemma_call_depth_limit(
    m: MachineModel,
    sites: Seq<usize>,
    targets: Seq<u16>,
    regs: Seq<Seq<i16>>,
)
    requires
        m.stack.len() <= STACK_SIZE,
        sites.len() == targets.len(),
        regs.len() == targets.len(),
        forall|i: int| 0 <= i < sites.len() ==> sites[i] + 3 <= usize::MAX,
    ensures
        descend(m, sites, targets, regs) is Some <==> m.stack.len() + targets.len() <= STACK_SIZE,
        descend(m, sites, targets, regs) matches Some(f) ==> f.stack.len() == m.stack.len() + targets.len(),
    decreases targets.len(),
{
    if targets.len() > 0 {
        let at = MachineModel { pc: sites[0], r: regs[0], ..m };
        match call_spec(at, targets[0], (sites[0] + 3) as usize) {
            None => {},
            Some(m1) => {
                assert forall|i: int| 0 <= i < sites.drop_first().len() implies sites.drop_first()[i] + 3
                    <= usize::MAX by {
                    assert(sites.drop_first()[i] == sites[i + 1]);
                }
                lemma_call_depth_limit(m1, sites.drop_first(), targets.drop_first(), regs.drop_first());
            },
        }
    }
}

/// Call/return round trip: after `n` nested calls and `n` returns the call
/// stack is as before, the register file is the one held at the first call
/// (whatever the routines did to the registers), and execution resumes just
/// after the first call instruction. Memory is not restored.
pub proof fn lemma_call_return_round_trip(
    m: MachineModel,
    sites: Seq<usize>,
    targets: Seq<u16>,
    regs: Seq<Seq<i16>>,
    exits: Seq<Seq<i16>>,
)
    requires
        sites.len() == targets.len(),
        regs.len() == targets.len(),
        exits.len() == targets.len(),
        m.stack.len() + targets.len() <= STACK_SIZE,
        forall|i: int| 0 <= i < sites.len() ==> sites[i] + 3 <= usize::MAX,
    ensures
        descend(m, sites, targets, regs) matches Some(d) && unwind(d, exits) matches Some(f) && f.stack
            == m.stack && (targets.len() > 0 ==> f.r == regs[0] && f.pc == sites[0] + 3),
    decreases targets.len(),
{
    let n = targets.len();
    if n > 0 {
        let at = MachineModel { pc: sites[0], r: regs[0], ..m };
        let m1 = call_spec(at, targets[0], (sites[0] + 3) as usize)->Some_0;
        assert forall|i: int| 0 <= i < sites.drop_first().len() implies sites.drop_first()[i] + 3
            <= usize::MAX by {
            assert(sites.drop_first()[i] == sites[i + 1]);
        }
        let inner = exits.take(n - 1);
        let last = exits.skip(n - 1);
        lemma_call_return_round_trip(m1, sites.drop_first(), targets.drop_first(), regs.drop_first(), inner);
        let d = descend(m1, sites.drop_first(), targets.drop_first(), regs.drop_first())->Some_0;
        assert(inner + last =~= exits);
        lemma_unwind_split(d, inner, last);
        let f1 = unwind(d, inner)->Some_0;
        assert(descend(m, sites, targets, regs) == Some(d));
        assert(f1.stack == m.stack.push((regs[0], (sites[0] + 3) as usize)));
        assert(f1.stack.drop_last() =~= m.stack);
        assert(last.drop_first().len() == 0);
        let m2 = return_spec(MachineModel { r: last[0], ..f1 })->Some_0;
        assert(unwind(f1, last) == unwind(m2, last.drop_first()));
        assert(unwind(d, exits) == Some(m2));
    }
}

/// A byte outside the opcode range at the program counter is refused with
/// `UnknownOpcode(byte, pc)`, and nothing of the machine changes.
pub proof fn lemma_unknown_opcode(m: MachineModel)
    requires
        m.pc < m.code.len(),
        m.code[m.pc as int] == 0 || m.code[m.pc as int] > 0x31,
    ensures
        step_spec(m) == (Err::<bool, Error>(Error::UnknownOpcode(m.code[m.pc as int], m.pc)), m),
{
    crate::opcode::lemma_opcode_range(m.code[m.pc as int]);
}

/// Arithmetic instructions store `(a op b) mod 2^16`, read as a signed
/// 16-bit value, and set the carry flag exactly when `a op b` itself lies
/// outside the `i16` range; division rounds toward zero.
pub proof fn lemma_arithmetic_step(m: MachineModel, op: AluOp, d: u8, s: crate::decode::Source, n: usize)
    requires
        m.wf(),
        d < 16,
        op == AluOp::Add || op == AluOp::Sub || op == AluOp::Mul || (op == AluOp::Div && source_value(m, s) != 0),
    ensures
        ({
            let a = m.r[d as int] as int;
            let b = source_value(m, s) as int;
            let exact = match op {
                AluOp::Add => a + b,
                AluOp::Sub => a - b,
                AluOp::Mul => a * b,
                _ => trunc_div(a, b),
            };
            let (res, after) = exec_spec(m, Instr::Alu(op, d, s), n);
            &&& res == Ok::<bool, Error>(true)
            &&& after.r[d as int] == wrap16(exact)
            &&& after.carry == !fits16(exact)
            &&& after.pc == (m.pc + n) as usize
        }),
{
    let a = m.r[d as int] as int;
    let b = source_value(m, s) as int;
    let exact = match op {
        AluOp::Add => a + b,
        AluOp::Sub => a - b,
        AluOp::Mul => a * b,
        _ => trunc_div(a, b),
    };
    assert(-32768 <= wrap16(exact) <= 32767) by {
        assert(0 <= exact % 65536 < 65536);
    }
    let (res, after) = exec_spec(m, Instr::Alu(op, d, s), n);
    assert(after.r[d as int] == wrap16(exact) as i16);
}

/// Whether an instruction with opcode byte `b` goes on to the instruction
/// that follows it when it succeeds: every opcode up to `cmp r, mem`, and
/// the reserved `puts` and `getc`.
pub open spec fn is_sequential_opcode(b: u8) -> bool {
    (0x01 <= b && b <= 0x24) || b == 0x2D || b == 0x2E
}

/// A fully encoded instruction that does not branch, call or return leaves
/// the program counter just after itself when it succeeds.
pub proof fn lemma_sequential_step(m: MachineModel)
    requires
        m.wf(),
        m.pc < m.code.len(),
        is_sequential_opcode(m.code[m.pc as int]),
        m.pc + opcode_of(m.code[m.pc as int])->Some_0.len_spec() <= m.code.len() <= usize::MAX,
    ensures
        step_spec(m).0 == Ok::<bool, Error>(true) ==> step_spec(m).1.pc == m.pc + opcode_of(
            m.code[m.pc as int],
        )->Some_0.len_spec(),
{
    let b = m.code[m.pc as int];
    assert(opcode_of(b) is Some);
    let op = opcode_of(b)->Some_0;
    assert(!(instr_spec_at(m.code, m.pc) is Branch) && !(instr_spec_at(m.code, m.pc) is Call)
        && !(instr_spec_at(m.code, m.pc) is Ret) && !(instr_spec_at(m.code, m.pc) is Halt));
    assert(decode_spec(m.code, m.pc) == Ok::<(Instr, usize), Error>((instr_spec_at(m.code, m.pc), op.len_spec() as usize)));
}

/// The instruction that the opcode at `pc` encodes, read from `code`.
pub open spec fn instr_spec_at(code: Seq<u8>, pc: usize) -> Instr {
    crate::decode::instr_spec(opcode_of(code[pc as int])->Some_0, code, pc as int)
}

/// Decoding depends only on the bytes of the instruction itself: two code
/// images that agree on them decode alike.
pub proof fn lemma_decode_is_local(c1: Seq<u8>, c2: Seq<u8>, pc: usize)
    requires
        pc < c1.len(),
        pc < c2.len(),
        c1[pc as int] == c2[pc as int],
        opcode_of(c1[pc as int]) is Some,
        pc + opcode_of(c1[pc as int])->Some_0.len_spec() <= c1.len(),
        pc + opcode_of(c1[pc as int])->Some_0.len_spec() <= c2.len(),
        forall|k: int| pc <= k < pc + opcode_of(c1[pc as int])->Some_0.len_spec() ==> c1[k] == c2[k],
    ensures
        decode_spec(c1, pc) == decode_spec(c2, pc),
{
    let n = opcode_of(c1[pc as int])->Some_0.len_spec();
    if n >= 2 {
        assert(c1[pc + 1] == c2[pc + 1]);
    }
    if n >= 3 {
        assert(c1[pc + 2] == c2[pc + 2]);
    }
    if n >= 4 {
        assert(c1[pc + 3] == c2[pc + 3]);
    }
}

/// The register that an arithmetic opcode `0x05..=0x10` writes: the high
/// nibble of byte 1 in the register-register form, else its low nibble.
pub open spec fn arith_dest(code: Seq<u8>, pc: usize) -> u8 {
    let x = code[pc + 1];
    if (code[pc as int] - 5) % 3 == 0 { (x / 16) as u8 } else { (x % 16) as u8 }
}

/// The second operand of an arithmetic opcode `0x05..=0x10`: a register
/// (low nibble of byte 1), a little-endian immediate, or a memory cell at a
/// little-endian address.
pub open spec fn arith_operand(m: MachineModel) -> i16 {
    let form = (m.code[m.pc as int] - 5) % 3;
    if form == 0 {
        m.r[(m.code[m.pc + 1] % 16) as int]
    } else if form == 1 {
        imm_at(m.code, m.pc + 2)
    } else {
        m.mem[word_at(m.code, m.pc + 2) as int]
    }
}

/// The exact integer result of an arithmetic opcode `0x05..=0x10`: add, sub,
/// mul, or division rounded toward zero.
pub open spec fn arith_exact(b: u8, x: int, y: int) -> int {
    let group = (b - 5) / 3;
    if group == 0 {
        x + y
    } else if group == 1 {
        x - y
    } else if group == 2 {
        x * y
    } else {
        trunc_div(x, y)
    }
}

/// Read from the opcode bytes: every arithmetic instruction stores its exact
/// result mod 2^16, read as signed 16-bit, sets the carry exactly when the
/// exact result leaves the `i16` range, and moves on; nothing else changes.
/// A division with a zero divisor is left out (it fails, see
/// `lemma_division_by_zero`).
pub proof fn lemma_arithmetic_from_bytes(m: MachineModel)
    requires
        m.wf(),
        m.pc < m.code.len(),
        0x05 <= m.code[m.pc as int] <= 0x10,
        m.pc + opcode_of(m.code[m.pc as int])->Some_0.len_spec() <= m.code.len(),
        m.code[m.pc as int] >= 0x0E ==> arith_operand(m) != 0,
    ensures
        ({
            let b = m.code[m.pc as int];
            let d = arith_dest(m.code, m.pc);
            let exact = arith_exact(b, m.r[d as int] as int, arith_operand(m) as int);
            let len = if (b - 5) % 3 == 0 { 2int } else { 4int };
            step_spec(m) == (Ok::<bool, Error>(true), MachineModel {
                r: m.r.update(d as int, wrap16(exact) as i16),
                carry: !fits16(exact),
                pc: (m.pc + len) as usize,
                ..m
            })
        }),
{
    let b = m.code[m.pc as int];
    let d = arith_dest(m.code, m.pc);
    let exact = arith_exact(b, m.r[d as int] as int, arith_operand(m) as int);
    assert(0 <= exact % 65536 < 65536);
    assert(-32768 <= wrap16(exact) <= 32767);
    if b == 0x05 {} else if b == 0x06 {} else if b == 0x07 {} else if b == 0x08 {}
    else if b == 0x09 {} else if b == 0x0A {} else if b == 0x0B {} else if b == 0x0C {}
    else if b == 0x0D {} else if b == 0x0E {} else if b == 0x0F {} else {}
}

/// The branch table read from the opcode bytes `0x25..=0x2B`.
pub open spec fn branch_table(b: u8, cmp: ComparisonResult, carry: bool) -> bool {
    ||| b == 0x25 && cmp == ComparisonResult::Equal
    ||| b == 0x26 && (cmp == ComparisonResult::LessThan || cmp == ComparisonResult::GreaterThan)
    ||| b == 0x27 && cmp == ComparisonResult::GreaterThan
    ||| b == 0x28 && (cmp == ComparisonResult::Equal || cmp == ComparisonResult::GreaterThan)
    ||| b == 0x29 && cmp == ComparisonResult::LessThan
    ||| b == 0x2A && (cmp == ComparisonResult::Equal || cmp == ComparisonResult::LessThan)
    ||| b == 0x2B && carry
}

/// Read from the opcode bytes: a conditional branch goes to its
/// little-endian target when the table says so, and otherwise past its three
/// bytes; nothing else changes.
pub proof fn lemma_branch_from_bytes(m: MachineModel)
    requires
        m.pc < m.code.len(),
        0x25 <= m.code[m.pc as int] <= 0x2B,
        m.pc + 3 <= m.code.len(),
    ensures
        step_spec(m) == (Ok::<bool, Error>(true), MachineModel {
            pc: if branch_table(m.code[m.pc as int], m.cmp, m.carry) {
                word_at(m.code, m.pc + 1) as usize
            } else {
                (m.pc + 3) as usize
            },
            ..m
        }),
{
    let b = m.code[m.pc as int];
    if b == 0x25 {} else if b == 0x26 {} else if b == 0x27 {} else if b == 0x28 {}
    else if b == 0x29 {} else if b == 0x2A {} else {}
}

/// A step that fails leaves every part of the machine as it was.
pub proof fn lemma_step_fault_is_atomic(m: MachineModel)
    ensures
        step_spec(m).0 is Err ==> step_spec(m).1 == m,
{
}

/// Decoding reads only within the code image: a decoded instruction ends
/// at or before the end of the image, and one whose operands would run past
/// it is refused with `CodeOutOfBounds(pc)`.
pub proof fn lemma_decode_within_image(code: Seq<u8>, pc: usize)
    ensures
        decode_spec(code, pc) matches Ok((_, n)) ==> pc + n <= code.len(),
        pc < code.len() ==> (opcode_of(code[pc as int]) matches Some(op) && pc + op.len_spec() > code.len()
            ==> decode_spec(code, pc) == Err::<(Instr, usize), Error>(Error::CodeOutOfBounds(pc))),
{
}

/// A division whose divisor is zero fails with `DivisionByZero` and changes nothing.
pub proof fn lemma_division_by_zero(m: MachineModel, d: u8, s: crate::decode::Source, n: usize)
    requires
        source_value(m, s) == 0,
    ensures
        exec_spec(m, Instr::Alu(AluOp::Div, d, s), n) == (Err::<bool, Error>(Error::DivisionByZero), m),
{
}

/// The branch table: which comparison states take each conditional branch.
pub proof fn lemma_branch_truth_table(cmp: ComparisonResult, carry: bool)
    ensures
        branch_taken(Cond::Equal, cmp, carry) <==> cmp == ComparisonResult::Equal,
        branch_taken(Cond::NotEqual, cmp, carry) <==> (cmp == ComparisonResult::LessThan || cmp
            == ComparisonResult::GreaterThan),
        branch_taken(Cond::Greater, cmp, carry) <==> cmp == ComparisonResult::GreaterThan,
        branch_taken(Cond::GreaterOrEqual, cmp, carry) <==> (cmp == ComparisonResult::Equal || cmp
            == ComparisonResult::GreaterThan),
        branch_taken(Cond::Less, cmp, carry) <==> cmp == ComparisonResult::LessThan,
        branch_taken(Cond::LessOrEqual, cmp, carry) <==> (cmp == ComparisonResult::Equal || cmp
            == ComparisonResult::LessThan),
        branch_taken(Cond::Carry, cmp, carry) <==> carry,
        cmp == ComparisonResult::Unset ==> !branch_taken(Cond::NotEqual, cmp, carry)
            && !branch_taken(Cond::GreaterOrEqual, cmp, carry) && !branch_taken(Cond::LessOrEqual, cmp, carry),
{
}

/// A branch goes to its target exactly when its condition holds, and
/// otherwise to the next instruction; nothing else changes.
pub proof fn lemma_branch_step(m: MachineModel, c: Cond, t: u16, n: usize)
    ensures
        exec_spec(m, Instr::Branch(c, t), n) == (Ok::<bool, Error>(true), MachineModel {
            pc: if branch_taken(c, m.cmp, m.carry) { t as usize } else { (m.pc + n) as usize },
            ..m
        }),
{
}

} // verus!
