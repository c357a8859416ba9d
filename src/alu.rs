use vstd::prelude::*;
use vstd::arithmetic::power2::{pow2, lemma2_to64, lemma_pow2_unfold, lemma_pow2_strictly_increases};
use vstd::arithmetic::div_mod::lemma_mod_multiples_vanish;
use vstd::math::abs;

use crate::error::Error;
use crate::ComparisonResult;

verus! {

/// Whether `x` lies in the range of `i16`.
pub open spec fn fits16(x: int) -> bool {
    i16::MIN <= x <= i16::MAX
}

/// `x mod 2^16`, read back as a two's-complement 16-bit value.
pub open spec fn wrap16(x: int) -> int {
    let m = x % 65536;
    if m >= 32768 { m - 65536 } else { m }
}

/// The unsigned 16-bit pattern of `a`.
pub open spec fn bits16(a: i16) -> int {
    if a < 0 { a + 65536 } else { a as int }
}

/// Quotient of `a / b` rounded toward zero, as Rust's integer division.
pub open spec fn trunc_div(a: int, b: int) -> int
    recommends
        b != 0,
{
    let q: int = (abs(a) / abs(b)) as int;
    if (a < 0) != (b < 0) { -q } else { q }
}

/// The signed ordering of two values.
pub open spec fn compare_spec(a: i16, b: i16) -> ComparisonResult {
    if a < b {
        ComparisonResult::LessThan
    } else if a > b {
        ComparisonResult::GreaterThan
    } else {
        ComparisonResult::Equal
    }
}

/// Reduces a wide value to 16 bits, as two's-complement wraparound does.
fn wrap_i64(x: i64) -> (r: i16)
    requires
        -0x1_0000_0000 <= x <= 0x1_0000_0000,
    ensures
        r == wrap16(x as int),
{
    let u: u64 = (x + 0x1_0000_0000i64) as u64;
    let m: u64 = u % 65536;
    proof {
        lemma_mod_multiples_vanish(65536, x as int, 65536);
        assert(u as int == 65536 * 65536 + x);
    }
    if m >= 32768 {
        (m as i64 - 65536) as i16
    } else {
        m as i16
    }
}

/// Wrapping addition; the flag tells whether the sum left the `i16` range.
pub fn add16(a: i16, b: i16) -> (r: (i16, bool))
    ensures
        r.0 == wrap16(a + b),
        r.1 == !fits16(a + b),
{
    let s: i64 = a as i64 + b as i64;
    (wrap_i64(s), s < -32768 || s > 32767)
}

/// Wrapping subtraction; the flag tells whether the difference left the `i16` range.
pub fn sub16(a: i16, b: i16) -> (r: (i16, bool))
    ensures
        r.0 == wrap16(a - b),
        r.1 == !fits16(a - b),
{
    let s: i64 = a as i64 - b as i64;
    (wrap_i64(s), s < -32768 || s > 32767)
}

/// Wrapping multiplication; the flag tells whether the product left the `i16` range.
pub fn mul16(a: i16, b: i16) -> (r: (i16, bool))
    ensures
        r.0 == wrap16(a * b),
        r.1 == !fits16(a * b),
{
    proof {
        assert(-0x4000_0000 <= a * b <= 0x4000_0000) by (nonlinear_arith)
            requires
                -32768 <= a <= 32767,
                -32768 <= b <= 32767;
    }
    let s: i64 = a as i64 * b as i64;
    (wrap_i64(s), s < -32768 || s > 32767)
}

/// Division rounded toward zero; only `i16::MIN / -1` leaves the range, and wraps.
pub fn div16(a: i16, b: i16) -> (r: (i16, bool))
    requires
        b != 0,
    ensures
        r.0 == wrap16(trunc_div(a as int, b as int)),
        r.1 == !fits16(trunc_div(a as int, b as int)),
{
    let ua: u64 = if a < 0 { (-(a as i64)) as u64 } else { a as u64 };
    let ub: u64 = if b < 0 { (-(b as i64)) as u64 } else { b as u64 };
    let q: u64 = ua / ub;
    proof {
        assert(q <= ua) by (nonlinear_arith)
            requires
                q == ua / ub,
                ub >= 1;
    }
    let s: i64 = if (a < 0) != (b < 0) { -(q as i64) } else { q as i64 };
    (wrap_i64(s), s < -32768 || s > 32767)
}

/// Wrapping negation; the flag tells whether the result left the `i16` range.
pub fn neg16(a: i16) -> (r: (i16, bool))
    ensures
        r.0 == wrap16(-a),
        r.1 == !fits16(-a),
{
    let s: i64 = -(a as i64);
    (wrap_i64(s), s > 32767)
}

/// `2^n` for a shift amount of at most 15.
fn pow2_small(n: i16) -> (p: i64)
    requires
        0 <= n < 16,
    ensures
        p == pow2(n as nat),
        1 <= p <= 32768,
{
    proof {
        lemma2_to64();
    }
    let mut p: i64 = 1;
    let mut i: i16 = 0;
    while i < n
        invariant
            0 <= i <= n < 16,
            p == pow2(i as nat),
            pow2(15) == 32768,
        decreases n - i,
    {
        proof {
            lemma_pow2_unfold((i + 1) as nat);
            lemma_pow2_strictly_increases(i as nat, 15);
        }
        p = p * 2;
        i = i + 1;
    }
    proof {
        if i < 15 {
            lemma_pow2_strictly_increases(i as nat, 15);
        }
        if i > 0 {
            lemma_pow2_strictly_increases(0, i as nat);
        }
    }
    p
}

/// Shift left by `n` bits; the bits shifted past bit 15 are lost.
pub fn shl16(a: i16, n: i16) -> (r: i16)
    requires
        0 <= n < 16,
    ensures
        r == wrap16(a * pow2(n as nat)),
{
    let p = pow2_small(n);
    proof {
        assert(-0x4000_0000 <= a * p <= 0x4000_0000) by (nonlinear_arith)
            requires
                -32768 <= a <= 32767,
                1 <= p <= 32768;
    }
    wrap_i64(a as i64 * p)
}

/// Logical shift right by `n` bits: zeros come in at bit 15.
pub fn shr16(a: i16, n: i16) -> (r: i16)
    requires
        0 <= n < 16,
    ensures
        r == wrap16(bits16(a) / (pow2(n as nat) as int)),
{
    let p = pow2_small(n);
    let u: i64 = if a < 0 { a as i64 + 65536 } else { a as i64 };
    proof {
        assert(0 <= u / p <= u) by (nonlinear_arith)
            requires
                0 <= u,
                1 <= p;
    }
    wrap_i64(u / p)
}

/// The signed ordering of `a` against `b`.
pub fn compare(a: i16, b: i16) -> (r: ComparisonResult)
    ensures
        r == compare_spec(a, b),
{
    if a < b {
        ComparisonResult::LessThan
    } else if a > b {
        ComparisonResult::GreaterThan
    } else {
        ComparisonResult::Equal
    }
}

/// The two-operand operations: the first operand is a register, which the
/// result (if any) replaces.
#[derive(Debug, Clone, Copy, PartialEq, Eq, Structural)]
pub enum AluOp {
    Cp,
    Add,
    Sub,
    Mul,
    Div,
    Xor,
    And,
    Or,
    Shr,
    Shl,
    Cmp,
}

/// What a two-operand operation produces.
#[derive(Debug, Clone, Copy, PartialEq, Eq, Structural)]
pub enum AluResult {
    /// A new value for the destination register; the carry flag is kept.
    Value(i16),
    /// A new value for the destination register and a new carry flag.
    ValueCarry(i16, bool),
    /// A new comparison state; the register is kept.
    Compare(ComparisonResult),
}

/// The meaning of each two-operand operation on its operands `a` and `b`.
pub open spec fn alu_spec(op: AluOp, a: i16, b: i16) -> Result<AluResult, Error> {
    match op {
        AluOp::Cp => Ok(AluResult::Value(b)),
        AluOp::Add => Ok(AluResult::ValueCarry(wrap16(a + b) as i16, !fits16(a + b))),
        AluOp::Sub => Ok(AluResult::ValueCarry(wrap16(a - b) as i16, !fits16(a - b))),
        AluOp::Mul => Ok(AluResult::ValueCarry(wrap16(a * b) as i16, !fits16(a * b))),
        AluOp::Div => if b == 0 {
            Err(Error::DivisionByZero)
        } else {
            Ok(AluResult::ValueCarry(wrap16(trunc_div(a as int, b as int)) as i16, !fits16(trunc_div(a as int, b as int))))
        },
        AluOp::Xor => Ok(AluResult::Value(a ^ b)),
        AluOp::And => Ok(AluResult::Value(a & b)),
        AluOp::Or => Ok(AluResult::Value(a | b)),
        AluOp::Shr => if 0 <= b < 16 {
            Ok(AluResult::Value(wrap16(bits16(a) / (pow2(b as nat) as int)) as i16))
        } else {
            Err(Error::InvalidShift(b))
        },
        AluOp::Shl => if 0 <= b < 16 {
            Ok(AluResult::Value(wrap16(a * pow2(b as nat)) as i16))
        } else {
            Err(Error::InvalidShift(b))
        },
        AluOp::Cmp => Ok(AluResult::Compare(compare_spec(a, b))),
    }
}

/// Applies a two-operand operation.
pub fn alu(op: AluOp, a: i16, b: i16) -> (r: Result<AluResult, Error>)
    ensures
        r == alu_spec(op, a, b),
{
    match op {
        AluOp::Cp => Ok(AluResult::Value(b)),
        AluOp::Add => {
            let (v, c) = add16(a, b);
            Ok(AluResult::ValueCarry(v, c))
        },
        AluOp::Sub => {
            let (v, c) = sub16(a, b);
            Ok(AluResult::ValueCarry(v, c))
        },
        AluOp::Mul => {
            let (v, c) = mul16(a, b);
            Ok(AluResult::ValueCarry(v, c))
        },
        AluOp::Div => {
            if b == 0 {
                Err(Error::DivisionByZero)
            } else {
                let (v, c) = div16(a, b);
                Ok(AluResult::ValueCarry(v, c))
            }
        },
        AluOp::Xor => Ok(AluResult::Value(a ^ b)),
        AluOp::And => Ok(AluResult::Value(a & b)),
        AluOp::Or => Ok(AluResult::Value(a | b)),
        AluOp::Shr => {
            if 0 <= b && b < 16 {
                Ok(AluResult::Value(shr16(a, b)))
            } else {
                Err(Error::InvalidShift(b))
            }
        },
        AluOp::Shl => {
            if 0 <= b && b < 16 {
                Ok(AluResult::Value(shl16(a, b)))
            } else {
                Err(Error::InvalidShift(b))
            }
        },
        AluOp::Cmp => Ok(AluResult::Compare(compare(a, b))),
    }
}

} // verus!
