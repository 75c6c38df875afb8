//! The arithmetic of the integer instructions.

use crate::trap::{Trap, TrapDivisionByZero, TrapOverflow};
use vstd::prelude::*;
use vstd::std_specs::bits::{
    u32_leading_zeros, u32_trailing_zeros, u64_leading_zeros, u64_trailing_zeros,
};

verus! {

/// The quotient of `x` by `d`, rounded towards zero.
pub open spec fn truncated_quotient(x: int, d: int) -> int {
    if x == 0 {
        0
    } else if x > 0 && d > 0 {
        x / d
    } else if x < 0 && d < 0 {
        (x * -1) / (d * -1)
    } else if x < 0 {
        ((x * -1) / d) * -1
    } else {
        (x / (d * -1)) * -1
    }
}

/// The remainder that `truncated_quotient` leaves: it has the sign of `x`.
pub open spec fn truncated_remainder(x: int, d: int) -> int {
    if x == 0 {
        0
    } else if x > 0 && d > 0 {
        x % d
    } else if x < 0 && d < 0 {
        ((x * -1) % (d * -1)) * -1
    } else if x < 0 {
        ((x * -1) % d) * -1
    } else {
        x % (d * -1)
    }
}

/// The quotient rounded towards zero is no further from zero than the
/// dividend, and nearer where the divisor is neither 1 nor -1.
pub proof fn lemma_truncated_quotient_bounds(x: int, d: int)
    requires
        d != 0,
    ensures
        x >= 0 ==> -x <= truncated_quotient(x, d) <= x,
        x < 0 ==> x <= truncated_quotient(x, d) <= -x,
        x < 0 && d < -1 ==> truncated_quotient(x, d) < -x,
        d == 1 ==> truncated_quotient(x, d) == x,
        d == -1 ==> truncated_quotient(x, d) == -x,
{
    let ax = if x >= 0 {
        x
    } else {
        -x
    };
    let ad = if d >= 0 {
        d
    } else {
        -d
    };
    vstd::arithmetic::div_mod::lemma_div_pos_is_pos(ax, ad);
    vstd::arithmetic::div_mod::lemma_div_nonincreasing(ax, ad);
    if ax > 0 && ad > 1 {
        vstd::arithmetic::div_mod::lemma_div_decreases(ax, ad);
    }
    if ad == 1 {
        vstd::arithmetic::div_mod::lemma_div_basics(ax);
    }
    assert(x * -1 == -x);
    assert(d * -1 == -d);
}

/// The number of one bits of `x`.
pub open spec fn popcount(x: nat) -> nat
    decreases x,
{
    if x == 0 {
        0
    } else {
        x % 2 + popcount(x / 2)
    }
}

/// `x` rotated left by `n` bits.
pub open spec fn rotl32(x: u32, n: u32) -> u32 {
    let k = n % 32;
    if k == 0 {
        x
    } else {
        (x << k) | (x >> ((32 - k) as u32))
    }
}

/// `x` rotated right by `n` bits.
pub open spec fn rotr32(x: u32, n: u32) -> u32 {
    let k = n % 32;
    if k == 0 {
        x
    } else {
        (x >> k) | (x << ((32 - k) as u32))
    }
}

/// `x` rotated left by `n` bits.
pub open spec fn rotl64(x: u64, n: u32) -> u64 {
    let k = n % 64;
    if k == 0 {
        x
    } else {
        (x << k) | (x >> ((64 - k) as u32))
    }
}

/// `x` rotated right by `n` bits.
pub open spec fn rotr64(x: u64, n: u32) -> u64 {
    let k = n % 64;
    if k == 0 {
        x
    } else {
        (x >> k) | (x << ((64 - k) as u32))
    }
}

/// Division and remainder as the instructions define them.
pub trait Integer: Sized {
    /// The quotient rounded towards zero; a zero divisor and a quotient out
    /// of range are traps.
    spec fn quotient(self, rhs: Self) -> Result<Self, Trap>;

    /// The remainder with the sign of the dividend; a zero divisor is a
    /// trap, and the smallest integer leaves 0 when divided by -1.
    spec fn remainder(self, rhs: Self) -> Result<Self, Trap>;

    fn div_checked(self, rhs: Self) -> (r: Result<Self, Trap>)
        ensures
            r == self.quotient(rhs),
    ;

    fn rem_wrapping(self, rhs: Self) -> (r: Result<Self, Trap>)
        ensures
            r == self.remainder(rhs),
    ;
}

impl Integer for i32 {
    open spec fn quotient(self, rhs: i32) -> Result<i32, Trap> {
        if rhs == 0 {
            Err(Trap::DivisionByZero(TrapDivisionByZero::Integer))
        } else if self == i32::MIN && rhs == -1 {
            Err(Trap::Overflow(TrapOverflow::Integer))
        } else {
            Ok(truncated_quotient(self as int, rhs as int) as i32)
        }
    }

    open spec fn remainder(self, rhs: i32) -> Result<i32, Trap> {
        if rhs == 0 {
            Err(Trap::DivisionByZero(TrapDivisionByZero::Integer))
        } else if self == i32::MIN && rhs == -1 {
            Ok(0)
        } else {
            Ok(truncated_remainder(self as int, rhs as int) as i32)
        }
    }

    fn div_checked(self, rhs: i32) -> (r: Result<i32, Trap>) {
        proof {
            if rhs != 0 {
                lemma_truncated_quotient_bounds(self as int, rhs as int);
            }
        }
        match self.checked_div(rhs) {
            Some(q) => Ok(q),
            None => {
                if self == i32::MIN && rhs == -1 {
                    Err(Trap::Overflow(TrapOverflow::Integer))
                } else {
                    Err(Trap::DivisionByZero(TrapDivisionByZero::Integer))
                }
            },
        }
    }

    fn rem_wrapping(self, rhs: i32) -> (r: Result<i32, Trap>) {
        if rhs == 0 {
            Err(Trap::DivisionByZero(TrapDivisionByZero::Integer))
        } else {
            match self.checked_rem(rhs) {
                Some(m) => Ok(m),
                None => Ok(0),
            }
        }
    }
}

impl Integer for u32 {
    open spec fn quotient(self, rhs: u32) -> Result<u32, Trap> {
        if rhs == 0 {
            Err(Trap::DivisionByZero(TrapDivisionByZero::Integer))
        } else {
            Ok(self / rhs)
        }
    }

    open spec fn remainder(self, rhs: u32) -> Result<u32, Trap> {
        if rhs == 0 {
            Err(Trap::DivisionByZero(TrapDivisionByZero::Integer))
        } else {
            Ok(self % rhs)
        }
    }

    fn div_checked(self, rhs: u32) -> (r: Result<u32, Trap>) {
        if rhs == 0 {
            Err(Trap::DivisionByZero(TrapDivisionByZero::Integer))
        } else {
            Ok(self / rhs)
        }
    }

    fn rem_wrapping(self, rhs: u32) -> (r: Result<u32, Trap>) {
        if rhs == 0 {
            Err(Trap::DivisionByZero(TrapDivisionByZero::Integer))
        } else {
            Ok(self % rhs)
        }
    }
}

impl Integer for i64 {
    open spec fn quotient(self, rhs: i64) -> Result<i64, Trap> {
        if rhs == 0 {
            Err(Trap::DivisionByZero(TrapDivisionByZero::Integer))
        } else if self == i64::MIN && rhs == -1 {
            Err(Trap::Overflow(TrapOverflow::Integer))
        } else {
            Ok(truncated_quotient(self as int, rhs as int) as i64)
        }
    }

    open spec fn remainder(self, rhs: i64) -> Result<i64, Trap> {
        if rhs == 0 {
            Err(Trap::DivisionByZero(TrapDivisionByZero::Integer))
        } else if self == i64::MIN && rhs == -1 {
            Ok(0)
        } else {
            Ok(truncated_remainder(self as int, rhs as int) as i64)
        }
    }

    fn div_checked(self, rhs: i64) -> (r: Result<i64, Trap>) {
        proof {
            if rhs != 0 {
                lemma_truncated_quotient_bounds(self as int, rhs as int);
            }
        }
        match self.checked_div(rhs) {
            Some(q) => Ok(q),
            None => {
                if self == i64::MIN && rhs == -1 {
                    Err(Trap::Overflow(TrapOverflow::Integer))
                } else {
                    Err(Trap::DivisionByZero(TrapDivisionByZero::Integer))
                }
            },
        }
    }

    fn rem_wrapping(self, rhs: i64) -> (r: Result<i64, Trap>) {
        if rhs == 0 {
            Err(Trap::DivisionByZero(TrapDivisionByZero::Integer))
        } else {
            match self.checked_rem(rhs) {
                Some(m) => Ok(m),
                None => Ok(0),
            }
        }
    }
}

impl Integer for u64 {
    open spec fn quotient(self, rhs: u64) -> Result<u64, Trap> {
        if rhs == 0 {
            Err(Trap::DivisionByZero(TrapDivisionByZero::Integer))
        } else {
            Ok(self / rhs)
        }
    }

    open spec fn remainder(self, rhs: u64) -> Result<u64, Trap> {
        if rhs == 0 {
            Err(Trap::DivisionByZero(TrapDivisionByZero::Integer))
        } else {
            Ok(self % rhs)
        }
    }

    fn div_checked(self, rhs: u64) -> (r: Result<u64, Trap>) {
        if rhs == 0 {
            Err(Trap::DivisionByZero(TrapDivisionByZero::Integer))
        } else {
            Ok(self / rhs)
        }
    }

    fn rem_wrapping(self, rhs: u64) -> (r: Result<u64, Trap>) {
        if rhs == 0 {
            Err(Trap::DivisionByZero(TrapDivisionByZero::Integer))
        } else {
            Ok(self % rhs)
        }
    }
}

/// An operator that takes two integers of one type and gives a third.
#[derive(Debug, Clone, Copy, PartialEq, Eq, Structural)]
pub enum BinaryOp {
    Add,
    Sub,
    Mul,
    DivS,
    DivU,
    RemS,
    RemU,
    And,
    Or,
    Xor,
    Shl,
    ShrS,
    ShrU,
    Rotl,
    Rotr,
}

/// A comparison of two integers of one type.
#[derive(Debug, Clone, Copy, PartialEq, Eq, Structural)]
pub enum TestOp {
    Eq,
    Ne,
    LtS,
    LtU,
    GtS,
    GtU,
    LeS,
    LeU,
    GeS,
    GeU,
}

/// An operator that takes one integer and gives another of its type.
#[derive(Debug, Clone, Copy, PartialEq, Eq, Structural)]
pub enum UnaryOp {
    Clz,
    Ctz,
    Popcnt,
    Extend8S,
    Extend16S,
    Extend32S,
}

/// What `op` gives on two 32-bit operands.
pub open spec fn binary_i32(op: BinaryOp, lhs: i32, rhs: i32) -> Result<i32, Trap> {
    match op {
        BinaryOp::Add => Ok(lhs.wrapping_add(rhs)),
        BinaryOp::Sub => Ok(lhs.wrapping_sub(rhs)),
        BinaryOp::Mul => Ok(lhs.wrapping_mul(rhs)),
        BinaryOp::DivS => lhs.quotient(rhs),
        BinaryOp::DivU => match (lhs as u32).quotient(rhs as u32) {
            Ok(q) => Ok(q as i32),
            Err(t) => Err(t),
        },
        BinaryOp::RemS => lhs.remainder(rhs),
        BinaryOp::RemU => match (lhs as u32).remainder(rhs as u32) {
            Ok(m) => Ok(m as i32),
            Err(t) => Err(t),
        },
        BinaryOp::And => Ok(lhs & rhs),
        BinaryOp::Or => Ok(lhs | rhs),
        BinaryOp::Xor => Ok(lhs ^ rhs),
        BinaryOp::Shl => Ok(lhs.wrapping_shl(rhs as u32)),
        BinaryOp::ShrS => Ok(lhs.wrapping_shr(rhs as u32)),
        BinaryOp::ShrU => Ok((lhs as u32).wrapping_shr(rhs as u32) as i32),
        BinaryOp::Rotl => Ok(rotl32(lhs as u32, rhs as u32) as i32),
        BinaryOp::Rotr => Ok(rotr32(lhs as u32, rhs as u32) as i32),
    }
}

/// What `op` gives on two 64-bit operands.
pub open spec fn binary_i64(op: BinaryOp, lhs: i64, rhs: i64) -> Result<i64, Trap> {
    match op {
        BinaryOp::Add => Ok(lhs.wrapping_add(rhs)),
        BinaryOp::Sub => Ok(lhs.wrapping_sub(rhs)),
        BinaryOp::Mul => Ok(lhs.wrapping_mul(rhs)),
        BinaryOp::DivS => lhs.quotient(rhs),
        BinaryOp::DivU => match (lhs as u64).quotient(rhs as u64) {
            Ok(q) => Ok(q as i64),
            Err(t) => Err(t),
        },
        BinaryOp::RemS => lhs.remainder(rhs),
        BinaryOp::RemU => match (lhs as u64).remainder(rhs as u64) {
            Ok(m) => Ok(m as i64),
            Err(t) => Err(t),
        },
        BinaryOp::And => Ok(lhs & rhs),
        BinaryOp::Or => Ok(lhs | rhs),
        BinaryOp::Xor => Ok(lhs ^ rhs),
        BinaryOp::Shl => Ok(lhs.wrapping_shl(rhs as u32)),
        BinaryOp::ShrS => Ok(lhs.wrapping_shr(rhs as u32)),
        BinaryOp::ShrU => Ok((lhs as u64).wrapping_shr(rhs as u32) as i64),
        BinaryOp::Rotl => Ok(rotl64(lhs as u64, rhs as u32) as i64),
        BinaryOp::Rotr => Ok(rotr64(lhs as u64, rhs as u32) as i64),
    }
}

/// Whether the comparison `op` holds of two 32-bit operands.
pub open spec fn test_i32(op: TestOp, lhs: i32, rhs: i32) -> bool {
    match op {
        TestOp::Eq => lhs == rhs,
        TestOp::Ne => lhs != rhs,
        TestOp::LtS => lhs < rhs,
        TestOp::LtU => (lhs as u32) < (rhs as u32),
        TestOp::GtS => lhs > rhs,
        TestOp::GtU => (lhs as u32) > (rhs as u32),
        TestOp::LeS => lhs <= rhs,
        TestOp::LeU => (lhs as u32) <= (rhs as u32),
        TestOp::GeS => lhs >= rhs,
        TestOp::GeU => (lhs as u32) >= (rhs as u32),
    }
}

/// Whether the comparison `op` holds of two 64-bit operands.
pub open spec fn test_i64(op: TestOp, lhs: i64, rhs: i64) -> bool {
    match op {
        TestOp::Eq => lhs == rhs,
        TestOp::Ne => lhs != rhs,
        TestOp::LtS => lhs < rhs,
        TestOp::LtU => (lhs as u64) < (rhs as u64),
        TestOp::GtS => lhs > rhs,
        TestOp::GtU => (lhs as u64) > (rhs as u64),
        TestOp::LeS => lhs <= rhs,
        TestOp::LeU => (lhs as u64) <= (rhs as u64),
        TestOp::GeS => lhs >= rhs,
        TestOp::GeU => (lhs as u64) >= (rhs as u64),
    }
}

/// What `op` gives on a 32-bit operand. The extension from 32 bits leaves
/// it as it is.
pub open spec fn unary_i32(op: UnaryOp, v: i32) -> i32 {
    match op {
        UnaryOp::Clz => u32_leading_zeros(v as u32) as i32,
        UnaryOp::Ctz => u32_trailing_zeros(v as u32) as i32,
        UnaryOp::Popcnt => popcount((v as u32) as nat) as i32,
        UnaryOp::Extend8S => (v as i8) as i32,
        UnaryOp::Extend16S => (v as i16) as i32,
        UnaryOp::Extend32S => v,
    }
}

/// What `op` gives on a 64-bit operand.
pub open spec fn unary_i64(op: UnaryOp, v: i64) -> i64 {
    match op {
        UnaryOp::Clz => u64_leading_zeros(v as u64) as i64,
        UnaryOp::Ctz => u64_trailing_zeros(v as u64) as i64,
        UnaryOp::Popcnt => popcount((v as u64) as nat) as i64,
        UnaryOp::Extend8S => (v as i8) as i64,
        UnaryOp::Extend16S => (v as i16) as i64,
        UnaryOp::Extend32S => (v as i32) as i64,
    }
}

/// No integer of 64 bits has more than 64 one bits.
pub proof fn lemma_popcount_bound(x: nat, bits: nat)
    requires
        x < vstd::arithmetic::power2::pow2(bits),
    ensures
        popcount(x) <= bits,
    decreases bits,
{
    if x != 0 {
        if bits == 0 {
            vstd::arithmetic::power2::lemma2_to64();
        } else {
            vstd::arithmetic::power2::lemma_pow2_unfold(bits);
            lemma_popcount_bound(x / 2, (bits - 1) as nat);
        }
    }
}

/// Counts the one bits of `x`.
pub fn count_ones(x: u64) -> (r: u32)
    ensures
        r == popcount(x as nat),
        r <= 64,
{
    proof {
        vstd::arithmetic::power2::lemma2_to64_rest();
        lemma_popcount_bound(x as nat, 64);
    }
    let mut rest = x;
    let mut count: u32 = 0;
    while rest != 0
        invariant
            count + popcount(rest as nat) == popcount(x as nat),
            popcount(x as nat) <= 64,
        decreases rest,
    {
        count = count + (rest % 2) as u32;
        rest = rest / 2;
    }
    count
}

fn rotate_left_32(x: u32, n: u32) -> (r: u32)
    ensures
        r == rotl32(x, n),
{
    let k = n % 32;
    if k == 0 {
        x
    } else {
        (x << k) | (x >> (32 - k))
    }
}

fn rotate_right_32(x: u32, n: u32) -> (r: u32)
    ensures
        r == rotr32(x, n),
{
    let k = n % 32;
    if k == 0 {
        x
    } else {
        (x >> k) | (x << (32 - k))
    }
}

fn rotate_left_64(x: u64, n: u32) -> (r: u64)
    ensures
        r == rotl64(x, n),
{
    let k = n % 64;
    if k == 0 {
        x
    } else {
        (x << k) | (x >> (64 - k))
    }
}

fn rotate_right_64(x: u64, n: u32) -> (r: u64)
    ensures
        r == rotr64(x, n),
{
    let k = n % 64;
    if k == 0 {
        x
    } else {
        (x >> k) | (x << (64 - k))
    }
}

/// Carries out `op` on two 32-bit operands.
pub fn eval_binary_i32(op: BinaryOp, lhs: i32, rhs: i32) -> (r: Result<i32, Trap>)
    ensures
        r == binary_i32(op, lhs, rhs),
{
    match op {
        BinaryOp::Add => Ok(lhs.wrapping_add(rhs)),
        BinaryOp::Sub => Ok(lhs.wrapping_sub(rhs)),
        BinaryOp::Mul => Ok(lhs.wrapping_mul(rhs)),
        BinaryOp::DivS => lhs.div_checked(rhs),
        BinaryOp::DivU => match (lhs as u32).div_checked(rhs as u32) {
            Ok(q) => Ok(q as i32),
            Err(t) => Err(t),
        },
        BinaryOp::RemS => lhs.rem_wrapping(rhs),
        BinaryOp::RemU => match (lhs as u32).rem_wrapping(rhs as u32) {
            Ok(m) => Ok(m as i32),
            Err(t) => Err(t),
        },
        BinaryOp::And => Ok(lhs & rhs),
        BinaryOp::Or => Ok(lhs | rhs),
        BinaryOp::Xor => Ok(lhs ^ rhs),
        BinaryOp::Shl => Ok(lhs.wrapping_shl(rhs as u32)),
        BinaryOp::ShrS => Ok(lhs.wrapping_shr(rhs as u32)),
        BinaryOp::ShrU => Ok((lhs as u32).wrapping_shr(rhs as u32) as i32),
        BinaryOp::Rotl => Ok(rotate_left_32(lhs as u32, rhs as u32) as i32),
        BinaryOp::Rotr => Ok(rotate_right_32(lhs as u32, rhs as u32) as i32),
    }
}

/// Carries out `op` on two 64-bit operands.
pub fn eval_binary_i64(op: BinaryOp, lhs: i64, rhs: i64) -> (r: Result<i64, Trap>)
    ensures
        r == binary_i64(op, lhs, rhs),
{
    match op {
        BinaryOp::Add => Ok(lhs.wrapping_add(rhs)),
        BinaryOp::Sub => Ok(lhs.wrapping_sub(rhs)),
        BinaryOp::Mul => Ok(lhs.wrapping_mul(rhs)),
        BinaryOp::DivS => lhs.div_checked(rhs),
        BinaryOp::DivU => match (lhs as u64).div_checked(rhs as u64) {
            Ok(q) => Ok(q as i64),
            Err(t) => Err(t),
        },
        BinaryOp::RemS => lhs.rem_wrapping(rhs),
        BinaryOp::RemU => match (lhs as u64).rem_wrapping(rhs as u64) {
            Ok(m) => Ok(m as i64),
            Err(t) => Err(t),
        },
        BinaryOp::And => Ok(lhs & rhs),
        BinaryOp::Or => Ok(lhs | rhs),
        BinaryOp::Xor => Ok(lhs ^ rhs),
        BinaryOp::Shl => Ok(lhs.wrapping_shl(rhs as u32)),
        BinaryOp::ShrS => Ok(lhs.wrapping_shr(rhs as u32)),
        BinaryOp::ShrU => Ok((lhs as u64).wrapping_shr(rhs as u32) as i64),
        BinaryOp::Rotl => Ok(rotate_left_64(lhs as u64, rhs as u32) as i64),
        BinaryOp::Rotr => Ok(rotate_right_64(lhs as u64, rhs as u32) as i64),
    }
}

/// Decides the comparison `op` of two 32-bit operands.
pub fn eval_test_i32(op: TestOp, lhs: i32, rhs: i32) -> (r: bool)
    ensures
        r == test_i32(op, lhs, rhs),
{
    match op {
        TestOp::Eq => lhs == rhs,
        TestOp::Ne => lhs != rhs,
        TestOp::LtS => lhs < rhs,
        TestOp::LtU => (lhs as u32) < (rhs as u32),
        TestOp::GtS => lhs > rhs,
        TestOp::GtU => (lhs as u32) > (rhs as u32),
        TestOp::LeS => lhs <= rhs,
        TestOp::LeU => (lhs as u32) <= (rhs as u32),
        TestOp::GeS => lhs >= rhs,
        TestOp::GeU => (lhs as u32) >= (rhs as u32),
    }
}

/// Decides the comparison `op` of two 64-bit operands.
pub fn eval_test_i64(op: TestOp, lhs: i64, rhs: i64) -> (r: bool)
    ensures
        r == test_i64(op, lhs, rhs),
{
    match op {
        TestOp::Eq => lhs == rhs,
        TestOp::Ne => lhs != rhs,
        TestOp::LtS => lhs < rhs,
        TestOp::LtU => (lhs as u64) < (rhs as u64),
        TestOp::GtS => lhs > rhs,
        TestOp::GtU => (lhs as u64) > (rhs as u64),
        TestOp::LeS => lhs <= rhs,
        TestOp::LeU => (lhs as u64) <= (rhs as u64),
        TestOp::GeS => lhs >= rhs,
        TestOp::GeU => (lhs as u64) >= (rhs as u64),
    }
}

/// Carries out `op` on a 32-bit operand.
pub fn eval_unary_i32(op: UnaryOp, v: i32) -> (r: i32)
    ensures
        r == unary_i32(op, v),
{
    match op {
        UnaryOp::Clz => (v as u32).leading_zeros() as i32,
        UnaryOp::Ctz => (v as u32).trailing_zeros() as i32,
        UnaryOp::Popcnt => count_ones((v as u32) as u64) as i32,
        UnaryOp::Extend8S => (v as i8) as i32,
        UnaryOp::Extend16S => (v as i16) as i32,
        UnaryOp::Extend32S => v,
    }
}

/// Carries out `op` on a 64-bit operand.
pub fn eval_unary_i64(op: UnaryOp, v: i64) -> (r: i64)
    ensures
        r == unary_i64(op, v),
{
    match op {
        UnaryOp::Clz => (v as u64).leading_zeros() as i64,
        UnaryOp::Ctz => (v as u64).trailing_zeros() as i64,
        UnaryOp::Popcnt => count_ones(v as u64) as i64,
        UnaryOp::Extend8S => (v as i8) as i64,
        UnaryOp::Extend16S => (v as i16) as i64,
        UnaryOp::Extend32S => (v as i32) as i64,
    }
}

/// Addition, subtraction and multiplication never trap: they wrap around.
pub proof fn lemma_arithmetic_wraps(lhs: i32, rhs: i32, long_lhs: i64, long_rhs: i64)
    ensures
        binary_i32(BinaryOp::Add, lhs, rhs) is Ok,
        binary_i32(BinaryOp::Sub, lhs, rhs) is Ok,
        binary_i32(BinaryOp::Mul, lhs, rhs) is Ok,
        binary_i64(BinaryOp::Add, long_lhs, long_rhs) is Ok,
        binary_i64(BinaryOp::Sub, long_lhs, long_rhs) is Ok,
        binary_i64(BinaryOp::Mul, long_lhs, long_rhs) is Ok,
        i32::MIN <= lhs + rhs <= i32::MAX ==> binary_i32(BinaryOp::Add, lhs, rhs) == Ok::<i32, Trap>(
            (lhs + rhs) as i32,
        ),
        lhs + rhs > i32::MAX ==> binary_i32(BinaryOp::Add, lhs, rhs) == Ok::<i32, Trap>(
            (lhs + rhs - 0x1_0000_0000) as i32,
        ),
        lhs + rhs < i32::MIN ==> binary_i32(BinaryOp::Add, lhs, rhs) == Ok::<i32, Trap>(
            (lhs + rhs + 0x1_0000_0000) as i32,
        ),
        binary_i32(BinaryOp::Add, i32::MAX, 1) == Ok::<i32, Trap>(i32::MIN),
{
}

/// Division and remainder trap on a zero divisor, whatever the dividend.
/// The signed quotient of the smallest integer by -1 is an overflow; the
/// remainder of that division is 0.
pub proof fn lemma_division_traps(lhs: i32, long_lhs: i64)
    ensures
        binary_i32(BinaryOp::DivS, lhs, 0) == Err::<i32, Trap>(
            Trap::DivisionByZero(TrapDivisionByZero::Integer),
        ),
        binary_i32(BinaryOp::DivU, lhs, 0) == Err::<i32, Trap>(
            Trap::DivisionByZero(TrapDivisionByZero::Integer),
        ),
        binary_i32(BinaryOp::RemS, lhs, 0) == Err::<i32, Trap>(
            Trap::DivisionByZero(TrapDivisionByZero::Integer),
        ),
        binary_i32(BinaryOp::RemU, lhs, 0) == Err::<i32, Trap>(
            Trap::DivisionByZero(TrapDivisionByZero::Integer),
        ),
        binary_i64(BinaryOp::DivS, long_lhs, 0) == Err::<i64, Trap>(
            Trap::DivisionByZero(TrapDivisionByZero::Integer),
        ),
        binary_i64(BinaryOp::DivU, long_lhs, 0) == Err::<i64, Trap>(
            Trap::DivisionByZero(TrapDivisionByZero::Integer),
        ),
        binary_i64(BinaryOp::RemS, long_lhs, 0) == Err::<i64, Trap>(
            Trap::DivisionByZero(TrapDivisionByZero::Integer),
        ),
        binary_i64(BinaryOp::RemU, long_lhs, 0) == Err::<i64, Trap>(
            Trap::DivisionByZero(TrapDivisionByZero::Integer),
        ),
        binary_i32(BinaryOp::DivS, i32::MIN, -1i32) == Err::<i32, Trap>(
            Trap::Overflow(TrapOverflow::Integer),
        ),
        binary_i32(BinaryOp::RemS, i32::MIN, -1i32) == Ok::<i32, Trap>(0),
        binary_i64(BinaryOp::DivS, i64::MIN, -1i64) == Err::<i64, Trap>(
            Trap::Overflow(TrapOverflow::Integer),
        ),
        binary_i64(BinaryOp::RemS, i64::MIN, -1i64) == Ok::<i64, Trap>(0),
{
}

/// Where a signed division does not trap, the quotient is no further from
/// zero than the dividend, and quotient and remainder make up the dividend.
pub proof fn lemma_division(lhs: i32, rhs: i32)
    requires
        rhs != 0,
        !(lhs == i32::MIN && rhs == -1),
    ensures
        binary_i32(BinaryOp::DivS, lhs, rhs) == Ok::<i32, Trap>(
            truncated_quotient(lhs as int, rhs as int) as i32,
        ),
        i32::MIN <= truncated_quotient(lhs as int, rhs as int) <= i32::MAX,
        truncated_quotient(lhs as int, rhs as int) * rhs + truncated_remainder(
            lhs as int,
            rhs as int,
        ) == lhs,
{
    lemma_truncated_quotient_bounds(lhs as int, rhs as int);
    let x = lhs as int;
    let d = rhs as int;
    let ax = if x >= 0 {
        x
    } else {
        -x
    };
    let ad = if d >= 0 {
        d
    } else {
        -d
    };
    vstd::arithmetic::div_mod::lemma_fundamental_div_mod(ax, ad);
    assert(x * -1 == -x);
    assert(d * -1 == -d);
    let q = ax / ad;
    let m = ax % ad;
    assert(ax == ad * q + m);
    if x != 0 {
        if x > 0 && d > 0 {
            assert(q * d + m == x) by (nonlinear_arith)
                requires
                    x == d * q + m,
            ;
        } else if x < 0 && d < 0 {
            assert(q * d + (m * -1) == x) by (nonlinear_arith)
                requires
                    -x == (-d) * q + m,
            ;
        } else if x < 0 {
            assert((q * -1) * d + (m * -1) == x) by (nonlinear_arith)
                requires
                    -x == d * q + m,
            ;
        } else {
            assert((q * -1) * d + m == x) by (nonlinear_arith)
                requires
                    x == (-d) * q + m,
            ;
        }
    }
}

} // verus!
