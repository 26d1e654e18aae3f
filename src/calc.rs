use vstd::prelude::*;

verus! {

/// The four results that the mutation handler computes from a payload and an operand.
#[derive(Clone, Copy, Debug, PartialEq, Eq, Structural)]
pub struct Calculation {
    /// `payload + operand * 2`, clamped at the payload's maximum.
    pub sum: u64,
    /// `payload - operand`, clamped at zero.
    pub difference: u64,
    /// `payload * operand`, clamped at the payload's maximum.
    pub product: u64,
    /// `payload / operand`, or the payload itself when the operand is zero.
    pub quotient: u64,
}

/// `x` clamped to the range of a payload.
pub open spec fn clamp_u64(x: int) -> u64 {
    if x < 0 {
        0
    } else if x > u64::MAX {
        u64::MAX
    } else {
        x as u64
    }
}

/// The results of the mutation handler, over the integers, each clamped to a payload.
pub open spec fn calculation(payload: u64, operand: u32) -> Calculation {
    Calculation {
        sum: clamp_u64(payload + operand * 2),
        difference: clamp_u64(payload - operand),
        product: clamp_u64(payload * operand),
        quotient: if operand == 0 {
            payload
        } else {
            (payload / (operand as u64)) as u64
        },
    }
}

/// Computes the four results of the mutation handler, with the operand widened to the
/// payload's width and every overflow clamped.
pub fn calculate(payload: u64, operand: u32) -> (r: Calculation)
    ensures
        r == calculation(payload, operand),
{
    let wide = operand as u64;
    let sum = payload.saturating_add(wide * 2);
    let difference = payload.saturating_sub(wide);
    let product = match payload.checked_mul(wide) {
        Some(p) => p,
        None => u64::MAX,
    };
    let quotient = if wide != 0 {
        payload / wide
    } else {
        payload
    };
    Calculation { sum, difference, product, quotient }
}

/// Every result is clamped, never wrapped: a product or a sum past the payload's maximum
/// gives the maximum, and a difference below zero gives zero.
pub proof fn lemma_saturation(payload: u64, operand: u32)
    ensures
        payload * operand > u64::MAX ==> calculation(payload, operand).product == u64::MAX,
        payload + operand * 2 > u64::MAX ==> calculation(payload, operand).sum == u64::MAX,
        payload < operand ==> calculation(payload, operand).difference == 0,
        calculation(payload, operand).product >= payload || operand == 0,
        calculation(payload, operand).sum >= payload,
{
    if operand > 0 {
        assert(payload * operand >= payload) by (nonlinear_arith)
            requires
                operand > 0,
        ;
    }
}

/// The fixed operands of the arithmetic greeting and its four results.
#[derive(Clone, Copy, Debug, PartialEq, Eq, Structural)]
pub struct Arithmetic {
    pub a: i32,
    pub b: i32,
    pub add: i32,
    pub sub: i32,
    pub mul: i32,
    pub div: i32,
}

/// The accounts of the greeting instruction: it takes none.
#[derive(Clone, Copy, Debug, PartialEq, Eq, Structural)]
pub struct Initialize {}

/// The greeting instruction: the four arithmetic operations on 10 and 3.
pub fn initialize(ctx: &Initialize) -> (r: Arithmetic)
    ensures
        r == (Arithmetic { a: 10, b: 3, add: 13, sub: 7, mul: 30, div: 3 }),
{
    let a: i32 = 10;
    let b: i32 = 3;
    Arithmetic { a, b, add: a + b, sub: a - b, mul: a * b, div: a / b }
}

} // verus!
