//! Integer comparison and clamping helpers.

use vstd::prelude::*;

verus! {

/// The larger of two signed integers.
pub fn i32_max(a: i32, b: i32) -> (r: i32)
    ensures
        r == if a > b { a } else { b },
{
    match a > b {
        true => a,
        false => b,
    }
}

/// The smaller of two signed integers.
pub fn i32_min(a: i32, b: i32) -> (r: i32)
    ensures
        r == if a > b { b } else { a },
{
    match a > b {
        true => b,
        false => a,
    }
}

/// `n` raised to at least `min`, then lowered to at most `max`.
/// When `min > max` the result is `max`.
pub fn i32_clamp(n: i32, min: i32, max: i32) -> (r: i32)
    ensures
        r == if n > min {
            if n > max { max } else { n }
        } else {
            if min > max { max } else { min }
        },
        min <= max ==> min <= r <= max,
        min <= n <= max ==> r == n,
{
    i32_min(i32_max(n, min), max)
}

/// The larger of two unsigned integers.
pub fn u32_max(a: u32, b: u32) -> (r: u32)
    ensures
        r == if a > b { a } else { b },
{
    match a > b {
        true => a,
        false => b,
    }
}

/// The smaller of two unsigned integers.
pub fn u32_min(a: u32, b: u32) -> (r: u32)
    ensures
        r == if a > b { b } else { a },
{
    match a > b {
        true => b,
        false => a,
    }
}

/// `n` raised to at least `min`, then lowered to at most `max`.
/// When `min > max` the result is `max`.
pub fn u32_clamp(n: u32, min: u32, max: u32) -> (r: u32)
    ensures
        r == if n > min {
            if n > max { max } else { n }
        } else {
            if min > max { max } else { min }
        },
        min <= max ==> min <= r <= max,
        min <= n <= max ==> r == n,
{
    u32_min(u32_max(n, min), max)
}

/// `n` clamped into `[0, 1]`: 0 stays 0, anything else becomes 1.
pub fn u32_clamp01(n: u32) -> (r: u32)
    ensures
        r == if n == 0 { 0u32 } else { 1u32 },
{
    u32_clamp(n, 0, 1)
}

} // verus!
