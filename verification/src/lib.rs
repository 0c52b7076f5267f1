//! A minimal probe library: two pure entry points whose whole behaviour is a
//! constant and a 32-bit signed sum.
//!
//! Overflow policy: the source this library's behaviour comes from leaves the
//! policy for an overflowing sum open, so the choice is made explicitly here:
//! the sum wraps (two's complement). `rust_add` is therefore total and never
//! panics, and its contract states the wrapped result exactly.

use vstd::prelude::*;

verus! {

/// The sum of two 32-bit signed integers under two's-complement wrapping:
/// the mathematical sum, brought back into the `i32` range by subtracting or
/// adding 2^32 when it falls above or below that range.
pub open spec fn wrapped_sum(a: int, b: int) -> int {
    if a + b > i32::MAX {
        a + b - 0x1_0000_0000
    } else if a + b < i32::MIN {
        a + b + 0x1_0000_0000
    } else {
        a + b
    }
}

/// Returns the probe constant. Stateless and pure: every call, in any order
/// and from any thread, returns 42.
pub fn rust_hello() -> (r: i32)
    ensures
        r == 42,
{
    42
}

/// Adds two 32-bit signed integers with wrapping arithmetic. When the
/// mathematical sum fits in `i32`, the result is that sum exactly; otherwise
/// it is the sum wrapped into range, as `wrapped_sum` states.
pub fn rust_add(a: i32, b: i32) -> (r: i32)
    ensures
        r == wrapped_sum(a as int, b as int),
        i32::MIN <= a + b <= i32::MAX ==> r == a + b,
{
    a.wrapping_add(b)
}

/// `rust_hello` is idempotent: its contract pins every result to the one
/// value 42, so any two calls yield the same output.
pub proof fn lemma_hello_idempotent(r1: i32, r2: i32)
    requires
        r1 == 42,
        r2 == 42,
    ensures
        r1 == r2,
{
}

/// `rust_add` is a pure function of its arguments: its contract pins the
/// result to `wrapped_sum` of the inputs alone, so repeated calls with
/// identical inputs yield identical outputs.
pub proof fn lemma_add_idempotent(a: i32, b: i32, r1: i32, r2: i32)
    requires
        r1 == wrapped_sum(a as int, b as int),
        r2 == wrapped_sum(a as int, b as int),
    ensures
        r1 == r2,
{
}

} // verus!
