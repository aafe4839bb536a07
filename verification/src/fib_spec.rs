//! The mathematical Fibonacci sequence, the reference every executable
//! result is measured against.

use vstd::prelude::*;

verus! {

/// The Fibonacci number at index `n`, by the standard linear recurrence
/// with `fib(0) == 0` and `fib(1) == 1`.
pub open spec fn fib(n: nat) -> nat
    decreases n,
{
    if n == 0 {
        0
    } else if n == 1 {
        1
    } else {
        fib((n - 1) as nat) + fib((n - 2) as nat)
    }
}

/// The Fibonacci number at index zero vanishes modulo every positive
/// modulus.
pub proof fn lemma_fib_zero_mod(q: nat)
    requires
        q >= 1,
    ensures
        fib(0) % q == 0,
{
    vstd::arithmetic::div_mod::lemma_small_mod(0, q);
}

} // verus!
