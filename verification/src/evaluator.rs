//! The modular Fibonacci evaluator: `Fib(n) mod q` for arbitrary
//! non-negative `n`, by binary exponentiation of the Fibonacci-generating
//! matrix with every entry kept reduced modulo `q`.

use vstd::prelude::*;
use vstd::arithmetic::power2::pow2;
use num_bigint::BigUint;
use crate::bignum::{big_val, big_from_u64, big_add, big_mul, big_mod, big_shr, big_bit, big_is_zero};
use crate::fib_spec::fib;
use crate::mat::{SpecMat, smat_id, smat_fib, smat_mul, smat_mod, smat_pow};
use crate::mat::{lemma_smat_mul_id_left, lemma_smat_pow_add, lemma_smat_mod_mul, lemma_smat_mod_idem};

verus! {

/// A 2x2 matrix of big integers: the evaluator's working state.
pub(crate) struct Mat {
    pub e00: BigUint,
    pub e01: BigUint,
    pub e10: BigUint,
    pub e11: BigUint,
}

/// The matrix of natural numbers that a working matrix holds.
pub(crate) open spec fn mat_val(m: Mat) -> SpecMat {
    SpecMat {
        e00: big_val(m.e00),
        e01: big_val(m.e01),
        e10: big_val(m.e10),
        e11: big_val(m.e11),
    }
}

/// One entry of a modular matrix product: `(a*b + c*d) mod q`, computed
/// with each product reduced before the sum, as the sum is reduced after.
fn entry_mul_mod(
    a: &BigUint,
    b: &BigUint,
    c: &BigUint,
    d: &BigUint,
    q: &BigUint,
) -> (r: BigUint)
    requires
        big_val(*q) >= 1,
    ensures
        big_val(r) == (big_val(*a) * big_val(*b) + big_val(*c) * big_val(*d)) % big_val(*q),
{
    let p1 = big_mod(&big_mul(a, b), q);
    let p2 = big_mod(&big_mul(c, d), q);
    let r = big_mod(&big_add(&p1, &p2), q);
    proof {
        vstd::arithmetic::div_mod::lemma_add_mod_noop(
            (big_val(*a) * big_val(*b)) as int,
            (big_val(*c) * big_val(*d)) as int,
            big_val(*q) as int,
        );
    }
    r
}

impl Mat {
    /// The matrix product of `self` and `other`, every entry reduced
    /// modulo `q`.
    pub(crate) fn mul_mod(&self, other: &Mat, q: &BigUint) -> (r: Mat)
        requires
            big_val(*q) >= 1,
        ensures
            mat_val(r) == smat_mod(smat_mul(mat_val(*self), mat_val(*other)), big_val(*q)),
    {
        Mat {
            e00: entry_mul_mod(&self.e00, &other.e00, &self.e01, &other.e10, q),
            e01: entry_mul_mod(&self.e00, &other.e01, &self.e01, &other.e11, q),
            e10: entry_mul_mod(&self.e10, &other.e00, &self.e11, &other.e10, q),
            e11: entry_mul_mod(&self.e10, &other.e01, &self.e11, &other.e11, q),
        }
    }

    /// The square of `self`, every entry reduced modulo `q`.
    pub(crate) fn square_mod(&self, q: &BigUint) -> (r: Mat)
        requires
            big_val(*q) >= 1,
        ensures
            mat_val(r) == smat_mod(smat_mul(mat_val(*self), mat_val(*self)), big_val(*q)),
    {
        self.mul_mod(self, q)
    }
}

/// The Fibonacci number before index `n`, taking the value before index
/// zero to be one, so that `smat_fib()` to the `n`-th power is exactly
/// `[[fib_prev(n), fib(n)], [fib(n), fib(n+1)]]`.
pub(crate) open spec fn fib_prev(n: nat) -> nat {
    if n == 0 {
        1
    } else {
        fib((n - 1) as nat)
    }
}

/// Powers of the Fibonacci-generating matrix carry consecutive Fibonacci
/// numbers: the top-right entry of the `n`-th power is `fib(n)`.
pub(crate) proof fn lemma_smat_pow_fib(n: nat)
    ensures
        smat_pow(smat_fib(), n) == (SpecMat {
            e00: fib_prev(n),
            e01: fib(n),
            e10: fib(n),
            e11: fib(n + 1),
        }),
    decreases n,
{
    if n == 0 {
        assert(fib(1) == 1);
    } else {
        lemma_smat_pow_fib((n - 1) as nat);
        assert(fib(n + 1) == fib(n) + fib((n - 1) as nat));
        if n == 1 {
            assert(fib(1) == 1);
        } else {
            assert(fib(n) == fib((n - 1) as nat) + fib((n - 2) as nat));
        }
    }
}

/// `Fib(n) mod q`, the Fibonacci number at index `n` by the standard
/// recurrence, reduced into `[0, q)`. Works for arbitrary-precision `n`
/// and any positive modulus `q`.
pub fn fibonacci(n: BigUint, q: BigUint) -> (r: BigUint)
    requires
        big_val(q) >= 1,
    ensures
        big_val(r) == fib(big_val(n)) % big_val(q),
        big_val(r) < big_val(q),
{
    let ghost n0: nat = big_val(n);
    let ghost qv: nat = big_val(q);
    let mut cur = n;
    let mut acc = Mat {
        e00: big_from_u64(1),
        e01: big_from_u64(0),
        e10: big_from_u64(0),
        e11: big_from_u64(1),
    };
    let mut sq = Mat {
        e00: big_from_u64(0),
        e01: big_from_u64(1),
        e10: big_from_u64(1),
        e11: big_from_u64(1),
    };
    let ghost mut done: nat = 0;
    let ghost mut k: nat = 0;
    proof {
        vstd::arithmetic::power2::lemma2_to64();
        lemma_smat_mul_id_left(smat_fib());
        assert(smat_pow(smat_fib(), 0) == smat_id());
        assert(smat_pow(smat_fib(), 1) == smat_mul(smat_pow(smat_fib(), 0), smat_fib()));
    }
    while !big_is_zero(&cur)
        invariant
            big_val(q) == qv,
            qv >= 1,
            n0 == done + big_val(cur) * pow2(k),
            smat_mod(mat_val(acc), qv) == smat_mod(smat_pow(smat_fib(), done), qv),
            mat_val(acc) == smat_id() || mat_val(acc) == smat_mod(mat_val(acc), qv),
            smat_mod(mat_val(sq), qv) == smat_mod(smat_pow(smat_fib(), pow2(k)), qv),
        decreases big_val(cur),
    {
        let ghost v: nat = big_val(cur);
        let ghost p: nat = pow2(k);
        let ghost a_old: SpecMat = mat_val(acc);
        let ghost s_old: SpecMat = mat_val(sq);
        proof {
            vstd::arithmetic::power2::lemma2_to64();
        }
        if big_bit(&cur, 0) {
            proof {
                lemma_smat_mod_mul(a_old, s_old, qv);
                lemma_smat_mod_mul(smat_pow(smat_fib(), done), smat_pow(smat_fib(), p), qv);
                lemma_smat_pow_add(smat_fib(), done, p);
                lemma_smat_mod_idem(smat_mul(a_old, s_old), qv);
            }
            acc = acc.mul_mod(&sq, &q);
            proof {
                done = done + p;
            }
        }
        cur = big_shr(&cur, 1);
        proof {
            lemma_smat_mod_mul(s_old, s_old, qv);
            lemma_smat_mod_mul(smat_pow(smat_fib(), p), smat_pow(smat_fib(), p), qv);
            lemma_smat_pow_add(smat_fib(), p, p);
            lemma_smat_mod_idem(smat_mul(s_old, s_old), qv);
        }
        sq = sq.square_mod(&q);
        proof {
            k = k + 1;
            vstd::arithmetic::power2::lemma_pow2_unfold(k);
            vstd::arithmetic::div_mod::lemma_fundamental_div_mod(v as int, 2);
            let h = (v / 2) as int;
            let pi = p as int;
            if v % 2 == 1 {
                assert((2 * h + 1) * pi == h * (2 * pi) + pi) by (nonlinear_arith);
            } else {
                assert((2 * h) * pi == h * (2 * pi)) by (nonlinear_arith);
            }
            if v > 0 {
                vstd::arithmetic::div_mod::lemma_div_decreases(v as int, 2);
            }
        }
    }
    proof {
        lemma_smat_pow_fib(n0);
        if mat_val(acc) == smat_id() {
            vstd::arithmetic::div_mod::lemma_small_mod(0, qv);
        }
    }
    let Mat { e00: _, e01: out, e10: _, e11: _ } = acc;
    out
}

} // verus!
