//! The specification-level model of the evaluator's working state: 2x2
//! matrices of natural numbers, with multiplication, entrywise reduction,
//! and powers.

use vstd::prelude::*;

verus! {

/// A 2x2 matrix of natural numbers.
pub struct SpecMat {
    pub e00: nat,
    pub e01: nat,
    pub e10: nat,
    pub e11: nat,
}

/// The identity matrix.
pub open spec fn smat_id() -> SpecMat {
    SpecMat { e00: 1, e01: 0, e10: 0, e11: 1 }
}

/// The Fibonacci-generating matrix `[[0,1],[1,1]]`.
pub open spec fn smat_fib() -> SpecMat {
    SpecMat { e00: 0, e01: 1, e10: 1, e11: 1 }
}

/// Matrix multiplication over the natural numbers, no reduction.
pub open spec fn smat_mul(x: SpecMat, y: SpecMat) -> SpecMat {
    SpecMat {
        e00: x.e00 * y.e00 + x.e01 * y.e10,
        e01: x.e00 * y.e01 + x.e01 * y.e11,
        e10: x.e10 * y.e00 + x.e11 * y.e10,
        e11: x.e10 * y.e01 + x.e11 * y.e11,
    }
}

/// Entrywise reduction modulo `q`.
pub open spec fn smat_mod(x: SpecMat, q: nat) -> SpecMat {
    SpecMat { e00: x.e00 % q, e01: x.e01 % q, e10: x.e10 % q, e11: x.e11 % q }
}

/// The `n`-th power of a matrix, with `x^0` the identity.
pub open spec fn smat_pow(x: SpecMat, n: nat) -> SpecMat
    decreases n,
{
    if n == 0 {
        smat_id()
    } else {
        smat_mul(smat_pow(x, (n - 1) as nat), x)
    }
}

/// The identity matrix is neutral on the left.
pub proof fn lemma_smat_mul_id_left(x: SpecMat)
    ensures
        smat_mul(smat_id(), x) == x,
{
}

/// The identity matrix is neutral on the right.
pub proof fn lemma_smat_mul_id_right(x: SpecMat)
    ensures
        smat_mul(x, smat_id()) == x,
{
}

/// One entry of the associativity law: regrouping a bilinear combination
/// of products.
proof fn lemma_entry_assoc(a: int, b: int, c: int, d: int, e: int, f: int, g: int, h: int)
    ensures
        (a * b + c * d) * e + (a * f + c * g) * h == a * (b * e + f * h) + c * (d * e + g * h),
{
    vstd::arithmetic::mul::lemma_mul_is_distributive_add_other_way(e, a * b, c * d);
    vstd::arithmetic::mul::lemma_mul_is_distributive_add_other_way(h, a * f, c * g);
    vstd::arithmetic::mul::lemma_mul_is_associative(a, b, e);
    vstd::arithmetic::mul::lemma_mul_is_associative(c, d, e);
    vstd::arithmetic::mul::lemma_mul_is_associative(a, f, h);
    vstd::arithmetic::mul::lemma_mul_is_associative(c, g, h);
    vstd::arithmetic::mul::lemma_mul_is_distributive_add(a, b * e, f * h);
    vstd::arithmetic::mul::lemma_mul_is_distributive_add(c, d * e, g * h);
}

/// Matrix multiplication is associative.
pub proof fn lemma_smat_mul_assoc(x: SpecMat, y: SpecMat, z: SpecMat)
    ensures
        smat_mul(smat_mul(x, y), z) == smat_mul(x, smat_mul(y, z)),
{
    let x00 = x.e00 as int;
    let x01 = x.e01 as int;
    let x10 = x.e10 as int;
    let x11 = x.e11 as int;
    let y00 = y.e00 as int;
    let y01 = y.e01 as int;
    let y10 = y.e10 as int;
    let y11 = y.e11 as int;
    let z00 = z.e00 as int;
    let z01 = z.e01 as int;
    let z10 = z.e10 as int;
    let z11 = z.e11 as int;
    lemma_entry_assoc(x00, y00, x01, y10, z00, y01, y11, z10);
    lemma_entry_assoc(x00, y00, x01, y10, z01, y01, y11, z11);
    lemma_entry_assoc(x10, y00, x11, y10, z00, y01, y11, z10);
    lemma_entry_assoc(x10, y00, x11, y10, z01, y01, y11, z11);
}

/// Powers of a matrix compose additively in the exponent.
pub proof fn lemma_smat_pow_add(x: SpecMat, m: nat, n: nat)
    ensures
        smat_pow(x, m + n) == smat_mul(smat_pow(x, m), smat_pow(x, n)),
    decreases n,
{
    if n == 0 {
        lemma_smat_mul_id_right(smat_pow(x, m));
    } else {
        lemma_smat_pow_add(x, m, (n - 1) as nat);
        lemma_smat_mul_assoc(smat_pow(x, m), smat_pow(x, (n - 1) as nat), x);
    }
}

/// A product's residue, entry by entry, can be taken from the factors'
/// residues.
proof fn lemma_entry_mod_mul(a: nat, b: nat, c: nat, d: nat, q: nat)
    requires
        q >= 1,
    ensures
        ((a % q) * (b % q) + (c % q) * (d % q)) % q == (a * b + c * d) % q,
{
    vstd::arithmetic::div_mod::lemma_add_mod_noop(
        ((a % q) * (b % q)) as int,
        ((c % q) * (d % q)) as int,
        q as int,
    );
    vstd::arithmetic::div_mod::lemma_mul_mod_noop_general(a as int, b as int, q as int);
    vstd::arithmetic::div_mod::lemma_mul_mod_noop_general(c as int, d as int, q as int);
    vstd::arithmetic::div_mod::lemma_add_mod_noop((a * b) as int, (c * d) as int, q as int);
}

/// Reducing the factors of a matrix product before multiplying does not
/// change the product's residue.
pub proof fn lemma_smat_mod_mul(x: SpecMat, y: SpecMat, q: nat)
    requires
        q >= 1,
    ensures
        smat_mod(smat_mul(smat_mod(x, q), smat_mod(y, q)), q) == smat_mod(smat_mul(x, y), q),
{
    lemma_entry_mod_mul(x.e00, y.e00, x.e01, y.e10, q);
    lemma_entry_mod_mul(x.e00, y.e01, x.e01, y.e11, q);
    lemma_entry_mod_mul(x.e10, y.e00, x.e11, y.e10, q);
    lemma_entry_mod_mul(x.e10, y.e01, x.e11, y.e11, q);
}

/// Entrywise reduction is idempotent.
pub proof fn lemma_smat_mod_idem(x: SpecMat, q: nat)
    requires
        q >= 1,
    ensures
        smat_mod(smat_mod(x, q), q) == smat_mod(x, q),
{
    vstd::arithmetic::div_mod::lemma_mod_twice(x.e00 as int, q as int);
    vstd::arithmetic::div_mod::lemma_mod_twice(x.e01 as int, q as int);
    vstd::arithmetic::div_mod::lemma_mod_twice(x.e10 as int, q as int);
    vstd::arithmetic::div_mod::lemma_mod_twice(x.e11 as int, q as int);
}

} // verus!
