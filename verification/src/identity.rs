//! The algebraic identities behind the scheme: Cassini's identity, a
//! shifted d'Ocagne-style identity, and the Vajda-style identity that the
//! verifier checks, together with the laws built on them.

use vstd::prelude::*;
use crate::fib_spec::fib;

verus! {

/// `1` at even indices and `-1` at odd ones: the alternating sign in
/// Cassini's identity.
pub open spec fn cassini_sign(n: nat) -> int {
    if n % 2 == 0 {
        1
    } else {
        -1
    }
}

/// Cassini's identity: `fib(n+1)^2 - fib(n)*fib(n+2) == (-1)^n`.
pub proof fn lemma_cassini(n: nat)
    ensures
        fib(n + 1) * fib(n + 1) == fib(n) * fib(n + 2) + cassini_sign(n),
    decreases n,
{
    if n == 0 {
        assert(fib(1) == 1);
        assert(fib(2) == fib(1) + fib(0));
        vstd::arithmetic::mul::lemma_mul_basics(fib(1) as int);
        vstd::arithmetic::mul::lemma_mul_basics(fib(2) as int);
    } else {
        lemma_cassini((n - 1) as nat);
        let a = fib((n - 1) as nat) as int;
        let b = fib(n) as int;
        let c = fib(n + 1) as int;
        let d = fib(n + 2) as int;
        let s = cassini_sign((n - 1) as nat);
        assert(c == b + a);
        assert(d == c + b);
        assert(b * b == a * c + s);
        assert(c * c == b * d - s) by (nonlinear_arith)
            requires
                c == b + a,
                d == c + b,
                b * b == a * c + s,
        ;
        assert(cassini_sign(n) == -s);
        assert(c * c == b * d + cassini_sign(n));
    }
}

/// A shifted d'Ocagne-style identity for an even shift `r`:
/// `fib(r+s)*fib(r+1) == fib(s) + fib(r)*fib(r+s+1)`.
pub proof fn lemma_shift_one(r: nat, s: nat)
    requires
        r % 2 == 0,
    ensures
        fib(r + s) * fib(r + 1) == fib(s) + fib(r) * fib(r + s + 1),
    decreases s,
{
    if s == 0 {
    } else if s == 1 {
        lemma_cassini(r);
        assert(fib(1) == 1);
    } else {
        lemma_shift_one(r, (s - 1) as nat);
        lemma_shift_one(r, (s - 2) as nat);
        let x = fib((r + s - 1) as nat) as int;
        let y = fib((r + s - 2) as nat) as int;
        let w = fib(r + 1) as int;
        let f = fib(r) as int;
        let u = fib((s - 1) as nat) as int;
        let v = fib((s - 2) as nat) as int;
        let g = fib(r + s) as int;
        let h = fib(r + s + 1) as int;
        assert(fib(r + s) == fib((r + s - 1) as nat) + fib((r + s - 2) as nat));
        assert(fib(r + s + 1) == fib((r + s + 1 - 1) as nat) + fib((r + s + 1 - 2) as nat));
        assert(fib(s) == fib((s - 1) as nat) + fib((s - 2) as nat));
        assert(x * w == u + f * g);
        assert(y * w == v + f * x);
        assert(g * w == (u + v) + f * h) by (nonlinear_arith)
            requires
                g == x + y,
                h == g + x,
                x * w == u + f * g,
                y * w == v + f * x,
        ;
    }
}

/// The Vajda-style identity the verifier rests on, for an even shift `r`:
/// `fib(r+s)*fib(r+m) == fib(s)*fib(m) + fib(r)*fib(r+s+m)`.
pub proof fn lemma_vajda(r: nat, s: nat, m: nat)
    requires
        r % 2 == 0,
    ensures
        fib(r + s) * fib(r + m) == fib(s) * fib(m) + fib(r) * fib(r + s + m),
    decreases m,
{
    if m == 0 {
        assert(fib(0) == 0);
        vstd::arithmetic::mul::lemma_mul_basics(fib(s) as int);
        vstd::arithmetic::mul::lemma_mul_is_commutative(fib(r + s) as int, fib(r) as int);
    } else if m == 1 {
        lemma_shift_one(r, s);
        assert(fib(1) == 1);
        vstd::arithmetic::mul::lemma_mul_basics(fib(s) as int);
    } else {
        lemma_vajda(r, s, (m - 1) as nat);
        lemma_vajda(r, s, (m - 2) as nat);
        let g = fib(r + s) as int;
        let f = fib(r) as int;
        let a = fib((r + m - 1) as nat) as int;
        let b = fib((r + m - 2) as nat) as int;
        let u = fib((m - 1) as nat) as int;
        let v = fib((m - 2) as nat) as int;
        let p = fib((r + s + m - 1) as nat) as int;
        let t = fib((r + s + m - 2) as nat) as int;
        let e = fib(s) as int;
        assert(fib(r + m) == fib((r + m - 1) as nat) + fib((r + m - 2) as nat));
        assert(fib(m) == fib((m - 1) as nat) + fib((m - 2) as nat));
        assert(fib(r + s + m) == fib((r + s + m - 1) as nat) + fib((r + s + m - 2) as nat));
        assert(g * a == e * u + f * p);
        assert(g * b == e * v + f * t);
        assert(g * (a + b) == e * (u + v) + f * (p + t)) by (nonlinear_arith)
            requires
                g * a == e * u + f * p,
                g * b == e * v + f * t,
        ;
    }
}

/// The acceptance predicate of the verifier: both sides of the Vajda-style
/// identity, computed modulo `q` exactly as `verify` computes them, with
/// `fib_rm` and `fib_r` taken from the signature and `pk` from the public
/// key rather than recomputed.
pub open spec fn vajda_accepts(q: nat, rs: nat, fib_rm: nat, fib_r: nat, pk: nat, m: nat) -> bool
    recommends
        q >= 1,
{
    ((fib(rs) % q) * fib_rm) % q == ((pk * (fib(m) % q)) % q + (fib_r * (fib(rs + m) % q)) % q) % q
}

/// Completeness of verification: a signature formed from any even
/// ephemeral `r` as `(r + s, fib(r+m) mod q, fib(r) mod q)` is accepted
/// against the public key `fib(s) mod q`, for every secret `s`, message
/// `m` and positive modulus `q`.
pub proof fn lemma_honest_signature_verifies(q: nat, s: nat, m: nat, r: nat)
    requires
        q >= 1,
        r % 2 == 0,
    ensures
        vajda_accepts(q, r + s, fib(r + m) % q, fib(r) % q, fib(s) % q, m),
{
    lemma_vajda(r, s, m);
    let qi = q as int;
    let rs = r + s;
    vstd::arithmetic::div_mod::lemma_mul_mod_noop_general(
        fib(rs) as int,
        fib(r + m) as int,
        qi,
    );
    vstd::arithmetic::div_mod::lemma_mul_mod_noop_general(fib(s) as int, fib(m) as int, qi);
    vstd::arithmetic::div_mod::lemma_mul_mod_noop_general(
        fib(r) as int,
        fib(rs + m) as int,
        qi,
    );
    vstd::arithmetic::div_mod::lemma_add_mod_noop(
        (fib(s) * fib(m)) as int,
        (fib(r) * fib(rs + m)) as int,
        qi,
    );
    assert(r + s + m == rs + m);
}

/// The sequence of Fibonacci numbers modulo ten repeats with period
/// sixty, its Pisano period, at every index.
pub proof fn lemma_pisano_ten(n: nat)
    ensures
        fib(n) % 10 == fib(n + 60) % 10,
    decreases n,
{
    if n == 0 || n == 1 {
        lemma_fib_base_sixty();
    } else {
        lemma_pisano_ten((n - 1) as nat);
        lemma_pisano_ten((n - 2) as nat);
        assert(fib(n) == fib((n - 1) as nat) + fib((n - 2) as nat));
        assert(fib(n + 60) == fib((n + 60 - 1) as nat) + fib((n + 60 - 2) as nat));
        vstd::arithmetic::div_mod::lemma_add_mod_noop(
            fib((n - 1) as nat) as int,
            fib((n - 2) as nat) as int,
            10,
        );
        vstd::arithmetic::div_mod::lemma_add_mod_noop(
            fib((n + 60 - 1) as nat) as int,
            fib((n + 60 - 2) as nat) as int,
            10,
        );
    }
}

/// The two base cases of the period-sixty law.
proof fn lemma_fib_base_sixty()
    ensures
        fib(60) % 10 == 0,
        fib(61) % 10 == 1,
{
    assert(fib(0) == 0);
    assert(fib(1) == 1);
    assert(fib(2) == 1);
    assert(fib(3) == 2);
    assert(fib(4) == 3);
    assert(fib(5) == 5);
    assert(fib(6) == 8);
    assert(fib(7) == 13);
    assert(fib(8) == 21);
    assert(fib(9) == 34);
    assert(fib(10) == 55);
    assert(fib(11) == 89);
    assert(fib(12) == 144);
    assert(fib(13) == 233);
    assert(fib(14) == 377);
    assert(fib(15) == 610);
    assert(fib(16) == 987);
    assert(fib(17) == 1597);
    assert(fib(18) == 2584);
    assert(fib(19) == 4181);
    assert(fib(20) == 6765);
    assert(fib(21) == 10946);
    assert(fib(22) == 17711);
    assert(fib(23) == 28657);
    assert(fib(24) == 46368);
    assert(fib(25) == 75025);
    assert(fib(26) == 121393);
    assert(fib(27) == 196418);
    assert(fib(28) == 317811);
    assert(fib(29) == 514229);
    assert(fib(30) == 832040);
    assert(fib(31) == 1346269);
    assert(fib(32) == 2178309);
    assert(fib(33) == 3524578);
    assert(fib(34) == 5702887);
    assert(fib(35) == 9227465);
    assert(fib(36) == 14930352);
    assert(fib(37) == 24157817);
    assert(fib(38) == 39088169);
    assert(fib(39) == 63245986);
    assert(fib(40) == 102334155);
    assert(fib(41) == 165580141);
    assert(fib(42) == 267914296);
    assert(fib(43) == 433494437);
    assert(fib(44) == 701408733);
    assert(fib(45) == 1134903170);
    assert(fib(46) == 1836311903);
    assert(fib(47) == 2971215073);
    assert(fib(48) == 4807526976);
    assert(fib(49) == 7778742049);
    assert(fib(50) == 12586269025);
    assert(fib(51) == 20365011074);
    assert(fib(52) == 32951280099);
    assert(fib(53) == 53316291173);
    assert(fib(54) == 86267571272);
    assert(fib(55) == 139583862445);
    assert(fib(56) == 225851433717);
    assert(fib(57) == 365435296162);
    assert(fib(58) == 591286729879);
    assert(fib(59) == 956722026041);
    assert(fib(60) == 1548008755920);
    assert(fib(61) == 2504730781961);
}


} // verus!
