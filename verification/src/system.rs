//! The Fibonacci-Vajda signature scheme: configuration, key generation,
//! signing, and verification, built on the modular Fibonacci evaluator.

use vstd::prelude::*;
use vstd::arithmetic::power2::pow2;
use num_bigint::BigUint;
use rand::rngs::StdRng;
use crate::bignum::{big_val, big_from_u64, big_add, big_mul, big_mod, big_shr, big_shl, big_eq, big_lt, rng_draw};
use crate::evaluator::fibonacci;
use crate::fib_spec::fib;
use crate::identity::{vajda_accepts, lemma_honest_signature_verifies};

verus! {

/// The value `Fib(s) mod q` for a secret `s`: safe to publish.
#[derive(Debug, Clone)]
pub struct PublicKey(pub BigUint);

/// A secret scalar drawn from `[0, 2^b)`: never transmitted.
#[derive(Debug, Clone)]
pub struct SecretKey(pub BigUint);

/// A public and a secret half produced by one generation call, so that
/// both correspond to the same underlying secret.
#[derive(Debug, Clone)]
pub struct Key(pub PublicKey, pub SecretKey);

/// A signature: the unreduced sum `r + s`, `Fib(r + m) mod q`, and
/// `Fib(r) mod q`, for an even ephemeral `r`.
#[derive(Debug, Clone)]
pub struct Signature {
    pub rs: BigUint,
    pub fib_rm: BigUint,
    pub fib_r: BigUint,
}

/// A configuration rejected at construction time.
#[derive(Debug, Clone, Copy, PartialEq, Eq)]
pub enum ConfigurationError {
    /// The modulus was zero or one, for which reduction is degenerate.
    ModulusTooSmall,
    /// The bit length for secrets and ephemerals was zero.
    ZeroBitLength,
}

/// The modulus of the default configuration, forty decimal digits.
pub open spec fn default_modulus() -> nat {
    1000000000100000000010000000001000000007nat
}

/// The scheme's configuration: the modulus `q` of every reduction and the
/// bit length `b` from which secrets and ephemerals are drawn. Immutable
/// once constructed.
#[derive(Debug, Clone)]
pub struct FibonacciVajdaCryptoSystem {
    pub q: BigUint,
    pub b: u64,
}

/// A signature whose three parts were formed from the ephemeral `r`, the
/// secret `s` and the message `m` exactly as signing forms them.
pub open spec fn signature_formed(
    sig: Signature,
    s: nat,
    m: nat,
    q: nat,
    b: nat,
    r: nat,
) -> bool {
    &&& r < pow2(b)
    &&& r % 2 == 0
    &&& big_val(sig.rs) == r + s
    &&& big_val(sig.fib_rm) == fib(r + m) % q
    &&& big_val(sig.fib_r) == fib(r) % q
}

impl FibonacciVajdaCryptoSystem {
    /// A valid configuration: a modulus of at least two and a positive
    /// bit length, as construction enforces.
    pub open spec fn wf(self) -> bool {
        big_val(self.q) >= 2 && self.b >= 1
    }

    /// Builds a configuration from a caller-supplied modulus and bit
    /// length, rejecting a degenerate modulus or a zero bit length.
    pub fn new(q: BigUint, b: u64) -> (r: Result<FibonacciVajdaCryptoSystem, ConfigurationError>)
        ensures
            r is Ok <==> big_val(q) >= 2 && b >= 1,
            r is Ok ==> r->Ok_0.wf() && big_val(r->Ok_0.q) == big_val(q) && r->Ok_0.b == b,
            big_val(q) <= 1 ==> r is Err && r->Err_0 == ConfigurationError::ModulusTooSmall,
            big_val(q) >= 2 && b == 0 ==> r is Err && r->Err_0 == ConfigurationError::ZeroBitLength,
    {
        let two = big_from_u64(2);
        if big_lt(&q, &two) {
            Err(ConfigurationError::ModulusTooSmall)
        } else if b == 0 {
            Err(ConfigurationError::ZeroBitLength)
        } else {
            Ok(FibonacciVajdaCryptoSystem { q, b })
        }
    }

    /// The default configuration: a fixed forty-digit modulus and a bit
    /// length of 256.
    pub fn default() -> (r: FibonacciVajdaCryptoSystem)
        ensures
            r.wf(),
            big_val(r.q) == default_modulus(),
            r.b == 256,
    {
        let chunk = big_from_u64(1000000000);
        let scale = big_from_u64(10000000000);
        let tail = big_from_u64(1000000007);
        let head = big_add(&big_mul(&chunk, &scale), &chunk);
        let mid = big_add(&big_mul(&head, &scale), &chunk);
        let q = big_add(&big_mul(&mid, &scale), &tail);
        proof {
            assert(((1000000000nat * 10000000000 + 1000000000) * 10000000000 + 1000000000)
                * 10000000000 + 1000000007 == default_modulus()) by (nonlinear_arith);
        }
        FibonacciVajdaCryptoSystem { q, b: 256 }
    }

    /// Draws a secret `s` uniformly from `[0, 2^b)` and returns it with
    /// its public half `Fib(s) mod q`: the two halves of the result always
    /// correspond to the same secret.
    pub fn generate_key(self, rng: &mut StdRng) -> (k: Key)
        requires
            self.wf(),
        ensures
            big_val(k.1.0) < pow2(self.b as nat),
            big_val(k.0.0) == fib(big_val(k.1.0)) % big_val(self.q),
    {
        let random_num = rng_draw(rng, self.b);
        let secret_key = SecretKey(random_num.clone());
        let public_key = PublicKey(fibonacci(random_num, self.q));
        Key(public_key, secret_key)
    }

    /// Signs a message: draws a fresh ephemeral from `[0, 2^b)`, clears
    /// its lowest bit to force it even, and returns the triple
    /// `(r + s, Fib(r + m) mod q, Fib(r) mod q)`. The sum `r + s` is
    /// exact, never reduced.
    pub fn sign(self, secret_key: SecretKey, message: BigUint, rng: &mut StdRng) -> (sig: Signature)
        requires
            self.wf(),
        ensures
            exists|r: nat|
                signature_formed(
                    sig,
                    big_val(secret_key.0),
                    big_val(message),
                    big_val(self.q),
                    self.b as nat,
                    r,
                ),
    {
        let q = self.q;
        let b = self.b;
        let drawn = rng_draw(rng, b);
        let r = big_shl(&big_shr(&drawn, 1), 1);
        let ghost rv: nat = big_val(r);
        proof {
            vstd::arithmetic::power2::lemma2_to64();
            let d = big_val(drawn) as int;
            vstd::arithmetic::div_mod::lemma_fundamental_div_mod(d, 2);
            vstd::arithmetic::div_mod::lemma_mod_multiples_basic(d / 2, 2);
            vstd::arithmetic::mul::lemma_mul_is_commutative(d / 2, 2);
        }
        let rs = big_add(&r, &secret_key.0);
        let rm = big_add(&r, &message);
        let fib_rm = fibonacci(rm, q.clone());
        let fib_r = fibonacci(r, q);
        let sig = Signature { rs, fib_rm, fib_r };
        proof {
            assert(signature_formed(
                sig,
                big_val(secret_key.0),
                big_val(message),
                big_val(self.q),
                self.b as nat,
                rv,
            ));
        }
        sig
    }

    /// Recomputes both sides of the Vajda-style identity from the
    /// signature, the public key and the message, and accepts exactly
    /// when they agree modulo `q`. The two values carried in the
    /// signature are trusted inputs, never recomputed.
    pub fn verify(self, signature: Signature, public_key: PublicKey, message: BigUint) -> (ok:
        bool)
        requires
            self.wf(),
        ensures
            ok == vajda_accepts(
                big_val(self.q),
                big_val(signature.rs),
                big_val(signature.fib_rm),
                big_val(signature.fib_r),
                big_val(public_key.0),
                big_val(message),
            ),
    {
        let q = self.q;
        let rsm = big_add(&signature.rs, &message);
        let fib_rs = fibonacci(signature.rs.clone(), q.clone());
        let lhs = big_mod(&big_mul(&fib_rs, &signature.fib_rm), &q);
        let fib_rsm = fibonacci(rsm, q.clone());
        let fib_m = fibonacci(message, q.clone());
        let t1 = big_mod(&big_mul(&public_key.0, &fib_m), &q);
        let t2 = big_mod(&big_mul(&signature.fib_r, &fib_rsm), &q);
        let rhs = big_mod(&big_add(&t1, &t2), &q);
        big_eq(&lhs, &rhs)
    }
}

/// Round trip: any signature formed as `sign` forms them, from any even
/// ephemeral, is accepted by the verifier's predicate against the public
/// key that `generate_key` derives from the same secret.
pub proof fn lemma_sign_verify_round_trip(sig: Signature, s: nat, m: nat, q: nat, b: nat)
    requires
        q >= 1,
        exists|r: nat| signature_formed(sig, s, m, q, b, r),
    ensures
        vajda_accepts(
            q,
            big_val(sig.rs),
            big_val(sig.fib_rm),
            big_val(sig.fib_r),
            fib(s) % q,
            m,
        ),
{
    let r = choose|r: nat| signature_formed(sig, s, m, q, b, r);
    lemma_honest_signature_verifies(q, s, m, r);
}

} // verus!
