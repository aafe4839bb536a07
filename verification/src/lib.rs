//! A Fibonacci-Vajda signature scheme: modular Fibonacci evaluation by
//! binary exponentiation of the 2x2 Fibonacci matrix, together with key
//! generation, signing and verification built on a Vajda-style identity.

pub mod bignum;
pub mod evaluator;
pub mod fib_spec;
pub mod identity;
mod mat;
pub mod system;

pub use evaluator::fibonacci;
pub use system::{
    ConfigurationError, FibonacciVajdaCryptoSystem, Key, PublicKey, SecretKey, Signature,
};
