use fib_crypto::{fibonacci, FibonacciVajdaCryptoSystem, ConfigurationError, PublicKey, SecretKey, Signature};
use num_bigint::BigUint;
use rand::rngs::StdRng;
use rand::SeedableRng;

fn small_system() -> FibonacciVajdaCryptoSystem {
    FibonacciVajdaCryptoSystem::new(BigUint::from(1000000007u64), 32).unwrap()
}

#[test]
fn default_configuration() {
    let crypto = FibonacciVajdaCryptoSystem::default();
    let expected =
        BigUint::parse_bytes(b"1000000000100000000010000000001000000007", 10).unwrap();
    assert_eq!(crypto.q, expected);
    assert_eq!(crypto.b, 256);
}

#[test]
fn new_rejects_degenerate_modulus() {
    assert_eq!(
        FibonacciVajdaCryptoSystem::new(BigUint::from(0u64), 256).unwrap_err(),
        ConfigurationError::ModulusTooSmall
    );
    assert_eq!(
        FibonacciVajdaCryptoSystem::new(BigUint::from(1u64), 256).unwrap_err(),
        ConfigurationError::ModulusTooSmall
    );
}

#[test]
fn new_rejects_zero_bit_length() {
    assert_eq!(
        FibonacciVajdaCryptoSystem::new(BigUint::from(7u64), 0).unwrap_err(),
        ConfigurationError::ZeroBitLength
    );
    // A modulus failure is reported even when the bit length is zero too.
    assert_eq!(
        FibonacciVajdaCryptoSystem::new(BigUint::from(1u64), 0).unwrap_err(),
        ConfigurationError::ModulusTooSmall
    );
}

#[test]
fn new_accepts_valid_parameters() {
    let crypto = FibonacciVajdaCryptoSystem::new(BigUint::from(97u64), 16).unwrap();
    assert_eq!(crypto.q, BigUint::from(97u64));
    assert_eq!(crypto.b, 16);
}

#[test]
fn key_generation_deterministic() {
    let crypto = FibonacciVajdaCryptoSystem::default();
    let mut rng_a = StdRng::seed_from_u64(42);
    let mut rng_b = StdRng::seed_from_u64(42);
    let key_a = crypto.clone().generate_key(&mut rng_a);
    let key_b = crypto.generate_key(&mut rng_b);
    assert_eq!(key_a.0 .0, key_b.0 .0);
    assert_eq!(key_a.1 .0, key_b.1 .0);
}

#[test]
fn key_halves_correspond() {
    let crypto = small_system();
    let mut rng = StdRng::seed_from_u64(5);
    let key = crypto.clone().generate_key(&mut rng);
    assert_eq!(key.0 .0, fibonacci(key.1 .0.clone(), crypto.q.clone()));
    // The secret stays below 2^32.
    assert!(key.1 .0 < (BigUint::from(1u64) << 32));
}

#[test]
fn sign_verify_round_trip() {
    let crypto = FibonacciVajdaCryptoSystem::default();
    let mut rng = StdRng::seed_from_u64(1);
    let key = crypto.clone().generate_key(&mut rng);
    for m in [0u64, 1, 7, 100000000, 18446744073709551615] {
        let message = BigUint::from(m);
        let signature = crypto.clone().sign(
            SecretKey(key.1 .0.clone()),
            message.clone(),
            &mut rng,
        );
        assert!(crypto.clone().verify(signature, PublicKey(key.0 .0.clone()), message));
    }
}

#[test]
fn sign_verify_round_trip_small_modulus() {
    let crypto = small_system();
    let mut rng = StdRng::seed_from_u64(9);
    for seed in 0..10u64 {
        let mut key_rng = StdRng::seed_from_u64(seed);
        let key = crypto.clone().generate_key(&mut key_rng);
        let message = BigUint::from(seed * 31 + 2);
        let signature = crypto.clone().sign(
            SecretKey(key.1 .0.clone()),
            message.clone(),
            &mut rng,
        );
        assert!(crypto.clone().verify(signature, PublicKey(key.0 .0.clone()), message));
    }
}

#[test]
fn sign_ephemeral_even_and_bounded() {
    let crypto = FibonacciVajdaCryptoSystem::new(BigUint::from(1000000007u64), 16).unwrap();
    let mut rng = StdRng::seed_from_u64(3);
    let secret = BigUint::from(5u64);
    for _ in 0..20 {
        let signature = crypto.clone().sign(
            SecretKey(secret.clone()),
            BigUint::from(7u64),
            &mut rng,
        );
        let r = signature.rs - secret.clone();
        assert_eq!(r.clone() % BigUint::from(2u64), BigUint::from(0u64));
        assert!(r < (BigUint::from(1u64) << 16));
    }
}

#[test]
fn tamper_sensitivity() {
    let crypto = FibonacciVajdaCryptoSystem::default();
    let mut rng = StdRng::seed_from_u64(11);
    let key = crypto.clone().generate_key(&mut rng);
    let message = BigUint::from(123456789u64);
    let signature = crypto.clone().sign(
        SecretKey(key.1 .0.clone()),
        message.clone(),
        &mut rng,
    );
    let public_key = PublicKey(key.0 .0.clone());
    assert!(crypto.clone().verify(
        signature.clone(),
        PublicKey(key.0 .0.clone()),
        message.clone()
    ));
    let one = BigUint::from(1u64);

    let mut tampered = signature.clone();
    tampered.rs += one.clone();
    assert!(!crypto.clone().verify(tampered, public_key.clone(), message.clone()));

    let mut tampered = signature.clone();
    tampered.fib_rm += one.clone();
    assert!(!crypto.clone().verify(tampered, public_key.clone(), message.clone()));

    let mut tampered = signature.clone();
    tampered.fib_r += one.clone();
    assert!(!crypto.clone().verify(tampered, public_key.clone(), message.clone()));

    assert!(!crypto.clone().verify(signature, public_key, message + one));
}

#[test]
fn concrete_scenario() {
    // q = 1000000007, s = 5, m = 7, r = 4 (even):
    // signature (rs = 9, fib_rm = Fib(11) = 89, fib_r = Fib(4) = 3),
    // public key Fib(5) = 5;
    // lhs = Fib(9) * 89 = 34 * 89 = 3026,
    // rhs = 5 * Fib(7) + 3 * Fib(16) = 5 * 13 + 3 * 987 = 3026.
    let crypto = FibonacciVajdaCryptoSystem::new(BigUint::from(1000000007u64), 256).unwrap();
    let signature = Signature {
        rs: BigUint::from(9u64),
        fib_rm: BigUint::from(89u64),
        fib_r: BigUint::from(3u64),
    };
    let public_key = PublicKey(BigUint::from(5u64));
    assert!(crypto.verify(signature, public_key, BigUint::from(7u64)));
}
