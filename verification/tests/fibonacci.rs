use fib_crypto::fibonacci;
use num_bigint::BigUint;

fn fib_of(n: u64, q: u64) -> BigUint {
    fibonacci(BigUint::from(n), BigUint::from(q))
}

#[test]
fn fibonacci_matches_linear_reference() {
    let q: u64 = 1000000007;
    let mut a: u64 = 0;
    let mut b: u64 = 1;
    for n in 0..2000u64 {
        assert_eq!(fib_of(n, q), BigUint::from(a));
        let next = (a + b) % q;
        a = b;
        b = next;
    }
}

#[test]
fn fibonacci_zero_case() {
    for q in [1u64, 2, 10, 97, 1000000007] {
        assert_eq!(fib_of(0, q), BigUint::from(0u64));
    }
    let big_q = BigUint::parse_bytes(b"1000000000100000000010000000001000000007", 10).unwrap();
    assert_eq!(
        fibonacci(BigUint::from(0u64), big_q),
        BigUint::from(0u64)
    );
}

#[test]
fn fibonacci_pisano_period_ten() {
    for n in [0u64, 1, 2, 3, 7, 13, 30, 59, 60, 61, 100, 123, 240] {
        assert_eq!(fib_of(n, 10), fib_of(n + 60, 10));
    }
}

#[test]
fn fibonacci_small_values() {
    let q: u64 = 1000000007;
    assert_eq!(fib_of(4, q), BigUint::from(3u64));
    assert_eq!(fib_of(5, q), BigUint::from(5u64));
    assert_eq!(fib_of(7, q), BigUint::from(13u64));
    assert_eq!(fib_of(9, q), BigUint::from(34u64));
    assert_eq!(fib_of(10, q), BigUint::from(55u64));
    assert_eq!(fib_of(11, q), BigUint::from(89u64));
    assert_eq!(fib_of(16, q), BigUint::from(987u64));
}

#[test]
fn fibonacci_huge_index() {
    // 10^30 leaves remainder 40 modulo the Pisano period 60 of modulus 10,
    // and Fib(40) = 102334155 ends in 5.
    let n = BigUint::from(10u64).pow(30);
    assert_eq!(fibonacci(n, BigUint::from(10u64)), BigUint::from(5u64));
    assert_eq!(fib_of(40, 10), BigUint::from(5u64));
}

#[test]
fn fibonacci_modulus_one_collapses() {
    for n in [0u64, 1, 2, 17, 100] {
        assert_eq!(fib_of(n, 1), BigUint::from(0u64));
    }
}
