use rust_bench::count_primes;
use rust_bench::is_prime;

#[test]
fn is_prime_small_values() {
    assert!(!is_prime(0));
    assert!(!is_prime(1));
    assert!(is_prime(2));
    assert!(is_prime(3));
    assert!(!is_prime(4));
    assert!(is_prime(5));
    assert!(!is_prime(6));
    assert!(is_prime(7));
    assert!(!is_prime(8));
    assert!(!is_prime(9));
    assert!(is_prime(11));
    assert!(!is_prime(25));
    assert!(!is_prime(49));
}

#[test]
fn is_prime_larger_values() {
    assert!(is_prime(97));
    assert!(is_prime(7919));
    assert!(!is_prime(7917));
    assert!(!is_prime(7921)); // 89 * 89
    assert!(is_prime(104729));
}

#[test]
fn count_primes_reference_table() {
    assert_eq!(count_primes(10), 4);
    assert_eq!(count_primes(100), 25);
    assert_eq!(count_primes(1000), 168);
    assert_eq!(count_primes(10000), 1229);
}

#[test]
fn count_primes_at_two_is_one() {
    assert_eq!(count_primes(2), 1);
}

#[test]
fn count_primes_below_two_is_zero() {
    assert_eq!(count_primes(0), 0);
    assert_eq!(count_primes(1), 0);
}

#[test]
fn count_primes_is_deterministic() {
    let first = count_primes(5000);
    let second = count_primes(5000);
    let third = count_primes(5000);
    assert_eq!(first, second);
    assert_eq!(second, third);
}
