//! Prime counting by trial division.
//!
//! The counting loop is deliberately plain trial division (odd candidate
//! divisors up to the square root), so that the work it performs per input
//! stays predictable for benchmarking; the contracts tie its result to the
//! mathematical definition of primality.

use vstd::arithmetic::div_mod::lemma_fundamental_div_mod;
use vstd::arithmetic::div_mod::lemma_mod_multiples_basic;
use vstd::prelude::*;

verus! {

/// A number is prime when it is at least 2 and no smaller number from 2 up
/// divides it.
pub open spec fn spec_is_prime(n: int) -> bool {
    &&& n >= 2
    &&& forall|d: int| 2 <= d < n ==> #[trigger] (n % d) != 0
}

/// The count of primes in the inclusive range [2, n].
pub open spec fn spec_prime_count(n: int) -> nat
    decreases n,
{
    if n < 2 {
        0
    } else {
        spec_prime_count(n - 1) + if spec_is_prime(n) {
            1nat
        } else {
            0nat
        }
    }
}

/// An odd number has no even divisor: a witness to the contrary would make
/// the number itself even.
proof fn lemma_odd_has_no_even_divisor(n: int, d: int)
    requires
        n >= 2,
        n % 2 == 1,
        2 <= d,
        d % 2 == 0,
    ensures
        n % d != 0,
{
    if n % d == 0 {
        let q = n / d;
        lemma_fundamental_div_mod(n, d);
        let e = d / 2;
        lemma_fundamental_div_mod(d, 2);
        assert(n == (e * q) * 2) by (nonlinear_arith)
            requires
                n == d * q,
                d == 2 * e,
        ;
        lemma_mod_multiples_basic(e * q, 2);
    }
}

/// Trial division is complete: if no candidate below `bound` divides `n` and
/// `bound * bound` exceeds `n`, then no proper divisor of `n` exists at all,
/// because a large divisor would pair with a small cofactor.
proof fn lemma_no_divisor_below_sqrt_implies_prime(n: int, bound: int)
    requires
        n >= 2,
        bound >= 2,
        bound * bound > n,
        forall|d: int| 2 <= d < bound ==> #[trigger] (n % d) != 0,
    ensures
        spec_is_prime(n),
{
    assert forall|d: int| 2 <= d < n implies #[trigger] (n % d) != 0 by {
        if n % d == 0 && d >= bound {
            let q = n / d;
            lemma_fundamental_div_mod(n, d);
            assert(q >= 2) by (nonlinear_arith)
                requires
                    n == d * q,
                    2 <= d < n,
            ;
            assert(q < bound) by (nonlinear_arith)
                requires
                    n == d * q,
                    bound * bound > n,
                    d >= bound >= 2,
                    q >= 2,
            ;
            assert(n == q * d) by (nonlinear_arith)
                requires
                    n == d * q,
            ;
            lemma_mod_multiples_basic(d, q);
            assert(n % q != 0);
        }
    }
}

/// Squaring a value that fits in 64 bits cannot overflow 128 bits.
proof fn lemma_square_fits_u128(x: int)
    requires
        0 <= x,
        x <= u64::MAX as int,
    ensures
        x * x <= u128::MAX as int,
{
    assert(x * x <= u64::MAX as int * u64::MAX as int) by (nonlinear_arith)
        requires
            0 <= x <= u64::MAX as int,
    ;
}

/// Decides primality of `n` by trial division: 2 is prime, other even
/// numbers are not, and odd numbers are divided by every odd candidate whose
/// square does not exceed `n`.
pub fn is_prime(n: u64) -> (r: bool)
    ensures
        r == spec_is_prime(n as int),
{
    if n < 2 {
        return false;
    }
    if n == 2 {
        return true;
    }
    if n % 2 == 0 {
        assert((n as int) % 2 == 0 && 2 < n as int);
        return false;
    }
    let mut i: u64 = 3;
    loop
        invariant
            3 <= i,
            i % 2 == 1,
            n % 2 == 1,
            n >= 3,
            forall|d: int| 2 <= d < i ==> #[trigger] ((n as int) % d) != 0,
        ensures
            i as int * i as int > n as int,
        decreases n as int + 2 - i as int,
    {
        proof {
            lemma_square_fits_u128(i as int);
        }
        let sq: u128 = (i as u128) * (i as u128);
        if sq > (n as u128) {
            break ;
        }
        if n % i == 0 {
            assert(i < n) by (nonlinear_arith)
                requires
                    3 <= i,
                    i as int * i as int <= n as int,
            ;
            return false;
        }
        proof {
            lemma_odd_has_no_even_divisor(n as int, i as int + 1);
            assert(i < n) by (nonlinear_arith)
                requires
                    3 <= i,
                    i as int * i as int <= n as int,
            ;
        }
        i = i + 2;
    }
    proof {
        lemma_no_divisor_below_sqrt_implies_prime(n as int, i as int);
    }
    true
}

/// At most `n - 1` numbers lie in [2, n], so the prime count is bounded by
/// that.
proof fn lemma_prime_count_le(n: int)
    ensures
        spec_prime_count(n) <= if n < 2 {
            0int
        } else {
            n - 1
        },
    decreases n,
{
    if n >= 2 {
        lemma_prime_count_le(n - 1);
    }
}

/// Counts the primes in the inclusive range [2, n] by testing every number
/// in turn with `is_prime`.
pub fn count_primes(n: u64) -> (count: u64)
    ensures
        count == spec_prime_count(n as int),
{
    if n < 2 {
        return 0;
    }
    let mut count: u64 = 0;
    let mut i: u64 = 2;
    loop
        invariant_except_break
            count == spec_prime_count(i as int - 1),
        invariant
            2 <= i <= n,
        ensures
            count == spec_prime_count(n as int),
        decreases n as int - i as int,
    {
        proof {
            lemma_prime_count_le(i as int - 1);
        }
        if is_prime(i) {
            count = count + 1;
        }
        if i == n {
            break ;
        }
        i = i + 1;
    }
    count
}

/// 2 is the first prime, so the count of primes up to 2 is exactly 1.
pub proof fn lemma_prime_count_two()
    ensures
        spec_prime_count(2) == 1,
{
    assert(spec_is_prime(2));
    assert(spec_prime_count(1) == 0);
}

} // verus!
