//! The primality test for a single unsigned 64-bit integer.

use vstd::arithmetic::div_mod::{lemma_fundamental_div_mod, lemma_mod_multiples_basic};
use vstd::arithmetic::mul::{lemma_mul_is_associative, lemma_mul_is_commutative};
use vstd::prelude::*;

verus! {

/// `d` divides `n` without remainder.
pub open spec fn divides(d: int, n: int) -> bool
    recommends
        d != 0,
{
    n % d == 0
}

/// `n` is a prime number: it is at least 2 and no number strictly between 1
/// and `n` divides it. In particular 0 and 1 are not prime.
pub open spec fn is_prime(n: int) -> bool {
    &&& n >= 2
    &&& forall|d: int| 2 <= d < n ==> !#[trigger] divides(d, n)
}

/// `root` is the integer square root of `n`: the largest number whose square
/// does not exceed `n`.
pub open spec fn is_integer_sqrt(root: int, n: int) -> bool {
    &&& 0 <= root
    &&& root * root <= n
    &&& n < (root + 1) * (root + 1)
}

/// Divisibility is transitive: a divisor of a divisor of `n` divides `n`.
pub proof fn lemma_divides_transitive(k: int, d: int, n: int)
    requires
        k > 0,
        d > 0,
        divides(k, d),
        divides(d, n),
    ensures
        divides(k, n),
{
    let a: int = d / k;
    let b: int = n / d;
    lemma_fundamental_div_mod(d, k);
    lemma_fundamental_div_mod(n, d);
    assert(n == (b * a) * k) by {
        lemma_mul_is_associative(k, a, b);
        lemma_mul_is_commutative(k, a * b);
        lemma_mul_is_commutative(a, b);
    }
    lemma_mod_multiples_basic(b * a, k);
}

/// A proper divisor `d` of `n` comes with a cofactor `n / d`, which is a
/// proper divisor of `n` as well.
pub proof fn lemma_cofactor(d: int, n: int)
    requires
        2 <= d < n,
        divides(d, n),
    ensures
        d * (n / d) == n,
        2 <= n / d < n,
        divides(n / d, n),
{
    let q: int = n / d;
    lemma_fundamental_div_mod(n, d);
    assert(2 <= q < n) by (nonlinear_arith)
        requires
            2 <= d < n,
            d * q == n,
    ;
    lemma_mul_is_commutative(d, q);
    lemma_mod_multiples_basic(d, q);
}

/// Trial division may stop at the square root: a number with no divisor
/// between 2 and its integer square root has no proper divisor at all.
pub proof fn lemma_no_small_divisor_is_prime(n: int, root: int)
    requires
        n >= 2,
        is_integer_sqrt(root, n),
        forall|d: int| 2 <= d <= root ==> !#[trigger] divides(d, n),
    ensures
        is_prime(n),
{
    assert forall|d: int| 2 <= d < n implies !#[trigger] divides(d, n) by {
        if divides(d, n) {
            let q: int = n / d;
            lemma_cofactor(d, n);
            assert(q <= root) by (nonlinear_arith)
                requires
                    d > root,
                    root >= 0,
                    d * q == n,
                    n < (root + 1) * (root + 1),
            ;
            assert(divides(q, n));
        }
    }
}

/// The integer square root of `n`, found by bisection in whole numbers, so
/// that it is exact at perfect squares and next to them.
pub fn integer_sqrt(n: u64) -> (root: u64)
    ensures
        is_integer_sqrt(root as int, n as int),
        root <= 0xffff_ffff,
{
    let mut low: u64 = 0;
    let mut high: u64 = 0x1_0000_0000;
    assert(n < high * high) by (nonlinear_arith)
        requires
            high == 0x1_0000_0000,
            n <= u64::MAX,
    ;
    while high - low > 1
        invariant
            low < high <= 0x1_0000_0000,
            low * low <= n < high * high,
        decreases high - low,
    {
        let mid: u64 = low + (high - low) / 2;
        assert(mid * mid <= 0xffff_ffff * 0xffff_ffff) by (nonlinear_arith)
            requires
                0 <= mid <= 0xffff_ffff,
        ;
        if mid * mid <= n {
            low = mid;
        } else {
            high = mid;
        }
    }
    low
}

/// Whether `n` is prime; 0 and 1 are not.
///
/// Trial division: after 2 and 3, the candidates are `i` and `i + 2` for
/// `i` = 5, 11, 17, ... as long as `i` does not exceed the integer square
/// root of `n`, so that the root of a perfect square is itself tried.
pub fn is_prime_scalar(n: u64) -> (prime: bool)
    ensures
        prime == is_prime(n as int),
{
    if n == 0 || n == 1 {
        return false;
    }
    if n == 2 || n == 3 {
        return true;
    }
    if n % 2 == 0 || n % 3 == 0 {
        assert(divides(2, n as int) || divides(3, n as int));
        return false;
    }
    let root: u64 = integer_sqrt(n);
    let limit: u64 = root + 1;
    assert(!divides(4, n as int));
    let mut i: u64 = 5;
    while i < limit
        invariant
            n >= 5,
            limit == root + 1,
            is_integer_sqrt(root as int, n as int),
            root <= 0xffff_ffff,
            5 <= i <= limit + 5,
            i % 6 == 5,
            !divides(2, n as int),
            !divides(3, n as int),
            forall|d: int| 2 <= d < i ==> !#[trigger] divides(d, n as int),
        decreases limit + 5 - i,
    {
        assert(i + 2 < n) by (nonlinear_arith)
            requires
                5 <= i <= root,
                root * root <= n,
        ;
        if n % i == 0 || n % (i + 2) == 0 {
            assert(divides(i as int, n as int) || divides(i + 2, n as int));
            return false;
        }
        proof {
            assert forall|d: int| 2 <= d < i + 6 implies !#[trigger] divides(d, n as int) by {
                if d >= i && divides(d, n as int) {
                    if d == i + 4 {
                        lemma_divides_transitive(3, d, n as int);
                    } else {
                        lemma_divides_transitive(2, d, n as int);
                    }
                }
            }
        }
        i += 6;
    }
    proof {
        lemma_no_small_divisor_is_prime(n as int, root as int);
    }
    true
}

/// The primality test depends on its argument and on nothing else: two runs
/// on the same number return the same answer.
pub proof fn lemma_is_prime_scalar_deterministic(n: u64, first: bool, second: bool)
    requires
        call_ensures(is_prime_scalar, (n,), first),
        call_ensures(is_prime_scalar, (n,), second),
    ensures
        first == second,
{
}

} // verus!
