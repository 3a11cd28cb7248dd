use arrow_prime::{integer_sqrt, is_prime_scalar};

fn has_no_proper_divisor(n: u64) -> bool {
    n >= 2 && (2..n).all(|d| n % d != 0)
}

#[test]
fn zero_and_one_are_not_prime() {
    assert!(!is_prime_scalar(0));
    assert!(!is_prime_scalar(1));
}

#[test]
fn small_primes_are_prime() {
    for n in [2u64, 3, 5, 7, 11, 13, 17, 19, 23, 97] {
        assert!(is_prime_scalar(n), "{} is prime", n);
    }
}

#[test]
fn small_composites_are_not_prime() {
    for n in [4u64, 6, 8, 9, 10, 25, 49, 100] {
        assert!(!is_prime_scalar(n), "{} is not prime", n);
    }
}

#[test]
fn squares_of_primes_are_not_prime() {
    assert!(!is_prime_scalar(25));
    assert!(!is_prime_scalar(49));
    for p in [5u64, 7, 11, 13, 17, 19, 23, 29, 31, 101, 103, 65_521, 1_000_003] {
        assert!(is_prime_scalar(p), "{} is prime", p);
        assert!(!is_prime_scalar(p * p), "{} squared is not prime", p);
    }
}

#[test]
fn neighbours_of_squares() {
    // 24, 25, 26 and 120, 121, 122 are all composite; 167 and 173 are the
    // primes on either side of 13 * 13.
    for n in [24u64, 25, 26, 120, 121, 122, 168, 169, 170] {
        assert!(!is_prime_scalar(n), "{} is not prime", n);
    }
    assert!(is_prime_scalar(167));
    assert!(is_prime_scalar(173));
}

#[test]
fn products_of_two_large_factors_are_not_prime() {
    assert!(!is_prime_scalar(65_521 * 65_537));
    assert!(!is_prime_scalar(1_000_003 * 1_000_033));
    assert!(!is_prime_scalar(5 * 1_000_003));
    assert!(!is_prime_scalar(7 * 1_000_003));
}

#[test]
fn primes_around_the_32_bit_boundary() {
    assert!(is_prime_scalar(4_294_967_291));
    assert!(is_prime_scalar(4_294_967_311));
    assert!(!is_prime_scalar(4_294_967_295));
    assert!(!is_prime_scalar(4_294_967_296));
    assert!(!is_prime_scalar(4_294_967_297));
}

#[test]
fn the_largest_u64_is_not_prime() {
    assert!(!is_prime_scalar(u64::MAX));
    assert!(!is_prime_scalar(u64::MAX - 1));
}

#[test]
fn agrees_with_the_definition_below_three_thousand() {
    for n in 0u64..3000 {
        assert_eq!(is_prime_scalar(n), has_no_proper_divisor(n), "at {}", n);
    }
}

#[test]
fn there_are_168_primes_below_one_thousand() {
    let count = (0u64..1000).filter(|n| is_prime_scalar(*n)).count();
    assert_eq!(count, 168);
}

#[test]
fn repeated_calls_give_the_same_answer() {
    for n in [0u64, 1, 2, 25, 97, 1_000_003, u64::MAX] {
        assert_eq!(is_prime_scalar(n), is_prime_scalar(n));
    }
}

#[test]
fn integer_sqrt_of_small_numbers() {
    let expected = [0u64, 1, 1, 1, 2, 2, 2, 2, 2, 3, 3, 3, 3, 3, 3, 3, 4, 4];
    for (n, root) in expected.iter().enumerate() {
        assert_eq!(integer_sqrt(n as u64), *root, "at {}", n);
    }
}

#[test]
fn integer_sqrt_at_perfect_squares() {
    for root in [5u64, 7, 11, 1000, 65_535, 65_536, 1_000_003, 4_294_967_295] {
        let square = root * root;
        assert_eq!(integer_sqrt(square), root);
        assert_eq!(integer_sqrt(square - 1), root - 1);
        assert_eq!(integer_sqrt(square + 1), root);
    }
}

#[test]
fn integer_sqrt_of_the_largest_u64() {
    assert_eq!(integer_sqrt(u64::MAX), 4_294_967_295);
}

#[test]
fn integer_sqrt_brackets_its_argument() {
    for n in (0u64..200_000).step_by(37) {
        let root = integer_sqrt(n);
        assert!(root * root <= n);
        assert!(n < (root + 1) * (root + 1));
    }
}
