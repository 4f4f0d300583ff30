//! The operator set on 64-bit pairs, case by case.

use complex::Complex;
use complex::ComplexPair;
use complex::Number;
use complex::W64;

fn w(x: u64) -> W64 {
    W64::new(x)
}

fn nw(x: u64) -> W64 {
    W64::new(x).neg()
}

fn c(re: W64, im: W64) -> ComplexPair<W64> {
    ComplexPair::new(re, im)
}

#[test]
fn re_mut() {
    let mut number = c(w(69), w(0));
    *number.re_mut() = w(42);
    assert_eq!(number, c(w(42), w(0)));
}

#[test]
fn im_mut() {
    let mut number = c(w(0), w(69));
    *number.im_mut() = w(42);
    assert_eq!(number, c(w(0), w(42)));
}

#[test]
fn conj() {
    assert_eq!(c(w(42), w(69)).conj(), c(w(42), nw(69)));
}

#[test]
fn add() {
    assert_eq!(c(nw(4), w(7)).add(c(w(5), nw(10))), c(w(1), nw(3)));
    assert_eq!(c(nw(4), w(7)).add_real(w(5)), c(w(1), w(7)));
    assert_eq!(ComplexPair::real_add(w(5), c(nw(4), w(7))), c(w(1), w(7)));
}

#[test]
fn mul() {
    assert_eq!(c(w(4), w(1)).mul(c(w(2), w(3))), c(w(5), w(14)));
    assert_eq!(c(w(4), w(1)).mul_real(w(2)), c(w(8), w(2)));
    assert_eq!(ComplexPair::real_mul(w(2), c(w(4), w(1))), c(w(8), w(2)));
}

#[test]
fn neg() {
    assert_eq!(c(w(42), w(69)).neg(), c(w(42), w(69)).mul_real(nw(1)));
}

#[test]
fn sub() {
    assert_eq!(c(w(4), w(12)).sub(c(w(3), nw(15))), c(w(1), w(27)));
    assert_eq!(c(w(4), w(12)).sub_real(w(3)), c(w(1), w(12)));
    assert_eq!(ComplexPair::real_sub(w(3), c(w(4), w(12))), c(nw(1), nw(12)));
}

#[test]
fn div_exact() {
    // (-8 + 25i) is (3 + 2i) times (2 + 7i), so the quotient is exact.
    assert_eq!(c(nw(8), w(25)).div(c(w(2), w(7))), c(w(3), w(2)));
}

#[test]
fn div_real_exact() {
    assert_eq!(c(w(8), w(6)).div_real(w(2)), c(w(4), w(3)));
}

#[test]
fn real_div_exact() {
    // 8 / (2 + 0i): the squared magnitude is 4, so both components divide out.
    assert_eq!(ComplexPair::real_div(w(8), c(w(2), w(0))), c(w(4), w(0)));
}

#[test]
fn div_by_zero_denominator() {
    // The scalar defines division by zero to yield zero, so a zero squared
    // magnitude gives zero components rather than a panic.
    assert_eq!(c(w(1), w(2)).div(c(w(0), w(0))), c(w(0), w(0)));
    assert_eq!(w(5).div(w(0)), w(0));
}

#[test]
fn equals_componentwise() {
    assert!(c(w(1), w(2)).equals(&c(w(1), w(2))));
    assert!(!c(w(1), w(2)).equals(&c(w(1), w(3))));
    assert!(!c(w(1), w(2)).equals(&c(w(3), w(2))));
}

#[test]
fn accessors() {
    let number = c(w(11), w(13));
    assert_eq!(number.re(), w(11));
    assert_eq!(number.im(), w(13));
}

#[test]
fn size_of() {
    assert_eq!(
        std::mem::size_of::<ComplexPair<W64>>(),
        2 * std::mem::size_of::<W64>()
    );
    assert_eq!(
        std::mem::size_of::<[ComplexPair<W64>; 42]>(),
        std::mem::size_of::<[W64; 2 * 42]>()
    );
}
