//! The algebraic identities, exercised on concrete values.

use complex::laws::diff_of_squares_quotient;
use complex::laws::diff_of_squares_quotient_elementwise;
use complex::laws::squares_difference_quotient;
use complex::Complex;
use complex::ComplexPair;
use complex::Number;
use complex::W64;

fn w(x: u64) -> W64 {
    W64::new(x)
}

fn nw(x: u64) -> W64 {
    W64::new(x).neg()
}

fn c(re: W64, im: W64) -> ComplexPair<W64> {
    ComplexPair::new(re, im)
}

#[test]
fn diff_of_squares_scalar() {
    // (10 + 3) * (10 - 3) / 7 == (100 - 9) / 7 == 13.
    assert_eq!(diff_of_squares_quotient(w(10), w(3), w(7)), w(13));
    assert_eq!(
        diff_of_squares_quotient(w(10), w(3), w(7)),
        squares_difference_quotient(w(10), w(3), w(7))
    );
}

#[test]
fn diff_of_squares_complex() {
    let a = c(w(3), w(5));
    let b = c(w(2), w(1));
    let d = c(w(1), w(0));
    let lhs = diff_of_squares_quotient(a, b, d);
    let rhs = squares_difference_quotient(a, b, d);
    assert_eq!(lhs, rhs);
    assert_eq!(lhs, c(nw(19), w(26)));
}

#[test]
fn diff_of_squares_wraps() {
    // The identity holds across the wrap-around of the scalar range too.
    let a = c(w(u64::MAX), w(5));
    let b = c(w(2), w(u64::MAX - 7));
    let d = c(w(3), w(11));
    assert_eq!(
        diff_of_squares_quotient(a, b, d),
        squares_difference_quotient(a, b, d)
    );
}

#[test]
fn diff_of_squares_elementwise() {
    let a = vec![c(w(3), w(5)), c(w(10), w(0)), c(w(u64::MAX), w(1))];
    let b = vec![c(w(2), w(1)), c(w(3), w(0)), c(w(4), w(9))];
    let d = vec![c(w(1), w(0)), c(w(7), w(0)), c(w(2), w(2))];
    let all = diff_of_squares_quotient_elementwise(&a, &b, &d);
    assert_eq!(all.len(), 3);
    for i in 0..3 {
        assert_eq!(all[i], diff_of_squares_quotient(a[i], b[i], d[i]));
        assert_eq!(all[i], squares_difference_quotient(a[i], b[i], d[i]));
    }
}

#[test]
fn neg_is_mul_negative_one() {
    let samples = vec![
        c(w(0), w(0)),
        c(w(42), w(69)),
        c(w(u64::MAX), w(1)),
        c(nw(7), w(u64::MAX - 2)),
    ];
    for x in samples {
        assert_eq!(x.neg(), x.mul_real(nw(1)));
    }
}

#[test]
fn conj_matches_components() {
    let x = c(w(5), nw(7));
    assert_eq!(x.conj(), c(w(5), w(7)));
}

#[test]
fn conj_involution() {
    let samples = vec![c(w(0), w(0)), c(w(5), nw(7)), c(w(u64::MAX), w(u64::MAX))];
    for x in samples {
        assert_eq!(x.conj().conj(), x);
    }
}

#[test]
fn mutation_changes_only_one_component() {
    let mut x = c(w(1), w(2));
    *x.re_mut() = w(100);
    assert_eq!(x, c(w(100), w(2)));
    *x.im_mut() = w(200);
    assert_eq!(x, c(w(100), w(200)));
}

#[test]
fn add_wraps() {
    assert_eq!(w(u64::MAX).add(w(1)), w(0));
    assert_eq!(w(0).sub(w(1)), w(u64::MAX));
    assert_eq!(c(w(u64::MAX), w(5)).add(c(w(1), w(0))), c(w(0), w(5)));
}
