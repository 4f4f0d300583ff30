//! The same operator set at the 32-bit width.

use complex::Complex;
use complex::ComplexPair;
use complex::Number;
use complex::W32;

fn w(x: u32) -> W32 {
    W32::new(x)
}

fn nw(x: u32) -> W32 {
    W32::new(x).neg()
}

fn c(re: W32, im: W32) -> ComplexPair<W32> {
    ComplexPair::new(re, im)
}

#[test]
fn add_w32() {
    assert_eq!(c(nw(4), w(7)).add(c(w(5), nw(10))), c(w(1), nw(3)));
    assert_eq!(c(nw(4), w(7)).add_real(w(5)), c(w(1), w(7)));
    assert_eq!(ComplexPair::real_add(w(5), c(nw(4), w(7))), c(w(1), w(7)));
}

#[test]
fn mul_w32() {
    assert_eq!(c(w(4), w(1)).mul(c(w(2), w(3))), c(w(5), w(14)));
}

#[test]
fn sub_w32() {
    assert_eq!(c(w(4), w(12)).sub(c(w(3), nw(15))), c(w(1), w(27)));
    assert_eq!(ComplexPair::real_sub(w(3), c(w(4), w(12))), c(nw(1), nw(12)));
}

#[test]
fn conj_w32() {
    assert_eq!(c(w(42), w(69)).conj(), c(w(42), nw(69)));
}

#[test]
fn mutation_w32() {
    let mut number = c(w(69), w(7));
    *number.im_mut() = w(42);
    assert_eq!(number, c(w(69), w(42)));
}

#[test]
fn add_wraps_w32() {
    assert_eq!(w(u32::MAX).add(w(1)), w(0));
    assert_eq!(c(w(u32::MAX), w(5)).add(c(w(1), w(0))), c(w(0), w(5)));
}

#[test]
fn size_of_w32() {
    assert_eq!(
        std::mem::size_of::<ComplexPair<W32>>(),
        2 * std::mem::size_of::<W32>()
    );
    assert_eq!(
        std::mem::size_of::<[ComplexPair<W32>; 42]>(),
        std::mem::size_of::<[W32; 2 * 42]>()
    );
}
