//! Integer helpers shared by the protocol: Rust's truncating signed
//! division as a specification, and the basis-point scale.
use vstd::prelude::*;

verus! {

/// Rust's truncating division (rounds toward zero) on mathematical integers.
pub open spec fn tdiv(x: int, d: int) -> int {
    if d == 0 {
        0
    } else if x == 0 {
        0
    } else if x > 0 && d > 0 {
        x / d
    } else if x < 0 && d < 0 {
        (-x) / (-d)
    } else if x < 0 {
        -((-x) / d)
    } else {
        -(x / (-d))
    }
}

/// Does `v` fit an `i128`?
pub open spec fn fits_i128(v: int) -> bool {
    i128::MIN <= v <= i128::MAX
}

/// Truncating division of two `i128` values.
pub fn div_trunc(a: i128, b: i128) -> (r: i128)
    requires
        b != 0,
        fits_i128(tdiv(a as int, b as int)),
    ensures
        r == tdiv(a as int, b as int),
{
    let q = a.checked_div(b);
    match q {
        Some(v) => v,
        None => { 0 },
    }
}

} // verus!
