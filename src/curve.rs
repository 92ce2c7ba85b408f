use vstd::arithmetic::power::{lemma_pow_positive, pow};
use vstd::prelude::*;

use crate::amount::{token_max, u256_checked_mul, u256_checked_pow, TokenAmount};

verus! {

/// The parameters of the price function `price(s) = slope * s^exponent`.
#[derive(Clone, Copy, Debug, PartialEq, Eq, Structural)]
pub struct CurveParams {
    pub exponent: usize,
    pub slope: usize,
}

/// The cumulative issuance cost up to supply `x`: `slope * x^(exponent + 1)`,
/// or zero where `exponent + 1` leaves `usize` or the product exceeds the
/// largest token amount.
pub open spec fn curve_value(x: nat, exponent: nat, slope: nat) -> nat {
    if exponent + 1 > usize::MAX {
        0
    } else {
        let c = slope * pow(x as int, (exponent + 1) as nat);
        if c > token_max() {
            0
        } else {
            c as nat
        }
    }
}

proof fn lemma_pow_nonnegative(x: nat, e: nat)
    ensures
        pow(x as int, e) >= 0,
{
    if x > 0 {
        lemma_pow_positive(x as int, e);
    } else if e > 0 {
        reveal(pow);
        assert(pow(x as int, e) == 0);
    } else {
        reveal(pow);
    }
}

/// Cumulative cost of issuing supply up to `to_x` on the curve
/// `price(s) = slope * s^exponent`, that is `slope * to_x^(exponent + 1)`.
/// Where `exponent + 1` or that product overflows, the result is zero.
pub fn integral(to_x: TokenAmount, exponent: usize, slope: usize) -> (r: TokenAmount)
    ensures
        r.value() == curve_value(to_x.value(), exponent as nat, slope as nat),
        exponent < usize::MAX && slope * pow(to_x.value() as int, (exponent + 1) as nat)
            <= token_max() ==> r.value() == slope * pow(to_x.value() as int, (exponent + 1) as nat),
        exponent == usize::MAX ==> r.value() == 0,
        slope * pow(to_x.value() as int, (exponent + 1) as nat) > token_max() ==> r.value() == 0,
{
    if exponent == usize::MAX {
        return TokenAmount::zero();
    }
    let nexp: usize = exponent + 1;
    let ghost p = pow(to_x.value() as int, nexp as nat);
    proof {
        lemma_pow_nonnegative(to_x.value(), nexp as nat);
    }
    match u256_checked_pow(to_x, nexp) {
        Some(power) => match u256_checked_mul(power, TokenAmount::from_usize(slope)) {
            Some(c) => {
                assert(c.value() == slope * p) by (nonlinear_arith)
                    requires
                        c.value() == power.value() * slope,
                        power.value() == p,
                ;
                c
            },
            None => {
                assert(slope * p > token_max()) by (nonlinear_arith)
                    requires
                        power.value() * slope > token_max(),
                        power.value() == p,
                ;
                TokenAmount::zero()
            },
        },
        None => {
            assert(slope == 0 || slope * p > token_max()) by (nonlinear_arith)
                requires
                    p > token_max(),
                    slope >= 0,
            ;
            TokenAmount::zero()
        },
    }
}

} // verus!
