use vstd::prelude::*;
use vstd::arithmetic::power::pow;
use vstd::arithmetic::div_mod::lemma_fundamental_div_mod_converse;
use web3::types::U256;

verus! {

/// The value of one 64-bit word.
pub open spec fn word_base() -> nat {
    0x1_0000_0000_0000_0000nat
}

/// The largest token amount, `2^256 - 1`.
pub open spec fn token_max() -> nat {
    0xffff_ffff_ffff_ffff_ffff_ffff_ffff_ffff_ffff_ffff_ffff_ffff_ffff_ffff_ffff_ffffnat
}

/// An unsigned 256-bit token amount, held as four 64-bit words, least
/// significant first. Every combination of words is a valid amount.
#[derive(Clone, Copy, Debug, PartialEq, Eq, Structural)]
pub struct TokenAmount {
    pub w0: u64,
    pub w1: u64,
    pub w2: u64,
    pub w3: u64,
}

impl TokenAmount {
    /// The number this amount stands for.
    pub open spec fn value(self) -> nat {
        self.w0 as nat + word_base() * (self.w1 as nat + word_base() * (self.w2 as nat
            + word_base() * self.w3 as nat))
    }

    /// The amount whose value is `v` (for `v` up to the largest amount).
    pub open spec fn from_value(v: nat) -> TokenAmount {
        TokenAmount {
            w0: (v % word_base()) as u64,
            w1: (v / word_base() % word_base()) as u64,
            w2: (v / word_base() / word_base() % word_base()) as u64,
            w3: (v / word_base() / word_base() / word_base()) as u64,
        }
    }

    /// An amount is determined by its value.
    pub proof fn lemma_from_value(self)
        ensures
            TokenAmount::from_value(self.value()) == self,
    {
        let b = word_base() as int;
        let x3 = self.w3 as int;
        let x2 = self.w2 as int + b * x3;
        let x1 = self.w1 as int + b * x2;
        let x0 = self.w0 as int + b * x1;
        assert(x0 == self.value());
        lemma_fundamental_div_mod_converse(x0, b, x1, self.w0 as int);
        lemma_fundamental_div_mod_converse(x1, b, x2, self.w1 as int);
        lemma_fundamental_div_mod_converse(x2, b, x3, self.w2 as int);
    }

    /// Builds an amount from its words, least significant first.
    pub fn from_words(w0: u64, w1: u64, w2: u64, w3: u64) -> (r: TokenAmount)
        ensures
            r.value() == w0 + word_base() * (w1 + word_base() * (w2 + word_base() * w3)),
    {
        TokenAmount { w0, w1, w2, w3 }
    }

    pub fn zero() -> (r: TokenAmount)
        ensures
            r.value() == 0,
    {
        TokenAmount { w0: 0, w1: 0, w2: 0, w3: 0 }
    }

    pub fn from_u64(n: u64) -> (r: TokenAmount)
        ensures
            r.value() == n,
    {
        TokenAmount { w0: n, w1: 0, w2: 0, w3: 0 }
    }

    pub fn from_usize(n: usize) -> (r: TokenAmount)
        ensures
            r.value() == n,
    {
        TokenAmount { w0: n as u64, w1: 0, w2: 0, w3: 0 }
    }

    pub fn from_u128(n: u128) -> (r: TokenAmount)
        ensures
            r.value() == n,
    {
        let lo = (n % 0x1_0000_0000_0000_0000u128) as u64;
        let hi = (n / 0x1_0000_0000_0000_0000u128) as u64;
        TokenAmount { w0: lo, w1: hi, w2: 0, w3: 0 }
    }

    /// The largest token amount.
    pub fn max_value() -> (r: TokenAmount)
        ensures
            r.value() == token_max(),
    {
        TokenAmount { w0: u64::MAX, w1: u64::MAX, w2: u64::MAX, w3: u64::MAX }
    }
}

/// Relies on U256::checked_add: the exact sum, or None when it exceeds 2^256 - 1.
#[verifier::external_body]
pub(crate) fn u256_checked_add(a: TokenAmount, b: TokenAmount) -> (r: Option<TokenAmount>)
    ensures
        match r {
            Some(s) => a.value() + b.value() <= token_max() && s.value() == a.value() + b.value(),
            None => a.value() + b.value() > token_max(),
        },
{
    match U256([a.w0, a.w1, a.w2, a.w3]).checked_add(U256([b.w0, b.w1, b.w2, b.w3])) {
        Some(s) => Some(TokenAmount { w0: s.0[0], w1: s.0[1], w2: s.0[2], w3: s.0[3] }),
        None => None,
    }
}

/// Relies on U256::checked_sub: the exact difference, or None when it would go below zero.
#[verifier::external_body]
pub(crate) fn u256_checked_sub(a: TokenAmount, b: TokenAmount) -> (r: Option<TokenAmount>)
    ensures
        match r {
            Some(d) => b.value() <= a.value() && d.value() == a.value() - b.value(),
            None => a.value() < b.value(),
        },
{
    match U256([a.w0, a.w1, a.w2, a.w3]).checked_sub(U256([b.w0, b.w1, b.w2, b.w3])) {
        Some(d) => Some(TokenAmount { w0: d.0[0], w1: d.0[1], w2: d.0[2], w3: d.0[3] }),
        None => None,
    }
}

/// Relies on U256::checked_mul: the exact product, or None when it exceeds 2^256 - 1.
#[verifier::external_body]
pub(crate) fn u256_checked_mul(a: TokenAmount, b: TokenAmount) -> (r: Option<TokenAmount>)
    ensures
        match r {
            Some(p) => a.value() * b.value() <= token_max() && p.value() == a.value() * b.value(),
            None => a.value() * b.value() > token_max(),
        },
{
    match U256([a.w0, a.w1, a.w2, a.w3]).checked_mul(U256([b.w0, b.w1, b.w2, b.w3])) {
        Some(p) => Some(TokenAmount { w0: p.0[0], w1: p.0[1], w2: p.0[2], w3: p.0[3] }),
        None => None,
    }
}

/// Relies on U256::checked_pow: `base` raised to `exponent` exactly, or None when
/// that exceeds 2^256 - 1. The exponent is widened with U256's `From<usize>`.
#[verifier::external_body]
pub(crate) fn u256_checked_pow(base: TokenAmount, exponent: usize) -> (r: Option<TokenAmount>)
    ensures
        match r {
            Some(p) => pow(base.value() as int, exponent as nat) <= token_max() && p.value() == pow(
                base.value() as int,
                exponent as nat,
            ),
            None => pow(base.value() as int, exponent as nat) > token_max(),
        },
{
    match U256([base.w0, base.w1, base.w2, base.w3]).checked_pow(U256::from(exponent)) {
        Some(p) => Some(TokenAmount { w0: p.0[0], w1: p.0[1], w2: p.0[2], w3: p.0[3] }),
        None => None,
    }
}

} // verus!
