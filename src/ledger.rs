use vstd::prelude::*;

use crate::amount::{token_max, u256_checked_add, u256_checked_sub, TokenAmount};
use crate::error::PurchaseError;

verus! {

/// What `mint` returns for a balance, a supply and an amount, by value.
pub open spec fn mint_outcome(balance: nat, supply: nat, amount: nat) -> Result<
    (TokenAmount, TokenAmount),
    PurchaseError,
> {
    if balance + amount > token_max() || supply + amount > token_max() {
        Err(PurchaseError::Overflow)
    } else {
        Ok(
            (
                TokenAmount::from_value((balance + amount) as nat),
                TokenAmount::from_value((supply + amount) as nat),
            ),
        )
    }
}

/// Validates minting `amount` tokens to an account against a snapshot of its
/// `balance` and of the total `supply`, and returns the incremented pair
/// `(balance', supply')`. Fails with `Overflow` where either sum exceeds the
/// largest token amount.
pub fn mint(balance: TokenAmount, supply: TokenAmount, amount: TokenAmount) -> (r: Result<
    (TokenAmount, TokenAmount),
    PurchaseError,
>)
    ensures
        r is Err <==> (balance.value() + amount.value() > token_max() || supply.value()
            + amount.value() > token_max()),
        r is Err ==> r->Err_0 == PurchaseError::Overflow,
        r is Ok ==> r->Ok_0.0.value() == balance.value() + amount.value() && r->Ok_0.1.value()
            == supply.value() + amount.value(),
        r == mint_outcome(balance.value(), supply.value(), amount.value()),
{
    let new_balance = match u256_checked_add(balance, amount) {
        Some(b) => b,
        None => return Err(PurchaseError::Overflow),
    };
    let new_supply = match u256_checked_add(supply, amount) {
        Some(s) => s,
        None => return Err(PurchaseError::Overflow),
    };
    proof {
        new_balance.lemma_from_value();
        new_supply.lemma_from_value();
    }
    Ok((new_balance, new_supply))
}

/// Validates burning `amount` tokens from an account against a snapshot of
/// its `balance` and of the total `supply`, and returns the decremented pair
/// `(balance', supply')`. Fails with `Underflow` where either is below `amount`.
pub fn burn(balance: TokenAmount, supply: TokenAmount, amount: TokenAmount) -> (r: Result<
    (TokenAmount, TokenAmount),
    PurchaseError,
>)
    ensures
        r is Err <==> (balance.value() < amount.value() || supply.value() < amount.value()),
        r is Err ==> r->Err_0 == PurchaseError::Underflow,
        r is Ok ==> r->Ok_0.0.value() == balance.value() - amount.value() && r->Ok_0.1.value()
            == supply.value() - amount.value(),
{
    let new_balance = match u256_checked_sub(balance, amount) {
        Some(b) => b,
        None => return Err(PurchaseError::Underflow),
    };
    let new_supply = match u256_checked_sub(supply, amount) {
        Some(s) => s,
        None => return Err(PurchaseError::Underflow),
    };
    Ok((new_balance, new_supply))
}

} // verus!
