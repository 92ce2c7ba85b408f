use bonding_curve::{
    advance, step, CurveParams, PurchaseAction, PurchaseError, PurchaseEvent, PurchaseRequest,
    PurchaseState, Quote, TokenAmount, SWAP_WINDOW_MILLIS,
};

fn amt(n: u64) -> TokenAmount {
    TokenAmount::from_u64(n)
}

fn linear_request() -> PurchaseRequest {
    PurchaseRequest { desired_amount: amt(173), curve: CurveParams { exponent: 0, slope: 1 } }
}

#[test]
fn supply_read_failure_aborts_without_swap_or_mint() {
    let req = linear_request();
    let (s, a) = step(&req, PurchaseState::Idle, PurchaseEvent::Start);
    assert_eq!((s, a), (PurchaseState::ReadingSupply, PurchaseAction::ReadSupply));
    let (s, a) = step(&req, s, PurchaseEvent::GatewayFailed);
    let failed = PurchaseState::Failed { error: PurchaseError::ExternalQueryFailure };
    assert_eq!(s, failed);
    assert_eq!(a, PurchaseAction::Abort { error: PurchaseError::ExternalQueryFailure });
    let later = [
        PurchaseEvent::SupplyRead { supply: amt(1000) },
        PurchaseEvent::SwapSent,
        PurchaseEvent::BalanceRead { balance: amt(5) },
        PurchaseEvent::Start,
    ];
    for e in later {
        assert_eq!(step(&req, s, e), (failed, PurchaseAction::Wait));
    }
}

#[test]
fn full_purchase_with_given_deadline() {
    let req = linear_request();
    let (s, _) = advance(&req, PurchaseState::Idle, PurchaseEvent::Start, Ok(0));
    let (s, a) = advance(&req, s, PurchaseEvent::SupplyRead { supply: amt(1000) }, Ok(42));
    let q = Quote { new_supply: amt(1173), cost: amt(173) };
    assert_eq!(s, PurchaseState::Swapping { supply: amt(1000), quote: q });
    assert_eq!(a, PurchaseAction::Swap { amount: amt(173), deadline: 42 });
    let (s, a) = advance(&req, s, PurchaseEvent::SwapSent, Ok(0));
    assert_eq!(s, PurchaseState::ReadingBalance { supply: amt(1000), quote: q });
    assert_eq!(a, PurchaseAction::ReadBalance);
    let (s, a) = advance(&req, s, PurchaseEvent::BalanceRead { balance: amt(500) }, Ok(0));
    assert_eq!(s, PurchaseState::Done { balance: amt(673), supply: amt(1173), cost: amt(173) });
    assert_eq!(a, PurchaseAction::Finish { balance: amt(673), supply: amt(1173), cost: amt(173) });
}

#[test]
fn step_takes_deadline_from_clock() {
    let req = linear_request();
    let (s, a) = step(&req, PurchaseState::ReadingSupply, PurchaseEvent::SupplyRead { supply: amt(1000) });
    match (s, a) {
        (PurchaseState::Swapping { .. }, PurchaseAction::Swap { amount, deadline }) => {
            assert_eq!(amount, amt(173));
            assert!(deadline > SWAP_WINDOW_MILLIS);
        },
        other => panic!("unexpected {:?}", other),
    }
}

#[test]
fn deadline_failure_aborts_before_swap() {
    let req = linear_request();
    let r = advance(
        &req,
        PurchaseState::ReadingSupply,
        PurchaseEvent::SupplyRead { supply: amt(1000) },
        Err(PurchaseError::TimeOverflow),
    );
    assert_eq!(
        r,
        (
            PurchaseState::Failed { error: PurchaseError::TimeOverflow },
            PurchaseAction::Abort { error: PurchaseError::TimeOverflow }
        )
    );
}

#[test]
fn supply_overflow_aborts_before_swap() {
    let req = linear_request();
    let r = advance(
        &req,
        PurchaseState::ReadingSupply,
        PurchaseEvent::SupplyRead { supply: TokenAmount::max_value() },
        Ok(42),
    );
    assert_eq!(
        r,
        (
            PurchaseState::Failed { error: PurchaseError::Overflow },
            PurchaseAction::Abort { error: PurchaseError::Overflow }
        )
    );
}

#[test]
fn swap_failure_aborts_before_mint() {
    let req = linear_request();
    let q = Quote { new_supply: amt(1173), cost: amt(173) };
    let r = advance(&req, PurchaseState::Swapping { supply: amt(1000), quote: q }, PurchaseEvent::GatewayFailed, Ok(0));
    assert_eq!(r.0, PurchaseState::Failed { error: PurchaseError::ExternalQueryFailure });
}

#[test]
fn mint_overflow_on_balance_aborts() {
    let req = linear_request();
    let q = Quote { new_supply: amt(1173), cost: amt(173) };
    let r = advance(
        &req,
        PurchaseState::ReadingBalance { supply: amt(1000), quote: q },
        PurchaseEvent::BalanceRead { balance: TokenAmount::max_value() },
        Ok(0),
    );
    assert_eq!(r.1, PurchaseAction::Abort { error: PurchaseError::Overflow });
}

#[test]
fn unexpected_event_is_ignored() {
    let req = linear_request();
    let r = advance(&req, PurchaseState::Idle, PurchaseEvent::SwapSent, Ok(0));
    assert_eq!(r, (PurchaseState::Idle, PurchaseAction::Wait));
}
