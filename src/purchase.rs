use vstd::prelude::*;

use crate::amount::{token_max, u256_checked_add, u256_checked_sub, TokenAmount};
use crate::clock::get_valid_timestamp;
use crate::curve::{curve_value, integral, CurveParams};
use crate::error::PurchaseError;
use crate::ledger::{mint, mint_outcome};

verus! {

/// How long a submitted swap stays valid: five minutes.
pub const SWAP_WINDOW_MILLIS: u128 = 300000;

/// A request to buy `desired_amount` tokens priced on `curve`. The accounts
/// and contract addresses involved are configuration held by the caller.
#[derive(Clone, Copy, Debug, PartialEq, Eq, Structural)]
pub struct PurchaseRequest {
    pub desired_amount: TokenAmount,
    pub curve: CurveParams,
}

/// The supply after a purchase and what it costs on the curve.
#[derive(Clone, Copy, Debug, PartialEq, Eq, Structural)]
pub struct Quote {
    pub new_supply: TokenAmount,
    pub cost: TokenAmount,
}

/// Where a purchase stands.
#[derive(Clone, Copy, Debug, PartialEq, Eq, Structural)]
pub enum PurchaseState {
    /// Not started.
    Idle,
    /// Waiting for the total supply.
    ReadingSupply,
    /// The swap was requested; `supply` is the snapshot it was priced on.
    Swapping { supply: TokenAmount, quote: Quote },
    /// The swap went through; waiting for the balance the mint is checked against.
    ReadingBalance { supply: TokenAmount, quote: Quote },
    /// The mint was validated.
    Done { balance: TokenAmount, supply: TokenAmount, cost: TokenAmount },
    /// The purchase was aborted.
    Failed { error: PurchaseError },
}

/// What the ledger gateway reported.
#[derive(Clone, Copy, Debug, PartialEq, Eq, Structural)]
pub enum PurchaseEvent {
    Start,
    SupplyRead { supply: TokenAmount },
    SwapSent,
    BalanceRead { balance: TokenAmount },
    GatewayFailed,
}

/// What the caller is asked to do next against the ledger gateway.
#[derive(Clone, Copy, Debug, PartialEq, Eq, Structural)]
pub enum PurchaseAction {
    ReadSupply,
    /// Swap native currency for `amount` base tokens, valid until `deadline`.
    Swap { amount: TokenAmount, deadline: u128 },
    ReadBalance,
    /// Record the validated balance and supply.
    Finish { balance: TokenAmount, supply: TokenAmount, cost: TokenAmount },
    Abort { error: PurchaseError },
    Wait,
}

/// The quote for buying `desired` tokens at supply `supply`, by value.
pub open spec fn quote_spec(supply: nat, desired: nat, curve: CurveParams) -> Result<
    Quote,
    PurchaseError,
> {
    if supply + desired > token_max() {
        Err(PurchaseError::Overflow)
    } else {
        let before = curve_value(supply, curve.exponent as nat, curve.slope as nat);
        let after = curve_value((supply + desired) as nat, curve.exponent as nat, curve.slope as nat);
        if after < before {
            Err(PurchaseError::Underflow)
        } else {
            Ok(
                Quote {
                    new_supply: TokenAmount::from_value((supply + desired) as nat),
                    cost: TokenAmount::from_value((after - before) as nat),
                },
            )
        }
    }
}

/// Prices a purchase at the given supply snapshot: the new supply is
/// `supply + desired_amount` (`Overflow` where it does not fit), and the cost
/// is `integral(new_supply) - integral(supply)` (`Underflow` where the curve's
/// saturation makes that negative).
pub fn quote(supply: TokenAmount, request: &PurchaseRequest) -> (r: Result<Quote, PurchaseError>)
    ensures
        r == quote_spec(supply.value(), request.desired_amount.value(), request.curve),
{
    let new_supply = match u256_checked_add(supply, request.desired_amount) {
        Some(s) => s,
        None => return Err(PurchaseError::Overflow),
    };
    let before = integral(supply, request.curve.exponent, request.curve.slope);
    let after = integral(new_supply, request.curve.exponent, request.curve.slope);
    let cost = match u256_checked_sub(after, before) {
        Some(c) => c,
        None => return Err(PurchaseError::Underflow),
    };
    proof {
        new_supply.lemma_from_value();
        cost.lemma_from_value();
    }
    Ok(Quote { new_supply, cost })
}

/// The abort that a failure leads to.
pub open spec fn aborted(error: PurchaseError) -> (PurchaseState, PurchaseAction) {
    (PurchaseState::Failed { error }, PurchaseAction::Abort { error })
}

/// The next state and action of a purchase, given the event that came in and
/// the deadline that the clock gave (read only on the supply).
pub open spec fn next_spec(
    request: PurchaseRequest,
    state: PurchaseState,
    event: PurchaseEvent,
    deadline: Result<u128, PurchaseError>,
) -> (PurchaseState, PurchaseAction) {
    match state {
        PurchaseState::Idle => match event {
            PurchaseEvent::Start => (PurchaseState::ReadingSupply, PurchaseAction::ReadSupply),
            _ => (state, PurchaseAction::Wait),
        },
        PurchaseState::ReadingSupply => match event {
            PurchaseEvent::SupplyRead { supply } => match quote_spec(
                supply.value(),
                request.desired_amount.value(),
                request.curve,
            ) {
                Err(e) => aborted(e),
                Ok(quote) => match deadline {
                    Ok(t) => (
                        PurchaseState::Swapping { supply, quote },
                        PurchaseAction::Swap { amount: request.desired_amount, deadline: t },
                    ),
                    Err(e) => aborted(e),
                },
            },
            PurchaseEvent::GatewayFailed => aborted(PurchaseError::ExternalQueryFailure),
            _ => (state, PurchaseAction::Wait),
        },
        PurchaseState::Swapping { supply, quote } => match event {
            PurchaseEvent::SwapSent => (
                PurchaseState::ReadingBalance { supply, quote },
                PurchaseAction::ReadBalance,
            ),
            PurchaseEvent::GatewayFailed => aborted(PurchaseError::ExternalQueryFailure),
            _ => (state, PurchaseAction::Wait),
        },
        PurchaseState::ReadingBalance { supply, quote } => match event {
            PurchaseEvent::BalanceRead { balance } => match mint_outcome(
                balance.value(),
                supply.value(),
                request.desired_amount.value(),
            ) {
                Ok((b, s)) => (
                    PurchaseState::Done { balance: b, supply: s, cost: quote.cost },
                    PurchaseAction::Finish { balance: b, supply: s, cost: quote.cost },
                ),
                Err(e) => aborted(e),
            },
            PurchaseEvent::GatewayFailed => aborted(PurchaseError::ExternalQueryFailure),
            _ => (state, PurchaseAction::Wait),
        },
        _ => (state, PurchaseAction::Wait),
    }
}

/// Moves a purchase on by one event, with the deadline taken as given.
pub fn advance(
    request: &PurchaseRequest,
    state: PurchaseState,
    event: PurchaseEvent,
    deadline: Result<u128, PurchaseError>,
) -> (r: (PurchaseState, PurchaseAction))
    ensures
        r == next_spec(*request, state, event, deadline),
{
    match state {
        PurchaseState::Idle => match event {
            PurchaseEvent::Start => (PurchaseState::ReadingSupply, PurchaseAction::ReadSupply),
            _ => (state, PurchaseAction::Wait),
        },
        PurchaseState::ReadingSupply => match event {
            PurchaseEvent::SupplyRead { supply } => match quote(supply, request) {
                Err(e) => (PurchaseState::Failed { error: e }, PurchaseAction::Abort { error: e }),
                Ok(q) => match deadline {
                    Ok(t) => (
                        PurchaseState::Swapping { supply, quote: q },
                        PurchaseAction::Swap { amount: request.desired_amount, deadline: t },
                    ),
                    Err(e) => (
                        PurchaseState::Failed { error: e },
                        PurchaseAction::Abort { error: e },
                    ),
                },
            },
            PurchaseEvent::GatewayFailed => (
                PurchaseState::Failed { error: PurchaseError::ExternalQueryFailure },
                PurchaseAction::Abort { error: PurchaseError::ExternalQueryFailure },
            ),
            _ => (state, PurchaseAction::Wait),
        },
        PurchaseState::Swapping { supply, quote } => match event {
            PurchaseEvent::SwapSent => (
                PurchaseState::ReadingBalance { supply, quote },
                PurchaseAction::ReadBalance,
            ),
            PurchaseEvent::GatewayFailed => (
                PurchaseState::Failed { error: PurchaseError::ExternalQueryFailure },
                PurchaseAction::Abort { error: PurchaseError::ExternalQueryFailure },
            ),
            _ => (state, PurchaseAction::Wait),
        },
        PurchaseState::ReadingBalance { supply, quote } => match event {
            PurchaseEvent::BalanceRead { balance } => match mint(
                balance,
                supply,
                request.desired_amount,
            ) {
                Ok((b, s)) => (
                    PurchaseState::Done { balance: b, supply: s, cost: quote.cost },
                    PurchaseAction::Finish { balance: b, supply: s, cost: quote.cost },
                ),
                Err(e) => (PurchaseState::Failed { error: e }, PurchaseAction::Abort { error: e }),
            },
            PurchaseEvent::GatewayFailed => (
                PurchaseState::Failed { error: PurchaseError::ExternalQueryFailure },
                PurchaseAction::Abort { error: PurchaseError::ExternalQueryFailure },
            ),
            _ => (state, PurchaseAction::Wait),
        },
        _ => (state, PurchaseAction::Wait),
    }
}

/// The deadlines the clock can give for a swap window: at least the window
/// itself, or `TimeOverflow`.
pub open spec fn possible_deadline(deadline: Result<u128, PurchaseError>) -> bool {
    match deadline {
        Ok(t) => t >= SWAP_WINDOW_MILLIS,
        Err(e) => e == PurchaseError::TimeOverflow,
    }
}

/// Moves a purchase on by one event. Once the supply is read, the swap
/// deadline is taken from the clock, `SWAP_WINDOW_MILLIS` from now.
pub fn step(request: &PurchaseRequest, state: PurchaseState, event: PurchaseEvent) -> (r: (
    PurchaseState,
    PurchaseAction,
))
    ensures
        exists|d: Result<u128, PurchaseError>|
            possible_deadline(d) && r == next_spec(*request, state, event, d),
{
    let deadline = match (state, event) {
        (PurchaseState::ReadingSupply, PurchaseEvent::SupplyRead { .. }) => get_valid_timestamp(
            SWAP_WINDOW_MILLIS,
        ),
        _ => Err(PurchaseError::TimeOverflow),
    };
    let r = advance(request, state, event, deadline);
    assert(possible_deadline(deadline) && r == next_spec(*request, state, event, deadline));
    r
}

/// The actions a purchase asks for over a run of events, where the clock
/// gives `deadlines[i]` at the `i`-th event.
pub open spec fn actions_of(
    request: PurchaseRequest,
    state: PurchaseState,
    events: Seq<PurchaseEvent>,
    deadlines: Seq<Result<u128, PurchaseError>>,
) -> Seq<PurchaseAction>
    decreases events.len(),
{
    if events.len() == 0 {
        Seq::empty()
    } else {
        let (next, action) = next_spec(request, state, events[0], deadlines[0]);
        seq![action] + actions_of(request, next, events.drop_first(), deadlines.drop_first())
    }
}

/// An action that swaps currency or records a mint.
pub open spec fn commits(action: PurchaseAction) -> bool {
    action is Swap || action is Finish
}

/// An aborted purchase stays aborted and asks for nothing more: whatever
/// comes in, it never swaps or mints.
pub proof fn lemma_failed_is_final(
    request: PurchaseRequest,
    error: PurchaseError,
    events: Seq<PurchaseEvent>,
    deadlines: Seq<Result<u128, PurchaseError>>,
)
    ensures
        forall|i: int|
            0 <= i < events.len() ==> actions_of(
                request,
                PurchaseState::Failed { error },
                events,
                deadlines,
            )[i] == PurchaseAction::Wait,
        actions_of(request, PurchaseState::Failed { error }, events, deadlines).len()
            == events.len(),
    decreases events.len(),
{
    if events.len() > 0 {
        lemma_failed_is_final(request, error, events.drop_first(), deadlines.drop_first());
        let rest = actions_of(
            request,
            PurchaseState::Failed { error },
            events.drop_first(),
            deadlines.drop_first(),
        );
        assert forall|i: int| 0 <= i < events.len() implies actions_of(
            request,
            PurchaseState::Failed { error },
            events,
            deadlines,
        )[i] == PurchaseAction::Wait by {
            if i > 0 {
                assert(rest[i - 1] == PurchaseAction::Wait);
            }
        }
    }
}

/// Where reading the supply fails, the purchase aborts with
/// `ExternalQueryFailure`, and no event after that makes it swap or mint.
pub proof fn lemma_supply_failure_aborts(
    request: PurchaseRequest,
    later: Seq<PurchaseEvent>,
    deadlines: Seq<Result<u128, PurchaseError>>,
)
    ensures
        ({
            let run = actions_of(
                request,
                PurchaseState::ReadingSupply,
                seq![PurchaseEvent::GatewayFailed] + later,
                deadlines,
            );
            &&& run.len() == later.len() + 1
            &&& run[0] == PurchaseAction::Abort { error: PurchaseError::ExternalQueryFailure }
            &&& forall|i: int| 0 <= i < run.len() ==> !commits(#[trigger] run[i])
        }),
{
    let events = seq![PurchaseEvent::GatewayFailed] + later;
    let error = PurchaseError::ExternalQueryFailure;
    assert(events.drop_first() =~= later);
    assert(events[0] == PurchaseEvent::GatewayFailed);
    lemma_failed_is_final(request, error, later, deadlines.drop_first());
    let rest = actions_of(request, PurchaseState::Failed { error }, later, deadlines.drop_first());
    let run = actions_of(request, PurchaseState::ReadingSupply, events, deadlines);
    assert(run == seq![PurchaseAction::Abort { error }] + rest);
    assert forall|i: int| 0 <= i < run.len() implies !commits(#[trigger] run[i]) by {
        if i > 0 {
            assert(rest[i - 1] == PurchaseAction::Wait);
        }
    }
}

} // verus!
