//! Pricing and supply accounting for a token issued on a bonding curve, and
//! the decision logic that sequences a purchase against a ledger gateway.

mod amount;
mod clock;
mod curve;
mod error;
mod ledger;
mod purchase;

pub use amount::TokenAmount;
pub use clock::{deadline_from, get_valid_timestamp};
pub use curve::{integral, CurveParams};
pub use error::PurchaseError;
pub use ledger::{burn, mint, mint_outcome};
pub use purchase::{
    advance, quote, step, PurchaseAction, PurchaseEvent, PurchaseRequest, PurchaseState, Quote,
    SWAP_WINDOW_MILLIS,
};
