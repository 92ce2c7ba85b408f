use vstd::prelude::*;

verus! {

/// Why an operation of the library, or a purchase, was refused.
#[derive(Clone, Copy, Debug, PartialEq, Eq, Structural)]
pub enum PurchaseError {
    /// An addition would exceed the largest token amount.
    Overflow,
    /// A subtraction would go below zero.
    Underflow,
    /// A deadline does not fit in a millisecond timestamp.
    TimeOverflow,
    /// A call into the ledger gateway failed or returned malformed data.
    ExternalQueryFailure,
}

} // verus!
