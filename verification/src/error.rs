//! The error taxonomy of the settlement engine.
//!
//! Every error aborts the whole operation: the engine's contracts state that
//! on an `Err` result the state is exactly what it was before the call.

use vstd::prelude::*;

verus! {

#[derive(Clone, Copy, Debug, PartialEq, Eq, Structural)]
pub enum ContractError {
    /// The caller is not the required principal: the seller for withdraw and
    /// reprice, the fee recipient for administrative operations.
    Unauthorized {},
    /// A list or reprice amount lies below the minimum listing-price floor.
    InvalidListingPrice {},
    /// A requested platform fee percentage exceeds 100.
    PlatformFeeToHigh {},
    /// The referenced offering id does not exist.
    OfferingNotFound {},
    /// The buyer is the offering's own seller.
    UnableToPurchaseMarketplaceItemYouSold {},
    /// The attached payment does not equal the list price exactly; an
    /// overpayment is rejected the same way as an underpayment.
    InsufficientFundsSend { needed: u128, received: u128 },
}

} // verus!
