//! Requests accepted by the engine, the outbound commands it produces, and
//! the query responses it returns.
//!
//! The transport encoding is out of scope: the boundary layer hands the
//! engine plain values and performs the [`Effect`] commands it returns.

use vstd::prelude::*;

verus! {

/// An amount of a single fungible-value unit.
#[derive(Debug, Clone, PartialEq, Eq)]
pub struct Coin {
    pub denom: String,
    pub amount: u128,
}

/// The caller of an operation together with the funds attached to the call.
#[derive(Debug, Clone)]
pub struct MessageInfo {
    pub sender: String,
    pub funds: Vec<Coin>,
}

/// Configuration given once, at instantiation.
#[derive(Debug, Clone)]
pub struct InitMsg {
    pub name: String,
    pub denom: String,
    pub fee_receive_address: String,
    pub platform_fee: u128,
}

/// The payload of a deposit notification: the price the depositor asks.
#[derive(Debug, Clone, PartialEq, Eq)]
pub struct SellNft {
    pub list_price: u128,
}

/// A deposit notification from a custody contract.  The operation's caller is
/// the custody (collection) contract itself; `sender` is the address that
/// held the item before deposit and so becomes the seller.
#[derive(Debug, Clone, PartialEq, Eq)]
pub struct NftReceiveMsg {
    pub sender: String,
    pub token_id: String,
    pub msg: SellNft,
}

/// The state-mutating operations, one variant per request kind.
#[derive(Debug, Clone)]
pub enum ExecuteMsg {
    ReceiveNft(NftReceiveMsg),
    BuyNft { offering_id: String },
    WithdrawNft { offering_id: String },
    UpdateListingPrice { offering_id: String, new_price: u128 },
    UpdateFeeReceiverAddress { new_address: String },
    UpdatePlatformFee { new_fee: u128 },
    ForceWithdrawAll {},
}

/// The read-only queries.
#[derive(Debug, Clone)]
pub enum QueryMsg {
    GetContractInfo {},
    GetOfferings { filter_seller: Option<String> },
    GetCollectionVolume { address: String },
}

/// An outbound command for the host environment: move funds or move an item.
/// All commands of one operation form a single atomic unit with the state
/// change; the host must apply all of them or none.
#[derive(Debug, Clone, PartialEq, Eq)]
pub enum Effect {
    /// Instruct the ledger to pay `amount` of `denom` to `to_address`.
    Disburse { to_address: String, amount: u128, denom: String },
    /// Instruct the custody contract `contract_addr` to hand the item
    /// `token_id` over to `to_address`.
    TransferOut { contract_addr: String, token_id: String, to_address: String },
}

/// The configuration, as a query answer.
#[derive(Debug, Clone, PartialEq, Eq)]
pub struct ContractInfoResponse {
    pub name: String,
    pub denom: String,
    pub fee_receive_address: String,
    pub platform_fee: u128,
}

/// The offerings matching a query, in creation order.
#[derive(Debug, Clone, PartialEq, Eq)]
pub struct OfferingsResponse {
    pub offerings: Vec<crate::state::Offering>,
}

/// The cumulative sale volume of one collection.
#[derive(Debug, Clone, PartialEq, Eq)]
pub struct CollectionVolumeResponse {
    pub total_volume: u128,
}

/// The answer to a query, one variant per query kind.
#[derive(Debug, Clone)]
pub enum QueryResponse {
    ContractInfo(ContractInfoResponse),
    Offerings(OfferingsResponse),
    CollectionVolume(CollectionVolumeResponse),
}

} // verus!
