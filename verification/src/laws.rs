//! Laws of the settlement engine: properties that hold across operations,
//! stated over the same `*_post` predicates that the operations' own
//! contracts use.

use crate::contract::{
    buy_post, fee_amount, force_withdraw_post, is_disburse, receive_post, seller_amount,
    update_fee_receiver_post, update_platform_fee_post, update_price_post, withdraw_post,
};
use crate::decimal::{dec_of, lemma_dec_val_of};
use crate::error::ContractError;
use crate::msg::{Coin, Effect, ExecuteMsg};
use crate::state::{
    filter_offs, has_id, id_val, idx_of, lemma_id_unique, off_of, vol_of, Marketplace,
};
use vstd::prelude::*;

verus! {

/// Every sale splits the price exactly: the seller's share and the platform
/// fee add up to the list price, and the only rounding is the floor division
/// assigned to the fee.
pub proof fn lemma_fee_split(price: u128, pct: u128)
    requires
        pct <= 100,
    ensures
        seller_amount(price, pct) + fee_amount(price, pct) == price,
        0 <= fee_amount(price, pct) <= price,
        fee_amount(price, pct) == (price * pct) / 100,
{
    let p = price as int;
    let f = pct as int;
    assert(0 <= p * f) by (nonlinear_arith)
        requires
            0 <= p,
            0 <= f,
    ;
    assert(p * f <= p * 100) by (nonlinear_arith)
        requires
            0 <= p,
            0 <= f,
            f <= 100,
    ;
    vstd::arithmetic::div_mod::lemma_div_is_ordered(0, p * f, 100);
    vstd::arithmetic::div_mod::lemma_div_is_ordered(p * f, p * 100, 100);
    vstd::arithmetic::div_mod::lemma_div_by_multiple(p, 100);
}

/// Identifiers are issued strictly increasing: a successful listing gets the
/// id after the counter, strictly above the id of every offering already
/// present (so an id is never reused, even after deletions).
pub proof fn lemma_issued_id_strictly_increases(
    pre: Marketplace,
    post: Marketplace,
    collection: Seq<char>,
    owner: Seq<char>,
    token_id: Seq<char>,
    list_price: u128,
    r: Result<Vec<Effect>, ContractError>,
)
    requires
        pre.wf(),
        receive_post(pre, post, collection, owner, token_id, list_price, r),
        r is Ok,
    ensures
        id_val(post.offerings@.last()) == pre.num_offerings + 1,
        forall|k: int|
            0 <= k < pre.offerings@.len() ==> id_val(#[trigger] pre.offerings@[k]) < id_val(
                post.offerings@.last(),
            ),
{
    lemma_dec_val_of((pre.num_offerings + 1) as nat);
    assert forall|k: int| 0 <= k < pre.offerings@.len() implies id_val(
        #[trigger] pre.offerings@[k],
    ) < id_val(post.offerings@.last()) by {
        assert(pre.offerings@[k].wf_entry(pre.num_offerings));
    }
}

/// A failed operation changes nothing: whenever any operation returns an
/// error, the state after the call is exactly the state before it.  In
/// particular a failed listing does not consume an identifier.
pub proof fn lemma_failure_changes_nothing(
    pre: Marketplace,
    post: Marketplace,
    sender: Seq<char>,
    funds: Seq<Coin>,
    msg: ExecuteMsg,
    r: Result<Vec<Effect>, ContractError>,
)
    requires
        match msg {
            ExecuteMsg::ReceiveNft(rcv) => receive_post(
                pre,
                post,
                sender,
                rcv.sender@,
                rcv.token_id@,
                rcv.msg.list_price,
                r,
            ),
            ExecuteMsg::BuyNft { offering_id } => buy_post(
                pre,
                post,
                sender,
                funds,
                offering_id@,
                r,
            ),
            ExecuteMsg::WithdrawNft { offering_id } => withdraw_post(
                pre,
                post,
                sender,
                offering_id@,
                r,
            ),
            ExecuteMsg::UpdateListingPrice { offering_id, new_price } => update_price_post(
                pre,
                post,
                sender,
                offering_id@,
                new_price,
                r,
            ),
            ExecuteMsg::UpdateFeeReceiverAddress { new_address } => update_fee_receiver_post(
                pre,
                post,
                sender,
                new_address@,
                r,
            ),
            ExecuteMsg::UpdatePlatformFee { new_fee } => update_platform_fee_post(
                pre,
                post,
                sender,
                new_fee,
                r,
            ),
            ExecuteMsg::ForceWithdrawAll {  } => force_withdraw_post(pre, post, sender, r),
        },
        r is Err,
    ensures
        post == pre,
{
}

/// Every successful buy settles exactly: the seller's share and the platform
/// fee disbursed by the commands add up to the list price, with the floor
/// division's remainder credited to the seller.
pub proof fn lemma_buy_pays_out_list_price(
    pre: Marketplace,
    post: Marketplace,
    sender: Seq<char>,
    funds: Seq<Coin>,
    id: Seq<char>,
    r: Result<Vec<Effect>, ContractError>,
)
    requires
        pre.wf(),
        buy_post(pre, post, sender, funds, id, r),
        r is Ok,
    ensures
        r matches Ok(effects) && {
            let o = off_of(pre.offerings@, id);
            let fee = fee_amount(o.list_price, pre.info.platform_fee);
            let pay = seller_amount(o.list_price, pre.info.platform_fee);
            &&& pay + fee == o.list_price
            &&& 0 <= fee <= o.list_price
            &&& is_disburse(effects@[0], o.seller@, pay, pre.info.denom@)
            &&& fee > 0 ==> is_disburse(
                effects@[1],
                pre.info.fee_receive_address@,
                fee,
                pre.info.denom@,
            )
        },
{
    let o = off_of(pre.offerings@, id);
    lemma_fee_split(o.list_price, pre.info.platform_fee);
}

/// Queries are pure: their answers are functions of the state alone, so two
/// queries of an unchanged state answer alike.  (That queries cannot mutate
/// the state at all is enforced by their signatures: they borrow the state
/// immutably.)
pub proof fn lemma_queries_deterministic(
    s1: Marketplace,
    s2: Marketplace,
    filter_seller: Option<String>,
    address: Seq<char>,
)
    requires
        s1 == s2,
    ensures
        filter_offs(s1.offerings@, filter_seller) == filter_offs(s2.offerings@, filter_seller),
        vol_of(s1.volumes@, address) == vol_of(s2.volumes@, address),
{
}

/// Listing an item and then withdrawing it returns the contract to the
/// offering set it had before the listing; the configuration and the volume
/// counters are untouched, and only the id counter has moved on (it never
/// rewinds).
pub proof fn lemma_list_withdraw_round_trip(
    pre: Marketplace,
    mid: Marketplace,
    post: Marketplace,
    collection: Seq<char>,
    owner: Seq<char>,
    token_id: Seq<char>,
    list_price: u128,
    r1: Result<Vec<Effect>, ContractError>,
    r2: Result<Vec<Effect>, ContractError>,
)
    requires
        pre.wf(),
        mid.wf(),
        receive_post(pre, mid, collection, owner, token_id, list_price, r1),
        r1 is Ok,
        withdraw_post(mid, post, owner, dec_of((pre.num_offerings + 1) as nat), r2),
    ensures
        r2 is Ok,
        post.offerings@ == pre.offerings@,
        post.volumes@ == pre.volumes@,
        post.info == pre.info,
        post.num_offerings == pre.num_offerings + 1,
{
    let q = dec_of((pre.num_offerings + 1) as nat);
    let n = mid.offerings@.len();
    assert(mid.offerings@[n - 1].offering_id@ == q);
    assert(has_id(mid.offerings@, q));
    let j = idx_of(mid.offerings@, q);
    assert(0 <= j < n && mid.offerings@[j].offering_id@ == q);
    lemma_id_unique(mid, j, n - 1);
    assert(mid.offerings@[j].seller@ == owner);
    assert(post.offerings@ == mid.offerings@.remove(n - 1));
    assert(post.offerings@ =~= pre.offerings@) by {
        assert(mid.offerings@.drop_last() == pre.offerings@);
        assert(mid.offerings@.remove(n - 1) =~= mid.offerings@.drop_last());
    }
}

} // verus!
