//! The settlement engine: the offering lifecycle and every operation on it.
//!
//! Each operation takes the state by `&mut`, the caller with attached funds,
//! and plain request values; it returns the outbound commands to perform, or
//! an error, in which case the state is left exactly as it was.  The
//! postcondition of every operation is a `*_post` predicate relating the
//! state before, the state after and the result, so that properties of
//! operation sequences can be stated and proved over those predicates.

use crate::decimal::{dec_of, lemma_dec_val_of, u64_to_dec};
use crate::error::ContractError;
use crate::msg::{
    Coin, CollectionVolumeResponse, ContractInfoResponse, Effect, ExecuteMsg, InitMsg,
    MessageInfo, NftReceiveMsg, OfferingsResponse, QueryMsg, QueryResponse,
};
use crate::state::{
    filter_offs, has_id, id_val, idx_of, lemma_id_unique, lemma_vol_of_absent,
    lemma_vol_of_found, lemma_vol_of_push, lemma_vol_of_update, off_of, vol_of,
    CollectionVolume, ContractInfo, Marketplace, Offering, MIN_LIST_PRICE,
};
use vstd::prelude::*;

verus! {

/// The total attached payment in the given denomination: the sum of the
/// matching coins' amounts.
pub open spec fn sum_funds(funds: Seq<Coin>, denom: Seq<char>) -> int
    decreases funds.len(),
{
    if funds.len() == 0 {
        0
    } else {
        (if funds[0].denom@ == denom {
            funds[0].amount as int
        } else {
            0
        }) + sum_funds(funds.drop_first(), denom)
    }
}

/// An attached sum never goes below zero.
pub proof fn lemma_sum_funds_nonneg(funds: Seq<Coin>, denom: Seq<char>)
    ensures
        sum_funds(funds, denom) >= 0,
    decreases funds.len(),
{
    if funds.len() > 0 {
        lemma_sum_funds_nonneg(funds.drop_first(), denom);
    }
}

/// A value squeezed into the `u128` range from above.
pub open spec fn clamp_u128(x: int) -> int {
    if x > u128::MAX as int {
        u128::MAX as int
    } else {
        x
    }
}

/// Saturating addition on `u128` counters.
pub open spec fn sat_add_val(a: u128, b: u128) -> u128 {
    if a + b > u128::MAX as int {
        u128::MAX
    } else {
        (a + b) as u128
    }
}

/// The platform's cut of a sale: `floor(price * pct / 100)`.
pub open spec fn fee_amount(price: u128, pct: u128) -> int {
    (price * pct) / 100
}

/// The seller's share of a sale: the price minus the platform's cut.
pub open spec fn seller_amount(price: u128, pct: u128) -> int {
    price - fee_amount(price, pct)
}

/// `e` pays `amount` of `denom` to `to`.
pub open spec fn is_disburse(e: Effect, to: Seq<char>, amount: int, denom: Seq<char>) -> bool {
    e matches Effect::Disburse { to_address, amount: a, denom: d } && to_address@ == to && a
        == amount && d@ == denom
}

/// `e` hands the item `token` of collection `contract` over to `to`.
pub open spec fn is_transfer_out(e: Effect, contract: Seq<char>, token: Seq<char>, to: Seq<
    char,
>) -> bool {
    e matches Effect::TransferOut { contract_addr, token_id, to_address } && contract_addr@
        == contract && token_id@ == token && to_address@ == to
}

/// What a deposit notification does: rejects a price below the floor, else
/// appends a new offering under the next identifier and issues no commands.
pub open spec fn receive_post(
    pre: Marketplace,
    post: Marketplace,
    collection: Seq<char>,
    owner: Seq<char>,
    token_id: Seq<char>,
    list_price: u128,
    r: Result<Vec<Effect>, ContractError>,
) -> bool {
    if list_price < MIN_LIST_PRICE {
        r matches Err(ContractError::InvalidListingPrice {  }) && post == pre
    } else {
        &&& r matches Ok(effects) && effects@.len() == 0
        &&& post.num_offerings == pre.num_offerings + 1
        &&& post.offerings@.len() == pre.offerings@.len() + 1
        &&& post.offerings@.drop_last() == pre.offerings@
        &&& post.offerings@.last().offering_id@ == dec_of((pre.num_offerings + 1) as nat)
        &&& post.offerings@.last().contract_addr@ == collection
        &&& post.offerings@.last().token_id@ == token_id
        &&& post.offerings@.last().seller@ == owner
        &&& post.offerings@.last().list_price == list_price
        &&& post.volumes@ == pre.volumes@
        &&& post.info == pre.info
    }
}

/// What a buy does: validates the offering, the buyer and the exact payment,
/// then atomically disburses the fee split, orders the custody transfer,
/// deletes the offering and accumulates the collection's volume.
pub open spec fn buy_post(
    pre: Marketplace,
    post: Marketplace,
    sender: Seq<char>,
    funds: Seq<Coin>,
    id: Seq<char>,
    r: Result<Vec<Effect>, ContractError>,
) -> bool {
    if !has_id(pre.offerings@, id) {
        r matches Err(ContractError::OfferingNotFound {  }) && post == pre
    } else {
        let o = off_of(pre.offerings@, id);
        let paid = sum_funds(funds, pre.info.denom@);
        if sender == o.seller@ {
            r matches Err(ContractError::UnableToPurchaseMarketplaceItemYouSold {  }) && post
                == pre
        } else if paid != o.list_price {
            &&& r matches Err(ContractError::InsufficientFundsSend { needed, received })
                && needed == o.list_price && received as int == clamp_u128(paid)
            &&& post == pre
        } else {
            &&& post.offerings@ == pre.offerings@.remove(idx_of(pre.offerings@, id))
            &&& post.num_offerings == pre.num_offerings
            &&& post.info == pre.info
            &&& vol_of(post.volumes@, o.contract_addr@) == sat_add_val(
                vol_of(pre.volumes@, o.contract_addr@),
                o.list_price,
            )
            &&& forall|a: Seq<char>|
                a != o.contract_addr@ ==> vol_of(post.volumes@, a) == vol_of(pre.volumes@, a)
            &&& r matches Ok(effects) && buy_effects(effects@, o, sender, pre.info)
        }
    }
}

/// The commands of a completed sale: the seller's share, the platform fee
/// (omitted when zero), and the custody transfer to the buyer, in that order.
pub open spec fn buy_effects(
    effects: Seq<Effect>,
    o: Offering,
    buyer: Seq<char>,
    info: ContractInfo,
) -> bool {
    let fee = fee_amount(o.list_price, info.platform_fee);
    let pay = seller_amount(o.list_price, info.platform_fee);
    if fee > 0 {
        &&& effects.len() == 3
        &&& is_disburse(effects[0], o.seller@, pay, info.denom@)
        &&& is_disburse(effects[1], info.fee_receive_address@, fee, info.denom@)
        &&& is_transfer_out(effects[2], o.contract_addr@, o.token_id@, buyer)
    } else {
        &&& effects.len() == 2
        &&& is_disburse(effects[0], o.seller@, pay, info.denom@)
        &&& is_transfer_out(effects[1], o.contract_addr@, o.token_id@, buyer)
    }
}

/// What a withdraw does: only the seller may reclaim the item; the offering
/// is deleted and the item returned, and no payment moves.
pub open spec fn withdraw_post(
    pre: Marketplace,
    post: Marketplace,
    sender: Seq<char>,
    id: Seq<char>,
    r: Result<Vec<Effect>, ContractError>,
) -> bool {
    if !has_id(pre.offerings@, id) {
        r matches Err(ContractError::OfferingNotFound {  }) && post == pre
    } else {
        let o = off_of(pre.offerings@, id);
        if sender != o.seller@ {
            r matches Err(ContractError::Unauthorized {  }) && post == pre
        } else {
            &&& post.offerings@ == pre.offerings@.remove(idx_of(pre.offerings@, id))
            &&& post.num_offerings == pre.num_offerings
            &&& post.info == pre.info
            &&& post.volumes@ == pre.volumes@
            &&& r matches Ok(effects) && effects@.len() == 1 && is_transfer_out(
                effects@[0],
                o.contract_addr@,
                o.token_id@,
                o.seller@,
            )
        }
    }
}

/// What a reprice does: only the seller may change the price, the new price
/// must meet the floor, and every other field of every offering is kept.
pub open spec fn update_price_post(
    pre: Marketplace,
    post: Marketplace,
    sender: Seq<char>,
    id: Seq<char>,
    new_price: u128,
    r: Result<Vec<Effect>, ContractError>,
) -> bool {
    if !has_id(pre.offerings@, id) {
        r matches Err(ContractError::OfferingNotFound {  }) && post == pre
    } else {
        let k = idx_of(pre.offerings@, id);
        let o = off_of(pre.offerings@, id);
        if sender != o.seller@ {
            r matches Err(ContractError::Unauthorized {  }) && post == pre
        } else if new_price < MIN_LIST_PRICE {
            r matches Err(ContractError::InvalidListingPrice {  }) && post == pre
        } else {
            &&& post.offerings@.len() == pre.offerings@.len()
            &&& forall|j: int|
                0 <= j < pre.offerings@.len() && j != k ==> post.offerings@[j]
                    == pre.offerings@[j]
            &&& post.offerings@[k].offering_id == o.offering_id
            &&& post.offerings@[k].contract_addr == o.contract_addr
            &&& post.offerings@[k].token_id == o.token_id
            &&& post.offerings@[k].seller == o.seller
            &&& post.offerings@[k].list_price == new_price
            &&& post.num_offerings == pre.num_offerings
            &&& post.info == pre.info
            &&& post.volumes@ == pre.volumes@
            &&& r matches Ok(effects) && effects@.len() == 0
        }
    }
}

/// What a fee-recipient change does: only the current fee recipient may
/// transfer the administrative role, unconditionally.
pub open spec fn update_fee_receiver_post(
    pre: Marketplace,
    post: Marketplace,
    sender: Seq<char>,
    new_address: Seq<char>,
    r: Result<Vec<Effect>, ContractError>,
) -> bool {
    if sender != pre.info.fee_receive_address@ {
        r matches Err(ContractError::Unauthorized {  }) && post == pre
    } else {
        &&& post.info.fee_receive_address@ == new_address
        &&& post.info.name == pre.info.name
        &&& post.info.denom == pre.info.denom
        &&& post.info.platform_fee == pre.info.platform_fee
        &&& post.offerings@ == pre.offerings@
        &&& post.volumes@ == pre.volumes@
        &&& post.num_offerings == pre.num_offerings
        &&& r matches Ok(effects) && effects@.len() == 0
    }
}

/// What a fee change does: authorization is checked before the value, and a
/// percentage above 100 is rejected; zero is permitted.
pub open spec fn update_platform_fee_post(
    pre: Marketplace,
    post: Marketplace,
    sender: Seq<char>,
    new_fee: u128,
    r: Result<Vec<Effect>, ContractError>,
) -> bool {
    if sender != pre.info.fee_receive_address@ {
        r matches Err(ContractError::Unauthorized {  }) && post == pre
    } else if new_fee > 100 {
        r matches Err(ContractError::PlatformFeeToHigh {  }) && post == pre
    } else {
        &&& post.info.platform_fee == new_fee
        &&& post.info.name == pre.info.name
        &&& post.info.denom == pre.info.denom
        &&& post.info.fee_receive_address == pre.info.fee_receive_address
        &&& post.offerings@ == pre.offerings@
        &&& post.volumes@ == pre.volumes@
        &&& post.num_offerings == pre.num_offerings
        &&& r matches Ok(effects) && effects@.len() == 0
    }
}

/// What the emergency unwind does: only the fee recipient may run it; every
/// offering is returned to its seller in creation order and the offering set
/// is cleared.  No payment moves and no volume changes.
pub open spec fn force_withdraw_post(
    pre: Marketplace,
    post: Marketplace,
    sender: Seq<char>,
    r: Result<Vec<Effect>, ContractError>,
) -> bool {
    if sender != pre.info.fee_receive_address@ {
        r matches Err(ContractError::Unauthorized {  }) && post == pre
    } else {
        &&& post.offerings@.len() == 0
        &&& post.num_offerings == pre.num_offerings
        &&& post.info == pre.info
        &&& post.volumes@ == pre.volumes@
        &&& r matches Ok(effects) && effects@.len() == pre.offerings@.len() && forall|i: int|
            0 <= i < pre.offerings@.len() ==> is_transfer_out(
                #[trigger] effects@[i],
                pre.offerings@[i].contract_addr@,
                pre.offerings@[i].token_id@,
                pre.offerings@[i].seller@,
            )
    }
}

/// Creates the contract state: the given configuration, no offerings, no
/// volume, and a counter that has issued no identifier yet.
pub fn instantiate(msg: InitMsg) -> (s: Marketplace)
    requires
        msg.platform_fee <= 100,
    ensures
        s.wf(),
        s.info.name == msg.name,
        s.info.denom == msg.denom,
        s.info.fee_receive_address == msg.fee_receive_address,
        s.info.platform_fee == msg.platform_fee,
        s.offerings@.len() == 0,
        s.volumes@.len() == 0,
        s.num_offerings == 0,
{
    Marketplace {
        info: ContractInfo {
            name: msg.name,
            denom: msg.denom,
            fee_receive_address: msg.fee_receive_address,
            platform_fee: msg.platform_fee,
        },
        offerings: Vec::new(),
        volumes: Vec::new(),
        num_offerings: 0,
    }
}

/// The index of the offering with the given identifier, if any.
fn find_offering(offerings: &Vec<Offering>, id: &String) -> (r: Option<usize>)
    ensures
        match r {
            Option::Some(i) => i < offerings@.len() && offerings@[i as int].offering_id@ == id@,
            Option::None => !has_id(offerings@, id@),
        },
{
    let n = offerings.len();
    let mut i: usize = 0;
    while i < n
        invariant
            n == offerings@.len(),
            i <= n,
            forall|j: int| 0 <= j < i ==> (#[trigger] offerings@[j]).offering_id@ != id@,
        decreases n - i,
    {
        if offerings[i].offering_id == *id {
            return Option::Some(i);
        }
        i = i + 1;
    }
    Option::None
}

/// The attached payment in the given denomination; `None` when the sum
/// exceeds the `u128` range.
fn attached_amount(funds: &Vec<Coin>, denom: &String) -> (r: Option<u128>)
    ensures
        match r {
            Option::Some(v) => v as int == sum_funds(funds@, denom@),
            Option::None => sum_funds(funds@, denom@) > u128::MAX as int,
        },
{
    let n = funds.len();
    let mut acc: u128 = 0;
    let mut i: usize = 0;
    proof {
        assert(funds@.skip(0) =~= funds@);
    }
    while i < n
        invariant
            n == funds@.len(),
            i <= n,
            acc as int + sum_funds(funds@.skip(i as int), denom@) == sum_funds(funds@, denom@),
        decreases n - i,
    {
        proof {
            assert(funds@.skip(i as int).drop_first() =~= funds@.skip(i as int + 1));
            assert(funds@.skip(i as int)[0] == funds@[i as int]);
            lemma_sum_funds_nonneg(funds@.skip(i as int + 1), denom@);
        }
        if funds[i].denom == *denom {
            let amount = funds[i].amount;
            if acc <= u128::MAX - amount {
                acc = acc + amount;
            } else {
                return Option::None;
            }
        }
        i = i + 1;
    }
    proof {
        assert(funds@.skip(n as int) =~= Seq::<Coin>::empty());
    }
    Option::Some(acc)
}

/// The platform's cut of a sale, computed without overflow: never more than
/// the price itself.
fn compute_fee(price: u128, pct: u128) -> (f: u128)
    requires
        pct <= 100,
    ensures
        f as int == fee_amount(price, pct),
        f <= price,
{
    let q = price / 100;
    let r = price % 100;
    proof {
        let p = price as int;
        let ff = pct as int;
        let qi = q as int;
        let ri = r as int;
        vstd::arithmetic::div_mod::lemma_fundamental_div_mod(p, 100);
        assert(qi * ff <= qi * 100) by (nonlinear_arith)
            requires
                ff <= 100,
                qi >= 0,
        ;
        assert(qi * 100 == 100 * qi);
        assert(qi * 100 <= p);
        assert(ri * ff <= 99 * 100) by (nonlinear_arith)
            requires
                0 <= ri,
                ri < 100,
                0 <= ff,
                ff <= 100,
        ;
    }
    let a = q * pct;
    let b = (r * pct) / 100;
    proof {
        let p = price as int;
        let ff = pct as int;
        let qi = q as int;
        let ri = r as int;
        assert(p * ff == (ri * ff) + (qi * ff) * 100) by (nonlinear_arith)
            requires
                p == 100 * qi + ri,
        ;
        vstd::arithmetic::div_mod::lemma_hoist_over_denominator(ri * ff, qi * ff, 100);
        assert((ri * ff) / 100 + qi * ff == (ri * ff + (qi * ff) * 100) / 100);
        assert(a as int + b as int == (p * ff) / 100);
        assert(ri * ff <= ri * 100) by (nonlinear_arith)
            requires
                0 <= ri,
                0 <= ff,
                ff <= 100,
        ;
        vstd::arithmetic::div_mod::lemma_div_is_ordered(ri * ff, ri * 100, 100);
        vstd::arithmetic::div_mod::lemma_div_by_multiple(ri, 100);
        assert((ri * ff) / 100 <= ri);
        assert(a as int + b as int <= p);
    }
    a + b
}

/// Accumulates a completed sale into the collection's volume counter,
/// saturating at the top of the `u128` range; other collections' counters
/// are untouched.
fn bump_volume(volumes: &mut Vec<CollectionVolume>, addr: &String, amount: u128)
    requires
        forall|i: int, j: int|
            0 <= i < j < old(volumes)@.len() ==> (#[trigger] old(volumes)@[i]).address@ != (
            #[trigger] old(volumes)@[j]).address@,
    ensures
        forall|i: int, j: int|
            0 <= i < j < final(volumes)@.len() ==> (#[trigger] final(volumes)@[i]).address@ != (
            #[trigger] final(volumes)@[j]).address@,
        vol_of(final(volumes)@, addr@) == sat_add_val(vol_of(old(volumes)@, addr@), amount),
        forall|a: Seq<char>|
            a != addr@ ==> vol_of(final(volumes)@, a) == vol_of(old(volumes)@, a),
{
    let n = volumes.len();
    let mut i: usize = 0;
    while i < n
        invariant
            n == volumes@.len(),
            i <= n,
            *volumes == *old(volumes),
            forall|a: int, b: int|
                0 <= a < b < volumes@.len() ==> (#[trigger] volumes@[a]).address@ != (
                #[trigger] volumes@[b]).address@,
            forall|j: int| 0 <= j < i ==> (#[trigger] volumes@[j]).address@ != addr@,
        decreases n - i,
    {
        if volumes[i].address == *addr {
            let cur = volumes[i].total_volume;
            let nv = if cur <= u128::MAX - amount {
                cur + amount
            } else {
                u128::MAX
            };
            let entry = CollectionVolume { address: volumes[i].address.clone(), total_volume: nv };
            proof {
                assert(entry == CollectionVolume {
                    address: volumes@[i as int].address,
                    total_volume: nv,
                });
                lemma_vol_of_found(volumes@, i as int);
                lemma_vol_of_update(volumes@, i as int, nv);
            }
            let ghost pre = volumes@;
            volumes.set(i, entry);
            proof {
                assert(volumes@ == pre.update(i as int, entry));
                assert forall|a: int, b: int| 0 <= a < b < volumes@.len() implies (
                #[trigger] volumes@[a]).address@ != (#[trigger] volumes@[b]).address@ by {
                    assert(pre[a].address@ != pre[b].address@);
                    assert(volumes@[a].address@ == pre[a].address@);
                    assert(volumes@[b].address@ == pre[b].address@);
                }
            }
            return ;
        }
        i = i + 1;
    }
    let entry = CollectionVolume { address: addr.clone(), total_volume: amount };
    proof {
        lemma_vol_of_absent(volumes@, addr@);
        lemma_vol_of_push(volumes@, entry);
    }
    volumes.push(entry);
}

/// Ordering and issuance bounds survive deleting one offering.
proof fn lemma_remove_keeps_wf(offs: Seq<Offering>, i: int, counter: u64)
    requires
        0 <= i < offs.len(),
        forall|k: int| 0 <= k < offs.len() ==> (#[trigger] offs[k]).wf_entry(counter),
        forall|k: int, l: int|
            0 <= k < l < offs.len() ==> id_val(#[trigger] offs[k]) < id_val(#[trigger] offs[l]),
    ensures
        forall|k: int| 0 <= k < offs.remove(i).len() ==> (#[trigger] offs.remove(i)[k]).wf_entry(
            counter,
        ),
        forall|k: int, l: int|
            0 <= k < l < offs.remove(i).len() ==> id_val(#[trigger] offs.remove(i)[k]) < id_val(
                #[trigger] offs.remove(i)[l],
            ),
{
    let rem = offs.remove(i);
    assert forall|k: int| 0 <= k < rem.len() implies (#[trigger] rem[k]).wf_entry(counter) by {
        if k < i {
            assert(rem[k] == offs[k]);
        } else {
            assert(rem[k] == offs[k + 1]);
        }
    }
    assert forall|k: int, l: int| 0 <= k < l < rem.len() implies id_val(#[trigger] rem[k])
        < id_val(#[trigger] rem[l]) by {
        let k0 = if k < i {
            k
        } else {
            k + 1
        };
        let l0 = if l < i {
            l
        } else {
            l + 1
        };
        assert(rem[k] == offs[k0]);
        assert(rem[l] == offs[l0]);
        assert(id_val(offs[k0]) < id_val(offs[l0]));
    }
}

/// Handles a deposit notification: creates the offering (see
/// [`receive_post`]).  The caller is the depositing custody contract and
/// names the collection; the notification names the original owner, who
/// becomes the seller.
pub fn receive_nft(state: &mut Marketplace, info: MessageInfo, rcv: NftReceiveMsg) -> (r: Result<
    Vec<Effect>,
    ContractError,
>)
    requires
        old(state).wf(),
        old(state).num_offerings < u64::MAX,
    ensures
        final(state).wf(),
        receive_post(
            *old(state),
            *final(state),
            info.sender@,
            rcv.sender@,
            rcv.token_id@,
            rcv.msg.list_price,
            r,
        ),
{
    if rcv.msg.list_price < MIN_LIST_PRICE {
        return Result::Err(ContractError::InvalidListingPrice {  });
    }
    let new_id = state.num_offerings + 1;
    let off = Offering {
        offering_id: u64_to_dec(new_id),
        contract_addr: info.sender,
        token_id: rcv.token_id,
        seller: rcv.sender,
        list_price: rcv.msg.list_price,
    };
    state.offerings.push(off);
    state.num_offerings = new_id;
    proof {
        lemma_dec_val_of(new_id as nat);
        let offs = state.offerings@;
        let n = offs.len();
        assert(offs.drop_last() =~= old(state).offerings@);
        assert(id_val(offs[n - 1]) == new_id);
        assert forall|k: int| 0 <= k < n implies (#[trigger] offs[k]).wf_entry(new_id) by {
            if k < n - 1 {
                assert(offs[k] == old(state).offerings@[k]);
                assert(offs[k].wf_entry(old(state).num_offerings));
            }
        }
        assert forall|k: int, l: int| 0 <= k < l < n implies id_val(#[trigger] offs[k]) < id_val(
            #[trigger] offs[l],
        ) by {
            if l < n - 1 {
                assert(offs[k] == old(state).offerings@[k]);
                assert(offs[l] == old(state).offerings@[l]);
            } else {
                assert(offs[k] == old(state).offerings@[k]);
                assert(offs[k].wf_entry(old(state).num_offerings));
                assert(id_val(offs[k]) <= old(state).num_offerings);
            }
        }
    }
    Result::Ok(Vec::new())
}

/// Settles a purchase (see [`buy_post`]): exact payment in, fee split and
/// custody transfer out, offering deleted and volume accumulated, all as one
/// atomic unit of work.
pub fn buy_nft(state: &mut Marketplace, info: MessageInfo, offering_id: String) -> (r: Result<
    Vec<Effect>,
    ContractError,
>)
    requires
        old(state).wf(),
    ensures
        final(state).wf(),
        buy_post(*old(state), *final(state), info.sender@, info.funds@, offering_id@, r),
{
    let i = match find_offering(&state.offerings, &offering_id) {
        Option::None => {
            return Result::Err(ContractError::OfferingNotFound {  });
        },
        Option::Some(i) => i,
    };
    proof {
        assert(has_id(state.offerings@, offering_id@));
        let j = idx_of(state.offerings@, offering_id@);
        assert(0 <= j < state.offerings@.len() && state.offerings@[j].offering_id@
            == offering_id@);
        lemma_id_unique(*state, i as int, j);
    }
    if state.offerings[i].seller == info.sender {
        return Result::Err(ContractError::UnableToPurchaseMarketplaceItemYouSold {  });
    }
    let list_price = state.offerings[i].list_price;
    let paid = attached_amount(&info.funds, &state.info.denom);
    let exact = match paid {
        Option::Some(v) => v == list_price,
        Option::None => false,
    };
    if !exact {
        proof {
            lemma_sum_funds_nonneg(info.funds@, state.info.denom@);
        }
        let received = match paid {
            Option::Some(v) => v,
            Option::None => u128::MAX,
        };
        return Result::Err(ContractError::InsufficientFundsSend {
            needed: list_price,
            received,
        });
    }
    let fee = compute_fee(list_price, state.info.platform_fee);
    let pay = list_price - fee;
    let mut effects: Vec<Effect> = Vec::new();
    effects.push(Effect::Disburse {
        to_address: state.offerings[i].seller.clone(),
        amount: pay,
        denom: state.info.denom.clone(),
    });
    if fee > 0 {
        effects.push(Effect::Disburse {
            to_address: state.info.fee_receive_address.clone(),
            amount: fee,
            denom: state.info.denom.clone(),
        });
    }
    effects.push(Effect::TransferOut {
        contract_addr: state.offerings[i].contract_addr.clone(),
        token_id: state.offerings[i].token_id.clone(),
        to_address: info.sender.clone(),
    });
    let collection = state.offerings[i].contract_addr.clone();
    state.offerings.remove(i);
    proof {
        lemma_remove_keeps_wf(
            old(state).offerings@,
            i as int,
            old(state).num_offerings,
        );
    }
    bump_volume(&mut state.volumes, &collection, list_price);
    Result::Ok(effects)
}

/// Returns an escrowed item to its seller (see [`withdraw_post`]).
pub fn withdraw_nft(state: &mut Marketplace, info: MessageInfo, offering_id: String) -> (r:
    Result<Vec<Effect>, ContractError>)
    requires
        old(state).wf(),
    ensures
        final(state).wf(),
        withdraw_post(*old(state), *final(state), info.sender@, offering_id@, r),
{
    let i = match find_offering(&state.offerings, &offering_id) {
        Option::None => {
            return Result::Err(ContractError::OfferingNotFound {  });
        },
        Option::Some(i) => i,
    };
    proof {
        assert(has_id(state.offerings@, offering_id@));
        let j = idx_of(state.offerings@, offering_id@);
        assert(0 <= j < state.offerings@.len() && state.offerings@[j].offering_id@
            == offering_id@);
        lemma_id_unique(*state, i as int, j);
    }
    if !(state.offerings[i].seller == info.sender) {
        return Result::Err(ContractError::Unauthorized {  });
    }
    let mut effects: Vec<Effect> = Vec::new();
    effects.push(Effect::TransferOut {
        contract_addr: state.offerings[i].contract_addr.clone(),
        token_id: state.offerings[i].token_id.clone(),
        to_address: state.offerings[i].seller.clone(),
    });
    state.offerings.remove(i);
    proof {
        lemma_remove_keeps_wf(
            old(state).offerings@,
            i as int,
            old(state).num_offerings,
        );
    }
    Result::Ok(effects)
}

/// Changes an offering's asking price (see [`update_price_post`]).
pub fn update_listing_price(
    state: &mut Marketplace,
    info: MessageInfo,
    offering_id: String,
    new_price: u128,
) -> (r: Result<Vec<Effect>, ContractError>)
    requires
        old(state).wf(),
    ensures
        final(state).wf(),
        update_price_post(
            *old(state),
            *final(state),
            info.sender@,
            offering_id@,
            new_price,
            r,
        ),
{
    let i = match find_offering(&state.offerings, &offering_id) {
        Option::None => {
            return Result::Err(ContractError::OfferingNotFound {  });
        },
        Option::Some(i) => i,
    };
    proof {
        assert(has_id(state.offerings@, offering_id@));
        let j = idx_of(state.offerings@, offering_id@);
        assert(0 <= j < state.offerings@.len() && state.offerings@[j].offering_id@
            == offering_id@);
        lemma_id_unique(*state, i as int, j);
    }
    if !(state.offerings[i].seller == info.sender) {
        return Result::Err(ContractError::Unauthorized {  });
    }
    if new_price < MIN_LIST_PRICE {
        return Result::Err(ContractError::InvalidListingPrice {  });
    }
    let updated = Offering {
        offering_id: state.offerings[i].offering_id.clone(),
        contract_addr: state.offerings[i].contract_addr.clone(),
        token_id: state.offerings[i].token_id.clone(),
        seller: state.offerings[i].seller.clone(),
        list_price: new_price,
    };
    state.offerings.set(i, updated);
    proof {
        let offs = state.offerings@;
        assert forall|k: int| 0 <= k < offs.len() implies (#[trigger] offs[k]).wf_entry(
            state.num_offerings,
        ) by {
            if k != i as int {
                assert(offs[k] == old(state).offerings@[k]);
            }
        }
        assert forall|k: int, l: int| 0 <= k < l < offs.len() implies id_val(#[trigger] offs[k])
            < id_val(#[trigger] offs[l]) by {
            assert(offs[k].offering_id@ == old(state).offerings@[k].offering_id@);
            assert(offs[l].offering_id@ == old(state).offerings@[l].offering_id@);
            assert(id_val(old(state).offerings@[k]) < id_val(old(state).offerings@[l]));
        }
    }
    Result::Ok(Vec::new())
}

/// Hands the administrative role to a new address (see
/// [`update_fee_receiver_post`]).
pub fn update_fee_receiver_address(
    state: &mut Marketplace,
    info: MessageInfo,
    new_address: String,
) -> (r: Result<Vec<Effect>, ContractError>)
    requires
        old(state).wf(),
    ensures
        final(state).wf(),
        update_fee_receiver_post(
            *old(state),
            *final(state),
            info.sender@,
            new_address@,
            r,
        ),
{
    if !(info.sender == state.info.fee_receive_address) {
        return Result::Err(ContractError::Unauthorized {  });
    }
    state.info.fee_receive_address = new_address;
    Result::Ok(Vec::new())
}

/// Sets the platform fee percentage (see [`update_platform_fee_post`]).
pub fn update_platform_fee(state: &mut Marketplace, info: MessageInfo, new_fee: u128) -> (r:
    Result<Vec<Effect>, ContractError>)
    requires
        old(state).wf(),
    ensures
        final(state).wf(),
        update_platform_fee_post(*old(state), *final(state), info.sender@, new_fee, r),
{
    if !(info.sender == state.info.fee_receive_address) {
        return Result::Err(ContractError::Unauthorized {  });
    }
    if new_fee > 100 {
        return Result::Err(ContractError::PlatformFeeToHigh {  });
    }
    state.info.platform_fee = new_fee;
    Result::Ok(Vec::new())
}

/// Unwinds every offering at once (see [`force_withdraw_post`]).
pub fn force_withdraw_all(state: &mut Marketplace, info: MessageInfo) -> (r: Result<
    Vec<Effect>,
    ContractError,
>)
    requires
        old(state).wf(),
    ensures
        final(state).wf(),
        force_withdraw_post(*old(state), *final(state), info.sender@, r),
{
    if !(info.sender == state.info.fee_receive_address) {
        return Result::Err(ContractError::Unauthorized {  });
    }
    let n = state.offerings.len();
    let mut effects: Vec<Effect> = Vec::new();
    let mut k: usize = 0;
    while k < n
        invariant
            n == state.offerings@.len(),
            k <= n,
            *state == *old(state),
            effects@.len() == k,
            forall|i: int|
                0 <= i < k ==> is_transfer_out(
                    #[trigger] effects@[i],
                    state.offerings@[i].contract_addr@,
                    state.offerings@[i].token_id@,
                    state.offerings@[i].seller@,
                ),
        decreases n - k,
    {
        effects.push(Effect::TransferOut {
            contract_addr: state.offerings[k].contract_addr.clone(),
            token_id: state.offerings[k].token_id.clone(),
            to_address: state.offerings[k].seller.clone(),
        });
        k = k + 1;
    }
    state.offerings.clear();
    Result::Ok(effects)
}

/// The single entry point for state-mutating operations: routes the request
/// to its handler.  The postcondition is the matching `*_post` predicate.
pub fn execute(state: &mut Marketplace, info: MessageInfo, msg: ExecuteMsg) -> (r: Result<
    Vec<Effect>,
    ContractError,
>)
    requires
        old(state).wf(),
        msg matches ExecuteMsg::ReceiveNft(_) ==> old(state).num_offerings < u64::MAX,
    ensures
        final(state).wf(),
        match msg {
            ExecuteMsg::ReceiveNft(rcv) => receive_post(
                *old(state),
                *final(state),
                info.sender@,
                rcv.sender@,
                rcv.token_id@,
                rcv.msg.list_price,
                r,
            ),
            ExecuteMsg::BuyNft { offering_id } => buy_post(
                *old(state),
                *final(state),
                info.sender@,
                info.funds@,
                offering_id@,
                r,
            ),
            ExecuteMsg::WithdrawNft { offering_id } => withdraw_post(
                *old(state),
                *final(state),
                info.sender@,
                offering_id@,
                r,
            ),
            ExecuteMsg::UpdateListingPrice { offering_id, new_price } => update_price_post(
                *old(state),
                *final(state),
                info.sender@,
                offering_id@,
                new_price,
                r,
            ),
            ExecuteMsg::UpdateFeeReceiverAddress { new_address } => update_fee_receiver_post(
                *old(state),
                *final(state),
                info.sender@,
                new_address@,
                r,
            ),
            ExecuteMsg::UpdatePlatformFee { new_fee } => update_platform_fee_post(
                *old(state),
                *final(state),
                info.sender@,
                new_fee,
                r,
            ),
            ExecuteMsg::ForceWithdrawAll {  } => force_withdraw_post(
                *old(state),
                *final(state),
                info.sender@,
                r,
            ),
        },
{
    match msg {
        ExecuteMsg::ReceiveNft(rcv) => receive_nft(state, info, rcv),
        ExecuteMsg::BuyNft { offering_id } => buy_nft(state, info, offering_id),
        ExecuteMsg::WithdrawNft { offering_id } => withdraw_nft(state, info, offering_id),
        ExecuteMsg::UpdateListingPrice { offering_id, new_price } => update_listing_price(
            state,
            info,
            offering_id,
            new_price,
        ),
        ExecuteMsg::UpdateFeeReceiverAddress { new_address } => update_fee_receiver_address(
            state,
            info,
            new_address,
        ),
        ExecuteMsg::UpdatePlatformFee { new_fee } => update_platform_fee(state, info, new_fee),
        ExecuteMsg::ForceWithdrawAll {  } => force_withdraw_all(state, info),
    }
}

/// A copy of an offering, field by field.
fn clone_offering(o: &Offering) -> (r: Offering)
    ensures
        r == *o,
{
    let r = Offering {
        offering_id: o.offering_id.clone(),
        contract_addr: o.contract_addr.clone(),
        token_id: o.token_id.clone(),
        seller: o.seller.clone(),
        list_price: o.list_price,
    };
    r
}

/// The configuration (see [`ContractInfoResponse`]); reads the state only.
pub fn get_contract_info(state: &Marketplace) -> (r: ContractInfoResponse)
    ensures
        r.name == state.info.name,
        r.denom == state.info.denom,
        r.fee_receive_address == state.info.fee_receive_address,
        r.platform_fee == state.info.platform_fee,
{
    ContractInfoResponse {
        name: state.info.name.clone(),
        denom: state.info.denom.clone(),
        fee_receive_address: state.info.fee_receive_address.clone(),
        platform_fee: state.info.platform_fee,
    }
}

/// The offerings in creation order, optionally only those of one seller;
/// reads the state only.
pub fn get_offerings(state: &Marketplace, filter_seller: Option<String>) -> (r: OfferingsResponse)
    ensures
        r.offerings@ == filter_offs(state.offerings@, filter_seller),
{
    let n = state.offerings.len();
    let mut out: Vec<Offering> = Vec::new();
    let mut i: usize = 0;
    proof {
        assert(state.offerings@.take(0) =~= Seq::<Offering>::empty());
    }
    while i < n
        invariant
            n == state.offerings@.len(),
            i <= n,
            out@ == filter_offs(state.offerings@.take(i as int), filter_seller),
        decreases n - i,
    {
        proof {
            let pre = state.offerings@.take(i as int);
            let cur = state.offerings@.take(i as int + 1);
            assert(cur.drop_last() =~= pre);
            assert(cur.last() == state.offerings@[i as int]);
        }
        let keep = match &filter_seller {
            Option::None => true,
            Option::Some(a) => state.offerings[i].seller == *a,
        };
        if keep {
            let copy = clone_offering(&state.offerings[i]);
            out.push(copy);
        }
        i = i + 1;
    }
    proof {
        assert(state.offerings@.take(n as int) =~= state.offerings@);
    }
    OfferingsResponse { offerings: out }
}

/// The cumulative volume of a collection, zero if it has never sold; reads
/// the state only.
pub fn get_collection_volume(state: &Marketplace, address: &String) -> (r:
    CollectionVolumeResponse)
    ensures
        r.total_volume == vol_of(state.volumes@, address@),
{
    let n = state.volumes.len();
    let mut i: usize = 0;
    proof {
        assert(state.volumes@.skip(0) =~= state.volumes@);
    }
    while i < n
        invariant
            n == state.volumes@.len(),
            i <= n,
            vol_of(state.volumes@.skip(i as int), address@) == vol_of(state.volumes@, address@),
        decreases n - i,
    {
        proof {
            assert(state.volumes@.skip(i as int).drop_first() =~= state.volumes@.skip(
                i as int + 1,
            ));
            assert(state.volumes@.skip(i as int)[0] == state.volumes@[i as int]);
        }
        if state.volumes[i].address == *address {
            return CollectionVolumeResponse { total_volume: state.volumes[i].total_volume };
        }
        i = i + 1;
    }
    proof {
        assert(state.volumes@.skip(n as int) =~= Seq::<CollectionVolume>::empty());
    }
    CollectionVolumeResponse { total_volume: 0 }
}

/// The single entry point for queries: routes the request to its reader.
/// Queries take the state by shared reference and cannot mutate it; each
/// answer is a function of the state alone.
pub fn query(state: &Marketplace, msg: QueryMsg) -> (r: QueryResponse)
    ensures
        match msg {
            QueryMsg::GetContractInfo {  } => r matches QueryResponse::ContractInfo(c)
                && c.name == state.info.name && c.denom == state.info.denom
                && c.fee_receive_address == state.info.fee_receive_address && c.platform_fee
                == state.info.platform_fee,
            QueryMsg::GetOfferings { filter_seller } => r matches QueryResponse::Offerings(o)
                && o.offerings@ == filter_offs(state.offerings@, filter_seller),
            QueryMsg::GetCollectionVolume { address } => r matches
                QueryResponse::CollectionVolume(v) && v.total_volume == vol_of(
                state.volumes@,
                address@,
            ),
        },
{
    match msg {
        QueryMsg::GetContractInfo {  } => QueryResponse::ContractInfo(get_contract_info(state)),
        QueryMsg::GetOfferings { filter_seller } => QueryResponse::Offerings(
            get_offerings(state, filter_seller),
        ),
        QueryMsg::GetCollectionVolume { address } => QueryResponse::CollectionVolume(
            get_collection_volume(state, &address),
        ),
    }
}

} // verus!
