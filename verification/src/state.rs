//! The engine's data model and its invariant.
//!
//! The whole contract state is one [`Marketplace`] value: the configuration,
//! the live offerings in creation order, the per-collection volume counters,
//! and the count of offering ids ever issued.  [`Marketplace::wf`] is the
//! invariant that every operation preserves.

use crate::decimal::dec_val;
use vstd::prelude::*;

verus! {

/// Every listing and payment must reach this many base units of the payment
/// denomination.
pub const MIN_LIST_PRICE: u128 = 1_000_000;

/// The singleton configuration, created at instantiation.
#[derive(Debug, Clone, PartialEq, Eq)]
pub struct ContractInfo {
    /// Display label, immutable after creation.
    pub name: String,
    /// The single fungible-value unit accepted for listings and payments.
    pub denom: String,
    /// The address receiving the platform fee; also the sole administrative
    /// principal.
    pub fee_receive_address: String,
    /// Percentage of every sale kept as the platform fee, in `[0, 100]`.
    pub platform_fee: u128,
}

/// A listed, escrowed item awaiting sale.
#[derive(Debug, Clone, PartialEq, Eq)]
pub struct Offering {
    /// Unique decimal-string identifier, assigned at creation, never reused.
    pub offering_id: String,
    /// The custody contract the item originates from.
    pub contract_addr: String,
    /// The item within that collection.
    pub token_id: String,
    /// The address credited on sale and entitled to withdraw.
    pub seller: String,
    /// The asking price, in the payment denomination.
    pub list_price: u128,
}

/// The cumulative volume of completed sales of one collection.
#[derive(Debug, Clone, PartialEq, Eq)]
pub struct CollectionVolume {
    pub address: String,
    pub total_volume: u128,
}

/// The full contract state.
#[derive(Debug, Clone)]
pub struct Marketplace {
    pub info: ContractInfo,
    /// Live offerings, in creation order (ascending numeric id).
    pub offerings: Vec<Offering>,
    /// One entry per collection that has ever sold.
    pub volumes: Vec<CollectionVolume>,
    /// How many offering ids have been issued; the next offering gets
    /// `num_offerings + 1`.
    pub num_offerings: u64,
}

/// The numeric value of an offering's identifier.
pub open spec fn id_val(o: Offering) -> nat {
    dec_val(o.offering_id@)
}

impl Offering {
    /// An offering as it may appear in a state whose counter is `counter`:
    /// its id was issued by that counter and its price meets the floor.
    pub open spec fn wf_entry(self, counter: u64) -> bool {
        &&& 1 <= id_val(self) <= counter
        &&& self.list_price >= MIN_LIST_PRICE
    }
}

impl Marketplace {
    /// The state invariant: the fee percentage is a percentage, every
    /// offering carries an issued id and a floor-respecting price, offerings
    /// stand in creation order (so ids are unique), and each collection has
    /// at most one volume entry.
    pub open spec fn wf(self) -> bool {
        &&& self.info.platform_fee <= 100
        &&& forall|i: int|
            0 <= i < self.offerings@.len() ==> (#[trigger] self.offerings@[i]).wf_entry(
                self.num_offerings,
            )
        &&& forall|i: int, j: int|
            0 <= i < j < self.offerings@.len() ==> id_val(#[trigger] self.offerings@[i]) < id_val(
                #[trigger] self.offerings@[j],
            )
        &&& forall|i: int, j: int|
            0 <= i < j < self.volumes@.len() ==> (#[trigger] self.volumes@[i]).address@ != (
            #[trigger] self.volumes@[j]).address@
    }
}

/// Whether some offering in `offs` carries the identifier `q`.
pub open spec fn has_id(offs: Seq<Offering>, q: Seq<char>) -> bool {
    exists|i: int| 0 <= i < offs.len() && (#[trigger] offs[i]).offering_id@ == q
}

/// The index of the offering carrying `q`; meaningful when `has_id` holds
/// (and then unique under the state invariant).
pub open spec fn idx_of(offs: Seq<Offering>, q: Seq<char>) -> int {
    choose|i: int| 0 <= i < offs.len() && (#[trigger] offs[i]).offering_id@ == q
}

/// The offering carrying `q`; meaningful when `has_id` holds.
pub open spec fn off_of(offs: Seq<Offering>, q: Seq<char>) -> Offering {
    offs[idx_of(offs, q)]
}

/// Under the ordering invariant an identifier names at most one offering.
pub proof fn lemma_id_unique(s: Marketplace, i: int, j: int)
    requires
        s.wf(),
        0 <= i < s.offerings@.len(),
        0 <= j < s.offerings@.len(),
        s.offerings@[i].offering_id@ == s.offerings@[j].offering_id@,
    ensures
        i == j,
{
    if i < j {
        assert(id_val(s.offerings@[i]) < id_val(s.offerings@[j]));
    } else if j < i {
        assert(id_val(s.offerings@[j]) < id_val(s.offerings@[i]));
    }
}

/// The recorded volume of collection `a`: the entry's counter, or 0 if the
/// collection has never sold.
pub open spec fn vol_of(vols: Seq<CollectionVolume>, a: Seq<char>) -> u128
    decreases vols.len(),
{
    if vols.len() == 0 {
        0
    } else if vols[0].address@ == a {
        vols[0].total_volume
    } else {
        vol_of(vols.drop_first(), a)
    }
}

/// A collection with no entry has volume 0.
pub proof fn lemma_vol_of_absent(vols: Seq<CollectionVolume>, a: Seq<char>)
    requires
        forall|i: int| 0 <= i < vols.len() ==> (#[trigger] vols[i]).address@ != a,
    ensures
        vol_of(vols, a) == 0,
    decreases vols.len(),
{
    if vols.len() > 0 {
        assert(vols[0].address@ != a);
        lemma_vol_of_absent(vols.drop_first(), a);
    }
}

/// With distinct addresses, any matching entry is the recorded volume.
pub proof fn lemma_vol_of_found(vols: Seq<CollectionVolume>, i: int)
    requires
        0 <= i < vols.len(),
        forall|j: int| 0 <= j < i ==> (#[trigger] vols[j]).address@ != vols[i].address@,
    ensures
        vol_of(vols, vols[i].address@) == vols[i].total_volume,
    decreases i,
{
    if i == 0 {
    } else {
        assert(vols[0].address@ != vols[i].address@);
        assert(vols.drop_first()[i - 1] == vols[i]);
        assert(forall|j: int|
            0 <= j < i - 1 ==> (#[trigger] vols.drop_first()[j]).address@ != vols.drop_first()[i
                - 1].address@);
        lemma_vol_of_found(vols.drop_first(), i - 1);
    }
}

/// Replacing the entry at a first-match index changes that collection's
/// recorded volume and no other's.
pub proof fn lemma_vol_of_update(vols: Seq<CollectionVolume>, i: int, nv: u128)
    requires
        0 <= i < vols.len(),
        forall|j: int| 0 <= j < i ==> (#[trigger] vols[j]).address@ != vols[i].address@,
    ensures
        vol_of(
            vols.update(i, CollectionVolume { address: vols[i].address, total_volume: nv }),
            vols[i].address@,
        ) == nv,
        forall|a: Seq<char>|
            a != vols[i].address@ ==> vol_of(
                vols.update(i, CollectionVolume { address: vols[i].address, total_volume: nv }),
                a,
            ) == vol_of(vols, a),
    decreases i,
{
    let upd = vols.update(i, CollectionVolume { address: vols[i].address, total_volume: nv });
    if i == 0 {
        assert(upd[0].address@ == vols[0].address@);
        assert(vol_of(upd, vols[i].address@) == nv);
        assert forall|a: Seq<char>| a != vols[i].address@ implies vol_of(upd, a) == vol_of(
            vols,
            a,
        ) by {
            assert(upd.drop_first() =~= vols.drop_first());
            assert(vol_of(upd, a) == vol_of(upd.drop_first(), a));
            assert(vol_of(vols, a) == vol_of(vols.drop_first(), a));
        }
    } else {
        assert(upd[0] == vols[0]);
        assert(upd.drop_first() =~= vols.drop_first().update(
            i - 1,
            CollectionVolume { address: vols[i].address, total_volume: nv },
        ));
        assert(vols.drop_first()[i - 1] == vols[i]);
        assert(forall|j: int|
            0 <= j < i - 1 ==> (#[trigger] vols.drop_first()[j]).address@ != vols.drop_first()[i
                - 1].address@);
        lemma_vol_of_update(vols.drop_first(), i - 1, nv);
        assert(vols[0].address@ != vols[i].address@);
        assert(vol_of(upd, vols[i].address@) == vol_of(upd.drop_first(), vols[i].address@));
        assert forall|a: Seq<char>| a != vols[i].address@ implies vol_of(upd, a) == vol_of(
            vols,
            a,
        ) by {
            if a == vols[0].address@ {
                assert(vol_of(upd, a) == upd[0].total_volume);
                assert(vol_of(vols, a) == vols[0].total_volume);
            } else {
                assert(vol_of(upd, a) == vol_of(upd.drop_first(), a));
                assert(vol_of(vols, a) == vol_of(vols.drop_first(), a));
            }
        }
    }
}

/// Appending an entry for a collection not yet present sets that
/// collection's recorded volume and no other's.
pub proof fn lemma_vol_of_push(vols: Seq<CollectionVolume>, c: CollectionVolume)
    requires
        forall|i: int| 0 <= i < vols.len() ==> (#[trigger] vols[i]).address@ != c.address@,
    ensures
        vol_of(vols.push(c), c.address@) == c.total_volume,
        forall|a: Seq<char>| a != c.address@ ==> vol_of(vols.push(c), a) == vol_of(vols, a),
    decreases vols.len(),
{
    let pushed = vols.push(c);
    if vols.len() == 0 {
        assert(pushed[0] == c);
        assert(vol_of(pushed, c.address@) == c.total_volume);
        assert forall|a: Seq<char>| a != c.address@ implies vol_of(pushed, a) == vol_of(
            vols,
            a,
        ) by {
            assert(pushed.drop_first() =~= Seq::<CollectionVolume>::empty());
            assert(vol_of(pushed, a) == vol_of(pushed.drop_first(), a));
            assert(vol_of(pushed.drop_first(), a) == 0);
            assert(vol_of(vols, a) == 0);
        }
    } else {
        assert(pushed[0] == vols[0]);
        assert(pushed.drop_first() =~= vols.drop_first().push(c));
        lemma_vol_of_push(vols.drop_first(), c);
        assert(vols[0].address@ != c.address@);
        assert(vol_of(pushed, c.address@) == vol_of(pushed.drop_first(), c.address@));
        assert forall|a: Seq<char>| a != c.address@ implies vol_of(pushed, a) == vol_of(
            vols,
            a,
        ) by {
            if a == vols[0].address@ {
                assert(vol_of(pushed, a) == pushed[0].total_volume);
                assert(vol_of(vols, a) == vols[0].total_volume);
            } else {
                assert(vol_of(pushed, a) == vol_of(pushed.drop_first(), a));
                assert(vol_of(vols, a) == vol_of(vols.drop_first(), a));
            }
        }
    }
}

/// Whether an offering passes the optional seller filter.
pub open spec fn matches_filter(o: Offering, f: Option<String>) -> bool {
    match f {
        Option::None => true,
        Option::Some(a) => o.seller@ == a@,
    }
}

/// The subsequence of `offs` passing the filter, in the same order.
pub open spec fn filter_offs(offs: Seq<Offering>, f: Option<String>) -> Seq<Offering>
    decreases offs.len(),
{
    if offs.len() == 0 {
        Seq::empty()
    } else if matches_filter(offs.last(), f) {
        filter_offs(offs.drop_last(), f).push(offs.last())
    } else {
        filter_offs(offs.drop_last(), f)
    }
}

} // verus!
