//! Laws of the ledger, stated over its model and proved from the invariant
//! that every operation keeps.
use crate::model::{sales_kept, DonlyView};
use crate::types::CampaignStatus;
use vstd::prelude::*;

verus! {

/// Ids are issued as 1, 2, 3, ... in creation order, for each kind of entity:
/// the record with id `n` is the `n`-th one created, so no id is skipped,
/// reused or reassigned.
pub proof fn lemma_ids_dense(s: DonlyView)
    requires
        s.wf(),
    ensures
        forall|i: int| 0 <= i < s.categories.len() ==> (#[trigger] s.categories[i]).id == i + 1,
        forall|i: int| 0 <= i < s.campaigns.len() ==> (#[trigger] s.campaigns[i]).id == i + 1,
        forall|i: int| 0 <= i < s.products.len() ==> (#[trigger] s.products[i]).id == i + 1,
{
    assert forall|i: int| 0 <= i < s.campaigns.len() implies (#[trigger] s.campaigns[i]).id == i + 1 by {
        assert(crate::model::campaign_wf(s.campaigns[i], i, s.categories.len()));
    }
    assert forall|i: int| 0 <= i < s.products.len() implies (#[trigger] s.products[i]).id == i + 1 by {
        assert(s.product_wf(s.products[i], i));
    }
}

/// No two categories share a name fingerprint, whether active or not.
pub proof fn lemma_names_unique(s: DonlyView, a: u64, b: u64)
    requires
        s.wf(),
        s.has_category(a),
        s.has_category(b),
        a != b,
    ensures
        s.category(a).name_hash != s.category(b).name_hash,
{
    assert(s.categories[a - 1].name_hash != s.categories[b - 1].name_hash);
}

/// A sold product stays sold and off sale, unchanged, across any state that
/// keeps the sales of an earlier one.
pub proof fn lemma_sold_is_sticky(s: DonlyView, t: DonlyView, id: u64)
    requires
        s.wf(),
        sales_kept(s, t),
        s.has_product(id),
        s.product(id).sold,
    ensures
        t.has_product(id),
        t.product(id) == s.product(id),
        t.product(id).sold,
        !t.product(id).active,
{
    assert(s.product_wf(s.products[id - 1], id - 1));
}

/// Keeping sales composes: what one run of operations keeps, the next keeps
/// too, so a sale is kept for ever.
pub proof fn lemma_sales_kept_trans(s: DonlyView, t: DonlyView, u: DonlyView)
    requires
        sales_kept(s, t),
        sales_kept(t, u),
    ensures
        sales_kept(s, u),
{
    assert forall|i: int| 0 <= i < s.products.len() && (#[trigger] s.products[i]).sold implies u.products[i]
        == s.products[i] by {
        assert(t.products[i] == s.products[i]);
    }
}

/// A campaign that has sold as many products as its target is completed,
/// inactive, and none of its products is on sale.
pub proof fn lemma_goal_reached(s: DonlyView, campaign_id: u64)
    requires
        s.wf(),
        s.has_campaign(campaign_id),
        s.campaign(campaign_id).sold_units == s.campaign(campaign_id).max_units,
    ensures
        s.campaign(campaign_id).status == CampaignStatus::Completed,
        !s.campaign(campaign_id).active,
        forall|i: int| 0 <= i < s.products.len() && (#[trigger] s.products[i]).campaign_id == campaign_id
            ==> !s.products[i].active,
{
    assert(crate::model::campaign_wf(s.campaigns[campaign_id - 1], campaign_id - 1, s.categories.len()));
    assert forall|i: int| 0 <= i < s.products.len() && (#[trigger] s.products[i]).campaign_id == campaign_id
        implies !s.products[i].active by {
        assert(s.product_wf(s.products[i], i));
    }
}

/// The sale that meets a campaign's target completes it, deactivates it, and
/// withdraws from sale every other product of it that was still on sale.
pub proof fn lemma_goal_cascade(s: DonlyView, id: u64, paid: u128, now: u64)
    requires
        s.wf(),
        s.purchase_result(id, paid) is Ok,
        s.sale_completes(s.product(id).campaign_id),
    ensures
        ({
            let cid = s.product(id).campaign_id;
            let t = s.purchase_state(id, now);
            &&& t.campaign(cid).sold_units == t.campaign(cid).max_units
            &&& t.campaign(cid).status == CampaignStatus::Completed
            &&& !t.campaign(cid).active
            &&& t.campaign(cid).completed_at == now
            &&& forall|i: int|
                0 <= i < s.products.len() && (#[trigger] s.products[i]).campaign_id == cid
                    ==> !t.products[i].active
        }),
{
    let cid = s.product(id).campaign_id;
    assert(s.product_wf(s.products[id - 1], id - 1));
    assert(crate::model::campaign_wf(s.campaigns[cid - 1], cid - 1, s.categories.len()));
    crate::model::lemma_purchase_wf(s, id, paid, now);
    let t = s.purchase_state(id, now);
    assert forall|i: int| 0 <= i < s.products.len() && (#[trigger] s.products[i]).campaign_id == cid
        implies !t.products[i].active by {
        assert(s.product_wf(s.products[i], i));
    }
}

} // verus!
