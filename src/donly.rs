//! The ledger itself: the records of each kind, the index from a campaign to
//! its products, and the operations on them.
use crate::fingerprint::{check_text, fingerprint, text_fingerprint};
use crate::model::{
    campaign_wf, cancelled_campaign, close_products, completed_campaign, deactivated_product,
    lemma_campaign_update_wf, lemma_product_update_wf, lemma_purchase_wf, lemma_sale_fits,
    sales_kept, DonlyView, MAX_DESCRIPTION_LEN, MAX_IMAGE_URL_LEN, MAX_NAME_LEN,
};
use crate::types::{
    Account, Campaign, CampaignStatus, Category, DonlyError, EntityKind, Fingerprint, InputField,
    Payout, Product,
};
use vstd::prelude::*;

verus! {

broadcast use vstd::array::group_array_axioms;

/// The ledger of categories, campaigns and products.
pub struct Donly {
    categories: Vec<Category>,
    campaigns: Vec<Campaign>,
    products: Vec<Product>,
    /// For each campaign, at index `id - 1`, the ids of its products.
    campaign_products: Vec<Vec<u64>>,
}

impl View for Donly {
    type V = DonlyView;

    closed spec fn view(&self) -> DonlyView {
        DonlyView { categories: self.categories@, campaigns: self.campaigns@, products: self.products@ }
    }
}

impl Donly {
    /// The index lists, for each campaign, exactly the ids of its products.
    pub closed spec fn index_wf(&self) -> bool {
        &&& self.campaign_products@.len() == self.campaigns@.len()
        &&& forall|c: int, k: int|
            0 <= c < self.campaign_products@.len() && 0 <= k < self.campaign_products@[c]@.len() ==> {
                let id = #[trigger] self.campaign_products@[c]@[k];
                &&& 1 <= id <= self.products@.len()
                &&& self.products@[id - 1].campaign_id == c + 1
            }
        &&& forall|i: int| 0 <= i < self.products@.len()
            ==> self.campaign_products@[(#[trigger] self.products@[i]).campaign_id - 1]@.contains((i + 1) as u64)
    }

    /// The invariant of the model, and an index that lists, for each
    /// campaign, exactly the ids of its products.
    pub open spec fn wf(&self) -> bool {
        &&& self@.wf()
        &&& self.index_wf()
    }

    /// An empty ledger.
    pub fn new() -> (r: Donly)
        ensures
            r.wf(),
            r@.categories.len() == 0,
            r@.campaigns.len() == 0,
            r@.products.len() == 0,
    {
        Donly { categories: Vec::new(), campaigns: Vec::new(), products: Vec::new(), campaign_products: Vec::new() }
    }

    // ===== categories =====

    /// The number of categories created.
    pub fn category_count(&self) -> (r: u64)
        ensures
            r == self@.categories.len(),
    {
        self.categories.len() as u64
    }

    /// Whether some category, active or not, has this name fingerprint.
    pub fn has_category_named(&self, name_hash: &Fingerprint) -> (r: bool)
        ensures
            r == self@.name_taken(name_hash.bytes@),
    {
        let mut i: usize = 0;
        while i < self.categories.len()
            invariant
                0 <= i <= self.categories@.len(),
                forall|j: int| 0 <= j < i ==> self.categories@[j].name_hash.bytes@ != name_hash.bytes@,
            decreases self.categories@.len() - i,
        {
            if self.categories[i].name_hash.same_as(name_hash) {
                assert(self@.categories[i as int].name_hash.bytes@ == name_hash.bytes@);
                return true;
            }
            i = i + 1;
        }
        false
    }

    /// Registers a category whose name has fingerprint `name_hash`, created by
    /// `caller`. Fails with `NameExists` when a category, active or not,
    /// already has that name.
    pub fn register_category(&mut self, caller: Account, name_hash: Fingerprint) -> (r: Result<u64, DonlyError>)
        requires
            old(self).wf(),
            old(self)@.categories.len() < u64::MAX,
        ensures
            final(self).wf(),
            r == old(self)@.register_category_result(name_hash.bytes@),
            r is Err ==> *final(self) == *old(self),
            sales_kept(old(self)@, final(self)@),
            r is Ok ==> old(self)@.adds_category(final(self)@, caller, name_hash.bytes@),
    {
        if self.has_category_named(&name_hash) {
            return Err(DonlyError::NameExists);
        }
        let id = self.categories.len() as u64 + 1;
        self.categories.push(Category { id, name_hash, creator: caller, active: true });
        proof {
            let s = old(self)@;
            let t = self@;
            assert forall|i: int| 0 <= i < t.campaigns.len() implies campaign_wf(
                #[trigger] t.campaigns[i],
                i,
                t.categories.len(),
            ) by {
                assert(campaign_wf(s.campaigns[i], i, s.categories.len()));
            }
            assert forall|i: int| 0 <= i < t.products.len() implies t.product_wf(#[trigger] t.products[i], i) by {
                assert(s.product_wf(s.products[i], i));
            }
            assert forall|i: int, j: int|
                0 <= i < t.categories.len() && 0 <= j < t.categories.len() && i != j
                    implies (#[trigger] t.categories[i]).name_hash != (#[trigger] t.categories[j]).name_hash by {
                if i < s.categories.len() && j < s.categories.len() {
                    assert(s.categories[i] == t.categories[i]);
                    assert(s.categories[j] == t.categories[j]);
                } else if i < s.categories.len() {
                    assert(s.categories[i].name_hash.bytes@ != name_hash.bytes@);
                } else {
                    assert(s.categories[j].name_hash.bytes@ != name_hash.bytes@);
                }
            }
        }
        Ok(id)
    }

    /// Creates a category named `name`, created by `caller`, and returns its
    /// id. The name must hold 1 to 64 bytes, and no category, active or not,
    /// may already have it.
    pub fn create_category(&mut self, caller: Account, name: &str) -> (r: Result<u64, DonlyError>)
        requires
            old(self).wf(),
            old(self)@.categories.len() < u64::MAX,
        ensures
            final(self).wf(),
            r == old(self)@.create_category_result(name),
            r is Err ==> *final(self) == *old(self),
            sales_kept(old(self)@, final(self)@),
            r is Ok ==> old(self)@.adds_category(final(self)@, caller, text_fingerprint(name)),
    {
        if !check_text(name, MAX_NAME_LEN) {
            return Err(DonlyError::InvalidInput(InputField::Name));
        }
        let name_hash = fingerprint(name);
        self.register_category(caller, name_hash)
    }

    /// The category with this id.
    pub fn get_category_data(&self, id: u64) -> (r: Result<Category, DonlyError>)
        ensures
            r == self@.category_result(id),
    {
        if id == 0 || id > self.categories.len() as u64 {
            Err(DonlyError::InvalidId)
        } else {
            Ok(self.categories[(id - 1) as usize])
        }
    }

    /// The name fingerprint of the category with this id.
    pub fn get_category_name_hash(&self, id: u64) -> (r: Result<Fingerprint, DonlyError>)
        ensures
            self@.has_category(id) ==> r == Ok::<Fingerprint, DonlyError>(self@.category(id).name_hash),
            !self@.has_category(id) ==> r == Err::<Fingerprint, DonlyError>(DonlyError::InvalidId),
    {
        match self.get_category_data(id) {
            Ok(c) => Ok(c.name_hash),
            Err(e) => Err(e),
        }
    }

    /// The creator of the category with this id.
    pub fn get_category_creator(&self, id: u64) -> (r: Result<Account, DonlyError>)
        ensures
            self@.has_category(id) ==> r == Ok::<Account, DonlyError>(self@.category(id).creator),
            !self@.has_category(id) ==> r == Err::<Account, DonlyError>(DonlyError::InvalidId),
    {
        match self.get_category_data(id) {
            Ok(c) => Ok(c.creator),
            Err(e) => Err(e),
        }
    }

    /// Whether the category with this id is active.
    pub fn get_category_is_active(&self, id: u64) -> (r: Result<bool, DonlyError>)
        ensures
            self@.has_category(id) ==> r == Ok::<bool, DonlyError>(self@.category(id).active),
            !self@.has_category(id) ==> r == Err::<bool, DonlyError>(DonlyError::InvalidId),
    {
        match self.get_category_data(id) {
            Ok(c) => Ok(c.active),
            Err(e) => Err(e),
        }
    }

    /// Deactivates the category with this id. Only its creator may, and only
    /// once.
    pub fn deactivate_category(&mut self, caller: Account, id: u64) -> (r: Result<(), DonlyError>)
        requires
            old(self).wf(),
        ensures
            final(self).wf(),
            r == old(self)@.deactivate_category_result(caller, id),
            r is Err ==> *final(self) == *old(self),
            sales_kept(old(self)@, final(self)@),
            r is Ok ==> final(self)@ == old(self)@.deactivate_category_state(id),
    {
        if id == 0 || id > self.categories.len() as u64 {
            return Err(DonlyError::InvalidId);
        }
        let i = (id - 1) as usize;
        let c = self.categories[i];
        if !c.active {
            return Err(DonlyError::NotActive(EntityKind::Category));
        }
        if !c.creator.same_as(&caller) {
            return Err(DonlyError::Unauthorized);
        }
        self.categories.set(i, Category { active: false, ..c });
        proof {
            let s = old(self)@;
            let t = self@;
            assert forall|i: int| 0 <= i < t.campaigns.len() implies campaign_wf(
                #[trigger] t.campaigns[i],
                i,
                t.categories.len(),
            ) by {
                assert(campaign_wf(s.campaigns[i], i, s.categories.len()));
            }
            assert forall|i: int| 0 <= i < t.products.len() implies t.product_wf(#[trigger] t.products[i], i) by {
                assert(s.product_wf(s.products[i], i));
            }
            assert forall|i: int, j: int|
                0 <= i < t.categories.len() && 0 <= j < t.categories.len() && i != j
                    implies (#[trigger] t.categories[i]).name_hash != (#[trigger] t.categories[j]).name_hash by {
                assert(s.categories[i].name_hash != s.categories[j].name_hash);
            }
            assert(t == s.deactivate_category_state(id));
        }
        Ok(())
    }

    // ===== campaigns =====

    /// The number of campaigns created.
    pub fn campaign_count(&self) -> (r: u64)
        ensures
            r == self@.campaigns.len(),
    {
        self.campaigns.len() as u64
    }

    /// Creates a campaign in category `category_id`, administered by `caller`,
    /// that pays out to `destination` and completes once `max_units`
    /// products are sold; returns its id. The category must exist and be
    /// active; title, description and image URL must hold 1 to 64, 256 and 128
    /// bytes; `max_units` must be positive and fit in `u64`.
    pub fn create_campaign(
        &mut self,
        caller: Account,
        category_id: u64,
        title: &str,
        description: &str,
        image_url: &str,
        destination: Account,
        max_units: u128,
        now: u64,
    ) -> (r: Result<u64, DonlyError>)
        requires
            old(self).wf(),
            old(self)@.campaigns.len() < u64::MAX,
        ensures
            final(self).wf(),
            r == old(self)@.create_campaign_result(category_id, title, description, image_url, max_units),
            r is Err ==> *final(self) == *old(self),
            sales_kept(old(self)@, final(self)@),
            r is Ok ==> old(self)@.adds_campaign(
                final(self)@,
                caller,
                category_id,
                title,
                description,
                image_url,
                destination,
                max_units,
                now,
            ),
    {
        if category_id == 0 || category_id > self.categories.len() as u64 {
            return Err(DonlyError::InvalidId);
        }
        if !self.categories[(category_id - 1) as usize].active {
            return Err(DonlyError::NotActive(EntityKind::Category));
        }
        if !check_text(title, MAX_NAME_LEN) {
            return Err(DonlyError::InvalidInput(InputField::Name));
        }
        if !check_text(description, MAX_DESCRIPTION_LEN) {
            return Err(DonlyError::InvalidInput(InputField::Description));
        }
        if !check_text(image_url, MAX_IMAGE_URL_LEN) {
            return Err(DonlyError::InvalidInput(InputField::ImageUrl));
        }
        if max_units == 0 || max_units > u64::MAX as u128 {
            return Err(DonlyError::InvalidInput(InputField::MaxUnits));
        }
        let id = self.campaigns.len() as u64 + 1;
        let campaign = Campaign {
            id,
            category_id,
            title_hash: fingerprint(title),
            description_hash: fingerprint(description),
            image_hash: fingerprint(image_url),
            admin: caller,
            destination,
            max_units: max_units as u64,
            sold_units: 0,
            collected_amount: 0,
            active: true,
            status: CampaignStatus::Active,
            created_at: now,
            completed_at: 0,
        };
        self.campaigns.push(campaign);
        self.campaign_products.push(Vec::new());
        proof {
            let s = old(self)@;
            let t = self@;
            assert forall|i: int| 0 <= i < t.campaigns.len() implies campaign_wf(
                #[trigger] t.campaigns[i],
                i,
                t.categories.len(),
            ) by {
                if i < s.campaigns.len() {
                    assert(campaign_wf(s.campaigns[i], i, s.categories.len()));
                }
            }
            assert forall|i: int| 0 <= i < t.products.len() implies t.product_wf(#[trigger] t.products[i], i) by {
                assert(s.product_wf(s.products[i], i));
            }
            assert forall|c: int, k: int|
                0 <= c < self.campaign_products@.len() && 0 <= k < self.campaign_products@[c]@.len() implies {
                    let id = #[trigger] self.campaign_products@[c]@[k];
                    &&& 1 <= id <= self.products@.len()
                    &&& self.products@[id - 1].campaign_id == c + 1
                } by {
                assert(c < old(self).campaign_products@.len());
                assert(self.campaign_products@[c] == old(self).campaign_products@[c]);
            }
            assert forall|i: int| 0 <= i < self.products@.len() implies self.campaign_products@[(
            #[trigger] self.products@[i]).campaign_id - 1]@.contains((i + 1) as u64) by {
                let p = self.products@[i];
                assert(old(self).campaign_products@[p.campaign_id - 1]@.contains((i + 1) as u64));
                assert(s.product_wf(s.products[i], i));
            }
        }
        Ok(id)
    }

    /// The campaign with this id.
    pub fn get_campaign_data(&self, id: u64) -> (r: Result<Campaign, DonlyError>)
        ensures
            r == self@.campaign_result(id),
    {
        if id == 0 || id > self.campaigns.len() as u64 {
            Err(DonlyError::InvalidId)
        } else {
            Ok(self.campaigns[(id - 1) as usize])
        }
    }

    /// The category of the campaign with this id.
    pub fn get_campaign_category_id(&self, id: u64) -> (r: Result<u64, DonlyError>)
        ensures
            self@.has_campaign(id) ==> r == Ok::<u64, DonlyError>(self@.campaign(id).category_id),
            !self@.has_campaign(id) ==> r == Err::<u64, DonlyError>(DonlyError::InvalidId),
    {
        match self.get_campaign_data(id) {
            Ok(c) => Ok(c.category_id),
            Err(e) => Err(e),
        }
    }

    /// The administrator of the campaign with this id.
    pub fn get_campaign_admin(&self, id: u64) -> (r: Result<Account, DonlyError>)
        ensures
            self@.has_campaign(id) ==> r == Ok::<Account, DonlyError>(self@.campaign(id).admin),
            !self@.has_campaign(id) ==> r == Err::<Account, DonlyError>(DonlyError::InvalidId),
    {
        match self.get_campaign_data(id) {
            Ok(c) => Ok(c.admin),
            Err(e) => Err(e),
        }
    }

    /// Whether the campaign with this id is active.
    pub fn get_campaign_is_active(&self, id: u64) -> (r: Result<bool, DonlyError>)
        ensures
            self@.has_campaign(id) ==> r == Ok::<bool, DonlyError>(self@.campaign(id).active),
            !self@.has_campaign(id) ==> r == Err::<bool, DonlyError>(DonlyError::InvalidId),
    {
        match self.get_campaign_data(id) {
            Ok(c) => Ok(c.active),
            Err(e) => Err(e),
        }
    }

    /// How many products the campaign with this id has sold.
    pub fn get_campaign_sold_products_count(&self, id: u64) -> (r: Result<u64, DonlyError>)
        ensures
            self@.has_campaign(id) ==> r == Ok::<u64, DonlyError>(self@.campaign(id).sold_units),
            !self@.has_campaign(id) ==> r == Err::<u64, DonlyError>(DonlyError::InvalidId),
    {
        match self.get_campaign_data(id) {
            Ok(c) => Ok(c.sold_units),
            Err(e) => Err(e),
        }
    }

    /// How many sales complete the campaign with this id.
    pub fn get_campaign_max_sold_products(&self, id: u64) -> (r: Result<u64, DonlyError>)
        ensures
            self@.has_campaign(id) ==> r == Ok::<u64, DonlyError>(self@.campaign(id).max_units),
            !self@.has_campaign(id) ==> r == Err::<u64, DonlyError>(DonlyError::InvalidId),
    {
        match self.get_campaign_data(id) {
            Ok(c) => Ok(c.max_units),
            Err(e) => Err(e),
        }
    }

    /// The title fingerprint of the campaign with this id.
    pub fn get_campaign_title_hash(&self, id: u64) -> (r: Result<Fingerprint, DonlyError>)
        ensures
            self@.has_campaign(id) ==> r == Ok::<Fingerprint, DonlyError>(self@.campaign(id).title_hash),
            !self@.has_campaign(id) ==> r == Err::<Fingerprint, DonlyError>(DonlyError::InvalidId),
    {
        match self.get_campaign_data(id) {
            Ok(c) => Ok(c.title_hash),
            Err(e) => Err(e),
        }
    }

    /// The description fingerprint of the campaign with this id.
    pub fn get_campaign_description_hash(&self, id: u64) -> (r: Result<Fingerprint, DonlyError>)
        ensures
            self@.has_campaign(id) ==> r == Ok::<Fingerprint, DonlyError>(self@.campaign(id).description_hash),
            !self@.has_campaign(id) ==> r == Err::<Fingerprint, DonlyError>(DonlyError::InvalidId),
    {
        match self.get_campaign_data(id) {
            Ok(c) => Ok(c.description_hash),
            Err(e) => Err(e),
        }
    }

    /// Where the campaign with this id pays out.
    pub fn get_campaign_destination_wallet(&self, id: u64) -> (r: Result<Account, DonlyError>)
        ensures
            self@.has_campaign(id) ==> r == Ok::<Account, DonlyError>(self@.campaign(id).destination),
            !self@.has_campaign(id) ==> r == Err::<Account, DonlyError>(DonlyError::InvalidId),
    {
        match self.get_campaign_data(id) {
            Ok(c) => Ok(c.destination),
            Err(e) => Err(e),
        }
    }

    /// The funds that the campaign with this id holds for payout.
    pub fn get_campaign_total_amount_collected(&self, id: u64) -> (r: Result<u128, DonlyError>)
        ensures
            self@.has_campaign(id) ==> r == Ok::<u128, DonlyError>(self@.campaign(id).collected_amount),
            !self@.has_campaign(id) ==> r == Err::<u128, DonlyError>(DonlyError::InvalidId),
    {
        match self.get_campaign_data(id) {
            Ok(c) => Ok(c.collected_amount),
            Err(e) => Err(e),
        }
    }

    /// Cancels the active campaign with this id at time `now`. Only its
    /// administrator may.
    pub fn deactivate_campaign(&mut self, caller: Account, id: u64, now: u64) -> (r: Result<(), DonlyError>)
        requires
            old(self).wf(),
        ensures
            final(self).wf(),
            r == old(self)@.deactivate_campaign_result(caller, id),
            r is Err ==> *final(self) == *old(self),
            sales_kept(old(self)@, final(self)@),
            r is Ok ==> final(self)@ == old(self)@.deactivate_campaign_state(id, now),
    {
        if id == 0 || id > self.campaigns.len() as u64 {
            return Err(DonlyError::InvalidId);
        }
        let i = (id - 1) as usize;
        let c = self.campaigns[i];
        if !c.active {
            return Err(DonlyError::NotActive(EntityKind::Campaign));
        }
        if !c.admin.same_as(&caller) {
            return Err(DonlyError::Unauthorized);
        }
        self.campaigns.set(i, Campaign { active: false, status: CampaignStatus::Cancelled, completed_at: now, ..c });
        proof {
            lemma_campaign_update_wf(old(self)@, id, cancelled_campaign(c, now));
            assert(self@ == old(self)@.deactivate_campaign_state(id, now));
        }
        Ok(())
    }

    /// Completes the active campaign with this id at time `now`, before its
    /// target is met, and returns the payout of what it collected. Only its
    /// administrator may, and only once it holds funds. The funds stay
    /// recorded until the payout is recorded as delivered.
    pub fn complete_campaign(&mut self, caller: Account, id: u64, now: u64) -> (r: Result<Payout, DonlyError>)
        requires
            old(self).wf(),
        ensures
            final(self).wf(),
            r == old(self)@.complete_campaign_result(caller, id),
            r is Err ==> *final(self) == *old(self),
            sales_kept(old(self)@, final(self)@),
            r is Ok ==> final(self)@ == old(self)@.complete_campaign_state(id, now),
    {
        if id == 0 || id > self.campaigns.len() as u64 {
            return Err(DonlyError::InvalidId);
        }
        let i = (id - 1) as usize;
        let c = self.campaigns[i];
        if !c.active {
            return Err(DonlyError::NotActive(EntityKind::Campaign));
        }
        if !c.admin.same_as(&caller) {
            return Err(DonlyError::Unauthorized);
        }
        if c.collected_amount == 0 {
            return Err(DonlyError::NoFundsToTransfer);
        }
        self.campaigns.set(i, Campaign { active: false, status: CampaignStatus::Completed, completed_at: now, ..c });
        proof {
            lemma_campaign_update_wf(old(self)@, id, completed_campaign(c, now));
            assert(self@ == old(self)@.complete_campaign_state(id, now));
        }
        Ok(Payout { campaign_id: id, destination: c.destination, amount: c.collected_amount })
    }

    /// The payout of what the campaign with this id holds. Only its
    /// administrator may ask, and only while it holds funds. Nothing changes
    /// until the payout is recorded as delivered.
    pub fn withdraw_campaign_funds(&self, caller: Account, id: u64) -> (r: Result<Payout, DonlyError>)
        ensures
            r == self@.withdraw_result(caller, id),
    {
        if id == 0 || id > self.campaigns.len() as u64 {
            return Err(DonlyError::InvalidId);
        }
        let c = self.campaigns[(id - 1) as usize];
        if !c.admin.same_as(&caller) {
            return Err(DonlyError::Unauthorized);
        }
        if c.collected_amount == 0 {
            return Err(DonlyError::NoFundsToTransfer);
        }
        Ok(Payout { campaign_id: id, destination: c.destination, amount: c.collected_amount })
    }

    /// Records the outcome of `payout`: once delivered, its amount leaves
    /// the campaign's funds; otherwise nothing changes and the funds stay for
    /// a later withdrawal. The campaign must still hold that amount.
    pub fn record_payout(&mut self, payout: Payout, delivered: bool) -> (r: Result<(), DonlyError>)
        requires
            old(self).wf(),
        ensures
            final(self).wf(),
            r == old(self)@.record_payout_result(payout, delivered),
            r is Err ==> *final(self) == *old(self),
            sales_kept(old(self)@, final(self)@),
            r is Ok ==> final(self)@ == old(self)@.record_payout_state(payout),
    {
        let id = payout.campaign_id;
        if id == 0 || id > self.campaigns.len() as u64 {
            return Err(DonlyError::InvalidId);
        }
        let i = (id - 1) as usize;
        let c = self.campaigns[i];
        if payout.amount > c.collected_amount {
            return Err(DonlyError::NoFundsToTransfer);
        }
        if !delivered {
            return Err(DonlyError::TransferFailed);
        }
        let rest = Campaign { collected_amount: c.collected_amount - payout.amount, ..c };
        self.campaigns.set(i, rest);
        proof {
            lemma_campaign_update_wf(old(self)@, id, rest);
            assert(self@ == old(self)@.record_payout_state(payout));
        }
        Ok(())
    }

    // ===== products =====

    /// The number of products created.
    pub fn product_count(&self) -> (r: u64)
        ensures
            r == self@.products.len(),
    {
        self.products.len() as u64
    }

    /// Adds a product to campaign `campaign_id` in category `category_id`,
    /// owned by `caller`, for sale at `price`; returns its id. The campaign and
    /// the category must exist and be active; the price must be positive and
    /// fit in `u64`; name, description and image URL must hold 1 to 64, 256
    /// and 128 bytes.
    pub fn add_product(
        &mut self,
        caller: Account,
        campaign_id: u64,
        category_id: u64,
        name: &str,
        description: &str,
        image_url: &str,
        price: u128,
        now: u64,
    ) -> (r: Result<u64, DonlyError>)
        requires
            old(self).wf(),
            old(self)@.products.len() < u64::MAX,
        ensures
            final(self).wf(),
            r == old(self)@.add_product_result(campaign_id, category_id, name, description, image_url, price),
            r is Err ==> *final(self) == *old(self),
            sales_kept(old(self)@, final(self)@),
            r is Ok ==> old(self)@.adds_product(
                final(self)@,
                caller,
                campaign_id,
                category_id,
                name,
                description,
                image_url,
                price,
                now,
            ),
    {
        if campaign_id == 0 || campaign_id > self.campaigns.len() as u64 {
            return Err(DonlyError::InvalidId);
        }
        if !self.campaigns[(campaign_id - 1) as usize].active {
            return Err(DonlyError::NotActive(EntityKind::Campaign));
        }
        if category_id == 0 || category_id > self.categories.len() as u64 {
            return Err(DonlyError::InvalidId);
        }
        if !self.categories[(category_id - 1) as usize].active {
            return Err(DonlyError::NotActive(EntityKind::Category));
        }
        if price == 0 || price > u64::MAX as u128 {
            return Err(DonlyError::InvalidInput(InputField::Price));
        }
        if !check_text(name, MAX_NAME_LEN) {
            return Err(DonlyError::InvalidInput(InputField::Name));
        }
        if !check_text(description, MAX_DESCRIPTION_LEN) {
            return Err(DonlyError::InvalidInput(InputField::Description));
        }
        if !check_text(image_url, MAX_IMAGE_URL_LEN) {
            return Err(DonlyError::InvalidInput(InputField::ImageUrl));
        }
        let id = self.products.len() as u64 + 1;
        let product = Product {
            id,
            campaign_id,
            category_id,
            name_hash: fingerprint(name),
            description_hash: fingerprint(description),
            image_hash: fingerprint(image_url),
            price: price as u64,
            owner: caller,
            active: true,
            sold: false,
            created_at: now,
            sold_at: 0,
        };
        self.products.push(product);
        let c = (campaign_id - 1) as usize;
        self.campaign_products[c].push(id);
        proof {
            let s = old(self)@;
            let t = self@;
            assert(campaign_wf(s.campaigns[c as int], c as int, s.categories.len()));
            assert forall|i: int| 0 <= i < t.products.len() implies t.product_wf(#[trigger] t.products[i], i) by {
                if i < s.products.len() {
                    assert(s.product_wf(s.products[i], i));
                }
            }
            assert forall|c2: int, k: int|
                0 <= c2 < self.campaign_products@.len() && 0 <= k < self.campaign_products@[c2]@.len() implies {
                    let id = #[trigger] self.campaign_products@[c2]@[k];
                    &&& 1 <= id <= self.products@.len()
                    &&& self.products@[id - 1].campaign_id == c2 + 1
                } by {
                if c2 != c || k < old(self).campaign_products@[c2]@.len() {
                    let id = old(self).campaign_products@[c2]@[k];
                    assert(self.products@[id - 1] == old(self).products@[id - 1]);
                }
            }
            assert forall|i: int| 0 <= i < self.products@.len() implies self.campaign_products@[(
            #[trigger] self.products@[i]).campaign_id - 1]@.contains((i + 1) as u64) by {
                if i < old(self).products@.len() {
                    let p = self.products@[i];
                    assert(s.product_wf(s.products[i], i));
                    let k = choose|k: int|
                        0 <= k < old(self).campaign_products@[p.campaign_id - 1]@.len()
                            && #[trigger] old(self).campaign_products@[p.campaign_id - 1]@[k] == (i + 1) as u64;
                    assert(self.campaign_products@[p.campaign_id - 1]@[k] == (i + 1) as u64);
                } else {
                    assert(self.campaign_products@[c as int]@.last() == id);
                }
            }
        }
        Ok(id)
    }

    /// The product with this id.
    pub fn get_product_data(&self, id: u64) -> (r: Result<Product, DonlyError>)
        ensures
            r == self@.product_result(id),
    {
        if id == 0 || id > self.products.len() as u64 {
            Err(DonlyError::InvalidId)
        } else {
            Ok(self.products[(id - 1) as usize])
        }
    }

    /// The campaign of the product with this id.
    pub fn get_product_campaign_id(&self, id: u64) -> (r: Result<u64, DonlyError>)
        ensures
            self@.has_product(id) ==> r == Ok::<u64, DonlyError>(self@.product(id).campaign_id),
            !self@.has_product(id) ==> r == Err::<u64, DonlyError>(DonlyError::InvalidId),
    {
        match self.get_product_data(id) {
            Ok(p) => Ok(p.campaign_id),
            Err(e) => Err(e),
        }
    }

    /// The category of the product with this id.
    pub fn get_product_category_id(&self, id: u64) -> (r: Result<u64, DonlyError>)
        ensures
            self@.has_product(id) ==> r == Ok::<u64, DonlyError>(self@.product(id).category_id),
            !self@.has_product(id) ==> r == Err::<u64, DonlyError>(DonlyError::InvalidId),
    {
        match self.get_product_data(id) {
            Ok(p) => Ok(p.category_id),
            Err(e) => Err(e),
        }
    }

    /// The price of the product with this id.
    pub fn get_product_price(&self, id: u64) -> (r: Result<u64, DonlyError>)
        ensures
            self@.has_product(id) ==> r == Ok::<u64, DonlyError>(self@.product(id).price),
            !self@.has_product(id) ==> r == Err::<u64, DonlyError>(DonlyError::InvalidId),
    {
        match self.get_product_data(id) {
            Ok(p) => Ok(p.price),
            Err(e) => Err(e),
        }
    }

    /// Whether the product with this id is on sale.
    pub fn get_product_is_active(&self, id: u64) -> (r: Result<bool, DonlyError>)
        ensures
            self@.has_product(id) ==> r == Ok::<bool, DonlyError>(self@.product(id).active),
            !self@.has_product(id) ==> r == Err::<bool, DonlyError>(DonlyError::InvalidId),
    {
        match self.get_product_data(id) {
            Ok(p) => Ok(p.active),
            Err(e) => Err(e),
        }
    }

    /// Whether the product with this id is sold.
    pub fn get_product_is_sold(&self, id: u64) -> (r: Result<bool, DonlyError>)
        ensures
            self@.has_product(id) ==> r == Ok::<bool, DonlyError>(self@.product(id).sold),
            !self@.has_product(id) ==> r == Err::<bool, DonlyError>(DonlyError::InvalidId),
    {
        match self.get_product_data(id) {
            Ok(p) => Ok(p.sold),
            Err(e) => Err(e),
        }
    }

    /// The name fingerprint of the product with this id.
    pub fn get_product_name_hash(&self, id: u64) -> (r: Result<Fingerprint, DonlyError>)
        ensures
            self@.has_product(id) ==> r == Ok::<Fingerprint, DonlyError>(self@.product(id).name_hash),
            !self@.has_product(id) ==> r == Err::<Fingerprint, DonlyError>(DonlyError::InvalidId),
    {
        match self.get_product_data(id) {
            Ok(p) => Ok(p.name_hash),
            Err(e) => Err(e),
        }
    }

    /// The description fingerprint of the product with this id.
    pub fn get_product_description_hash(&self, id: u64) -> (r: Result<Fingerprint, DonlyError>)
        ensures
            self@.has_product(id) ==> r == Ok::<Fingerprint, DonlyError>(self@.product(id).description_hash),
            !self@.has_product(id) ==> r == Err::<Fingerprint, DonlyError>(DonlyError::InvalidId),
    {
        match self.get_product_data(id) {
            Ok(p) => Ok(p.description_hash),
            Err(e) => Err(e),
        }
    }

    /// The owner of the product with this id.
    pub fn get_product_owner(&self, id: u64) -> (r: Result<Account, DonlyError>)
        ensures
            self@.has_product(id) ==> r == Ok::<Account, DonlyError>(self@.product(id).owner),
            !self@.has_product(id) ==> r == Err::<Account, DonlyError>(DonlyError::InvalidId),
    {
        match self.get_product_data(id) {
            Ok(p) => Ok(p.owner),
            Err(e) => Err(e),
        }
    }

    /// Withdraws the product with this id from sale. Its owner or its
    /// campaign's administrator may, while it is on sale and unsold.
    pub fn deactivate_product(&mut self, caller: Account, id: u64) -> (r: Result<(), DonlyError>)
        requires
            old(self).wf(),
        ensures
            final(self).wf(),
            r == old(self)@.deactivate_product_result(caller, id),
            r is Err ==> *final(self) == *old(self),
            sales_kept(old(self)@, final(self)@),
            r is Ok ==> final(self)@ == old(self)@.deactivate_product_state(id),
    {
        if id == 0 || id > self.products.len() as u64 {
            return Err(DonlyError::InvalidId);
        }
        let j = (id - 1) as usize;
        let p = self.products[j];
        if p.sold {
            return Err(DonlyError::AlreadySold);
        }
        if !p.active {
            return Err(DonlyError::NotActive(EntityKind::Product));
        }
        proof {
            assert(self@.product_wf(self@.products[j as int], j as int));
            assert(self.campaigns@.len() == self.campaigns.len());
        }
        let admin = self.campaigns[(p.campaign_id - 1) as usize].admin;
        if !p.owner.same_as(&caller) && !admin.same_as(&caller) {
            return Err(DonlyError::Unauthorized);
        }
        self.products.set(j, Product { active: false, ..p });
        proof {
            lemma_product_update_wf(old(self)@, id, deactivated_product(p));
            assert(self@ == old(self)@.deactivate_product_state(id));
            self.lemma_index_kept(old(self));
        }
        Ok(())
    }

    /// The index stays exact while products keep their campaigns.
    proof fn lemma_index_kept(&self, before: &Donly)
        requires
            before.index_wf(),
            self.campaign_products == before.campaign_products,
            self.campaigns@.len() == before.campaigns@.len(),
            self.products@.len() == before.products@.len(),
            forall|i: int| 0 <= i < self.products@.len()
                ==> (#[trigger] self.products@[i]).campaign_id == before.products@[i].campaign_id,
        ensures
            self.index_wf(),
    {
        assert forall|c: int, k: int|
            0 <= c < self.campaign_products@.len() && 0 <= k < self.campaign_products@[c]@.len() implies {
                let id = #[trigger] self.campaign_products@[c]@[k];
                &&& 1 <= id <= self.products@.len()
                &&& self.products@[id - 1].campaign_id == c + 1
            } by {
            let id = self.campaign_products@[c]@[k];
            assert(before.campaign_products@[c]@[k] == id);
            assert(self.products@[id - 1].campaign_id == before.products@[id - 1].campaign_id);
        }
        assert forall|i: int| 0 <= i < self.products@.len() implies self.campaign_products@[(
        #[trigger] self.products@[i]).campaign_id - 1]@.contains((i + 1) as u64) by {
            assert(before.campaign_products@[before.products@[i].campaign_id - 1]@.contains((i + 1) as u64));
        }
    }

    /// Withdraws from sale every product of campaign `campaign_id` that is
    /// still on sale, visiting only that campaign's products.
    fn close_campaign_products(&mut self, campaign_id: u64)
        requires
            old(self).index_wf(),
            1 <= campaign_id <= old(self).campaigns@.len(),
        ensures
            final(self).products@ == close_products(old(self).products@, campaign_id),
            final(self).categories == old(self).categories,
            final(self).campaigns == old(self).campaigns,
            final(self).campaign_products == old(self).campaign_products,
            final(self).index_wf(),
    {
        proof {
            assert(self.campaigns@.len() == self.campaigns.len());
        }
        let c = (campaign_id - 1) as usize;
        let n = self.campaign_products[c].len();
        let ghost orig = old(self).products@;
        let ghost ids = self.campaign_products@[c as int]@;
        let mut k: usize = 0;
        while k < n
            invariant
                0 <= k <= n,
                n == ids.len(),
                c == campaign_id - 1,
                1 <= campaign_id <= old(self).campaigns@.len(),
                old(self).index_wf(),
                ids == old(self).campaign_products@[c as int]@,
                orig == old(self).products@,
                self.categories == old(self).categories,
                self.campaigns == old(self).campaigns,
                self.campaign_products == old(self).campaign_products,
                self.products@.len() == orig.len(),
                forall|i: int| 0 <= i < orig.len() ==> #[trigger] self.products@[i] == if orig[i].campaign_id
                    == campaign_id && orig[i].active && !orig[i].sold && ids.subrange(0, k as int).contains(
                    (i + 1) as u64,
                ) {
                    deactivated_product(orig[i])
                } else {
                    orig[i]
                },
            decreases n - k,
        {
            let id = self.campaign_products[c][k];
            proof {
                assert(ids[k as int] == id);
                assert(old(self).campaign_products@[c as int]@[k as int] == id);
                assert(1 <= id <= orig.len());
                assert(self.products@.len() == self.products.len());
                assert(orig[id - 1].campaign_id == campaign_id);
            }
            let j = (id - 1) as usize;
            let p = self.products[j];
            if p.active && !p.sold {
                self.products.set(j, Product { active: false, ..p });
            }
            proof {
                assert(ids.subrange(0, k + 1) =~= ids.subrange(0, k as int).push(id));
                assert forall|i: int| 0 <= i < orig.len() implies #[trigger] self.products@[i] == if orig[i].campaign_id
                    == campaign_id && orig[i].active && !orig[i].sold && ids.subrange(0, k + 1).contains(
                    (i + 1) as u64,
                ) {
                    deactivated_product(orig[i])
                } else {
                    orig[i]
                } by {
                    let pre = ids.subrange(0, k as int);
                    let next = ids.subrange(0, k + 1);
                    if i != j {
                        if pre.contains((i + 1) as u64) {
                            let m = choose|m: int| 0 <= m < pre.len() && pre[m] == (i + 1) as u64;
                            assert(next[m] == (i + 1) as u64);
                        }
                        if next.contains((i + 1) as u64) {
                            let m = choose|m: int| 0 <= m < next.len() && next[m] == (i + 1) as u64;
                            assert(m != k);
                            assert(pre[m] == (i + 1) as u64);
                        }
                    } else {
                        assert(next[k as int] == id);
                    }
                }
            }
            k = k + 1;
        }
        proof {
            assert(ids.subrange(0, n as int) =~= ids);
            assert(self.products@ =~= close_products(orig, campaign_id)) by {
                assert forall|i: int| 0 <= i < orig.len() implies #[trigger] self.products@[i] == close_products(
                    orig,
                    campaign_id,
                )[i] by {
                    if orig[i].campaign_id == campaign_id {
                        assert(old(self).campaign_products@[orig[i].campaign_id - 1]@.contains((i + 1) as u64));
                    }
                }
            }
            self.lemma_index_kept(old(self));
        }
    }

    /// Buys the product with this id with a payment of `paid` at time `now`.
    /// The product must be unsold and on sale, its campaign active, and the
    /// payment equal to its price. The sale is counted in the campaign; if it
    /// meets the campaign's target, the campaign completes, its other
    /// products leave sale, and the payout of everything it collected is
    /// returned. The funds stay recorded until the payout is recorded as
    /// delivered.
    pub fn purchase_product(&mut self, id: u64, paid: u128, now: u64) -> (r: Result<Option<Payout>, DonlyError>)
        requires
            old(self).wf(),
        ensures
            final(self).wf(),
            r == old(self)@.purchase_result(id, paid),
            r is Err ==> *final(self) == *old(self),
            sales_kept(old(self)@, final(self)@),
            r is Ok ==> final(self)@ == old(self)@.purchase_state(id, now),
    {
        if id == 0 || id > self.products.len() as u64 {
            return Err(DonlyError::InvalidId);
        }
        let j = (id - 1) as usize;
        let p = self.products[j];
        if p.sold {
            return Err(DonlyError::AlreadySold);
        }
        if !p.active {
            return Err(DonlyError::NotActive(EntityKind::Product));
        }
        proof {
            assert(self@.product_wf(self@.products[j as int], j as int));
            assert(self.campaigns@.len() == self.campaigns.len());
        }
        let cid = p.campaign_id;
        let ci = (cid - 1) as usize;
        let c = self.campaigns[ci];
        if !c.active {
            return Err(DonlyError::NotActive(EntityKind::Campaign));
        }
        if paid != p.price as u128 {
            return Err(DonlyError::IncorrectFundsSent);
        }
        proof {
            assert(campaign_wf(self@.campaigns[ci as int], ci as int, self@.categories.len()));
            lemma_sale_fits(c.collected_amount as int, c.sold_units as int, c.max_units as int, p.price as int);
            lemma_purchase_wf(old(self)@, id, paid, now);
        }
        let sold_units = c.sold_units + 1;
        let collected_amount = c.collected_amount + p.price as u128;
        self.products.set(j, Product { active: false, sold: true, sold_at: now, ..p });
        if sold_units >= c.max_units {
            self.campaigns.set(
                ci,
                Campaign {
                    sold_units,
                    collected_amount,
                    active: false,
                    status: CampaignStatus::Completed,
                    completed_at: now,
                    ..c
                },
            );
            proof {
                self.lemma_index_kept(old(self));
            }
            self.close_campaign_products(cid);
            proof {
                assert(self@ == old(self)@.purchase_state(id, now));
            }
            Ok(Some(Payout { campaign_id: cid, destination: c.destination, amount: collected_amount }))
        } else {
            self.campaigns.set(ci, Campaign { sold_units, collected_amount, ..c });
            proof {
                self.lemma_index_kept(old(self));
                assert(self@ == old(self)@.purchase_state(id, now));
            }
            Ok(None)
        }
    }

    /// Every category record, in the order of their ids.
    pub fn get_all_categories(&self) -> (r: Vec<Category>)
        ensures
            r@ == self@.categories,
    {
        let mut r: Vec<Category> = Vec::new();
        let mut i: usize = 0;
        while i < self.categories.len()
            invariant
                0 <= i <= self.categories@.len(),
                r@ == self.categories@.subrange(0, i as int),
            decreases self.categories@.len() - i,
        {
            r.push(self.categories[i]);
            i = i + 1;
        }
        proof {
            assert(self.categories@.subrange(0, i as int) =~= self.categories@);
        }
        r
    }

    /// Every campaign record, in the order of their ids.
    pub fn get_all_campaigns(&self) -> (r: Vec<Campaign>)
        ensures
            r@ == self@.campaigns,
    {
        let mut r: Vec<Campaign> = Vec::new();
        let mut i: usize = 0;
        while i < self.campaigns.len()
            invariant
                0 <= i <= self.campaigns@.len(),
                r@ == self.campaigns@.subrange(0, i as int),
            decreases self.campaigns@.len() - i,
        {
            r.push(self.campaigns[i]);
            i = i + 1;
        }
        proof {
            assert(self.campaigns@.subrange(0, i as int) =~= self.campaigns@);
        }
        r
    }

    /// Every product record, in the order of their ids.
    pub fn get_all_products(&self) -> (r: Vec<Product>)
        ensures
            r@ == self@.products,
    {
        let mut r: Vec<Product> = Vec::new();
        let mut i: usize = 0;
        while i < self.products.len()
            invariant
                0 <= i <= self.products@.len(),
                r@ == self.products@.subrange(0, i as int),
            decreases self.products@.len() - i,
        {
            r.push(self.products[i]);
            i = i + 1;
        }
        proof {
            assert(self.products@.subrange(0, i as int) =~= self.products@);
        }
        r
    }
}

} // verus!
