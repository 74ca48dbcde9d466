//! The mathematical model of the ledger: its records as sequences indexed by
//! id, the invariant that every operation keeps, and the result and the new
//! state of each operation.
use crate::fingerprint::{text_fingerprint, text_fits};
use crate::types::{
    Account, Campaign, CampaignStatus, Category, DonlyError, EntityKind, InputField,
    Payout, Product,
};
use vstd::prelude::*;

verus! {

/// Longest name or title, in bytes.
pub const MAX_NAME_LEN: usize = 64;

/// Longest description, in bytes.
pub const MAX_DESCRIPTION_LEN: usize = 256;

/// Longest image URL, in bytes.
pub const MAX_IMAGE_URL_LEN: usize = 128;

/// The largest price, and so the largest amount that one sale adds to a
/// campaign's funds.
pub open spec fn max_price() -> int {
    u64::MAX as int
}

/// The ledger's content: the record with id `i` stands at index `i - 1`.
pub struct DonlyView {
    pub categories: Seq<Category>,
    pub campaigns: Seq<Campaign>,
    pub products: Seq<Product>,
}

/// A category as it stands once deactivated.
pub open spec fn deactivated_category(c: Category) -> Category {
    Category { active: false, ..c }
}

/// A product as it stands once withdrawn from sale.
pub open spec fn deactivated_product(p: Product) -> Product {
    Product { active: false, ..p }
}

/// A product as it stands once sold at time `now`.
pub open spec fn sold_product(p: Product, now: u64) -> Product {
    Product { active: false, sold: true, sold_at: now, ..p }
}

/// A campaign as it stands once cancelled at time `now`.
pub open spec fn cancelled_campaign(c: Campaign, now: u64) -> Campaign {
    Campaign { active: false, status: CampaignStatus::Cancelled, completed_at: now, ..c }
}

/// A campaign as it stands once completed at time `now`.
pub open spec fn completed_campaign(c: Campaign, now: u64) -> Campaign {
    Campaign { active: false, status: CampaignStatus::Completed, completed_at: now, ..c }
}

/// A campaign once a sale of `price` is recorded at time `now`: one more unit
/// sold, the price added to its funds, and completion once the target is met.
pub open spec fn campaign_after_sale(c: Campaign, price: u64, now: u64) -> Campaign {
    let c1 = Campaign {
        sold_units: (c.sold_units + 1) as u64,
        collected_amount: (c.collected_amount + price) as u128,
        ..c
    };
    if c1.sold_units >= c1.max_units {
        completed_campaign(c1, now)
    } else {
        c1
    }
}

/// The products once campaign `campaign_id` has closed: each of its products
/// that is still on sale is withdrawn; every other product is kept.
pub open spec fn close_products(products: Seq<Product>, campaign_id: u64) -> Seq<Product> {
    Seq::new(
        products.len(),
        |i: int|
            if products[i].campaign_id == campaign_id && products[i].active && !products[i].sold {
                deactivated_product(products[i])
            } else {
                products[i]
            },
    )
}

/// The error for a text input, if its length is out of range.
pub open spec fn text_error(text: &str, max: usize, field: InputField) -> Option<DonlyError> {
    if text_fits(text, max as nat) {
        None
    } else {
        Some(DonlyError::InvalidInput(field))
    }
}

/// Whether every product sold in `s` is still there in `t`, unchanged: sold
/// and no longer on sale.
pub open spec fn sales_kept(s: DonlyView, t: DonlyView) -> bool {
    &&& s.products.len() <= t.products.len()
    &&& forall|i: int| 0 <= i < s.products.len() && (#[trigger] s.products[i]).sold ==> t.products[i] == s.products[i]
}

/// What the invariant asks of the campaign at index `i`.
pub open spec fn campaign_wf(c: Campaign, i: int, n_categories: nat) -> bool {
    &&& c.id == i + 1
    &&& 1 <= c.category_id <= n_categories
    &&& c.max_units > 0
    &&& c.sold_units <= c.max_units
    &&& c.collected_amount <= c.sold_units * max_price()
    &&& c.active <==> c.status == CampaignStatus::Active
    &&& c.sold_units == c.max_units ==> c.status == CampaignStatus::Completed
}

impl DonlyView {
    pub open spec fn has_category(self, id: u64) -> bool {
        1 <= id <= self.categories.len()
    }

    pub open spec fn has_campaign(self, id: u64) -> bool {
        1 <= id <= self.campaigns.len()
    }

    pub open spec fn has_product(self, id: u64) -> bool {
        1 <= id <= self.products.len()
    }

    pub open spec fn category(self, id: u64) -> Category {
        self.categories[id - 1]
    }

    pub open spec fn campaign(self, id: u64) -> Campaign {
        self.campaigns[id - 1]
    }

    pub open spec fn product(self, id: u64) -> Product {
        self.products[id - 1]
    }

    /// Whether some category, active or not, has a name with these digest bytes.
    pub open spec fn name_taken(self, name_hash: Seq<u8>) -> bool {
        exists|i: int| 0 <= i < self.categories.len() && self.categories[i].name_hash.bytes@ == name_hash
    }

    /// What the invariant asks of the product at index `i`.
    pub open spec fn product_wf(self, p: Product, i: int) -> bool {
        &&& p.id == i + 1
        &&& self.has_campaign(p.campaign_id)
        &&& self.has_category(p.category_id)
        &&& p.price > 0
        &&& p.sold ==> !p.active
        &&& p.active ==> self.campaign(p.campaign_id).sold_units < self.campaign(p.campaign_id).max_units
    }

    /// The invariant: ids are dense and in order, category names are unique,
    /// every reference points to an existing record, a campaign never sells
    /// more than its target and completes when it reaches it, and a product of
    /// a campaign that reached its target is no longer on sale.
    pub open spec fn wf(self) -> bool {
        &&& forall|i: int| 0 <= i < self.categories.len() ==> (#[trigger] self.categories[i]).id == i + 1
        &&& forall|i: int, j: int|
            0 <= i < self.categories.len() && 0 <= j < self.categories.len() && i != j
                ==> (#[trigger] self.categories[i]).name_hash != (#[trigger] self.categories[j]).name_hash
        &&& forall|i: int| 0 <= i < self.campaigns.len()
            ==> campaign_wf(#[trigger] self.campaigns[i], i, self.categories.len())
        &&& forall|i: int| 0 <= i < self.products.len() ==> self.product_wf(#[trigger] self.products[i], i)
    }

    pub open spec fn with_categories(self, categories: Seq<Category>) -> DonlyView {
        DonlyView { categories, ..self }
    }

    pub open spec fn with_campaigns(self, campaigns: Seq<Campaign>) -> DonlyView {
        DonlyView { campaigns, ..self }
    }

    pub open spec fn with_products(self, products: Seq<Product>) -> DonlyView {
        DonlyView { products, ..self }
    }

    // ----- categories -----

    /// The result of registering a category whose name has digest `name_hash`.
    pub open spec fn register_category_result(self, name_hash: Seq<u8>) -> Result<u64, DonlyError> {
        if self.name_taken(name_hash) {
            Err(DonlyError::NameExists)
        } else {
            Ok((self.categories.len() + 1) as u64)
        }
    }

    /// Whether `next` is this state with one category added: the next id,
    /// a name with digest `name_hash`, created by `caller`, active.
    pub open spec fn adds_category(self, next: DonlyView, caller: Account, name_hash: Seq<u8>) -> bool {
        let c = next.categories.last();
        &&& next == self.with_categories(self.categories.push(c))
        &&& c.id == self.categories.len() + 1
        &&& c.name_hash.bytes@ == name_hash
        &&& c.creator == caller
        &&& c.active
    }

    /// The result of creating a category named `name`: the name is checked
    /// first, then its uniqueness.
    pub open spec fn create_category_result(self, name: &str) -> Result<u64, DonlyError> {
        match text_error(name, MAX_NAME_LEN, InputField::Name) {
            Some(e) => Err(e),
            None => self.register_category_result(text_fingerprint(name)),
        }
    }

    /// A category record looked up by id.
    pub open spec fn category_result(self, id: u64) -> Result<Category, DonlyError> {
        if self.has_category(id) {
            Ok(self.category(id))
        } else {
            Err(DonlyError::InvalidId)
        }
    }

    pub open spec fn deactivate_category_result(self, caller: Account, id: u64) -> Result<(), DonlyError> {
        if !self.has_category(id) {
            Err(DonlyError::InvalidId)
        } else if !self.category(id).active {
            Err(DonlyError::NotActive(EntityKind::Category))
        } else if self.category(id).creator != caller {
            Err(DonlyError::Unauthorized)
        } else {
            Ok(())
        }
    }

    pub open spec fn deactivate_category_state(self, id: u64) -> DonlyView {
        self.with_categories(self.categories.update(id - 1, deactivated_category(self.category(id))))
    }

    // ----- campaigns -----

    /// The result of creating a campaign: the category is checked first,
    /// then the title, the description, the image URL and the target
    /// (positive, and within `u64`).
    pub open spec fn create_campaign_result(
        self,
        category_id: u64,
        title: &str,
        description: &str,
        image_url: &str,
        max_units: u128,
    ) -> Result<u64, DonlyError> {
        if !self.has_category(category_id) {
            Err(DonlyError::InvalidId)
        } else if !self.category(category_id).active {
            Err(DonlyError::NotActive(EntityKind::Category))
        } else if text_error(title, MAX_NAME_LEN, InputField::Name) is Some {
            Err(DonlyError::InvalidInput(InputField::Name))
        } else if text_error(description, MAX_DESCRIPTION_LEN, InputField::Description) is Some {
            Err(DonlyError::InvalidInput(InputField::Description))
        } else if text_error(image_url, MAX_IMAGE_URL_LEN, InputField::ImageUrl) is Some {
            Err(DonlyError::InvalidInput(InputField::ImageUrl))
        } else if max_units == 0 || max_units > u64::MAX {
            Err(DonlyError::InvalidInput(InputField::MaxUnits))
        } else {
            Ok((self.campaigns.len() + 1) as u64)
        }
    }

    /// Whether `next` is this state with one campaign added: the next id,
    /// administered by `caller`, with nothing sold and nothing collected yet.
    pub open spec fn adds_campaign(
        self,
        next: DonlyView,
        caller: Account,
        category_id: u64,
        title: &str,
        description: &str,
        image_url: &str,
        destination: Account,
        max_units: u128,
        now: u64,
    ) -> bool {
        let c = next.campaigns.last();
        &&& next == self.with_campaigns(self.campaigns.push(c))
        &&& c.id == self.campaigns.len() + 1
        &&& c.category_id == category_id
        &&& c.title_hash.bytes@ == text_fingerprint(title)
        &&& c.description_hash.bytes@ == text_fingerprint(description)
        &&& c.image_hash.bytes@ == text_fingerprint(image_url)
        &&& c.admin == caller
        &&& c.destination == destination
        &&& c.max_units == max_units
        &&& c.sold_units == 0
        &&& c.collected_amount == 0
        &&& c.active
        &&& c.status == CampaignStatus::Active
        &&& c.created_at == now
        &&& c.completed_at == 0
    }

    /// A campaign record looked up by id.
    pub open spec fn campaign_result(self, id: u64) -> Result<Campaign, DonlyError> {
        if self.has_campaign(id) {
            Ok(self.campaign(id))
        } else {
            Err(DonlyError::InvalidId)
        }
    }

    pub open spec fn deactivate_campaign_result(self, caller: Account, id: u64) -> Result<(), DonlyError> {
        if !self.has_campaign(id) {
            Err(DonlyError::InvalidId)
        } else if !self.campaign(id).active {
            Err(DonlyError::NotActive(EntityKind::Campaign))
        } else if self.campaign(id).admin != caller {
            Err(DonlyError::Unauthorized)
        } else {
            Ok(())
        }
    }

    pub open spec fn deactivate_campaign_state(self, id: u64, now: u64) -> DonlyView {
        self.with_campaigns(self.campaigns.update(id - 1, cancelled_campaign(self.campaign(id), now)))
    }

    /// The payout of everything that a campaign has collected.
    pub open spec fn payout_of(self, id: u64) -> Payout {
        Payout {
            campaign_id: id,
            destination: self.campaign(id).destination,
            amount: self.campaign(id).collected_amount,
        }
    }

    pub open spec fn complete_campaign_result(self, caller: Account, id: u64) -> Result<Payout, DonlyError> {
        if !self.has_campaign(id) {
            Err(DonlyError::InvalidId)
        } else if !self.campaign(id).active {
            Err(DonlyError::NotActive(EntityKind::Campaign))
        } else if self.campaign(id).admin != caller {
            Err(DonlyError::Unauthorized)
        } else if self.campaign(id).collected_amount == 0 {
            Err(DonlyError::NoFundsToTransfer)
        } else {
            Ok(self.payout_of(id))
        }
    }

    pub open spec fn complete_campaign_state(self, id: u64, now: u64) -> DonlyView {
        self.with_campaigns(self.campaigns.update(id - 1, completed_campaign(self.campaign(id), now)))
    }

    pub open spec fn withdraw_result(self, caller: Account, id: u64) -> Result<Payout, DonlyError> {
        if !self.has_campaign(id) {
            Err(DonlyError::InvalidId)
        } else if self.campaign(id).admin != caller {
            Err(DonlyError::Unauthorized)
        } else if self.campaign(id).collected_amount == 0 {
            Err(DonlyError::NoFundsToTransfer)
        } else {
            Ok(self.payout_of(id))
        }
    }

    /// The result of recording a payout: the campaign is checked first, then
    /// that it still holds the amount paid out, then whether it arrived.
    pub open spec fn record_payout_result(self, payout: Payout, delivered: bool) -> Result<(), DonlyError> {
        if !self.has_campaign(payout.campaign_id) {
            Err(DonlyError::InvalidId)
        } else if payout.amount > self.campaign(payout.campaign_id).collected_amount {
            Err(DonlyError::NoFundsToTransfer)
        } else if !delivered {
            Err(DonlyError::TransferFailed)
        } else {
            Ok(())
        }
    }

    /// The state once a payout has arrived: its amount leaves the campaign's
    /// funds.
    pub open spec fn record_payout_state(self, payout: Payout) -> DonlyView {
        let c = self.campaign(payout.campaign_id);
        self.with_campaigns(
            self.campaigns.update(
                payout.campaign_id - 1,
                Campaign { collected_amount: (c.collected_amount - payout.amount) as u128, ..c },
            ),
        )
    }

    // ----- products -----

    /// The result of adding a product: the campaign is checked first, then
    /// the category, the price (positive, and within `u64`), the name, the
    /// description and the image URL.
    pub open spec fn add_product_result(
        self,
        campaign_id: u64,
        category_id: u64,
        name: &str,
        description: &str,
        image_url: &str,
        price: u128,
    ) -> Result<u64, DonlyError> {
        if !self.has_campaign(campaign_id) {
            Err(DonlyError::InvalidId)
        } else if !self.campaign(campaign_id).active {
            Err(DonlyError::NotActive(EntityKind::Campaign))
        } else if !self.has_category(category_id) {
            Err(DonlyError::InvalidId)
        } else if !self.category(category_id).active {
            Err(DonlyError::NotActive(EntityKind::Category))
        } else if price == 0 || price > u64::MAX {
            Err(DonlyError::InvalidInput(InputField::Price))
        } else if text_error(name, MAX_NAME_LEN, InputField::Name) is Some {
            Err(DonlyError::InvalidInput(InputField::Name))
        } else if text_error(description, MAX_DESCRIPTION_LEN, InputField::Description) is Some {
            Err(DonlyError::InvalidInput(InputField::Description))
        } else if text_error(image_url, MAX_IMAGE_URL_LEN, InputField::ImageUrl) is Some {
            Err(DonlyError::InvalidInput(InputField::ImageUrl))
        } else {
            Ok((self.products.len() + 1) as u64)
        }
    }

    /// Whether `next` is this state with one product added: the next id,
    /// owned by `caller`, on sale.
    pub open spec fn adds_product(
        self,
        next: DonlyView,
        caller: Account,
        campaign_id: u64,
        category_id: u64,
        name: &str,
        description: &str,
        image_url: &str,
        price: u128,
        now: u64,
    ) -> bool {
        let p = next.products.last();
        &&& next == self.with_products(self.products.push(p))
        &&& p.id == self.products.len() + 1
        &&& p.campaign_id == campaign_id
        &&& p.category_id == category_id
        &&& p.name_hash.bytes@ == text_fingerprint(name)
        &&& p.description_hash.bytes@ == text_fingerprint(description)
        &&& p.image_hash.bytes@ == text_fingerprint(image_url)
        &&& p.price == price
        &&& p.owner == caller
        &&& p.active
        &&& !p.sold
        &&& p.created_at == now
        &&& p.sold_at == 0
    }

    /// A product record looked up by id.
    pub open spec fn product_result(self, id: u64) -> Result<Product, DonlyError> {
        if self.has_product(id) {
            Ok(self.product(id))
        } else {
            Err(DonlyError::InvalidId)
        }
    }

    /// The result of withdrawing a product from sale: its owner or its
    /// campaign's administrator may, while it is on sale.
    pub open spec fn deactivate_product_result(self, caller: Account, id: u64) -> Result<(), DonlyError> {
        if !self.has_product(id) {
            Err(DonlyError::InvalidId)
        } else if self.product(id).sold {
            Err(DonlyError::AlreadySold)
        } else if !self.product(id).active {
            Err(DonlyError::NotActive(EntityKind::Product))
        } else if self.product(id).owner != caller
            && self.campaign(self.product(id).campaign_id).admin != caller {
            Err(DonlyError::Unauthorized)
        } else {
            Ok(())
        }
    }

    pub open spec fn deactivate_product_state(self, id: u64) -> DonlyView {
        self.with_products(self.products.update(id - 1, deactivated_product(self.product(id))))
    }

    /// Whether one more sale meets the target of this campaign.
    pub open spec fn sale_completes(self, campaign_id: u64) -> bool {
        self.campaign(campaign_id).sold_units + 1 >= self.campaign(campaign_id).max_units
    }

    /// The result of buying a product with a payment of `paid`: whether it
    /// was sold is checked first, then whether it is on sale, whether its
    /// campaign is active, and the payment. On success, the payout that the
    /// sale calls for: everything the campaign collected, if this sale met its
    /// target.
    pub open spec fn purchase_result(self, id: u64, paid: u128) -> Result<Option<Payout>, DonlyError> {
        if !self.has_product(id) {
            Err(DonlyError::InvalidId)
        } else if self.product(id).sold {
            Err(DonlyError::AlreadySold)
        } else if !self.product(id).active {
            Err(DonlyError::NotActive(EntityKind::Product))
        } else if !self.campaign(self.product(id).campaign_id).active {
            Err(DonlyError::NotActive(EntityKind::Campaign))
        } else if paid != self.product(id).price {
            Err(DonlyError::IncorrectFundsSent)
        } else {
            let cid = self.product(id).campaign_id;
            let c = self.campaign(cid);
            if self.sale_completes(cid) {
                Ok(
                    Some(
                        Payout {
                            campaign_id: cid,
                            destination: c.destination,
                            amount: (c.collected_amount + paid) as u128,
                        },
                    ),
                )
            } else {
                Ok(None)
            }
        }
    }

    /// The state after product `id` is sold at time `now`: the product is
    /// sold, its campaign counts the sale, and if that met the target the
    /// campaign completes and its other products leave sale.
    pub open spec fn purchase_state(self, id: u64, now: u64) -> DonlyView {
        let p = self.product(id);
        let cid = p.campaign_id;
        let products = self.products.update(id - 1, sold_product(p, now));
        let campaigns = self.campaigns.update(cid - 1, campaign_after_sale(self.campaign(cid), p.price, now));
        DonlyView {
            categories: self.categories,
            campaigns,
            products: if self.sale_completes(cid) {
                close_products(products, cid)
            } else {
                products
            },
        }
    }
}

/// Replacing a campaign by one that keeps its sales and meets the invariant
/// keeps the invariant.
pub proof fn lemma_campaign_update_wf(s: DonlyView, id: u64, c: Campaign)
    requires
        s.wf(),
        s.has_campaign(id),
        campaign_wf(c, id - 1, s.categories.len()),
        c.sold_units == s.campaign(id).sold_units,
        c.max_units == s.campaign(id).max_units,
    ensures
        s.with_campaigns(s.campaigns.update(id - 1, c)).wf(),
{
    let t = s.with_campaigns(s.campaigns.update(id - 1, c));
    assert forall|i: int| 0 <= i < t.campaigns.len() implies campaign_wf(
        #[trigger] t.campaigns[i],
        i,
        t.categories.len(),
    ) by {
        if i != id - 1 {
            assert(campaign_wf(s.campaigns[i], i, s.categories.len()));
        }
    }
    assert forall|i: int| 0 <= i < t.products.len() implies t.product_wf(#[trigger] t.products[i], i) by {
        assert(s.product_wf(s.products[i], i));
    }
}

/// A sale that does not pass the target keeps a campaign's funds within the
/// bound that the invariant sets, and within `u128`.
pub proof fn lemma_sale_fits(collected: int, sold: int, max_units: int, price: int)
    requires
        0 <= collected <= sold * max_price(),
        0 <= sold,
        sold + 1 <= max_units <= u64::MAX,
        0 <= price <= max_price(),
    ensures
        collected + price <= (sold + 1) * max_price(),
        collected + price <= u128::MAX,
{
    assert((sold + 1) * max_price() == sold * max_price() + max_price()) by (nonlinear_arith);
    assert((sold + 1) * max_price() <= u64::MAX * max_price()) by (nonlinear_arith)
        requires
            sold + 1 <= u64::MAX,
            max_price() == u64::MAX,
    ;
    assert(u64::MAX * u64::MAX <= u128::MAX) by (nonlinear_arith);
}

/// Replacing a product by one of the same campaign that meets the invariant
/// keeps the invariant.
pub proof fn lemma_product_update_wf(s: DonlyView, id: u64, p: Product)
    requires
        s.wf(),
        s.has_product(id),
        s.product_wf(p, id - 1),
    ensures
        s.with_products(s.products.update(id - 1, p)).wf(),
{
    let t = s.with_products(s.products.update(id - 1, p));
    assert forall|i: int| 0 <= i < t.products.len() implies t.product_wf(#[trigger] t.products[i], i) by {
        if i != id - 1 {
            assert(s.product_wf(s.products[i], i));
        }
    }
    assert forall|i: int| 0 <= i < t.campaigns.len() implies campaign_wf(
        #[trigger] t.campaigns[i],
        i,
        t.categories.len(),
    ) by {
        assert(campaign_wf(s.campaigns[i], i, s.categories.len()));
    }
}

/// A successful purchase keeps the invariant.
pub proof fn lemma_purchase_wf(s: DonlyView, id: u64, paid: u128, now: u64)
    requires
        s.wf(),
        s.purchase_result(id, paid) is Ok,
    ensures
        s.purchase_state(id, now).wf(),
{
    let p = s.product(id);
    let cid = p.campaign_id;
    let c = s.campaign(cid);
    let t = s.purchase_state(id, now);
    let products1 = s.products.update(id - 1, sold_product(p, now));
    assert(s.product_wf(s.products[id - 1], id - 1));
    assert(campaign_wf(s.campaigns[cid - 1], cid - 1, s.categories.len()));
    lemma_sale_fits(c.collected_amount as int, c.sold_units as int, c.max_units as int, p.price as int);
    let c2 = campaign_after_sale(c, p.price, now);
    assert(campaign_wf(c2, cid - 1, s.categories.len()));
    assert forall|i: int| 0 <= i < t.campaigns.len() implies campaign_wf(
        #[trigger] t.campaigns[i],
        i,
        t.categories.len(),
    ) by {
        if i != cid - 1 {
            assert(campaign_wf(s.campaigns[i], i, s.categories.len()));
        }
    }
    assert forall|i: int| 0 <= i < t.products.len() implies t.product_wf(#[trigger] t.products[i], i) by {
        assert(s.product_wf(s.products[i], i));
        if s.products[i].campaign_id != cid {
            assert(t.campaign(s.products[i].campaign_id) == s.campaign(s.products[i].campaign_id));
        }
    }
}

} // verus!
