use donly::donly::Donly;
use donly::fingerprint::fingerprint;
use donly::types::{Account, CampaignStatus, DonlyError, EntityKind, InputField, Payout};

fn account(b: u8) -> Account {
    Account { bytes: [b; 20] }
}

const A: u8 = 0xa1;
const B: u8 = 0xb2;
const C: u8 = 0xc3;
const DEST: u8 = 0xd4;

/// A ledger with one active category (id 1, created by A) and one campaign
/// (id 1, administered by A) with the given target.
fn ledger_with_campaign(max_units: u128) -> Donly {
    let mut d = Donly::new();
    assert_eq!(d.create_category(account(A), "Electronics"), Ok(1));
    assert_eq!(
        d.create_campaign(account(A), 1, "Laptops", "Refurbished laptops", "https://img/1", account(DEST), max_units, 100),
        Ok(1)
    );
    d
}

fn add(d: &mut Donly, price: u128) -> Result<u64, DonlyError> {
    d.add_product(account(A), 1, 1, "Laptop", "A laptop", "https://img/p", price, 200)
}

#[test]
fn lib_test_compilation() {
    let d = Donly::new();
    assert_eq!(d.category_count(), 0);
}

#[test]
fn lib_backup_test_compilation() {
    let d = Donly::new();
    assert_eq!(d.campaign_count(), 0);
}

#[test]
fn lib_optimized_test_compilation() {
    let d = Donly::new();
    assert_eq!(d.product_count(), 0);
}

#[test]
fn scenario_duplicate_category_name() {
    let mut d = Donly::new();
    assert_eq!(d.create_category(account(A), "Electronics"), Ok(1));
    assert_eq!(d.get_category_is_active(1), Ok(true));
    assert_eq!(d.get_category_creator(1), Ok(account(A)));
    assert_eq!(d.create_category(account(B), "Electronics"), Err(DonlyError::NameExists));
    assert_eq!(d.category_count(), 1);
}

#[test]
fn scenario_single_unit_campaign_completes() {
    let mut d = ledger_with_campaign(1);
    assert_eq!(add(&mut d, 1000), Ok(1));
    let payout = d.purchase_product(1, 1000, 300).unwrap();
    assert_eq!(payout, Some(Payout { campaign_id: 1, destination: account(DEST), amount: 1000 }));
    let p = d.get_product_data(1).unwrap();
    assert!(p.sold);
    assert!(!p.active);
    assert_eq!(p.sold_at, 300);
    let c = d.get_campaign_data(1).unwrap();
    assert_eq!(c.status, CampaignStatus::Completed);
    assert_eq!(c.sold_units, 1);
    assert!(!c.active);
    assert_eq!(c.completed_at, 300);
    assert_eq!(d.get_campaign_admin(1), Ok(account(A)));
}

#[test]
fn scenario_cascade_closes_remaining_products() {
    let mut d = ledger_with_campaign(2);
    assert_eq!(add(&mut d, 10), Ok(1));
    assert_eq!(add(&mut d, 20), Ok(2));
    assert_eq!(add(&mut d, 30), Ok(3));
    assert_eq!(d.purchase_product(1, 10, 300), Ok(None));
    assert_eq!(d.get_campaign_is_active(1), Ok(true));
    assert_eq!(
        d.purchase_product(2, 20, 301),
        Ok(Some(Payout { campaign_id: 1, destination: account(DEST), amount: 30 }))
    );
    assert_eq!(d.get_campaign_data(1).unwrap().status, CampaignStatus::Completed);
    assert_eq!(d.get_product_is_active(3), Ok(false));
    assert_eq!(d.get_product_is_sold(3), Ok(false));
    assert_eq!(d.purchase_product(3, 30, 302), Err(DonlyError::NotActive(EntityKind::Product)));
}

#[test]
fn scenario_only_creator_deactivates_category() {
    let mut d = Donly::new();
    assert_eq!(d.create_category(account(A), "Books"), Ok(1));
    assert_eq!(d.deactivate_category(account(C), 1), Err(DonlyError::Unauthorized));
    assert_eq!(d.get_category_is_active(1), Ok(true));
    assert_eq!(d.deactivate_category(account(A), 1), Ok(()));
    assert_eq!(d.get_category_is_active(1), Ok(false));
    assert_eq!(d.deactivate_category(account(A), 1), Err(DonlyError::NotActive(EntityKind::Category)));
}

#[test]
fn scenario_complete_without_funds() {
    let mut d = ledger_with_campaign(3);
    assert_eq!(d.complete_campaign(account(A), 1, 400), Err(DonlyError::NoFundsToTransfer));
    let c = d.get_campaign_data(1).unwrap();
    assert_eq!(c.status, CampaignStatus::Active);
    assert!(c.active);
}

#[test]
fn ids_are_sequential_per_kind() {
    let mut d = Donly::new();
    assert_eq!(d.create_category(account(A), "One"), Ok(1));
    assert_eq!(d.create_category(account(A), "Two"), Ok(2));
    assert_eq!(d.create_category(account(B), "Three"), Ok(3));
    assert_eq!(d.create_campaign(account(A), 2, "T", "D", "I", account(DEST), 5, 1), Ok(1));
    assert_eq!(d.create_campaign(account(A), 3, "T", "D", "I", account(DEST), 5, 1), Ok(2));
    assert_eq!(d.add_product(account(B), 2, 1, "N", "D", "I", 7, 2), Ok(1));
    assert_eq!(d.add_product(account(B), 1, 1, "N", "D", "I", 7, 2), Ok(2));
    // a refused creation issues no id
    assert_eq!(d.create_category(account(A), ""), Err(DonlyError::InvalidInput(InputField::Name)));
    assert_eq!(d.create_category(account(A), "Four"), Ok(4));
    let all = d.get_all_categories();
    let ids: Vec<u64> = all.iter().map(|c| c.id).collect();
    assert_eq!(ids, vec![1, 2, 3, 4]);
    let ids: Vec<u64> = d.get_all_products().iter().map(|p| p.id).collect();
    assert_eq!(ids, vec![1, 2]);
    assert_eq!(d.get_all_campaigns().len(), 2);
    assert_eq!(d.get_product_campaign_id(1), Ok(2));
}

#[test]
fn deactivated_name_stays_reserved() {
    let mut d = Donly::new();
    assert_eq!(d.create_category(account(A), "Garden"), Ok(1));
    assert_eq!(d.deactivate_category(account(A), 1), Ok(()));
    assert_eq!(d.create_category(account(A), "Garden"), Err(DonlyError::NameExists));
    assert_eq!(d.create_category(account(A), "garden"), Ok(2));
    assert!(d.has_category_named(&fingerprint("Garden")));
    assert!(!d.has_category_named(&fingerprint("Kitchen")));
}

#[test]
fn sold_product_stays_sold() {
    let mut d = ledger_with_campaign(3);
    assert_eq!(add(&mut d, 50), Ok(1));
    assert_eq!(add(&mut d, 60), Ok(2));
    assert_eq!(d.purchase_product(1, 50, 10), Ok(None));
    assert_eq!(d.purchase_product(1, 50, 11), Err(DonlyError::AlreadySold));
    assert_eq!(d.deactivate_product(account(A), 1), Err(DonlyError::AlreadySold));
    assert_eq!(d.deactivate_campaign(account(A), 1, 12), Ok(()));
    let p = d.get_product_data(1).unwrap();
    assert!(p.sold);
    assert!(!p.active);
    assert_eq!(p.sold_at, 10);
}

#[test]
fn refused_operations_change_nothing() {
    let mut d = ledger_with_campaign(2);
    assert_eq!(add(&mut d, 10), Ok(1));
    let before_c = d.get_all_campaigns();
    let before_p = d.get_all_products();
    let before_k = d.get_all_categories();
    assert_eq!(d.purchase_product(1, 11, 5), Err(DonlyError::IncorrectFundsSent));
    assert_eq!(d.purchase_product(9, 10, 5), Err(DonlyError::InvalidId));
    assert_eq!(d.deactivate_product(account(C), 1), Err(DonlyError::Unauthorized));
    assert_eq!(d.deactivate_campaign(account(C), 1, 5), Err(DonlyError::Unauthorized));
    assert_eq!(d.create_category(account(C), "Electronics"), Err(DonlyError::NameExists));
    let payout = Payout { campaign_id: 1, destination: account(DEST), amount: 0 };
    assert_eq!(d.record_payout(payout, false), Err(DonlyError::TransferFailed));
    let too_much = Payout { campaign_id: 1, destination: account(DEST), amount: 1 };
    assert_eq!(d.record_payout(too_much, true), Err(DonlyError::NoFundsToTransfer));
    assert_eq!(d.get_all_campaigns(), before_c);
    assert_eq!(d.get_all_products(), before_p);
    assert_eq!(d.get_all_categories(), before_k);
}

#[test]
fn text_limits() {
    let mut d = Donly::new();
    let name64 = "n".repeat(64);
    let name65 = "n".repeat(65);
    assert_eq!(d.create_category(account(A), &name65), Err(DonlyError::InvalidInput(InputField::Name)));
    assert_eq!(d.create_category(account(A), &name64), Ok(1));
    let desc256 = "d".repeat(256);
    let desc257 = "d".repeat(257);
    let img128 = "i".repeat(128);
    let img129 = "i".repeat(129);
    assert_eq!(
        d.create_campaign(account(A), 1, "", "D", "I", account(DEST), 1, 0),
        Err(DonlyError::InvalidInput(InputField::Name))
    );
    assert_eq!(
        d.create_campaign(account(A), 1, "T", &desc257, "I", account(DEST), 1, 0),
        Err(DonlyError::InvalidInput(InputField::Description))
    );
    assert_eq!(
        d.create_campaign(account(A), 1, "T", "D", &img129, account(DEST), 1, 0),
        Err(DonlyError::InvalidInput(InputField::ImageUrl))
    );
    assert_eq!(
        d.create_campaign(account(A), 1, "T", "D", "I", account(DEST), 0, 0),
        Err(DonlyError::InvalidInput(InputField::MaxUnits))
    );
    assert_eq!(d.create_campaign(account(A), 1, "T", &desc256, &img128, account(DEST), 1, 0), Ok(1));
    // a two-byte character counts as two bytes
    let wide = "é".repeat(33);
    assert_eq!(d.create_category(account(A), &wide), Err(DonlyError::InvalidInput(InputField::Name)));
}

#[test]
fn add_product_checks_in_order() {
    let mut d = ledger_with_campaign(2);
    assert_eq!(d.add_product(account(B), 2, 1, "N", "D", "I", 5, 0), Err(DonlyError::InvalidId));
    assert_eq!(d.add_product(account(B), 0, 1, "N", "D", "I", 5, 0), Err(DonlyError::InvalidId));
    assert_eq!(d.add_product(account(B), 1, 0, "N", "D", "I", 5, 0), Err(DonlyError::InvalidId));
    assert_eq!(d.add_product(account(B), 1, 2, "N", "D", "I", 5, 0), Err(DonlyError::InvalidId));
    // the price is checked before the texts
    assert_eq!(
        d.add_product(account(B), 1, 1, "", "D", "I", 0, 0),
        Err(DonlyError::InvalidInput(InputField::Price))
    );
    assert_eq!(
        d.add_product(account(B), 1, 1, "", "D", "I", 1 << 64, 0),
        Err(DonlyError::InvalidInput(InputField::Price))
    );
    assert_eq!(
        d.add_product(account(B), 1, 1, "", "D", "I", 5, 0),
        Err(DonlyError::InvalidInput(InputField::Name))
    );
    assert_eq!(
        d.add_product(account(B), 1, 1, "N", "D", "I", u64::MAX as u128, 0),
        Ok(1)
    );
    assert_eq!(d.create_category(account(A), "Other"), Ok(2));
    assert_eq!(d.deactivate_category(account(A), 2), Ok(()));
    assert_eq!(
        d.add_product(account(B), 1, 2, "N", "D", "I", 5, 0),
        Err(DonlyError::NotActive(EntityKind::Category))
    );
    assert_eq!(
        d.create_campaign(account(A), 2, "T", "D", "I", account(DEST), 1, 0),
        Err(DonlyError::NotActive(EntityKind::Category))
    );
    assert_eq!(d.create_campaign(account(A), 7, "T", "D", "I", account(DEST), 1, 0), Err(DonlyError::InvalidId));
    assert_eq!(d.create_campaign(account(A), 0, "T", "D", "I", account(DEST), 1, 0), Err(DonlyError::InvalidId));
    assert_eq!(
        d.create_campaign(account(A), 1, "T", "D", "I", account(DEST), 1 << 64, 0),
        Err(DonlyError::InvalidInput(InputField::MaxUnits))
    );
    assert_eq!(d.deactivate_campaign(account(A), 1, 9), Ok(()));
    assert_eq!(
        d.add_product(account(B), 1, 1, "N", "D", "I", 5, 0),
        Err(DonlyError::NotActive(EntityKind::Campaign))
    );
    let c = d.get_campaign_data(1).unwrap();
    assert_eq!(c.status, CampaignStatus::Cancelled);
    assert_eq!(c.completed_at, 9);
    assert_eq!(d.deactivate_campaign(account(A), 1, 10), Err(DonlyError::NotActive(EntityKind::Campaign)));
}

#[test]
fn purchase_needs_active_campaign() {
    let mut d = ledger_with_campaign(2);
    assert_eq!(add(&mut d, 10), Ok(1));
    assert_eq!(d.deactivate_campaign(account(A), 1, 9), Ok(()));
    assert_eq!(d.purchase_product(1, 10, 10), Err(DonlyError::NotActive(EntityKind::Campaign)));
    assert_eq!(d.get_product_is_sold(1), Ok(false));
}

#[test]
fn product_deactivation_by_owner_or_admin() {
    let mut d = ledger_with_campaign(5);
    assert_eq!(d.add_product(account(B), 1, 1, "N", "D", "I", 5, 0), Ok(1));
    assert_eq!(d.add_product(account(B), 1, 1, "N", "D", "I", 5, 0), Ok(2));
    assert_eq!(d.get_product_owner(1), Ok(account(B)));
    assert_eq!(d.deactivate_product(account(C), 1), Err(DonlyError::Unauthorized));
    assert_eq!(d.deactivate_product(account(B), 1), Ok(()));
    assert_eq!(d.deactivate_product(account(A), 2), Ok(()));
    assert_eq!(d.deactivate_product(account(A), 2), Err(DonlyError::NotActive(EntityKind::Product)));
    assert_eq!(d.deactivate_product(account(A), 0), Err(DonlyError::InvalidId));
}

#[test]
fn manual_completion_and_withdrawal() {
    let mut d = ledger_with_campaign(5);
    assert_eq!(add(&mut d, 40), Ok(1));
    assert_eq!(add(&mut d, 2), Ok(2));
    assert_eq!(d.purchase_product(1, 40, 1), Ok(None));
    assert_eq!(d.purchase_product(2, 2, 2), Ok(None));
    assert_eq!(d.get_campaign_total_amount_collected(1), Ok(42));
    assert_eq!(d.get_campaign_sold_products_count(1), Ok(2));
    assert_eq!(d.get_campaign_max_sold_products(1), Ok(5));
    assert_eq!(d.complete_campaign(account(B), 1, 3), Err(DonlyError::Unauthorized));
    let payout = d.complete_campaign(account(A), 1, 3).unwrap();
    assert_eq!(payout, Payout { campaign_id: 1, destination: account(DEST), amount: 42 });
    let c = d.get_campaign_data(1).unwrap();
    assert_eq!(c.status, CampaignStatus::Completed);
    assert!(!c.active);
    assert_eq!(d.complete_campaign(account(A), 1, 4), Err(DonlyError::NotActive(EntityKind::Campaign)));
    // the payout failed: funds stay for a later withdrawal
    assert_eq!(d.record_payout(payout, false), Err(DonlyError::TransferFailed));
    assert_eq!(d.withdraw_campaign_funds(account(B), 1), Err(DonlyError::Unauthorized));
    assert_eq!(d.withdraw_campaign_funds(account(A), 1), Ok(payout));
    assert_eq!(d.record_payout(payout, true), Ok(()));
    assert_eq!(d.get_campaign_total_amount_collected(1), Ok(0));
    // the same payout cannot be recorded twice
    assert_eq!(d.record_payout(payout, true), Err(DonlyError::NoFundsToTransfer));
    assert_eq!(d.withdraw_campaign_funds(account(A), 1), Err(DonlyError::NoFundsToTransfer));
    assert_eq!(d.withdraw_campaign_funds(account(A), 2), Err(DonlyError::InvalidId));
    let unknown = Payout { campaign_id: 3, destination: account(DEST), amount: 0 };
    assert_eq!(d.record_payout(unknown, true), Err(DonlyError::InvalidId));
}

#[test]
fn getters_reject_unknown_ids() {
    let d = ledger_with_campaign(1);
    assert_eq!(d.get_category_data(0), Err(DonlyError::InvalidId));
    assert_eq!(d.get_category_name_hash(2), Err(DonlyError::InvalidId));
    assert_eq!(d.get_campaign_title_hash(2), Err(DonlyError::InvalidId));
    assert_eq!(d.get_campaign_category_id(1), Ok(1));
    assert_eq!(d.get_campaign_destination_wallet(1), Ok(account(DEST)));
    assert_eq!(d.get_product_price(1), Err(DonlyError::InvalidId));
    assert_eq!(d.get_product_category_id(1), Err(DonlyError::InvalidId));
    assert_eq!(d.get_product_name_hash(1), Err(DonlyError::InvalidId));
    assert_eq!(d.get_product_description_hash(1), Err(DonlyError::InvalidId));
}

#[test]
fn fingerprints_are_keccak_digests() {
    let empty = fingerprint("");
    let expected: [u8; 32] = [
        0xc5, 0xd2, 0x46, 0x01, 0x86, 0xf7, 0x23, 0x3c, 0x92, 0x7e, 0x7d, 0xb2, 0xdc, 0xc7, 0x03, 0xc0, 0xe5, 0x00,
        0xb6, 0x53, 0xca, 0x82, 0x27, 0x3b, 0x7b, 0xfa, 0xd8, 0x04, 0x5d, 0x85, 0xa4, 0x70,
    ];
    assert_eq!(empty.bytes, expected);
    let d = ledger_with_campaign(1);
    assert_eq!(d.get_category_name_hash(1), Ok(fingerprint("Electronics")));
    assert_eq!(d.get_campaign_description_hash(1), Ok(fingerprint("Refurbished laptops")));
    assert_ne!(fingerprint("Electronics"), fingerprint("Electronic"));
    assert!(fingerprint("Electronics").same_as(&fingerprint("Electronics")));
    assert!(!account(A).same_as(&account(B)));
}

#[test]
fn purchase_checks_sale_before_payment() {
    let mut d = ledger_with_campaign(3);
    assert_eq!(add(&mut d, 10), Ok(1));
    assert_eq!(d.purchase_product(1, u128::MAX, 1), Err(DonlyError::IncorrectFundsSent));
    assert_eq!(d.purchase_product(1, 10, 2), Ok(None));
    assert_eq!(d.purchase_product(1, u128::MAX, 3), Err(DonlyError::AlreadySold));
}
