use vstd::prelude::*;

verus! {

broadcast use vstd::array::group_array_axioms;

/// Compares two byte arrays of the same length, byte by byte.
pub fn bytes_equal<const N: usize>(a: &[u8; N], b: &[u8; N]) -> (r: bool)
    ensures
        r == (*a == *b),
        r == (a@ == b@),
{
    let mut i: usize = 0;
    while i < N
        invariant
            0 <= i <= N,
            forall|j: int| 0 <= j < i ==> a[j] == b[j],
        decreases N - i,
    {
        if a[i] != b[i] {
            assert(a@[i as int] != b@[i as int]);
            return false;
        }
        i = i + 1;
    }
    assert(*a =~= *b);
    true
}

/// The identity of an account: a 20-byte address.
#[derive(Clone, Copy, Debug, PartialEq, Eq)]
pub struct Account {
    pub bytes: [u8; 20],
}

impl Account {
    /// Whether two accounts are the same.
    pub fn same_as(&self, other: &Account) -> (r: bool)
        ensures
            r == (*self == *other),
    {
        bytes_equal(&self.bytes, &other.bytes)
    }
}

/// A 32-byte content digest, stored in place of a free-text field.
#[derive(Clone, Copy, Debug, PartialEq, Eq)]
pub struct Fingerprint {
    pub bytes: [u8; 32],
}

impl Fingerprint {
    /// Whether two fingerprints are the same.
    pub fn same_as(&self, other: &Fingerprint) -> (r: bool)
        ensures
            r == (*self == *other),
            r == (self.bytes@ == other.bytes@),
    {
        bytes_equal(&self.bytes, &other.bytes)
    }
}

/// The three kinds of entity that the ledger holds.
#[derive(Clone, Copy, Debug, PartialEq, Eq, Structural)]
pub enum EntityKind {
    Category,
    Campaign,
    Product,
}

/// The inputs that are checked for format.
#[derive(Clone, Copy, Debug, PartialEq, Eq, Structural)]
pub enum InputField {
    Name,
    Description,
    ImageUrl,
    Price,
    MaxUnits,
}

/// Why an operation was refused. A refused operation changes nothing.
#[derive(Clone, Copy, Debug, PartialEq, Eq, Structural)]
pub enum DonlyError {
    /// The id is zero or was never issued.
    InvalidId,
    /// The record of an issued id is missing. Records are stored densely by
    /// id, so this ledger never reports it.
    NotFound(EntityKind),
    /// The entity exists but is no longer active.
    NotActive(EntityKind),
    /// The product has already been sold.
    AlreadySold,
    /// An input is out of its allowed range.
    InvalidInput(InputField),
    /// A category with the same name already exists.
    NameExists,
    /// The caller does not hold the role that the operation needs.
    Unauthorized,
    /// The campaign holds no funds to pay out.
    NoFundsToTransfer,
    /// The payment does not equal the product's price.
    IncorrectFundsSent,
    /// The payout could not be delivered.
    TransferFailed,
}

/// Where a campaign stands in its lifecycle.
#[derive(Clone, Copy, Debug, PartialEq, Eq, Structural)]
pub enum CampaignStatus {
    Active,
    Completed,
    Cancelled,
}

/// A category record.
#[derive(Clone, Copy, Debug, PartialEq, Eq)]
pub struct Category {
    pub id: u64,
    pub name_hash: Fingerprint,
    pub creator: Account,
    pub active: bool,
}

/// A campaign record.
#[derive(Clone, Copy, Debug, PartialEq, Eq)]
pub struct Campaign {
    pub id: u64,
    pub category_id: u64,
    pub title_hash: Fingerprint,
    pub description_hash: Fingerprint,
    pub image_hash: Fingerprint,
    pub admin: Account,
    pub destination: Account,
    pub max_units: u64,
    pub sold_units: u64,
    pub collected_amount: u128,
    pub active: bool,
    pub status: CampaignStatus,
    pub created_at: u64,
    pub completed_at: u64,
}

/// A product record.
#[derive(Clone, Copy, Debug, PartialEq, Eq)]
pub struct Product {
    pub id: u64,
    pub campaign_id: u64,
    pub category_id: u64,
    pub name_hash: Fingerprint,
    pub description_hash: Fingerprint,
    pub image_hash: Fingerprint,
    pub price: u64,
    pub owner: Account,
    pub active: bool,
    pub sold: bool,
    pub created_at: u64,
    pub sold_at: u64,
}

/// A payout that the ledger asks to be made: `amount` to `destination`, out
/// of the funds that campaign `campaign_id` collected.
#[derive(Clone, Copy, Debug, PartialEq, Eq)]
pub struct Payout {
    pub campaign_id: u64,
    pub destination: Account,
    pub amount: u128,
}

} // verus!
