//! A ledger of categories, campaigns and products for crowdfunding by product
//! sale: a campaign sells a bounded number of products, and once its target is
//! reached it completes and its proceeds are released.

pub mod donly;
pub mod fingerprint;
pub mod laws;
pub mod model;
pub mod types;
