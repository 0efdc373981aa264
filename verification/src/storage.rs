//! The customer records as the storage layer holds them: every personal
//! field only in its encrypted form.
use vstd::prelude::*;

use crate::crypto::Encryption;

verus! {

/// A stored customer.
pub struct Customer {
    pub id: i32,
    pub customer_id: String,
    pub merchant_id: String,
    pub name: Option<Encryption>,
    pub email: Option<Encryption>,
    pub phone: Option<Encryption>,
    pub phone_country_code: Option<String>,
    pub description: Option<String>,
    pub created_at: time::PrimitiveDateTime,
    pub metadata: Option<serde_json::Value>,
}

/// A customer to be inserted into storage.
pub struct CustomerNew {
    pub customer_id: String,
    pub merchant_id: String,
    pub name: Option<Encryption>,
    pub email: Option<Encryption>,
    pub phone: Option<Encryption>,
    pub description: Option<String>,
    pub phone_country_code: Option<String>,
    pub metadata: Option<serde_json::Value>,
}

/// The columns that an update of a stored customer sets.
pub struct CustomerUpdateInternal {
    pub name: Option<Encryption>,
    pub email: Option<Encryption>,
    pub phone: Option<Encryption>,
    pub description: Option<String>,
    pub phone_country_code: Option<String>,
    pub metadata: Option<serde_json::Value>,
}

} // verus!
