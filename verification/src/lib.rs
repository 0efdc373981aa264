//! Payment-router domain models: the Opayo connector's request and response
//! transformers, the incoming-webhook decoding and source-verification
//! pipeline, the customer domain/storage conversions and the dashboard
//! metadata updates.

pub mod common;
pub mod enums;
pub mod crypto;
pub mod errors;
pub mod router_data;
pub mod opayo;
pub mod storage;
pub mod customer;
pub mod dashboard_metadata;
pub mod webhooks;
