//! Coupon collection pipeline: record model, deduplication fingerprint,
//! validator dispatch, the per-candidate state machine and the scheduler's
//! timing decisions. Network, database and chat delivery stay with the caller,
//! which hands plain values to these functions and performs the actions they
//! return.

pub mod clock;
pub mod fingerprint;
pub mod html;
pub mod models;
pub mod notify;
pub mod pipeline;
pub mod scheduler;
pub mod scraper;
pub mod store;
pub mod text;
pub mod validator;

