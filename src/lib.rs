//! Write-once verdict records on a ledger of owned slots.
//!
//! A record's slot address is derived from the subject's content hash alone,
//! so every caller computes the same slot and a second registration of one
//! subject collides with the first. A registration runs in two halves around
//! the ledger's slot-creation service: `prepare_registration` checks the
//! request and plans the slot, `complete_registration` takes the service's
//! answer and writes the record.

pub mod address;
pub mod error;
pub mod record;
pub mod registration;
pub mod request;
pub mod schema;

pub use address::{accept_search, check_target, derive_storage_address, DerivedAddress, DOMAIN_TAG};
pub use error::VerdictError;
pub use record::{read_record, write_record, VerdictRecord, RECORD_LEN};
pub use registration::{
    complete_registration, creation_result, plan_registration, prepare_registration,
    Registration, SlotPlan,
};
pub use request::{check_request, Request};
pub use schema::{store_verdict, Verdict};
