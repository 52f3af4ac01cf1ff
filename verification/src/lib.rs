//! Core of a farmer-registration and product-listing backend.
//!
//! The library models the persistent state (farmers, farms, phone
//! verification challenges, products) as an in-memory [`store::Store`] and
//! implements the workflows that act on it: farmer registration, one-time
//! passcode (OTP) issuance and validation, login, and product creation with
//! slug-collision retry.  Every workflow is specified and verified against
//! that model; the surrounding binary supplies the HTTP layer, the real
//! database, and the SMS gateway, and drives these functions with plain
//! values.

use vstd::prelude::*;

pub mod errors;
pub mod farmer;
pub mod farmer_service;
pub mod product;
pub mod product_service;
pub mod session;
pub mod store;
pub mod sms;
pub mod text;
pub mod util;
pub mod verification;

verus! {

} // verus!
