//! A stateless gateway to a spreadsheet service, authenticated per call with a
//! service-account key.
//!
//! The library decides; the caller performs. A [`session::Session`] is built
//! for one operation (read a range, overwrite a range, list tab titles) and
//! answers each outside outcome (the key file read, the token exchange, a
//! remote call) with the next request to make or the final result.
use vstd::prelude::*;

pub mod encode;
pub mod error;
pub mod range;
pub mod session;
pub mod titles;

verus! {

} // verus!
