//! Signing in to Apple's developer services and signing application
//! bundles, as far as both are a matter of deciding and computing.
//!
//! The library builds what is sent to the servers and reads what comes
//! back, keeps the state of a login, matches certificates to keys, finds the
//! bundles nested in an application and says what each is signed with, in
//! which order. It opens no connection and touches no file: bytes come in
//! and go out as values. Every function states what it returns, and the
//! statements are proved.

use vstd::prelude::*;

pub mod auth;
pub mod bundle;
pub mod bytes;
pub mod certificate;
pub mod crypto;
pub mod developer;
pub mod error;
pub mod json;
pub mod macho;
pub mod property_list;
pub mod provision;
pub mod signer;
pub mod signing_order;
pub mod text;

verus! {

} // verus!
