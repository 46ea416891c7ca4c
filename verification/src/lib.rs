//! A property-tokenization registry.
//!
//! Owners offer real-estate assets for fractional tokenized ownership. The
//! registry keeps, for each owner identity, the ordered sequence of that
//! owner's property records. A single administrator, fixed at construction,
//! is the only identity allowed to flip a record's one-way `is_verified`
//! flag. The host environment that supplies caller identities lives outside
//! this crate; every operation here takes the caller as an explicit value.

pub mod access;
pub mod account;
pub mod contract;
pub mod laws;
pub mod property;
pub mod registry;
