//! Verified core of a veterinary-clinic record-keeping backend.
//!
//! The heart of the crate is the service-instance aggregate store in [`db`]:
//! it persists a clinical visit together with its child records (grooming
//! entries, preventive-care treatments, an optional surgery, and a set of
//! service-type tags) as one atomic unit, reassembles the nested structure on
//! read, and supports partial updates and tag-set replacement. The store's
//! operations carry contracts that pin down their effect on an abstract
//! relational model, and the laws proved in [`db::laws`] state the aggregate's
//! guarantees: all-or-nothing writes, create/read round-trips, tag-set
//! replacement, and partial-update semantics.

pub mod db;
pub mod models;
pub mod schemas;
pub mod utils;
