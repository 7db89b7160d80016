//! Creation of compressed, address-indexed asset records.
//!
//! The library builds the state transition for two operations, creating a
//! standalone asset and admitting a member asset into a group: it derives
//! deterministic record addresses from domain-separated seeds, constructs the
//! new records (asset, optional metadata, optional royalties, updated group),
//! and assembles them into one atomic batch-update request signed by a derived
//! authority. Forwarding the request to the verification and storage service
//! is left to the surrounding program.

pub mod address;
pub mod batch;
pub mod create_asset;
pub mod create_member_asset;
pub mod error;
pub mod records;
