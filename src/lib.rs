//! Custody ledger for physical goods moving through a supply chain: an
//! owner-controlled set of authorized manufacturers, a registry of products
//! with sequential ids, and an append-only chain of custody per product.

pub mod identity;
pub mod types;
pub mod access;
pub mod index;
pub mod chain;
pub mod laws;

pub use access::AccessControl;
pub use chain::MedicalSupplyChain;
pub use identity::AccountId;
pub use types::{CustodyTransferred, Error, Event, ManufacturerAuthorized, Product, ProductRegistered, Transfer};
