use vstd::prelude::*;

use crate::identity::AccountId;

verus! {

/// One registered batch of goods.
#[derive(Debug)]
pub struct Product {
    pub id: u32,
    pub name: String,
    pub batch_number: String,
    /// Who registered the batch; never changes.
    pub manufacturer: AccountId,
    pub manufacturer_name: String,
    pub quantity: u32,
    pub mfg_date: u64,
    pub expiry_date: u64,
    pub category: String,
    /// Who holds the batch now; changed only by a custody transfer.
    pub current_holder: AccountId,
    pub is_authentic: bool,
    pub created_at: u64,
}

impl Clone for Product {
    fn clone(&self) -> (r: Product)
        ensures
            r == *self,
    {
        Product {
            id: self.id,
            name: self.name.clone(),
            batch_number: self.batch_number.clone(),
            manufacturer: self.manufacturer,
            manufacturer_name: self.manufacturer_name.clone(),
            quantity: self.quantity,
            mfg_date: self.mfg_date,
            expiry_date: self.expiry_date,
            category: self.category.clone(),
            current_holder: self.current_holder,
            is_authentic: self.is_authentic,
            created_at: self.created_at,
        }
    }
}

/// One recorded hand-off of a product from one holder to the next.
#[derive(Debug)]
pub struct Transfer {
    pub product_id: u32,
    pub from: AccountId,
    pub to: AccountId,
    pub timestamp: u64,
    pub location: String,
    pub verified: bool,
}

impl Clone for Transfer {
    fn clone(&self) -> (r: Transfer)
        ensures
            r == *self,
    {
        Transfer {
            product_id: self.product_id,
            from: self.from,
            to: self.to,
            timestamp: self.timestamp,
            location: self.location.clone(),
            verified: self.verified,
        }
    }
}

/// Notification of a new product.
#[derive(Debug)]
pub struct ProductRegistered {
    pub product_id: u32,
    pub manufacturer: AccountId,
    pub name: String,
    pub batch_number: String,
}

/// Notification of a custody transfer.
#[derive(Debug)]
pub struct CustodyTransferred {
    pub product_id: u32,
    pub from: AccountId,
    pub to: AccountId,
    pub location: String,
}

/// Notification of a change to a manufacturer's authorization.
#[derive(Clone, Copy, Debug)]
pub struct ManufacturerAuthorized {
    pub manufacturer: AccountId,
    pub authorized: bool,
}

/// A notification that the ledger hands to its host for delivery.
#[derive(Debug)]
pub enum Event {
    ProductRegistered(ProductRegistered),
    CustodyTransferred(CustodyTransferred),
    ManufacturerAuthorized(ManufacturerAuthorized),
}

/// Why an operation was refused. A refused operation changes nothing.
#[derive(Clone, Copy, Debug, PartialEq, Eq, Structural)]
pub enum Error {
    /// No product has the given id.
    ProductNotFound,
    /// The caller may not register products.
    NotAuthorizedManufacturer,
    /// The caller does not hold the product.
    NotCurrentHolder,
    /// Only the owner may change authorizations.
    OnlyOwner,
    /// Reserved: no operation returns it.
    ProductAlreadyExists,
    /// Reserved: no operation returns it.
    InvalidTransfer,
}

} // verus!
