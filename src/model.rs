//! Domain models, requests and the rows that storage returns.
//!
//! External identifiers are 128-bit values; timestamps are microseconds
//! since the Unix epoch; money amounts are whole cents.
use vstd::prelude::*;

verus! {

/// Audit fields of a resource.
#[derive(Debug, Clone, PartialEq, Eq, Default)]
pub struct AuditInfo {
    pub created_by: String,
    pub created_at: i64,
    pub changed_by: String,
    pub updated_at: i64,
}

#[derive(Debug, Clone, PartialEq, Eq, Default)]
pub struct Person {
    pub seq: i32,
    pub id: String,
    pub name: String,
    pub email: String,
    pub audit_info: AuditInfo,
}

#[derive(Debug, Clone, PartialEq, Eq, Default)]
pub struct PersonList {
    pub persons: Vec<Person>,
    pub total: i32,
}

#[derive(Debug, Clone, PartialEq, Eq, Default)]
pub struct CreatePersonRequest {
    pub name: String,
    pub email: String,
    pub created_by: String,
}

#[derive(Debug, Clone, PartialEq, Eq)]
pub struct UpdatePersonRequest {
    pub id: String,
    pub name: String,
    pub email: String,
    pub changed_by: String,
}

#[derive(Debug, Clone, PartialEq, Eq, Default)]
pub struct DeleteResults {
    pub id: String,
    pub deleted: bool,
}

#[derive(Debug, Clone, PartialEq, Eq, Default)]
pub struct ServiceResults {
    pub message: String,
    pub success: bool,
}

#[derive(Debug, Clone, Copy, PartialEq, Eq, Default)]
pub struct WithItemsQuery {
    pub with_items: bool,
}

#[derive(Debug, Clone, PartialEq, Eq, Default)]
pub struct CreateItemRequest {
    pub name: String,
    pub description: String,
    /// In cents.
    pub unit_price: i64,
    pub created_by: String,
}

#[derive(Debug, Clone, PartialEq, Eq, Default)]
pub struct UpdateItemRequest {
    pub id: String,
    pub name: String,
    pub description: String,
    /// In cents.
    pub unit_price: i64,
    pub changed_by: String,
}

#[derive(Debug, Clone, PartialEq, Eq, Default)]
pub struct Item {
    pub seq: i32,
    pub id: String,
    pub name: String,
    pub description: String,
    /// In cents.
    pub unit_price: i64,
    pub audit_info: AuditInfo,
}

#[derive(Debug, Clone, PartialEq, Eq, Default)]
pub struct CreateInvoiceRequest {
    pub user_id: u128,
    /// In cents.
    pub total: i64,
    pub created_by: String,
    pub items: Vec<u128>,
    pub paid: bool,
}

#[derive(Debug, Clone, PartialEq, Eq, Default)]
pub struct UpdateInvoiceRequest {
    pub id: u128,
    /// In cents.
    pub total: i64,
    pub paid: bool,
    pub changed_by: String,
}

#[derive(Debug, Clone, PartialEq, Eq, Default)]
pub struct Invoice {
    pub seq: i32,
    pub id: String,
    pub user_id: String,
    /// In cents.
    pub total: i64,
    pub paid: bool,
    pub audit_info: AuditInfo,
    pub items: Vec<Item>,
}

#[derive(Debug, Clone, Copy, PartialEq, Eq, Default)]
pub struct InvoiceItemRequest {
    pub invoice_id: u128,
    pub item_id: u128,
}

/// A row of the persons table.
#[derive(Debug, Clone, PartialEq, Eq)]
pub struct PersonRow {
    pub id: i32,
    pub alt_id: u128,
    pub name: String,
    pub email: String,
    pub created_by: String,
    pub created_at: i64,
    pub last_changed_by: String,
    pub last_update: i64,
}

/// A row of the items table.
#[derive(Debug, Clone, PartialEq, Eq)]
pub struct ItemRow {
    pub id: i32,
    pub alt_id: u128,
    pub name: String,
    pub description: String,
    pub unit_price: i64,
    pub created_by: String,
    pub created_at: i64,
    pub last_changed_by: String,
    pub last_update: i64,
}

/// A row of the invoices table.
#[derive(Debug, Clone, PartialEq, Eq)]
pub struct InvoiceRow {
    pub id: i32,
    pub alt_id: u128,
    pub user_id: u128,
    pub total: i64,
    pub paid: bool,
    pub created_by: String,
    pub created_at: i64,
    pub last_changed_by: String,
    pub last_update: i64,
}

/// A row of the invoice/item association table.
#[derive(Debug, Clone, Copy, PartialEq, Eq)]
pub struct InvoiceItemRow {
    pub invoice_id: u128,
    pub item_id: u128,
}

/// One row of the join of an invoice with one of its items.
#[derive(Debug, Clone, PartialEq, Eq)]
pub struct InvoiceWithItemRow {
    pub id: i32,
    pub alt_id: u128,
    pub user_id: u128,
    pub total: i64,
    pub paid: bool,
    pub created_by: String,
    pub created_at: i64,
    pub last_changed_by: String,
    pub last_update: i64,
    pub item_alt_id: u128,
    pub item_name: String,
    pub item_description: String,
    pub item_unit_price: i64,
}

} // verus!
