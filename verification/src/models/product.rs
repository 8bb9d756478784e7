use vstd::prelude::*;

verus! {

/// A decimal number as `mantissa * 10^-scale`.
#[derive(Debug, Clone, Copy, PartialEq, Eq)]
pub struct DecimalValue {
    pub mantissa: i128,
    pub scale: u32,
}

/// A product of the catalogue.
#[derive(Debug, Clone)]
pub struct Model {
    pub id: String,
    pub name: String,
    pub sku: String,
    pub category: String,
    pub price: DecimalValue,
    pub stock: i32,
    pub description: String,
    pub active: bool,
    pub is_deleted: Option<bool>,
    pub deleted_at: Option<i64>,
    pub created_at: i64,
    pub updated_at: i64,
}

} // verus!
