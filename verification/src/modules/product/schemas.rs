use vstd::prelude::*;

use crate::models::product::DecimalValue;

verus! {

/// A product to create.
#[derive(Debug, Clone)]
pub struct CreateProductRequest {
    pub name: String,
    pub sku: String,
    pub category: String,
    pub price: DecimalValue,
    pub stock: i32,
    pub description: String,
}

/// New details of a product, and its active status where it is to change.
#[derive(Debug, Clone)]
pub struct UpdateProductRequest {
    pub name: String,
    pub sku: String,
    pub category: String,
    pub price: DecimalValue,
    pub stock: i32,
    pub description: String,
    pub active: Option<bool>,
}

/// A product as the API shows it.
#[derive(Debug, Clone)]
pub struct ProductResponse {
    pub id: String,
    pub name: String,
    pub sku: String,
    pub category: String,
    pub price: DecimalValue,
    pub stock: i32,
    pub description: String,
    pub active: bool,
    pub created_at: String,
    pub updated_at: String,
}

} // verus!
