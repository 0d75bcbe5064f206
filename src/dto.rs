use vstd::prelude::*;

verus! {

/// The fields a caller supplies to create a product.
#[derive(Debug)]
pub struct CreateProduct {
    pub sku: String,
    pub product_name: String,
    pub category: String,
    pub ean13: String,
    pub price_cents: i32,
    /// Defaults to "BRL" when absent.
    pub currency: Option<String>,
    pub stock_count: i32,
}

/// A partial update: each present field replaces the stored one, each absent
/// field leaves it as it is.
#[derive(Debug)]
pub struct UpdateProduct {
    pub sku: Option<String>,
    pub product_name: Option<String>,
    pub category: Option<String>,
    pub ean13: Option<String>,
    pub price_cents: Option<i32>,
    pub currency: Option<String>,
    pub stock_count: Option<i32>,
}

} // verus!
