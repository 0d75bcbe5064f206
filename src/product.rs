use vstd::prelude::*;

verus! {

/// A product record as the store holds it.
///
/// `id` is the 128-bit value of the product's UUID; `created_at` and
/// `updated_at` are microseconds since the Unix epoch, in UTC.
#[derive(Debug)]
pub struct Product {
    pub id: u128,
    pub sku: String,
    pub product_name: String,
    pub category: String,
    pub ean13: String,
    pub price_cents: i32,
    pub currency: String,
    pub stock_count: i32,
    pub created_at: i64,
    pub updated_at: i64,
}

impl Clone for Product {
    fn clone(&self) -> (r: Self)
        ensures
            r == *self,
    {
        Product {
            id: self.id,
            sku: self.sku.clone(),
            product_name: self.product_name.clone(),
            category: self.category.clone(),
            ean13: self.ean13.clone(),
            price_cents: self.price_cents,
            currency: self.currency.clone(),
            stock_count: self.stock_count,
            created_at: self.created_at,
            updated_at: self.updated_at,
        }
    }
}

} // verus!
