use vstd::prelude::*;

use crate::dto::{CreateProduct, UpdateProduct};
use crate::product::Product;
use crate::repository::{
    candidate_ean13, candidate_sku, create_accepts, created_from, patched, store_wf,
};
use crate::validations::{collides, has_collision};

verus! {

/// An accepted create adds exactly one product to the store, and the record it
/// returns was last updated when it was created.
pub proof fn lemma_create_adds_one(
    m: Map<u128, Product>,
    dto: CreateProduct,
    id: u128,
    now: i64,
    p: Product,
)
    requires
        m.dom().finite(),
        create_accepts(m, dto, id),
        created_from(p, dto, id, now),
    ensures
        m.insert(id, p).len() == m.len() + 1,
        p.created_at == p.updated_at,
{
}

/// Once a create has stored a product, a second create with the same SKU is
/// refused for the collision, whatever its other fields and its id: of two creates
/// with one SKU that the store's lock puts in turn, only the first succeeds.
pub proof fn lemma_second_create_same_sku_refused(
    m: Map<u128, Product>,
    first: CreateProduct,
    id: u128,
    now: i64,
    p: Product,
    second: CreateProduct,
    second_id: u128,
)
    requires
        create_accepts(m, first, id),
        created_from(p, first, id, now),
        second.sku@ == first.sku@,
    ensures
        has_collision(m.insert(id, p), second.sku@, second.ean13@, None),
        !create_accepts(m.insert(id, p), second, second_id),
{
    let m1 = m.insert(id, p);
    assert(m1.contains_key(id) && collides(m1[id], second.sku@, second.ean13@, None));
}

/// A patch that sets only the stock count leaves every other field as it was,
/// and never moves the update time back.
pub proof fn lemma_patch_stock_only(p: Product, dto: UpdateProduct, now: i64)
    requires
        dto.sku is None,
        dto.product_name is None,
        dto.category is None,
        dto.ean13 is None,
        dto.price_cents is None,
        dto.currency is None,
        dto.stock_count is Some,
    ensures
        ({
            let q = patched(p, dto, now);
            &&& q.id == p.id
            &&& q.sku == p.sku
            &&& q.product_name == p.product_name
            &&& q.category == p.category
            &&& q.ean13 == p.ean13
            &&& q.price_cents == p.price_cents
            &&& q.currency == p.currency
            &&& q.created_at == p.created_at
            &&& q.stock_count == dto.stock_count->Some_0
            &&& q.updated_at >= p.updated_at
        }),
{
}

/// A patch that would give product `id` the SKU of another stored product meets
/// a collision, so it is refused and the store stays as it was.
pub proof fn lemma_patch_sku_collision(
    m: Map<u128, Product>,
    id: u128,
    other: u128,
    dto: UpdateProduct,
)
    requires
        store_wf(m),
        m.contains_key(id),
        m.contains_key(other),
        other != id,
        dto.sku matches Some(s) && s@ == m[other].sku@,
    ensures
        has_collision(m, candidate_sku(m[id], dto), candidate_ean13(m[id], dto), Some(id)),
{
    assert(collides(m[other], candidate_sku(m[id], dto), candidate_ean13(m[id], dto), Some(id)));
}

/// A patch that leaves product `id` with its own SKU and EAN-13, whether it resends
/// them or omits them, meets no collision: with valid fields it succeeds.
pub proof fn lemma_patch_own_values_no_collision(
    m: Map<u128, Product>,
    id: u128,
    dto: UpdateProduct,
)
    requires
        store_wf(m),
        m.contains_key(id),
        dto.sku matches Some(s) ==> s@ == m[id].sku@,
        dto.ean13 matches Some(e) ==> e@ == m[id].ean13@,
    ensures
        !has_collision(m, candidate_sku(m[id], dto), candidate_ean13(m[id], dto), Some(id)),
{
    assert forall|k: u128| m.contains_key(k) implies !#[trigger] collides(
        m[k],
        candidate_sku(m[id], dto),
        candidate_ean13(m[id], dto),
        Some(id),
    ) by {
        if k != id {
            assert(m[k].sku@ != m[id].sku@ && m[k].ean13@ != m[id].ean13@);
        }
    }
}

/// After a product is deleted its id is no longer in the store, so a lookup of
/// it finds nothing.
pub proof fn lemma_delete_then_get_missing(m: Map<u128, Product>, id: u128)
    ensures
        !m.remove(id).contains_key(id),
{
}

} // verus!
