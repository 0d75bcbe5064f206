use vstd::prelude::*;
use std::collections::HashMap;
use vstd::utf8::encode_utf8;

use crate::dto::{CreateProduct, UpdateProduct};
use crate::errors::ApiError;
use crate::product::Product;
use crate::validations::{
    collides, create_fields_valid, create_violation, ean13_valid, has_collision, name_ok,
    patch_fields_valid, patch_violation,
};
use crate::validations;

verus! {

broadcast use vstd::std_specs::hash::group_hash_axioms;

/// The store's invariant: each product is keyed by its own id, follows the field
/// rules and was not updated before it was created, and no two products share a
/// SKU or an EAN-13.
pub open spec fn store_wf(m: Map<u128, Product>) -> bool {
    &&& forall|k: u128| #[trigger] m.contains_key(k) ==> m[k].id == k
    &&& forall|k: u128| #[trigger] m.contains_key(k) ==> record_fields_valid(m[k])
    &&& forall|k1: u128, k2: u128|
        #[trigger] m.contains_key(k1) && #[trigger] m.contains_key(k2) && k1 != k2 ==> {
            &&& m[k1].sku@ != m[k2].sku@
            &&& m[k1].ean13@ != m[k2].ean13@
        }
}

/// Whether a create request is accepted on store `m` with the fresh id `id`.
pub open spec fn create_accepts(m: Map<u128, Product>, dto: CreateProduct, id: u128) -> bool {
    &&& create_fields_valid(dto)
    &&& !has_collision(m, dto.sku@, dto.ean13@, None)
    &&& !m.contains_key(id)
}

/// Whether `p` is the record that a create request makes with id `id` at time `now`.
pub open spec fn created_from(p: Product, dto: CreateProduct, id: u128, now: i64) -> bool {
    &&& p.id == id
    &&& p.sku == dto.sku
    &&& p.product_name == dto.product_name
    &&& p.category == dto.category
    &&& p.ean13 == dto.ean13
    &&& p.price_cents == dto.price_cents
    &&& p.currency@ == match dto.currency {
        Some(c) => c@,
        None => "BRL"@,
    }
    &&& p.stock_count == dto.stock_count
    &&& p.created_at == now
    &&& p.updated_at == now
}

/// The SKU that a patch would leave on product `p`.
pub open spec fn candidate_sku(p: Product, dto: UpdateProduct) -> Seq<char> {
    match dto.sku {
        Some(s) => s@,
        None => p.sku@,
    }
}

/// The EAN-13 that a patch would leave on product `p`.
pub open spec fn candidate_ean13(p: Product, dto: UpdateProduct) -> Seq<char> {
    match dto.ean13 {
        Some(e) => e@,
        None => p.ean13@,
    }
}

/// The update time a patch stamps: the time now, but never before the last update.
pub open spec fn patch_stamp(p: Product, now: i64) -> i64 {
    if now >= p.updated_at {
        now
    } else {
        p.updated_at
    }
}

/// Product `p` with the fields present in `dto` replaced and its update time stamped.
pub open spec fn patched(p: Product, dto: UpdateProduct, now: i64) -> Product {
    Product {
        id: p.id,
        sku: match dto.sku {
            Some(v) => v,
            None => p.sku,
        },
        product_name: match dto.product_name {
            Some(v) => v,
            None => p.product_name,
        },
        category: match dto.category {
            Some(v) => v,
            None => p.category,
        },
        ean13: match dto.ean13 {
            Some(v) => v,
            None => p.ean13,
        },
        price_cents: match dto.price_cents {
            Some(v) => v,
            None => p.price_cents,
        },
        currency: match dto.currency {
            Some(v) => v,
            None => p.currency,
        },
        stock_count: match dto.stock_count {
            Some(v) => v,
            None => p.stock_count,
        },
        created_at: p.created_at,
        updated_at: patch_stamp(p, now),
    }
}

/// The field rules of a stored record.
pub open spec fn record_fields_valid(p: Product) -> bool {
    &&& p.sku@.len() > 0
    &&& name_ok(p.product_name@)
    &&& p.price_cents >= 0
    &&& p.stock_count >= 0
    &&& ean13_valid(encode_utf8(p.ean13@))
    &&& p.created_at <= p.updated_at
}

/// Whether a seed record may join store `m` without breaking its invariant.
pub open spec fn seed_accepts(m: Map<u128, Product>, p: Product) -> bool {
    &&& record_fields_valid(p)
    &&& !m.contains_key(p.id)
    &&& !has_collision(m, p.sku@, p.ean13@, None)
}

/// The store after seed records `ps` are taken in order, each one joining the
/// store only where `seed_accepts` holds against the store as it then stands.
pub open spec fn seed_result(m: Map<u128, Product>, ps: Seq<Product>) -> Map<u128, Product>
    decreases ps.len(),
{
    if ps.len() == 0 {
        m
    } else {
        let before = seed_result(m, ps.drop_last());
        let p = ps.last();
        if seed_accepts(before, p) {
            before.insert(p.id, p)
        } else {
            before
        }
    }
}

/// The ids of the seed records `ps` that do not join the store, in order.
pub open spec fn seed_rejected(m: Map<u128, Product>, ps: Seq<Product>) -> Seq<u128>
    decreases ps.len(),
{
    if ps.len() == 0 {
        Seq::empty()
    } else {
        let rejected = seed_rejected(m, ps.drop_last());
        let p = ps.last();
        if seed_accepts(seed_result(m, ps.drop_last()), p) {
            rejected
        } else {
            rejected.push(p.id)
        }
    }
}

fn check_record(p: &Product) -> (r: bool)
    ensures
        r == record_fields_valid(*p),
{
    let n = p.product_name.as_str().as_bytes().len();
    !p.sku.as_str().is_empty() && 3 <= n && n <= 120 && p.price_cents >= 0 && p.stock_count >= 0
        && validations::is_valid_ean13(p.ean13.as_str()) && p.created_at <= p.updated_at
}

/// Relies on uuid::Uuid::new_v4 for a random identifier, read as its 128-bit value.
#[verifier::external_body]
fn new_product_id() -> (r: u128) {
    uuid::Uuid::new_v4().as_u128()
}

/// Relies on chrono::Utc::now for the current time, read as microseconds since
/// the Unix epoch.
#[verifier::external_body]
fn now_micros() -> (r: i64) {
    chrono::Utc::now().timestamp_micros()
}

/// The product operations on a store that maps each id to its product.
///
/// Callers hold the store's lock across each call, a write lock for `create`,
/// `patch`, `delete` and `load_seed` and a read lock for `get`, so that each
/// check and the mutation that follows it see the same store.
pub struct ProductRepository;

impl ProductRepository {
    /// Creates a product with identifier `id`, stamped at time `now`.
    ///
    /// Fails with `BadRequest` when a field rule is broken or another product
    /// already uses the SKU or the EAN-13, and with `Internal` when `id` is
    /// already taken; the store is left unchanged on failure.
    pub fn create_at(
        map: &mut HashMap<u128, Product>,
        dto: CreateProduct,
        id: u128,
        now: i64,
    ) -> (r: Result<Product, ApiError>)
        requires
            store_wf(old(map)@),
        ensures
            store_wf(final(map)@),
            r is Ok <==> create_accepts(old(map)@, dto, id),
            r matches Ok(p) ==> created_from(p, dto, id, now) && final(map)@ == old(map)@.insert(
                id,
                p,
            ),
            r matches Ok(p) ==> final(map)@.len() == old(map)@.len() + 1,
            r matches Err(e) ==> final(map)@ == old(map)@,
            r matches Err(e) ==> (e is BadRequest <==> (!create_fields_valid(dto)
                || has_collision(old(map)@, dto.sku@, dto.ean13@, None))),
            r matches Err(e) ==> (e is Internal <==> (create_fields_valid(dto)
                && !has_collision(old(map)@, dto.sku@, dto.ean13@, None))),
            r matches Err(ApiError::BadRequest(m)) ==> if create_fields_valid(dto) {
                m@ == "SKU ou EAN13 já existe"@
            } else {
                Some(m@) == create_violation(dto)
            },
    {
        Self::validate_create(&dto)?;
        Self::ensure_unique(map, &dto.sku, &dto.ean13, None)?;
        if map.contains_key(&id) {
            return Err(ApiError::Internal);
        }
        let currency = match dto.currency {
            Some(c) => c,
            None => "BRL".to_string(),
        };
        let product = Product {
            id,
            sku: dto.sku,
            product_name: dto.product_name,
            category: dto.category,
            ean13: dto.ean13,
            price_cents: dto.price_cents,
            currency,
            stock_count: dto.stock_count,
            created_at: now,
            updated_at: now,
        };
        map.insert(id, product.clone());
        proof {
            let m0 = old(map)@;
            let m1 = map@;
            assert forall|k1: u128, k2: u128|
                #[trigger] m1.contains_key(k1) && #[trigger] m1.contains_key(k2) && k1 != k2
                implies m1[k1].sku@ != m1[k2].sku@ && m1[k1].ean13@ != m1[k2].ean13@ by {
                if k1 == id {
                    assert(!collides(m0[k2], dto.sku@, dto.ean13@, None));
                } else if k2 == id {
                    assert(!collides(m0[k1], dto.sku@, dto.ean13@, None));
                }
            }
        }
        Ok(product)
    }

    /// Creates a product under a fresh random identifier, stamped with the time now.
    ///
    /// Fails with `BadRequest` exactly when a field rule is broken or another
    /// product already uses the SKU or the EAN-13, and with `Internal` when the
    /// drawn identifier is already taken; the store is left unchanged on failure.
    /// A valid create on an empty store always succeeds.
    pub fn create(map: &mut HashMap<u128, Product>, dto: CreateProduct) -> (r: Result<
        Product,
        ApiError,
    >)
        requires
            store_wf(old(map)@),
        ensures
            store_wf(final(map)@),
            r matches Ok(p) ==> {
                &&& create_accepts(old(map)@, dto, p.id)
                &&& created_from(p, dto, p.id, p.created_at)
                &&& final(map)@ == old(map)@.insert(p.id, p)
            },
            r matches Err(e) ==> final(map)@ == old(map)@,
            r matches Err(e) ==> (e is BadRequest <==> (!create_fields_valid(dto)
                || has_collision(old(map)@, dto.sku@, dto.ean13@, None))),
            r matches Err(e) ==> (e is BadRequest || e is Internal),
            (forall|k: u128| !old(map)@.contains_key(k)) && create_fields_valid(dto) ==> r is Ok,
            r matches Ok(p) ==> p.created_at == p.updated_at && final(map)@.len() == old(
                map,
            )@.len() + 1,
    {
        let id = new_product_id();
        let now = now_micros();
        Self::create_at(map, dto, id, now)
    }

    /// Returns a copy of the product with identifier `id`, or `NotFound`.
    pub fn get(map: &HashMap<u128, Product>, id: &u128) -> (r: Result<Product, ApiError>)
        ensures
            r is Ok <==> map@.contains_key(*id),
            r matches Ok(p) ==> p == map@[*id],
            r matches Err(e) ==> e is NotFound,
    {
        match map.get(id) {
            Some(p) => Ok(p.clone()),
            None => Err(ApiError::NotFound),
        }
    }

    /// Applies a partial update to the product with identifier `id` at time `now`.
    ///
    /// Fails with `BadRequest` when a present field breaks its rule, with
    /// `NotFound` when there is no such product, and with `BadRequest` when
    /// another product already uses the SKU or the EAN-13 that the product would
    /// have; the store is left unchanged on failure.
    pub fn patch_at(
        map: &mut HashMap<u128, Product>,
        id: u128,
        dto: UpdateProduct,
        now: i64,
    ) -> (r: Result<Product, ApiError>)
        requires
            store_wf(old(map)@),
        ensures
            store_wf(final(map)@),
            r is Ok <==> {
                &&& patch_fields_valid(dto)
                &&& old(map)@.contains_key(id)
                &&& !has_collision(
                    old(map)@,
                    candidate_sku(old(map)@[id], dto),
                    candidate_ean13(old(map)@[id], dto),
                    Some(id),
                )
            },
            r matches Ok(p) ==> p == patched(old(map)@[id], dto, now) && final(map)@ == old(
                map,
            )@.insert(id, p),
            r matches Err(e) ==> final(map)@ == old(map)@,
            r matches Err(e) ==> (e is NotFound <==> (patch_fields_valid(dto)
                && !old(map)@.contains_key(id))),
            r matches Err(e) ==> (e is BadRequest || e is NotFound),
            r matches Err(ApiError::BadRequest(m)) ==> if patch_fields_valid(dto) {
                m@ == "SKU ou EAN13 já existe"@
            } else {
                Some(m@) == patch_violation(dto)
            },
    {
        Self::validate_patch(&dto)?;
        let existing = match map.get(&id) {
            Some(p) => p,
            None => {
                return Err(ApiError::NotFound);
            },
        };
        let new_sku = match &dto.sku {
            Some(s) => s.clone(),
            None => existing.sku.clone(),
        };
        let new_ean = match &dto.ean13 {
            Some(e) => e.clone(),
            None => existing.ean13.clone(),
        };
        Self::ensure_unique(map, &new_sku, &new_ean, Some(id))?;
        let mut product = existing.clone();
        if let Some(v) = dto.sku {
            product.sku = v;
        }
        if let Some(v) = dto.product_name {
            product.product_name = v;
        }
        if let Some(v) = dto.category {
            product.category = v;
        }
        if let Some(v) = dto.ean13 {
            product.ean13 = v;
        }
        if let Some(v) = dto.price_cents {
            product.price_cents = v;
        }
        if let Some(v) = dto.currency {
            product.currency = v;
        }
        if let Some(v) = dto.stock_count {
            product.stock_count = v;
        }
        if now >= product.updated_at {
            product.updated_at = now;
        }
        map.insert(id, product.clone());
        proof {
            let m0 = old(map)@;
            let m1 = map@;
            assert(product == patched(m0[id], dto, now));
            assert forall|k1: u128, k2: u128|
                #[trigger] m1.contains_key(k1) && #[trigger] m1.contains_key(k2) && k1 != k2
                implies m1[k1].sku@ != m1[k2].sku@ && m1[k1].ean13@ != m1[k2].ean13@ by {
                if k1 == id {
                    assert(!collides(m0[k2], new_sku@, new_ean@, Some(id)));
                } else if k2 == id {
                    assert(!collides(m0[k1], new_sku@, new_ean@, Some(id)));
                }
            }
        }
        Ok(product)
    }

    /// Applies a partial update to the product with identifier `id`, stamping its
    /// update time with the time now, or with its last update time should the
    /// clock read earlier.
    ///
    /// Fails as `patch_at` does, leaving the store unchanged.
    pub fn patch(map: &mut HashMap<u128, Product>, id: u128, dto: UpdateProduct) -> (r: Result<
        Product,
        ApiError,
    >)
        requires
            store_wf(old(map)@),
        ensures
            store_wf(final(map)@),
            r is Ok <==> {
                &&& patch_fields_valid(dto)
                &&& old(map)@.contains_key(id)
                &&& !has_collision(
                    old(map)@,
                    candidate_sku(old(map)@[id], dto),
                    candidate_ean13(old(map)@[id], dto),
                    Some(id),
                )
            },
            r matches Ok(p) ==> (exists|now: i64| p == patched(old(map)@[id], dto, now))
                && final(map)@ == old(map)@.insert(id, p),
            r matches Err(e) ==> final(map)@ == old(map)@,
            r matches Err(e) ==> (e is NotFound <==> (patch_fields_valid(dto)
                && !old(map)@.contains_key(id))),
            r matches Err(e) ==> (e is BadRequest || e is NotFound),
    {
        let now = now_micros();
        Self::patch_at(map, id, dto, now)
    }

    /// Removes the product with identifier `id`, or fails with `NotFound`.
    pub fn delete(map: &mut HashMap<u128, Product>, id: &u128) -> (r: Result<(), ApiError>)
        requires
            store_wf(old(map)@),
        ensures
            store_wf(final(map)@),
            r is Ok <==> old(map)@.contains_key(*id),
            final(map)@ == old(map)@.remove(*id),
            r matches Err(e) ==> e is NotFound,
    {
        match map.remove(id) {
            Some(_) => Ok(()),
            None => Err(ApiError::NotFound),
        }
    }

    /// Loads seed records into the store, in order. A record joins the store only
    /// where it keeps the store's invariant: its fields follow the rules, its id
    /// is not taken, and no product already uses its SKU or EAN-13. Returns the
    /// ids of the records left out.
    pub fn load_seed(map: &mut HashMap<u128, Product>, products: Vec<Product>) -> (rejected: Vec<
        u128,
    >)
        requires
            store_wf(old(map)@),
        ensures
            store_wf(final(map)@),
            final(map)@ == seed_result(old(map)@, products@),
            rejected@ == seed_rejected(old(map)@, products@),
    {
        let mut rejected: Vec<u128> = Vec::new();
        let mut i: usize = 0;
        while i < products.len()
            invariant
                i <= products.len(),
                store_wf(map@),
                map@ == seed_result(old(map)@, products@.subrange(0, i as int)),
                rejected@ == seed_rejected(old(map)@, products@.subrange(0, i as int)),
            decreases products.len() - i,
        {
            let ghost done = products@.subrange(0, i as int);
            let ghost next = products@.subrange(0, i as int + 1);
            assert(next.drop_last() =~= done);
            let p = products[i].clone();
            assert(next.last() == p);
            let fresh = !map.contains_key(&p.id);
            let unique = Self::ensure_unique(map, &p.sku, &p.ean13, None).is_ok();
            if fresh && unique && check_record(&p) {
                let ghost m0 = map@;
                map.insert(p.id, p.clone());
                proof {
                    let m1 = map@;
                    assert forall|k1: u128, k2: u128|
                        #[trigger] m1.contains_key(k1) && #[trigger] m1.contains_key(k2) && k1
                            != k2 implies m1[k1].sku@ != m1[k2].sku@ && m1[k1].ean13@
                        != m1[k2].ean13@ by {
                        if k1 == p.id {
                            assert(!collides(m0[k2], p.sku@, p.ean13@, None));
                        } else if k2 == p.id {
                            assert(!collides(m0[k1], p.sku@, p.ean13@, None));
                        }
                    }
                }
            } else {
                rejected.push(p.id);
            }
            i = i + 1;
        }
        assert(products@.subrange(0, products@.len() as int) =~= products@);
        rejected
    }

    /// Checks the field rules of a create request.
    pub fn validate_create(dto: &CreateProduct) -> (r: Result<(), ApiError>)
        ensures
            r is Ok <==> create_fields_valid(*dto),
            r matches Err(e) ==> e is BadRequest,
            r matches Err(e) ==> Some(e->BadRequest_0@) == create_violation(*dto),
    {
        validations::validate_create(dto)
    }

    /// Checks the field rules of a partial update on the fields it holds.
    pub fn validate_patch(dto: &UpdateProduct) -> (r: Result<(), ApiError>)
        ensures
            r is Ok <==> patch_fields_valid(*dto),
            r matches Err(e) ==> e is BadRequest,
            r matches Err(e) ==> Some(e->BadRequest_0@) == patch_violation(*dto),
    {
        validations::validate_patch(dto)
    }

    /// Fails with `BadRequest` when a product other than `id` already uses `sku`
    /// or `ean`.
    pub fn ensure_unique(
        map: &HashMap<u128, Product>,
        sku: &String,
        ean: &String,
        id: Option<u128>,
    ) -> (r: Result<(), ApiError>)
        ensures
            r is Ok <==> !has_collision(map@, sku@, ean@, id),
            r matches Err(e) ==> e is BadRequest,
            r matches Err(e) ==> e->BadRequest_0@ == "SKU ou EAN13 já existe"@,
    {
        validations::ensure_unique(map, sku, ean, id)
    }
}

} // verus!
