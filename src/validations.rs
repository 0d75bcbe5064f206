use vstd::prelude::*;
use vstd::utf8::encode_utf8;
use std::collections::HashMap;
use vstd::std_specs::hash::spec_hash_map_iter;
use vstd::std_specs::iter::IteratorSpec;

use crate::dto::{CreateProduct, UpdateProduct};
use crate::errors::ApiError;
use crate::product::Product;

verus! {

/// Whether a byte is an ASCII decimal digit.
pub open spec fn is_digit_byte(b: u8) -> bool {
    48 <= b && b <= 57
}

/// The value of an ASCII decimal digit byte.
pub open spec fn digit_value(b: u8) -> int {
    b as int - 48
}

/// The GS1 weight of the payload digit at a 0-based position.
pub open spec fn ean13_weight(i: int) -> int {
    if i % 2 == 0 {
        1
    } else {
        3
    }
}

/// The weighted sum of the first `n` digits of `b`.
pub open spec fn ean13_weighted_sum(b: Seq<u8>, n: int) -> int
    decreases n,
{
    if n <= 0 {
        0
    } else {
        ean13_weighted_sum(b, n - 1) + digit_value(b[n - 1]) * ean13_weight(n - 1)
    }
}

/// A valid EAN-13: thirteen ASCII digits whose last one is the GS1 mod-10 check digit
/// of the twelve before it.
pub open spec fn ean13_valid(b: Seq<u8>) -> bool {
    &&& b.len() == 13
    &&& forall|i: int| 0 <= i < 13 ==> #[trigger] is_digit_byte(b[i])
    &&& digit_value(b[12]) == (10 - ean13_weighted_sum(b, 12) % 10) % 10
}

/// The UTF-8 length of a string, in bytes.
pub open spec fn byte_len(s: Seq<char>) -> int {
    encode_utf8(s).len() as int
}

/// Checks an EAN-13 code by the GS1 mod-10 algorithm.
pub fn is_valid_ean13(ean: &str) -> (r: bool)
    ensures
        r == ean13_valid(encode_utf8(ean@)),
{
    let b = ean.as_bytes();
    if b.len() != 13 {
        return false;
    }
    let mut i: usize = 0;
    while i < 13
        invariant
            b@ == encode_utf8(ean@),
            b@.len() == 13,
            i <= 13,
            forall|j: int| 0 <= j < i ==> #[trigger] is_digit_byte(b@[j]),
        decreases 13 - i,
    {
        if b[i] < 48u8 || b[i] > 57u8 {
            assert(!is_digit_byte(b@[i as int]));
            return false;
        }
        i = i + 1;
    }
    let mut sum: u32 = 0;
    let mut k: usize = 0;
    while k < 12
        invariant
            b@ == encode_utf8(ean@),
            b@.len() == 13,
            k <= 12,
            forall|j: int| 0 <= j < 13 ==> #[trigger] is_digit_byte(b@[j]),
            sum as int == ean13_weighted_sum(b@, k as int),
            sum <= 27 * k,
        decreases 12 - k,
    {
        assert(is_digit_byte(b@[k as int]));
        let d: u32 = (b[k] - 48u8) as u32;
        if k % 2 == 0 {
            sum = sum + d;
        } else {
            sum = sum + d * 3;
        }
        k = k + 1;
    }
    assert(is_digit_byte(b@[12]));
    let check: u32 = (b[12] - 48u8) as u32;
    check == (10 - sum % 10) % 10
}

/// A product name is between 3 and 120 bytes long.
pub open spec fn name_ok(name: Seq<char>) -> bool {
    3 <= byte_len(name) <= 120
}

/// The field rules of a create request.
pub open spec fn create_fields_valid(d: CreateProduct) -> bool {
    &&& d.sku@.len() > 0
    &&& d.ean13@.len() > 0
    &&& name_ok(d.product_name@)
    &&& d.price_cents >= 0
    &&& d.stock_count >= 0
    &&& ean13_valid(encode_utf8(d.ean13@))
}

/// The field rules of a partial update, applied to the fields present only.
pub open spec fn patch_fields_valid(d: UpdateProduct) -> bool {
    &&& (d.sku matches Some(s) ==> s@.len() > 0)
    &&& (d.product_name matches Some(n) ==> name_ok(n@))
    &&& (d.price_cents matches Some(p) ==> p >= 0)
    &&& (d.stock_count matches Some(c) ==> c >= 0)
    &&& (d.ean13 matches Some(e) ==> ean13_valid(encode_utf8(e@)))
}

/// The detail of the first rule that a create request breaks, if any.
pub open spec fn create_violation(d: CreateProduct) -> Option<Seq<char>> {
    if d.sku@.len() == 0 || d.ean13@.len() == 0 {
        Some("SKU ou EAN13 vazio"@)
    } else if !name_ok(d.product_name@) {
        Some("product_name deve ter entre 3 e 120 caracteres"@)
    } else if d.price_cents < 0 {
        Some("price_cents deve ser >= 0"@)
    } else if d.stock_count < 0 {
        Some("stock_count deve ser >= 0"@)
    } else if !ean13_valid(encode_utf8(d.ean13@)) {
        Some("ean13 inválido"@)
    } else {
        None
    }
}

/// The detail of the first rule that a partial update breaks, if any.
pub open spec fn patch_violation(d: UpdateProduct) -> Option<Seq<char>> {
    if d.sku matches Some(s) && s@.len() == 0 {
        Some("SKU vazio"@)
    } else if d.product_name matches Some(n) && !name_ok(n@) {
        Some("product_name deve ter entre 3 e 120 caracteres"@)
    } else if d.price_cents matches Some(p) && p < 0 {
        Some("price_cents deve ser >= 0"@)
    } else if d.stock_count matches Some(c) && c < 0 {
        Some("stock_count deve ser >= 0"@)
    } else if d.ean13 matches Some(e) && !ean13_valid(encode_utf8(e@)) {
        Some("ean13 inválido"@)
    } else {
        None
    }
}

/// Whether `p` is another product than `exclude` that already uses `sku` or `ean`.
pub open spec fn collides(p: Product, sku: Seq<char>, ean: Seq<char>, exclude: Option<u128>) -> bool {
    &&& exclude != Some(p.id)
    &&& (p.sku@ == sku || p.ean13@ == ean)
}

/// Whether some product of the store collides with `sku` or `ean`.
pub open spec fn has_collision(
    m: Map<u128, Product>,
    sku: Seq<char>,
    ean: Seq<char>,
    exclude: Option<u128>,
) -> bool {
    exists|k: u128| m.contains_key(k) && #[trigger] collides(m[k], sku, ean, exclude)
}

fn bad_request(detail: &str) -> (e: ApiError)
    ensures
        e matches ApiError::BadRequest(m) && m@ == detail@,
{
    ApiError::BadRequest(detail.to_string())
}

fn name_in_range(name: &String) -> (r: bool)
    ensures
        r == name_ok(name@),
{
    let n = name.as_str().as_bytes().len();
    3 <= n && n <= 120
}

/// Checks the field rules of a create request, reporting the first rule broken.
pub fn validate_create(dto: &CreateProduct) -> (r: Result<(), ApiError>)
    ensures
        r is Ok <==> create_fields_valid(*dto),
        r matches Err(e) ==> e is BadRequest,
        r matches Err(e) ==> Some(e->BadRequest_0@) == create_violation(*dto),
{
    proof {
        reveal_strlit("SKU ou EAN13 vazio");
        reveal_strlit("product_name deve ter entre 3 e 120 caracteres");
        reveal_strlit("price_cents deve ser >= 0");
        reveal_strlit("stock_count deve ser >= 0");
        reveal_strlit("ean13 inválido");
    }
    if dto.sku.as_str().is_empty() || dto.ean13.as_str().is_empty() {
        return Err(bad_request("SKU ou EAN13 vazio"));
    }
    if !name_in_range(&dto.product_name) {
        return Err(bad_request("product_name deve ter entre 3 e 120 caracteres"));
    }
    if dto.price_cents < 0 {
        return Err(bad_request("price_cents deve ser >= 0"));
    }
    if dto.stock_count < 0 {
        return Err(bad_request("stock_count deve ser >= 0"));
    }
    if !is_valid_ean13(dto.ean13.as_str()) {
        return Err(bad_request("ean13 inválido"));
    }
    Ok(())
}

/// Checks the field rules of a partial update on the fields it holds,
/// reporting the first rule broken.
pub fn validate_patch(dto: &UpdateProduct) -> (r: Result<(), ApiError>)
    ensures
        r is Ok <==> patch_fields_valid(*dto),
        r matches Err(e) ==> e is BadRequest,
        r matches Err(e) ==> Some(e->BadRequest_0@) == patch_violation(*dto),
{
    proof {
        reveal_strlit("SKU vazio");
        reveal_strlit("product_name deve ter entre 3 e 120 caracteres");
        reveal_strlit("price_cents deve ser >= 0");
        reveal_strlit("stock_count deve ser >= 0");
        reveal_strlit("ean13 inválido");
    }
    if let Some(sku) = &dto.sku {
        if sku.as_str().is_empty() {
            return Err(bad_request("SKU vazio"));
        }
    }
    if let Some(name) = &dto.product_name {
        if !name_in_range(name) {
            return Err(bad_request("product_name deve ter entre 3 e 120 caracteres"));
        }
    }
    if let Some(price) = dto.price_cents {
        if price < 0 {
            return Err(bad_request("price_cents deve ser >= 0"));
        }
    }
    if let Some(stock) = dto.stock_count {
        if stock < 0 {
            return Err(bad_request("stock_count deve ser >= 0"));
        }
    }
    if let Some(ean) = &dto.ean13 {
        if !is_valid_ean13(ean.as_str()) {
            return Err(bad_request("ean13 inválido"));
        }
    }
    Ok(())
}

/// Fails when a product other than `id` already uses `sku` or `ean`.
pub fn ensure_unique(
    map: &HashMap<u128, Product>,
    sku: &String,
    ean: &String,
    id: Option<u128>,
) -> (r: Result<(), ApiError>)
    ensures
        r is Ok <==> !has_collision(map@, sku@, ean@, id),
        r matches Err(e) ==> e is BadRequest,
        r matches Err(e) ==> e->BadRequest_0@ == "SKU ou EAN13 já existe"@,
{
    proof {
        reveal_strlit("SKU ou EAN13 já existe");
    }
    broadcast use vstd::std_specs::hash::group_hash_axioms;

    let ghost entries = spec_hash_map_iter(map).remaining();
    for pair in it: map.iter()
        invariant
            it.seq() == entries,
            entries == spec_hash_map_iter(map).remaining(),
            forall|j: int|
                0 <= j < it.index() ==> !#[trigger] collides(*it.seq()[j].1, sku@, ean@, id),
    {
        let (_, p) = pair;
        let other = match id {
            Some(x) => p.id != x,
            None => true,
        };
        if other && (p.sku == *sku || p.ean13 == *ean) {
            proof {
                let j = it.index();
                assert(map@.contains_key(*entries[j].0));
                assert(collides(map@[*entries[j].0], sku@, ean@, id));
            }
            return Err(bad_request("SKU ou EAN13 já existe"));
        }
    }
    proof {
        assert forall|k: u128| map@.contains_key(k) implies !#[trigger] collides(
            map@[k],
            sku@,
            ean@,
            id,
        ) by {
            let j = choose|j: int| 0 <= j < entries.len() && entries[j] == (&k, &map@[k]);
            assert(!collides(*entries[j].1, sku@, ean@, id));
        }
    }
    Ok(())
}

} // verus!
