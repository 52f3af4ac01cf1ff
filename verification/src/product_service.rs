//! Product creation: payload validation, the insert with its slug
//! uniqueness check, and the bounded slug-collision retry.

use vstd::prelude::*;
use crate::product::{
    product_validation_message, slug_of, slugify, validate_new_product, NewProduct, Product,
    ProductStatus, Visibility,
};
use crate::store::{slug_exists, slug_taken, Store};
use crate::text::{clone_opt_string, clone_string_vec};
use crate::util::{fresh_slug_suffix, new_uuid_string, now_unix};

verus! {

/// Why product creation failed.
#[derive(Debug, Clone)]
pub enum ProductCreateError {
    /// The payload broke a validation rule; carries that rule's message.
    Validation(String),
    /// The requested slug is already taken (reported by a single insert).
    SlugConflict,
    /// Three slug candidates in a row were already taken.
    RetryExhausted,
}

impl ProductCreateError {
    /// The HTTP status the boundary layer must answer with: bad request
    /// for a validation failure, conflict when slugs collided.
    pub fn status_code(&self) -> (code: u16)
        ensures
            code == match *self {
                ProductCreateError::Validation(_) => 400u16,
                ProductCreateError::SlugConflict => 409u16,
                ProductCreateError::RetryExhausted => 409u16,
            },
    {
        match self {
            ProductCreateError::Validation(_) => 400,
            ProductCreateError::SlugConflict => 409,
            ProductCreateError::RetryExhausted => 409,
        }
    }
}

/// The product row an insert persists for `payload`: the given id and
/// slug, the payload's fields, the currency defaulting to naira, a draft
/// status and shared visibility by default, and both timestamps at `now`.
pub open spec fn spec_product_row(
    p: Product,
    payload: NewProduct,
    id: Seq<char>,
    slug: Seq<char>,
    now: int,
) -> bool {
    &&& p.id@ == id
    &&& p.farmer_id@ == payload.farmer_id@
    &&& p.farm_id == payload.farm_id
    &&& p.name@ == payload.name@
    &&& p.slug@ == slug
    &&& p.description == payload.description
    &&& p.category@ == payload.category@
    &&& p.unit@ == payload.unit@
    &&& p.tags@ == payload.tags@
    &&& p.price_cents == payload.price_cents
    &&& p.currency_code@ == (match payload.currency_code {
        Some(c) => c@,
        None => "NGN"@,
    })
    &&& p.min_order_qty == payload.min_order_qty
    &&& p.quantity_available == payload.quantity_available
    &&& p.organic == payload.organic
    &&& p.perishable == payload.perishable
    &&& p.expected_harvest_date == payload.expected_harvest_date
    &&& p.expiry_date == payload.expiry_date
    &&& p.status == (match payload.status {
        Some(s) => s,
        None => ProductStatus::Draft,
    })
    &&& p.visibility == (match payload.visibility {
        Some(v) => v,
        None => Visibility::Both,
    })
    &&& p.images@ == payload.images@
    &&& p.created_at == now
    &&& p.updated_at == now
}

fn build_product(id: &String, payload: &NewProduct, slug: &String, now: i64) -> (p: Product)
    ensures
        spec_product_row(p, *payload, id@, slug@, now as int),
{
    Product {
        id: id.clone(),
        farmer_id: payload.farmer_id.clone(),
        farm_id: clone_opt_string(&payload.farm_id),
        name: payload.name.clone(),
        slug: slug.clone(),
        description: clone_opt_string(&payload.description),
        category: payload.category.clone(),
        unit: payload.unit.clone(),
        tags: clone_string_vec(&payload.tags),
        price_cents: payload.price_cents,
        currency_code: match &payload.currency_code {
            Some(c) => c.clone(),
            None => "NGN".to_owned(),
        },
        min_order_qty: payload.min_order_qty,
        quantity_available: payload.quantity_available,
        organic: payload.organic,
        perishable: payload.perishable,
        expected_harvest_date: payload.expected_harvest_date,
        expiry_date: payload.expiry_date,
        status: match payload.status {
            Some(s) => s,
            None => ProductStatus::Draft,
        },
        visibility: match payload.visibility {
            Some(v) => v,
            None => Visibility::Both,
        },
        images: clone_string_vec(&payload.images),
        created_at: now,
        updated_at: now,
    }
}

/// One insert attempt: persists the payload under `slug` — unless some
/// product already carries that slug, which the store's unique key
/// reports as a conflict and changes nothing.
pub fn insert_product(
    store: &mut Store,
    id: &String,
    payload: &NewProduct,
    slug: &String,
    now: i64,
) -> (r: Result<Product, ProductCreateError>)
    requires
        old(store).wf(),
    ensures
        final(store).wf(),
        final(store).farmers@ == old(store).farmers@,
        final(store).farms@ == old(store).farms@,
        final(store).verifications@ == old(store).verifications@,
        r is Ok <==> !slug_taken(old(store).products@, slug@),
        r matches Ok(p) ==> final(store).products@.len() == old(store).products@.len() + 1
            && final(store).products@.drop_last() == old(store).products@ && spec_product_row(
            final(store).products@.last(),
            *payload,
            id@,
            slug@,
            now as int,
        ) && spec_product_row(p, *payload, id@, slug@, now as int),
        r is Err ==> final(store).products@ == old(store).products@ && (r matches Err(e)
            && e matches ProductCreateError::SlugConflict),
{
    if slug_exists(&store.products, slug) {
        Err(ProductCreateError::SlugConflict)
    } else {
        let row = build_product(id, payload, slug, now);
        let ret = build_product(id, payload, slug, now);
        store.products.push(row);
        proof {
            assert(store.products@.drop_last() =~= old(store).products@);
            assert forall|a: int, b: int| 0 <= a < b < store.products@.len() implies #[trigger] store.products@[a].slug@
                != #[trigger] store.products@[b].slug@ by {
                if b == store.products@.len() - 1 {
                    assert(old(store).products@[a].slug@ != slug@);
                }
            }
        }
        Ok(ret)
    }
}

/// The slug creation starts from: the caller's, or the one derived from
/// the product name.
pub open spec fn spec_base_slug(payload: NewProduct) -> Seq<char> {
    match payload.slug {
        Some(s) => s@,
        None => slug_of(payload.name@),
    }
}

/// A de-collided slug candidate: the base, a hyphen, a fresh suffix.
pub open spec fn slug_candidate(base: Seq<char>, suffix: Seq<char>) -> Seq<char> {
    base + seq!['-'] + suffix
}

/// Creates a product with the given id, time and two fallback suffixes:
/// validates the payload before touching the store, then tries the base
/// slug and, on collision, up to two suffixed candidates — three insert
/// attempts in all; when all three collide, nothing is written and the
/// exhaustion is reported apart from a plain conflict.
pub fn add_products_with(
    store: &mut Store,
    payload: &NewProduct,
    id: &String,
    now: i64,
    suffix1: &String,
    suffix2: &String,
) -> (r: Result<Product, ProductCreateError>)
    requires
        old(store).wf(),
    ensures
        final(store).wf(),
        final(store).farmers@ == old(store).farmers@,
        final(store).farms@ == old(store).farms@,
        final(store).verifications@ == old(store).verifications@,
        product_validation_message(*payload) matches Some(m) ==> final(store).products@ == old(store).products@ && (r matches Err(e) && e matches ProductCreateError::Validation(m2) && m2@
            == m),
        product_validation_message(*payload) is None ==> ({
            let ps = old(store).products@;
            let base = spec_base_slug(*payload);
            let c2 = slug_candidate(base, suffix1@);
            let c3 = slug_candidate(base, suffix2@);
            &&& (!slug_taken(ps, base) ==> (r matches Ok(p) && p.slug@ == base))
            &&& (slug_taken(ps, base) && !slug_taken(ps, c2) ==> (r matches Ok(p) && p.slug@
                == c2))
            &&& (slug_taken(ps, base) && slug_taken(ps, c2) && !slug_taken(ps, c3) ==> (r matches
            Ok(p) && p.slug@ == c3))
            &&& (slug_taken(ps, base) && slug_taken(ps, c2) && slug_taken(ps, c3) ==> (r matches
            Err(e) && e matches ProductCreateError::RetryExhausted && final(store).products@
                == ps))
            &&& (r matches Ok(p) ==> final(store).products@.len() == ps.len() + 1 && final(store).products@.drop_last() == ps && spec_product_row(
                final(store).products@.last(),
                *payload,
                id@,
                p.slug@,
                now as int,
            ) && spec_product_row(p, *payload, id@, p.slug@, now as int))
        }),
{
    if let Err(msg) = validate_new_product(payload) {
        return Err(ProductCreateError::Validation(msg));
    }
    let base = match &payload.slug {
        Some(s) => s.clone(),
        None => slugify(payload.name.as_str()),
    };
    match insert_product(store, id, payload, &base, now) {
        Ok(p) => {
            return Ok(p);
        },
        Err(_) => {},
    }
    let c2 = base.clone().concat("-").concat(suffix1.as_str());
    proof {
        reveal_strlit("-");
        assert(c2@ =~= slug_candidate(base@, suffix1@));
    }
    match insert_product(store, id, payload, &c2, now) {
        Ok(p) => {
            return Ok(p);
        },
        Err(_) => {},
    }
    let c3 = base.concat("-").concat(suffix2.as_str());
    proof {
        reveal_strlit("-");
        assert(c3@ =~= slug_candidate(spec_base_slug(*payload), suffix2@));
    }
    match insert_product(store, id, payload, &c3, now) {
        Ok(p) => Ok(p),
        Err(_) => Err(ProductCreateError::RetryExhausted),
    }
}

/// Creates a product now, under a fresh id, de-colliding the slug with
/// fresh six-character suffixes when needed.
pub fn add_products(store: &mut Store, payload: &NewProduct) -> (r: Result<
    Product,
    ProductCreateError,
>)
    requires
        old(store).wf(),
    ensures
        final(store).wf(),
        final(store).farmers@ == old(store).farmers@,
        final(store).farms@ == old(store).farms@,
        final(store).verifications@ == old(store).verifications@,
        product_validation_message(*payload) matches Some(m) ==> final(store).products@ == old(store).products@ && (r matches Err(e) && e matches ProductCreateError::Validation(m2) && m2@
            == m),
        product_validation_message(*payload) is None ==> ({
            let ps = old(store).products@;
            let base = spec_base_slug(*payload);
            &&& (!slug_taken(ps, base) ==> (r matches Ok(p) && p.slug@ == base))
            &&& (r matches Ok(p) ==> final(store).products@.len() == ps.len() + 1 && final(store).products@.drop_last() == ps && spec_product_row(
                final(store).products@.last(),
                *payload,
                final(store).products@.last().id@,
                p.slug@,
                final(store).products@.last().created_at as int,
            ) && (slug_taken(ps, base) ==> exists|sfx: Seq<char>|
                p.slug@ == slug_candidate(base, sfx) && sfx.len() == 6))
            &&& (r matches Err(ProductCreateError::RetryExhausted) ==> slug_taken(ps, base)
                && final(store).products@ == ps)
        }),
{
    let id = new_uuid_string();
    let now = now_unix();
    let suffix1 = fresh_slug_suffix();
    let suffix2 = fresh_slug_suffix();
    let r = add_products_with(store, payload, &id, now, &suffix1, &suffix2);
    proof {
        let ps = old(store).products@;
        let base = spec_base_slug(*payload);
        let c2v = slug_candidate(base, suffix1@);
        let c3v = slug_candidate(base, suffix2@);
        if product_validation_message(*payload) is None && r is Ok {
            let p = r->Ok_0;
            if slug_taken(ps, base) {
                if !slug_taken(ps, c2v) {
                    assert(p.slug@ == slug_candidate(base, suffix1@) && suffix1@.len() == 6);
                } else {
                    assert(p.slug@ == slug_candidate(base, suffix2@) && suffix2@.len() == 6);
                }
            }
        }
    }
    r
}

} // verus!
