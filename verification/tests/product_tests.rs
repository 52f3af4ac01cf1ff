use agrilink::product::{slugify, NewProduct, ProductStatus, Visibility};
use agrilink::product_service::{add_products, add_products_with, insert_product, ProductCreateError};
use agrilink::store::Store;

fn valid_payload(name: &str) -> NewProduct {
    let mut p = NewProduct::default();
    p.farmer_id = "farmer-1".to_string();
    p.name = name.to_string();
    p.category = "vegetables".to_string();
    p.unit = "kg".to_string();
    p.price_cents = 1500;
    p.min_order_qty = 1;
    p.quantity_available = 10;
    p
}

#[test]
fn slugify_replaces_and_lowercases() {
    assert_eq!(slugify("Fresh Organic Tomatoes!"), "fresh-organic-tomatoes");
}

#[test]
fn slugify_collapses_and_trims() {
    assert_eq!(slugify("  A--B  "), "a-b");
}

#[test]
fn slugify_edge_cases() {
    assert_eq!(slugify(""), "");
    assert_eq!(slugify("---"), "");
    assert_eq!(slugify("Hello World 99"), "hello-world-99");
    assert_eq!(slugify("!@#$"), "");
    assert_eq!(slugify("ABC"), "abc");
}

#[test]
fn default_payload_values() {
    let p = NewProduct::default();
    assert_eq!(p.category, "uncategorized");
    assert_eq!(p.unit, "kg");
    assert_eq!(p.currency_code.as_deref(), Some("NGN"));
    assert_eq!(p.min_order_qty, 1);
    assert_eq!(p.price_cents, 0);
    assert!(matches!(p.status, Some(ProductStatus::Draft)));
    assert!(matches!(p.visibility, Some(Visibility::Both)));
    assert!(p.slug.is_none());
    assert!(p.tags.is_empty());
}

#[test]
fn zero_min_order_qty_fails_validation() {
    let mut store = Store::new();
    let mut p = valid_payload("Yam");
    p.min_order_qty = 0;
    let r = add_products_with(
        &mut store,
        &p,
        &"id-1".to_string(),
        100,
        &"aaaaaa".to_string(),
        &"bbbbbb".to_string(),
    );
    match r {
        Err(ProductCreateError::Validation(m)) => {
            assert_eq!(m, "Quantity available must be >= 0");
        }
        _ => panic!("expected a validation error"),
    }
    assert_eq!(store.products.len(), 0);
}

#[test]
fn negative_price_fails_validation() {
    let mut store = Store::new();
    let mut p = valid_payload("Yam");
    p.price_cents = -1;
    let r = add_products_with(
        &mut store,
        &p,
        &"id-1".to_string(),
        100,
        &"aaaaaa".to_string(),
        &"bbbbbb".to_string(),
    );
    match r {
        Err(ProductCreateError::Validation(m)) => {
            assert_eq!(m, "Price_cents must be >= 0");
        }
        _ => panic!("expected a validation error"),
    }
}

#[test]
fn blank_name_category_unit_fail_validation() {
    let mut store = Store::new();
    let id = "id-1".to_string();
    let s1 = "aaaaaa".to_string();
    let s2 = "bbbbbb".to_string();

    let mut p = valid_payload("  ");
    let r = add_products_with(&mut store, &p, &id, 100, &s1, &s2);
    assert!(matches!(r, Err(ProductCreateError::Validation(m)) if m == "Product name is required"));

    p = valid_payload("Yam");
    p.category = " \t ".to_string();
    let r = add_products_with(&mut store, &p, &id, 100, &s1, &s2);
    assert!(matches!(r, Err(ProductCreateError::Validation(m)) if m == "Category name is required"));

    p = valid_payload("Yam");
    p.unit = "".to_string();
    let r = add_products_with(&mut store, &p, &id, 100, &s1, &s2);
    assert!(matches!(r, Err(ProductCreateError::Validation(m)) if m == "Unit name is required"));
}

#[test]
fn valid_product_succeeds_with_generated_fields() {
    let mut store = Store::new();
    let p = valid_payload("Sweet Corn");
    let r = add_products_with(
        &mut store,
        &p,
        &"prod-42".to_string(),
        1234,
        &"aaaaaa".to_string(),
        &"bbbbbb".to_string(),
    );
    let row = r.expect("creation should succeed");
    assert!(!row.id.is_empty());
    assert_eq!(row.id, "prod-42");
    assert_eq!(row.slug, "sweet-corn");
    assert_eq!(row.created_at, 1234);
    assert_eq!(row.updated_at, 1234);
    assert_eq!(row.currency_code, "NGN");
    assert!(matches!(row.status, ProductStatus::Draft));
    assert!(matches!(row.visibility, Visibility::Both));
    assert_eq!(store.products.len(), 1);
    assert_eq!(store.products[0].slug, "sweet-corn");
}

#[test]
fn supplied_slug_is_used_verbatim() {
    let mut store = Store::new();
    let mut p = valid_payload("Sweet Corn");
    p.slug = Some("My Custom Slug".to_string());
    let r = add_products_with(
        &mut store,
        &p,
        &"prod-1".to_string(),
        1,
        &"aaaaaa".to_string(),
        &"bbbbbb".to_string(),
    );
    assert_eq!(r.unwrap().slug, "My Custom Slug");
}

#[test]
fn slug_collision_retries_with_suffixed_candidates() {
    let mut store = Store::new();
    let p = valid_payload("Sweet Corn");
    // Occupy the base slug and the first fallback candidate.
    insert_product(&mut store, &"a".to_string(), &p, &"sweet-corn".to_string(), 1).unwrap();
    insert_product(&mut store, &"b".to_string(), &p, &"sweet-corn-aaaaaa".to_string(), 1).unwrap();
    let r = add_products_with(
        &mut store,
        &p,
        &"c".to_string(),
        2,
        &"aaaaaa".to_string(),
        &"bbbbbb".to_string(),
    );
    // The third attempt's candidate is free and wins.
    assert_eq!(r.unwrap().slug, "sweet-corn-bbbbbb");
    assert_eq!(store.products.len(), 3);
}

#[test]
fn slug_retry_exhausts_after_exactly_three_attempts() {
    let mut store = Store::new();
    let p = valid_payload("Sweet Corn");
    // Occupy all three candidates the call may try -- and nothing else.
    insert_product(&mut store, &"a".to_string(), &p, &"sweet-corn".to_string(), 1).unwrap();
    insert_product(&mut store, &"b".to_string(), &p, &"sweet-corn-aaaaaa".to_string(), 1).unwrap();
    insert_product(&mut store, &"c".to_string(), &p, &"sweet-corn-bbbbbb".to_string(), 1).unwrap();
    let r = add_products_with(
        &mut store,
        &p,
        &"d".to_string(),
        2,
        &"aaaaaa".to_string(),
        &"bbbbbb".to_string(),
    );
    // Exactly the three candidates were attempted; no fourth was invented.
    assert!(matches!(r, Err(ProductCreateError::RetryExhausted)));
    assert_eq!(store.products.len(), 3);
}

#[test]
fn insert_product_reports_conflict_and_writes_nothing() {
    let mut store = Store::new();
    let p = valid_payload("Okra");
    insert_product(&mut store, &"a".to_string(), &p, &"okra".to_string(), 1).unwrap();
    let r = insert_product(&mut store, &"b".to_string(), &p, &"okra".to_string(), 2);
    assert!(matches!(r, Err(ProductCreateError::SlugConflict)));
    assert_eq!(store.products.len(), 1);
}

#[test]
fn product_error_status_codes() {
    assert_eq!(ProductCreateError::Validation("x".to_string()).status_code(), 400);
    assert_eq!(ProductCreateError::SlugConflict.status_code(), 409);
    assert_eq!(ProductCreateError::RetryExhausted.status_code(), 409);
}

#[test]
fn live_product_creation_decollides_with_random_suffix() {
    let mut store = Store::new();
    let p = valid_payload("Sweet Corn");
    insert_product(&mut store, &"a".to_string(), &p, &"sweet-corn".to_string(), 1).unwrap();
    let r = add_products(&mut store, &p).expect("creation should succeed");
    assert!(r.slug.starts_with("sweet-corn-"));
    assert_eq!(r.slug.len(), "sweet-corn-".len() + 6);
    assert_eq!(store.products.len(), 2);
}
