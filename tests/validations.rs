use product_catalog::dto::{CreateProduct, UpdateProduct};
use product_catalog::errors::ApiError;
use product_catalog::validations::{is_valid_ean13, validate_create, validate_patch};

fn good_create() -> CreateProduct {
    CreateProduct {
        sku: "SKU-1".to_string(),
        product_name: "Widget".to_string(),
        category: "tools".to_string(),
        ean13: "4006381333931".to_string(),
        price_cents: 1999,
        currency: None,
        stock_count: 5,
    }
}

fn empty_update() -> UpdateProduct {
    UpdateProduct {
        sku: None,
        product_name: None,
        category: None,
        ean13: None,
        price_cents: None,
        currency: None,
        stock_count: None,
    }
}

fn is_bad_request(r: Result<(), ApiError>) -> bool {
    matches!(r, Err(ApiError::BadRequest(_)))
}

#[test]
fn ean13_known_valid() {
    assert!(is_valid_ean13("4006381333931"));
    assert!(is_valid_ean13("5901234123457"));
    assert!(is_valid_ean13("0000000000000"));
}

#[test]
fn ean13_wrong_check_digit() {
    assert!(!is_valid_ean13("4006381333930"));
    assert!(!is_valid_ean13("5901234123458"));
}

#[test]
fn ean13_wrong_length() {
    assert!(!is_valid_ean13("123"));
    assert!(!is_valid_ean13(""));
    assert!(!is_valid_ean13("40063813339310"));
}

#[test]
fn ean13_non_digits() {
    assert!(!is_valid_ean13("400638133393a"));
    assert!(!is_valid_ean13("40063813339 1"));
    assert!(!is_valid_ean13("4006381333９3"));
}

#[test]
fn create_fields_accepted() {
    assert!(validate_create(&good_create()).is_ok());
}

#[test]
fn create_empty_sku_rejected() {
    let mut d = good_create();
    d.sku = String::new();
    assert!(is_bad_request(validate_create(&d)));
}

#[test]
fn create_name_length_bounds() {
    let mut d = good_create();
    d.product_name = "ab".to_string();
    assert!(is_bad_request(validate_create(&d)));
    d.product_name = "abc".to_string();
    assert!(validate_create(&d).is_ok());
    d.product_name = "x".repeat(120);
    assert!(validate_create(&d).is_ok());
    d.product_name = "x".repeat(121);
    assert!(is_bad_request(validate_create(&d)));
}

#[test]
fn create_name_length_counts_bytes() {
    let mut d = good_create();
    d.product_name = "ééé".to_string();
    assert!(validate_create(&d).is_ok());
    d.product_name = "é".to_string();
    assert!(is_bad_request(validate_create(&d)));
}

#[test]
fn create_negative_price_rejected() {
    let mut d = good_create();
    d.price_cents = -1;
    assert!(is_bad_request(validate_create(&d)));
    d.price_cents = 0;
    assert!(validate_create(&d).is_ok());
}

#[test]
fn create_negative_stock_rejected() {
    let mut d = good_create();
    d.stock_count = -3;
    assert!(is_bad_request(validate_create(&d)));
}

#[test]
fn create_bad_ean_rejected() {
    let mut d = good_create();
    d.ean13 = "4006381333930".to_string();
    assert!(is_bad_request(validate_create(&d)));
}

#[test]
fn create_reports_first_rule() {
    let mut d = good_create();
    d.product_name = "ab".to_string();
    d.price_cents = -1;
    match validate_create(&d) {
        Err(ApiError::BadRequest(msg)) => assert!(msg.contains("product_name")),
        _ => panic!("expected a bad request"),
    }
}

#[test]
fn patch_empty_is_valid() {
    assert!(validate_patch(&empty_update()).is_ok());
}

#[test]
fn patch_checks_present_fields_only() {
    let mut u = empty_update();
    u.stock_count = Some(0);
    assert!(validate_patch(&u).is_ok());
    u.stock_count = Some(-1);
    assert!(is_bad_request(validate_patch(&u)));

    let mut u = empty_update();
    u.ean13 = Some("123".to_string());
    assert!(is_bad_request(validate_patch(&u)));

    let mut u = empty_update();
    u.product_name = Some("no".to_string());
    assert!(is_bad_request(validate_patch(&u)));

    let mut u = empty_update();
    u.price_cents = Some(-5);
    assert!(is_bad_request(validate_patch(&u)));

    let mut u = empty_update();
    u.sku = Some(String::new());
    assert!(is_bad_request(validate_patch(&u)));
}

#[test]
fn error_status_and_body() {
    assert_eq!(ApiError::NotFound.status_code(), 404);
    assert_eq!(ApiError::BadRequest("x".to_string()).status_code(), 400);
    assert_eq!(ApiError::Internal.status_code(), 500);
    assert_eq!(ApiError::NotFound.body(), "Not found");
    assert_eq!(ApiError::BadRequest("detail".to_string()).body(), "detail");
    assert_eq!(ApiError::Internal.body(), "Internal server error");
    assert_eq!(ApiError::BadRequest("detail".to_string()).message(), "Bad request: detail");
    assert_eq!(ApiError::NotFound.message(), "Not found");
}
