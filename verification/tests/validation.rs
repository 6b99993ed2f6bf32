use product_api::dto::{ApiResponse, CreateProductDto, UpdateProductDto, validate_create_dto, validate_update_dto};

#[test]
fn create_name_too_short_rejected() {
    let dto = CreateProductDto { name: "ab".to_string(), price: 10, stock: 1 };
    let errs = validate_create_dto(&dto);
    assert_eq!(errs, vec!["name must be 3-100 characters".to_string()]);
}

#[test]
fn create_negative_price_rejected() {
    let dto = CreateProductDto { name: "Widget".to_string(), price: -1, stock: 1 };
    let errs = validate_create_dto(&dto);
    assert_eq!(errs, vec!["price must not be negative".to_string()]);
}

#[test]
fn create_valid_payload_accepted() {
    let dto = CreateProductDto { name: "Widget".to_string(), price: 10, stock: 5 };
    let errs = validate_create_dto(&dto);
    assert!(errs.is_empty());
}

#[test]
fn create_many_violations_aggregate() {
    let dto = CreateProductDto { name: "ab".to_string(), price: -1, stock: -2 };
    let errs = validate_create_dto(&dto);
    assert_eq!(
        errs,
        vec![
            "name must be 3-100 characters".to_string(),
            "price must not be negative".to_string(),
            "stock must not be negative".to_string(),
        ]
    );
}

#[test]
fn create_name_bounds_inclusive() {
    let three = CreateProductDto { name: "abc".to_string(), price: 0, stock: 0 };
    assert!(validate_create_dto(&three).is_empty());
    let hundred = CreateProductDto { name: "x".repeat(100), price: 0, stock: 0 };
    assert!(validate_create_dto(&hundred).is_empty());
    let over = CreateProductDto { name: "x".repeat(101), price: 0, stock: 0 };
    assert_eq!(validate_create_dto(&over).len(), 1);
}

#[test]
fn update_all_absent_rejected() {
    let dto = UpdateProductDto { name: None, price: None, stock: None };
    let errs = validate_update_dto(&dto);
    assert_eq!(errs, vec!["must supply at least one field".to_string()]);
}

#[test]
fn update_stock_without_price_rejected() {
    let dto = UpdateProductDto { name: None, price: None, stock: Some(5) };
    let errs = validate_update_dto(&dto);
    assert_eq!(errs, vec!["updating stock requires price to also be supplied".to_string()]);
}

#[test]
fn update_name_without_price_accepted() {
    let dto = UpdateProductDto { name: Some("Widget".to_string()), price: None, stock: None };
    assert!(validate_update_dto(&dto).is_empty());
}

#[test]
fn update_stock_with_price_accepted() {
    let dto = UpdateProductDto { name: None, price: Some(10), stock: Some(5) };
    assert!(validate_update_dto(&dto).is_empty());
}

#[test]
fn update_field_bounds_checked_first() {
    let dto = UpdateProductDto { name: Some("ab".to_string()), price: Some(-4), stock: None };
    let errs = validate_update_dto(&dto);
    assert_eq!(
        errs,
        vec![
            "name must be 3-100 characters".to_string(),
            "price must not be negative".to_string(),
        ]
    );
}

#[test]
fn envelope_constructors_fill_flags() {
    match ApiResponse::success(7u64, "done") {
        ApiResponse::Success { success, message, data } => {
            assert!(success);
            assert_eq!(message, "done");
            assert_eq!(data, 7u64);
        },
        _ => panic!("expected success envelope"),
    }
    match ApiResponse::<u64>::error("failed", "boom") {
        ApiResponse::Error { success, message, error } => {
            assert!(!success);
            assert_eq!(message, "failed");
            assert_eq!(error, "boom");
        },
        _ => panic!("expected error envelope"),
    }
    match ApiResponse::<u64>::validation_error(vec!["bad".to_string()]) {
        ApiResponse::ValidationError { success, message, errors } => {
            assert!(!success);
            assert_eq!(message, "Validation error");
            assert_eq!(errors, vec!["bad".to_string()]);
        },
        _ => panic!("expected validation envelope"),
    }
}
