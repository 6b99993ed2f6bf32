use product_api::dto::UpdateProductDto;
use product_api::model::Product;
use product_api::repository::{parse_uuid, ProductRepositoryImpl, RepoError};
use product_api::route::map_product_to_response;

const NOW: i64 = 1700000000000;
const LATER: i64 = 1700000005000;
const ABSENT_ID: &str = "0190aaaa-bbbb-7ccc-8ddd-eeeeffff0000";

fn id_text_of(p: &Product) -> String {
    map_product_to_response(p.clone()).id
}

#[test]
fn create_stamps_both_timestamps_equal() {
    let mut repo = ProductRepositoryImpl::new();
    let p = repo.create("Widget", 1000, 5, NOW).unwrap();
    assert_eq!(p.name, "Widget");
    assert_eq!(p.price, 1000);
    assert_eq!(p.stock, 5);
    assert_eq!(p.created_at, NOW);
    assert_eq!(p.updated_at, NOW);
}

#[test]
fn create_assigns_distinct_ids() {
    let mut repo = ProductRepositoryImpl::new();
    let a = repo.create("Widget", 1000, 5, NOW).unwrap();
    let b = repo.create("Gadget", 2000, 3, NOW).unwrap();
    assert_ne!(a.id, b.id);
    let all = repo.find_all().unwrap();
    assert_eq!(all.len(), 2);
}

#[test]
fn find_by_id_round_trips_created_product() {
    let mut repo = ProductRepositoryImpl::new();
    let p = repo.create("Widget", 1000, 5, NOW).unwrap();
    let fetched = repo.find_by_id(&id_text_of(&p)).unwrap().unwrap();
    assert_eq!(fetched.id, p.id);
    assert_eq!(fetched.name, p.name);
    assert_eq!(fetched.price, p.price);
    assert_eq!(fetched.stock, p.stock);
    assert_eq!(fetched.created_at, p.created_at);
    assert_eq!(fetched.updated_at, p.updated_at);
}

#[test]
fn find_by_id_missing_is_none() {
    let repo = ProductRepositoryImpl::new();
    assert!(repo.find_by_id(ABSENT_ID).unwrap().is_none());
}

#[test]
fn find_by_id_malformed_is_decode_error() {
    let mut repo = ProductRepositoryImpl::new();
    repo.create("Widget", 1000, 5, NOW).unwrap();
    match repo.find_by_id("not-a-uuid") {
        Err(RepoError::Decode) => {},
        _ => panic!("expected decode error"),
    }
}

#[test]
fn update_price_only_keeps_name_and_stock() {
    let mut repo = ProductRepositoryImpl::new();
    let p = repo.create("Widget", 1000, 5, NOW).unwrap();
    let dto = UpdateProductDto { name: None, price: Some(2500), stock: None };
    let q = repo.update(&id_text_of(&p), dto, LATER).unwrap();
    assert_eq!(q.name, "Widget");
    assert_eq!(q.stock, 5);
    assert_eq!(q.price, 2500);
    assert_eq!(q.created_at, NOW);
    assert!(q.updated_at > p.updated_at);
    assert_eq!(q.updated_at, LATER);
}

#[test]
fn update_missing_id_is_not_found_and_creates_nothing() {
    let mut repo = ProductRepositoryImpl::new();
    let dto = UpdateProductDto { name: None, price: Some(2500), stock: None };
    match repo.update(ABSENT_ID, dto, NOW) {
        Err(RepoError::RowNotFound) => {},
        _ => panic!("expected not-found"),
    }
    assert!(repo.find_all().unwrap().is_empty());
}

#[test]
fn update_malformed_id_is_decode_error() {
    let mut repo = ProductRepositoryImpl::new();
    let dto = UpdateProductDto { name: None, price: Some(2500), stock: None };
    match repo.update("garbage", dto, NOW) {
        Err(RepoError::Decode) => {},
        _ => panic!("expected decode error"),
    }
}

#[test]
fn delete_missing_id_counts_zero() {
    let mut repo = ProductRepositoryImpl::new();
    assert_eq!(repo.delete(ABSENT_ID).unwrap(), 0);
}

#[test]
fn delete_existing_counts_one_and_removes() {
    let mut repo = ProductRepositoryImpl::new();
    let p = repo.create("Widget", 1000, 5, NOW).unwrap();
    let id = id_text_of(&p);
    assert_eq!(repo.delete(&id).unwrap(), 1);
    assert_eq!(repo.find_by_id(&id).unwrap().is_none(), true);
    assert!(repo.find_all().unwrap().is_empty());
}

#[test]
fn delete_malformed_id_is_decode_error() {
    let mut repo = ProductRepositoryImpl::new();
    match repo.delete("not-a-uuid") {
        Err(RepoError::Decode) => {},
        _ => panic!("expected decode error"),
    }
}

#[test]
fn parse_datetime_reads_rfc3339_text_only() {
    assert_eq!(Product::parse_datetime("not-a-date"), None);
    assert_eq!(Product::parse_datetime("2023-11-14T22:13:20+00:00"), Some(NOW));
}

#[test]
fn parse_uuid_accepts_generated_text_only() {
    let mut repo = ProductRepositoryImpl::new();
    let p = repo.create("Widget", 1000, 5, NOW).unwrap();
    assert_eq!(parse_uuid(&id_text_of(&p)), Ok(p.id));
    assert_eq!(parse_uuid("not-a-uuid"), Err(RepoError::Decode));
    assert_eq!(parse_uuid(""), Err(RepoError::Decode));
}
