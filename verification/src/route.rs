use vstd::prelude::*;
use crate::model::{Product, ProductV, product_wf, format_rfc3339, rfc3339_of, MAX_TS_MILLIS};
use crate::dto::{
    CreateProductDto, UpdateProductDto, ProductResponse, ApiResponse, validate_create_dto,
    validate_update_dto, create_valid, create_violations, update_valid, update_violations,
};
use crate::repository::{
    RepoError, repo_wf, has_id, id_index, new_product_v, apply_update, uuid_parse_of, uuid_text_of,
    uuid_to_string,
};
use crate::service::ProductService;

verus! {

pub open spec fn created_msg() -> Seq<char> {
    "Product created successfully"@
}

pub open spec fn listed_msg() -> Seq<char> {
    "Products retrieved successfully"@
}

pub open spec fn detail_msg() -> Seq<char> {
    "Product retrieved successfully"@
}

pub open spec fn updated_msg() -> Seq<char> {
    "Product updated successfully"@
}

pub open spec fn deleted_msg() -> Seq<char> {
    "Product deleted successfully"@
}

pub open spec fn request_failed_msg() -> Seq<char> {
    "Request failed"@
}

pub open spec fn product_not_found_msg() -> Seq<char> {
    "Product not found"@
}

pub open spec fn invalid_id_detail() -> Seq<char> {
    "invalid product id"@
}

pub open spec fn not_found_detail() -> Seq<char> {
    "product not found"@
}

pub open spec fn duplicate_id_detail() -> Seq<char> {
    "duplicate product id"@
}

/// The transport image `resp` renders exactly the row `p`: identifier and
/// timestamps in their text forms, the other fields unchanged.
pub open spec fn response_matches(resp: ProductResponse, p: ProductV) -> bool {
    &&& resp.id@ == uuid_text_of(p.id)
    &&& resp.name@ == p.name
    &&& resp.price as int == p.price
    &&& resp.stock as int == p.stock
    &&& resp.created_at@ == rfc3339_of(p.created_at as i64)
    &&& resp.updated_at@ == rfc3339_of(p.updated_at as i64)
}

/// Converts a persisted product into its transport image.
pub fn map_product_to_response(product: Product) -> (r: ProductResponse)
    requires
        product_wf(product@),
    ensures
        response_matches(r, product@),
{
    let id_text = uuid_to_string(product.id);
    let created_text = format_rfc3339(product.created_at);
    let updated_text = format_rfc3339(product.updated_at);
    ProductResponse {
        id: id_text,
        name: product.name,
        price: product.price,
        stock: product.stock,
        created_at: created_text,
        updated_at: updated_text,
    }
}

/// Serves a create request: validates the payload, inserts on success, and
/// wraps the outcome in the uniform envelope with its status code.
pub fn create_product(service: &mut ProductService, payload: CreateProductDto, now: i64) -> (r: (
    u16,
    ApiResponse<ProductResponse>,
))
    requires
        repo_wf(old(service)@),
        0 <= now <= MAX_TS_MILLIS,
    ensures
        repo_wf(final(service)@),
        !create_valid(payload@) ==> (final(service)@ == old(service)@ && r.0 == 422 && (
        r.1 matches ApiResponse::ValidationError { success, message, errors } && success == false
            && errors.deep_view() == create_violations(payload@))),
        create_valid(payload@) ==> ({
            ||| (r.0 == 200 && final(service)@.len() == old(service)@.len() + 1
                && final(service)@ == old(service)@.push(final(service)@.last())
                && final(service)@.last() == new_product_v(
                final(service)@.last().id,
                payload@.name,
                payload@.price,
                payload@.stock,
                now as int,
            ) && !has_id(old(service)@, final(service)@.last().id) && (
            r.1 matches ApiResponse::Success { success, message, data } && success == true
                && message@ == created_msg() && response_matches(data, final(service)@.last())))
            ||| (r.0 == 500 && old(service)@.len() > 0 && final(service)@ == old(service)@ && (
            r.1 matches ApiResponse::Error { success, message, error } && success == false
                && message@ == request_failed_msg() && error@ == duplicate_id_detail()))
        }),
        (create_valid(payload@) && old(service)@.len() == 0) ==> r.0 == 200,
{
    let errs = validate_create_dto(&payload);
    if errs.len() > 0 {
        return (422, ApiResponse::validation_error(errs));
    }
    proof {
        crate::dto::lemma_create_valid_fields(payload@);
    }
    match service.create_product(payload.name.as_str(), payload.price, payload.stock, now) {
        Ok(p) => {
            proof {
                assert(final(service)@.last() == p@);
            }
            let resp = map_product_to_response(p);
            (200, ApiResponse::success(resp, "Product created successfully"))
        },
        Err(_) => (
            500,
            ApiResponse::error("Request failed", "duplicate product id"),
        ),
    }
}

/// Serves the list request: every row, rendered in table order.
pub fn get_all_products(service: &ProductService) -> (r: (u16, ApiResponse<Vec<ProductResponse>>))
    requires
        repo_wf(service@),
    ensures
        r.0 == 200,
        r.1 matches ApiResponse::Success { success, message, data } && success == true && message@
            == listed_msg() && data@.len() == service@.len() && (forall|i: int|
            0 <= i < service@.len() ==> response_matches(#[trigger] data@[i], service@[i])),
{
    let products = match service.get_all_products() {
        Ok(v) => v,
        Err(_) => Vec::new(),
    };
    let mut out: Vec<ProductResponse> = Vec::new();
    let n = products.len();
    let mut k: usize = 0;
    while k < n
        invariant
            n == products@.len(),
            k <= n,
            products.deep_view() == service@,
            repo_wf(service@),
            out@.len() == k,
            forall|j: int| 0 <= j < k ==> response_matches(#[trigger] out@[j], service@[j]),
        decreases n - k,
    {
        let p = products[k].clone();
        proof {
            assert(p@ == products.deep_view()[k as int]);
            assert(product_wf(service@[k as int]));
        }
        out.push(map_product_to_response(p));
        k += 1;
    }
    (200, ApiResponse::success(out, "Products retrieved successfully"))
}

/// Serves a get-by-id request: the row when it exists, a descriptive
/// not-found answer when it does not, the decode failure on malformed text.
pub fn get_product(service: &ProductService, id: &str) -> (r: (u16, ApiResponse<ProductResponse>))
    requires
        repo_wf(service@),
    ensures
        match uuid_parse_of(id@) {
            None => r.0 == 500 && (r.1 matches ApiResponse::Error { success, message, error }
                && success == false && message@ == request_failed_msg() && error@
                == invalid_id_detail()),
            Some(v) => if has_id(service@, v) {
                r.0 == 200 && (r.1 matches ApiResponse::Success { success, message, data }
                    && success == true && message@ == detail_msg() && response_matches(
                    data,
                    service@[id_index(service@, v)],
                ))
            } else {
                r.0 == 404 && (r.1 matches ApiResponse::Error { success, message, error }
                    && success == false && message@ == product_not_found_msg() && error@
                    == not_found_detail())
            },
        },
{
    match service.get_product(id) {
        Ok(Some(p)) => {
            proof {
                assert(product_wf(p@));
            }
            let resp = map_product_to_response(p);
            (200, ApiResponse::success(resp, "Product retrieved successfully"))
        },
        Ok(None) => (404, ApiResponse::error("Product not found", "product not found")),
        Err(_) => (500, ApiResponse::error("Request failed", "invalid product id")),
    }
}

/// Serves a partial-update request: validates the payload, applies the
/// supplied fields, and answers update-not-found as a generic failure.
pub fn update_product(service: &mut ProductService, id: &str, payload: UpdateProductDto, now: i64) -> (r: (
    u16,
    ApiResponse<ProductResponse>,
))
    requires
        repo_wf(old(service)@),
        0 <= now <= MAX_TS_MILLIS,
        forall|i: int| 0 <= i < old(service)@.len() ==> (#[trigger] old(service)@[i]).created_at
            <= now,
    ensures
        repo_wf(final(service)@),
        !update_valid(payload@) ==> (final(service)@ == old(service)@ && r.0 == 422 && (
        r.1 matches ApiResponse::ValidationError { success, message, errors } && success == false
            && errors.deep_view() == update_violations(payload@))),
        update_valid(payload@) ==> match uuid_parse_of(id@) {
            None => r.0 == 500 && final(service)@ == old(service)@ && (
            r.1 matches ApiResponse::Error { success, message, error } && success == false
                && message@ == request_failed_msg() && error@ == invalid_id_detail()),
            Some(v) => if has_id(old(service)@, v) {
                r.0 == 200 && final(service)@ == old(service)@.update(
                    id_index(old(service)@, v),
                    apply_update(old(service)@[id_index(old(service)@, v)], payload@, now as int),
                ) && (r.1 matches ApiResponse::Success { success, message, data } && success == true
                    && message@ == updated_msg() && response_matches(
                    data,
                    apply_update(old(service)@[id_index(old(service)@, v)], payload@, now as int),
                ))
            } else {
                r.0 == 500 && final(service)@ == old(service)@ && (
                r.1 matches ApiResponse::Error { success, message, error } && success == false
                    && message@ == request_failed_msg() && error@ == not_found_detail())
            },
        },
{
    let errs = validate_update_dto(&payload);
    if errs.len() > 0 {
        return (422, ApiResponse::validation_error(errs));
    }
    match service.update_product(id, payload, now) {
        Ok(p) => {
            proof {
                assert(product_wf(p@));
            }
            let resp = map_product_to_response(p);
            (200, ApiResponse::success(resp, "Product updated successfully"))
        },
        Err(RepoError::RowNotFound) => (
            500,
            ApiResponse::error("Request failed", "product not found"),
        ),
        Err(_) => (500, ApiResponse::error("Request failed", "invalid product id")),
    }
}

/// Serves a delete request: answers the count of removed rows, zero included.
pub fn delete_product(service: &mut ProductService, id: &str) -> (r: (u16, ApiResponse<u64>))
    requires
        repo_wf(old(service)@),
    ensures
        repo_wf(final(service)@),
        match uuid_parse_of(id@) {
            None => r.0 == 500 && final(service)@ == old(service)@ && (
            r.1 matches ApiResponse::Error { success, message, error } && success == false
                && message@ == request_failed_msg() && error@ == invalid_id_detail()),
            Some(v) => r.0 == 200 && (r.1 matches ApiResponse::Success { success, message, data }
                && success == true && message@ == deleted_msg() && data as int == (
            if has_id(old(service)@, v) {
                1int
            } else {
                0int
            })) && (if has_id(old(service)@, v) {
                final(service)@ == old(service)@.remove(id_index(old(service)@, v))
            } else {
                final(service)@ == old(service)@
            }),
        },
{
    match service.delete_product(id) {
        Ok(count) => (200, ApiResponse::success(count, "Product deleted successfully")),
        Err(_) => (500, ApiResponse::error("Request failed", "invalid product id")),
    }
}

} // verus!
