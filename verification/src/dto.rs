use vstd::prelude::*;
use vstd::string::StrSliceExecFns;

verus! {

/// Payload for creating a product: every field is required.
pub struct CreateProductDto {
    pub name: String,
    pub price: i64,
    pub stock: i32,
}

/// Mathematical image of a `CreateProductDto`.
#[verifier::ext_equal]
pub struct CreateDtoV {
    pub name: Seq<char>,
    pub price: int,
    pub stock: int,
}

impl View for CreateProductDto {
    type V = CreateDtoV;

    open spec fn view(&self) -> CreateDtoV {
        CreateDtoV { name: self.name@, price: self.price as int, stock: self.stock as int }
    }
}

/// Payload for a partial update: every field is optional, subject to the
/// cross-field rules below.
pub struct UpdateProductDto {
    pub name: Option<String>,
    pub price: Option<i64>,
    pub stock: Option<i32>,
}

/// Mathematical image of an `UpdateProductDto`.
#[verifier::ext_equal]
pub struct UpdateDtoV {
    pub name: Option<Seq<char>>,
    pub price: Option<int>,
    pub stock: Option<int>,
}

impl View for UpdateProductDto {
    type V = UpdateDtoV;

    open spec fn view(&self) -> UpdateDtoV {
        UpdateDtoV {
            name: match self.name {
                Some(n) => Some(n@),
                None => None,
            },
            price: match self.price {
                Some(p) => Some(p as int),
                None => None,
            },
            stock: match self.stock {
                Some(s) => Some(s as int),
                None => None,
            },
        }
    }
}

pub open spec fn name_length_msg() -> Seq<char> {
    "name must be 3-100 characters"@
}

pub open spec fn negative_price_msg() -> Seq<char> {
    "price must not be negative"@
}

pub open spec fn negative_stock_msg() -> Seq<char> {
    "stock must not be negative"@
}

pub open spec fn no_field_msg() -> Seq<char> {
    "must supply at least one field"@
}

pub open spec fn stock_needs_price_msg() -> Seq<char> {
    "updating stock requires price to also be supplied"@
}

pub open spec fn name_len_ok(name: Seq<char>) -> bool {
    3 <= name.len() <= 100
}

/// The violation messages a create payload earns, in field order.
pub open spec fn create_violations(d: CreateDtoV) -> Seq<Seq<char>> {
    (if name_len_ok(d.name) {
        Seq::<Seq<char>>::empty()
    } else {
        seq![name_length_msg()]
    }) + (if d.price >= 0 {
        Seq::<Seq<char>>::empty()
    } else {
        seq![negative_price_msg()]
    }) + (if d.stock >= 0 {
        Seq::<Seq<char>>::empty()
    } else {
        seq![negative_stock_msg()]
    })
}

pub open spec fn create_valid(d: CreateDtoV) -> bool {
    create_violations(d).len() == 0
}

/// An accepted create payload passes every field bound.
pub proof fn lemma_create_valid_fields(d: CreateDtoV)
    requires
        create_valid(d),
    ensures
        name_len_ok(d.name),
        d.price >= 0,
        d.stock >= 0,
{
}

/// Per-field violations of an update payload: a present field must satisfy
/// the same bound its create counterpart does.
pub open spec fn update_field_violations(d: UpdateDtoV) -> Seq<Seq<char>> {
    (match d.name {
        Some(n) => if name_len_ok(n) {
            Seq::<Seq<char>>::empty()
        } else {
            seq![name_length_msg()]
        },
        None => Seq::<Seq<char>>::empty(),
    }) + (match d.price {
        Some(p) => if p >= 0 {
            Seq::<Seq<char>>::empty()
        } else {
            seq![negative_price_msg()]
        },
        None => Seq::<Seq<char>>::empty(),
    }) + (match d.stock {
        Some(s) => if s >= 0 {
            Seq::<Seq<char>>::empty()
        } else {
            seq![negative_stock_msg()]
        },
        None => Seq::<Seq<char>>::empty(),
    })
}

/// Full violations of an update payload. The cross-field rules run only once
/// every present field passes its own check: at least one field must be
/// present, and stock supplied without name demands price as well — while
/// name without price passes, a deliberate asymmetry.
pub open spec fn update_violations(d: UpdateDtoV) -> Seq<Seq<char>> {
    let field_errs = update_field_violations(d);
    if field_errs.len() > 0 {
        field_errs
    } else if d.name is None && d.price is None && d.stock is None {
        seq![no_field_msg()]
    } else if d.name is None && d.stock is Some && d.price is None {
        seq![stock_needs_price_msg()]
    } else {
        Seq::<Seq<char>>::empty()
    }
}

pub open spec fn update_valid(d: UpdateDtoV) -> bool {
    update_violations(d).len() == 0
}

/// An accepted update payload passes every per-field bound and both
/// cross-field rules.
pub proof fn lemma_update_valid_fields(d: UpdateDtoV)
    requires
        update_valid(d),
    ensures
        d.name matches Some(n) ==> name_len_ok(n),
        d.price matches Some(p) ==> p >= 0,
        d.stock matches Some(s) ==> s >= 0,
        !(d.name is None && d.price is None && d.stock is None),
        !(d.name is None && d.stock is Some && d.price is None),
{
    assert(update_field_violations(d).len() == 0);
}

/// Checks a create payload against the declarative field rules and returns
/// the violation messages; an empty list means the payload is accepted.
pub fn validate_create_dto(d: &CreateProductDto) -> (r: Vec<String>)
    ensures
        r.deep_view() == create_violations(d@),
        r@.len() == 0 <==> create_valid(d@),
{
    let mut errs: Vec<String> = Vec::new();
    let name_chars = d.name.as_str().unicode_len();
    if !(3 <= name_chars && name_chars <= 100) {
        errs.push("name must be 3-100 characters".to_owned());
    }
    if d.price < 0 {
        errs.push("price must not be negative".to_owned());
    }
    if d.stock < 0 {
        errs.push("stock must not be negative".to_owned());
    }
    proof {
        assert(errs.deep_view() =~= create_violations(d@));
    }
    errs
}

/// Checks an update payload: per-field bounds first, then the cross-field
/// rules of `update_violations`; an empty list means the payload is accepted.
pub fn validate_update_dto(d: &UpdateProductDto) -> (r: Vec<String>)
    ensures
        r.deep_view() == update_violations(d@),
        r@.len() == 0 <==> update_valid(d@),
{
    let mut errs: Vec<String> = Vec::new();
    match &d.name {
        Some(n) => {
            let name_chars = n.as_str().unicode_len();
            if !(3 <= name_chars && name_chars <= 100) {
                errs.push("name must be 3-100 characters".to_owned());
            }
        },
        None => {},
    }
    match &d.price {
        Some(p) => {
            if *p < 0 {
                errs.push("price must not be negative".to_owned());
            }
        },
        None => {},
    }
    match &d.stock {
        Some(s) => {
            if *s < 0 {
                errs.push("stock must not be negative".to_owned());
            }
        },
        None => {},
    }
    proof {
        assert(errs.deep_view() =~= update_field_violations(d@));
    }
    if errs.len() == 0 {
        if d.name.is_none() && d.price.is_none() && d.stock.is_none() {
            errs.push("must supply at least one field".to_owned());
        } else if d.name.is_none() && d.stock.is_some() && d.price.is_none() {
            errs.push("updating stock requires price to also be supplied".to_owned());
        }
    }
    proof {
        assert(errs.deep_view() =~= update_violations(d@));
    }
    errs
}

/// Transport-facing image of a product: the id in its hyphenated text form,
/// the timestamps as RFC 3339 text.
pub struct ProductResponse {
    pub id: String,
    pub name: String,
    pub price: i64,
    pub stock: i32,
    pub created_at: String,
    pub updated_at: String,
}

/// The uniform envelope every endpoint answers with: success carries data,
/// failure a single error, rejected input a list of violation messages.
pub enum ApiResponse<T> {
    Success { success: bool, message: String, data: T },
    Error { success: bool, message: String, error: String },
    ValidationError { success: bool, message: String, errors: Vec<String> },
}

impl<T> ApiResponse<T> {
    pub fn success(data: T, message: &str) -> (r: Self)
        ensures
            r matches ApiResponse::Success { success, message: m, data: d }
                && success == true && m@ == message@ && d == data,
    {
        ApiResponse::Success { success: true, message: message.to_owned(), data }
    }

    pub fn error(message: &str, error: &str) -> (r: Self)
        ensures
            r matches ApiResponse::Error { success, message: m, error: e }
                && success == false && m@ == message@ && e@ == error@,
    {
        ApiResponse::Error {
            success: false,
            message: message.to_owned(),
            error: error.to_owned(),
        }
    }

    pub fn validation_error(errors: Vec<String>) -> (r: Self)
        ensures
            r matches ApiResponse::ValidationError { success, message: m, errors: e }
                && success == false && m@ == "Validation error"@ && e == errors,
    {
        ApiResponse::ValidationError {
            success: false,
            message: "Validation error".to_owned(),
            errors,
        }
    }
}

} // verus!
