use vstd::prelude::*;

verus! {

/// Last millisecond of year 9999: the latest instant the timestamp
/// formatter is asked to render.
pub const MAX_TS_MILLIS: i64 = 253402300799999;

/// The one persisted entity: a named, priced, stocked inventory item.
///
/// Prices are held in minor currency units (an integer count of cents),
/// timestamps as milliseconds since the Unix epoch.
pub struct Product {
    pub id: u128,
    pub name: String,
    pub price: i64,
    pub stock: i32,
    pub created_at: i64,
    pub updated_at: i64,
}

/// Mathematical image of a `Product`.
#[verifier::ext_equal]
pub struct ProductV {
    pub id: u128,
    pub name: Seq<char>,
    pub price: int,
    pub stock: int,
    pub created_at: int,
    pub updated_at: int,
}

impl View for Product {
    type V = ProductV;

    open spec fn view(&self) -> ProductV {
        ProductV {
            id: self.id,
            name: self.name@,
            price: self.price as int,
            stock: self.stock as int,
            created_at: self.created_at as int,
            updated_at: self.updated_at as int,
        }
    }
}

impl DeepView for Product {
    type V = ProductV;

    open spec fn deep_view(&self) -> ProductV {
        self@
    }
}

/// Well-formedness of a persisted product: name length within bounds,
/// price and stock never negative, creation never after the last update,
/// and timestamps within the formatter's range.
pub open spec fn product_wf(p: ProductV) -> bool {
    &&& 3 <= p.name.len() <= 100
    &&& p.price >= 0
    &&& p.stock >= 0
    &&& 0 <= p.created_at <= p.updated_at <= MAX_TS_MILLIS as int
}

impl Clone for Product {
    fn clone(&self) -> (r: Self)
        ensures
            r@ == self@,
    {
        Product {
            id: self.id,
            name: self.name.clone(),
            price: self.price,
            stock: self.stock,
            created_at: self.created_at,
            updated_at: self.updated_at,
        }
    }
}

/// What chrono's RFC 3339 formatter prints for a given millisecond timestamp.
pub uninterp spec fn rfc3339_of(t: i64) -> Seq<char>;

/// What chrono's RFC 3339 parser yields for a given text, in milliseconds.
pub uninterp spec fn rfc3339_parse_of(s: Seq<char>) -> Option<i64>;

/// Relies on chrono: `DateTime::<Utc>::from_timestamp_millis` accepts every
/// in-range timestamp, and `to_rfc3339` prints it deterministically in a form
/// that `parse_from_rfc3339` reads back to the same instant.
#[verifier::external_body]
pub fn format_rfc3339(t: i64) -> (r: String)
    requires
        0 <= t <= MAX_TS_MILLIS,
    ensures
        r@ == rfc3339_of(t),
        rfc3339_parse_of(r@) == Some(t),
{
    chrono::DateTime::<chrono::Utc>::from_timestamp_millis(t).unwrap().to_rfc3339()
}

impl Product {
    /// Relies on chrono's `DateTime::parse_from_rfc3339`: the result depends
    /// on the text alone, and malformed text yields an error.
    #[verifier::external_body]
    pub fn parse_datetime(s: &str) -> (r: Option<i64>)
        ensures
            r == rfc3339_parse_of(s@),
    {
        chrono::DateTime::parse_from_rfc3339(s).ok().map(|dt| dt.timestamp_millis())
    }
}

} // verus!
