use vstd::prelude::*;
use crate::model::{Product, ProductV, product_wf, MAX_TS_MILLIS};
use crate::dto::{UpdateProductDto, UpdateDtoV, update_valid};

verus! {

/// The errors persistence can answer with: a malformed identifier, a missing
/// row, or a duplicate identifier on insert (the one constraint violation an
/// in-memory table can raise).
#[derive(Clone, Copy, Debug, PartialEq, Eq, Structural)]
pub enum RepoError {
    Decode,
    RowNotFound,
    DuplicateId,
}

/// What uuid's `Uuid::parse_str` yields for a given text, as the 128-bit
/// value of the parsed identifier.
pub uninterp spec fn uuid_parse_of(s: Seq<char>) -> Option<u128>;

/// What uuid's hyphenated formatter prints for a given 128-bit value.
pub uninterp spec fn uuid_text_of(v: u128) -> Seq<char>;

/// Relies on uuid's `Uuid::parse_str`: the result depends on the text alone,
/// and text that is not a UUID yields an error.
#[verifier::external_body]
fn uuid_parse(s: &str) -> (r: Option<u128>)
    ensures
        r == uuid_parse_of(s@),
{
    uuid::Uuid::parse_str(s).ok().map(|u| u.as_u128())
}

/// Relies on uuid's `Uuid::now_v7`: the result depends on the clock and on
/// random bits, so nothing is assumed of it.
#[verifier::external_body]
fn uuid_new_v7() -> (r: u128) {
    uuid::Uuid::now_v7().as_u128()
}

/// Relies on uuid's hyphenated formatter: it prints 36 characters determined
/// by the value alone, in the one format `Uuid::parse_str` reads back to the
/// same value.
#[verifier::external_body]
pub(crate) fn uuid_to_string(v: u128) -> (r: String)
    ensures
        r@ == uuid_text_of(v),
        uuid_parse_of(r@) == Some(v),
        r@.len() == 36,
{
    uuid::Uuid::from_u128(v).hyphenated().to_string()
}

/// Turns an identifier in text form into its 128-bit value, answering the
/// decode error on text that is not an identifier.
pub fn parse_uuid(id: &str) -> (r: Result<u128, RepoError>)
    ensures
        match uuid_parse_of(id@) {
            Some(v) => r == Ok::<u128, RepoError>(v),
            None => r == Err::<u128, RepoError>(RepoError::Decode),
        },
{
    match uuid_parse(id) {
        Some(v) => Ok(v),
        None => Err(RepoError::Decode),
    }
}

/// No two rows share an identifier.
pub open spec fn ids_unique(s: Seq<ProductV>) -> bool {
    forall|i: int, j: int| 0 <= i < j < s.len() ==> s[i].id != s[j].id
}

/// The table invariant: unique identifiers, every row well-formed.
pub open spec fn repo_wf(s: Seq<ProductV>) -> bool {
    &&& ids_unique(s)
    &&& forall|i: int| 0 <= i < s.len() ==> product_wf(#[trigger] s[i])
}

/// Some row carries this identifier.
pub open spec fn has_id(s: Seq<ProductV>, id: u128) -> bool {
    exists|i: int| 0 <= i < s.len() && (#[trigger] s[i]).id == id
}

/// The index of the row carrying this identifier; meaningful only when
/// `has_id` holds and identifiers are unique.
pub open spec fn id_index(s: Seq<ProductV>, id: u128) -> int {
    choose|i: int| 0 <= i < s.len() && (#[trigger] s[i]).id == id
}

pub proof fn lemma_id_index(s: Seq<ProductV>, id: u128, k: int)
    requires
        ids_unique(s),
        0 <= k < s.len(),
        s[k].id == id,
    ensures
        has_id(s, id),
        id_index(s, id) == k,
{
    assert(0 <= k < s.len() && s[k].id == id);
    assert(has_id(s, id));
    let i: int = id_index(s, id);
    assert(0 <= i < s.len() && s[i].id == id);
    if i != k {
        if i < k {
            assert(s[i].id != s[k].id);
        } else {
            assert(s[k].id != s[i].id);
        }
        assert(false);
    }
}

/// The row a fresh insert writes: both timestamps stamped to the same moment.
pub open spec fn new_product_v(id: u128, name: Seq<char>, price: int, stock: int, now: int) -> ProductV {
    ProductV { id, name, price, stock, created_at: now, updated_at: now }
}

/// The row an update leaves behind: each supplied field replaced, each absent
/// field kept, `updated_at` always refreshed.
pub open spec fn apply_update(p: ProductV, d: UpdateDtoV, now: int) -> ProductV {
    ProductV {
        id: p.id,
        name: match d.name {
            Some(n) => n,
            None => p.name,
        },
        price: match d.price {
            Some(pr) => pr,
            None => p.price,
        },
        stock: match d.stock {
            Some(st) => st,
            None => p.stock,
        },
        created_at: p.created_at,
        updated_at: now,
    }
}

/// Law: a row that a successful create answers with carries equal creation
/// and update stamps, and an identifier that no row of the prior table
/// carries.
pub proof fn lemma_create_fresh(s: Seq<ProductV>, p: ProductV, name: Seq<char>, price: int, stock: int, now: int)
    requires
        !has_id(s, p.id),
        p == new_product_v(p.id, name, price, stock, now),
    ensures
        p.created_at == p.updated_at,
        forall|i: int| 0 <= i < s.len() ==> (#[trigger] s[i]).id != p.id,
{
}

/// Law: an update that supplies only the price leaves name, stock and the
/// creation stamp unchanged and moves the update stamp strictly forward.
pub proof fn lemma_update_price_only(p: ProductV, d: UpdateDtoV, now: int)
    requires
        d.name is None,
        d.stock is None,
        d.price is Some,
        p.updated_at < now,
    ensures
        apply_update(p, d, now).name == p.name,
        apply_update(p, d, now).stock == p.stock,
        apply_update(p, d, now).created_at == p.created_at,
        apply_update(p, d, now).updated_at > p.updated_at,
{
}

/// Law: a product just appended to the table is found again under any text
/// that decodes to its identifier, field for field.
pub proof fn lemma_create_find_round_trip(s: Seq<ProductV>, p: ProductV, t: Seq<char>)
    requires
        ids_unique(s.push(p)),
        uuid_parse_of(t) == Some(p.id),
    ensures
        has_id(s.push(p), p.id),
        s.push(p)[id_index(s.push(p), p.id)] == p,
{
    lemma_id_index(s.push(p), p.id, s.len() as int);
}

/// The in-memory table of products: the one verified implementation of the
/// persistence operations.
pub struct ProductRepositoryImpl {
    products: Vec<Product>,
}

impl View for ProductRepositoryImpl {
    type V = Seq<ProductV>;

    closed spec fn view(&self) -> Seq<ProductV> {
        self.products@.map_values(|p: Product| p@)
    }
}

impl ProductRepositoryImpl {
    pub fn new() -> (r: Self)
        ensures
            r@ == Seq::<ProductV>::empty(),
            repo_wf(r@),
    {
        let r = ProductRepositoryImpl { products: Vec::new() };
        proof {
            assert(r@ =~= Seq::<ProductV>::empty());
        }
        r
    }

    /// Inserts a row under a caller-chosen identifier; the duplicate-id error
    /// comes exactly when that identifier is already taken.
    pub fn create_with_id(&mut self, id: u128, name: &str, price: i64, stock: i32, now: i64) -> (r: Result<
        Product,
        RepoError,
    >)
        requires
            repo_wf(old(self)@),
            3 <= name@.len() <= 100,
            0 <= price,
            0 <= stock,
            0 <= now <= MAX_TS_MILLIS,
        ensures
            repo_wf(final(self)@),
            has_id(old(self)@, id) ==> r == Err::<Product, RepoError>(RepoError::DuplicateId)
                && final(self)@ == old(self)@,
            !has_id(old(self)@, id) ==> (r matches Ok(p)
                && p@ == new_product_v(id, name@, price as int, stock as int, now as int)
                && final(self)@ == old(self)@.push(p@)),
    {
        let n = self.products.len();
        let mut k: usize = 0;
        while k < n
            invariant
                n == self.products.len(),
                k <= n,
                self@ == old(self)@,
                repo_wf(self@),
                forall|j: int| 0 <= j < k ==> (#[trigger] self@[j]).id != id,
            decreases n - k,
        {
            if self.products[k].id == id {
                proof {
                    assert(self@[k as int] == self.products@[k as int]@);
                    lemma_id_index(self@, id, k as int);
                }
                return Err(RepoError::DuplicateId);
            }
            k += 1;
        }
        let prod = Product { id, name: name.to_owned(), price, stock, created_at: now, updated_at: now };
        let ret = prod.clone();
        proof {
            assert(!has_id(self@, id));
        }
        self.products.push(prod);
        proof {
            assert(self@ =~= old(self)@.push(ret@));
            assert(forall|i: int| 0 <= i < old(self)@.len() ==> (#[trigger] old(self)@[i]).id != id);
        }
        Ok(ret)
    }

    /// Inserts a row under a freshly generated time-ordered identifier,
    /// stamping both timestamps to the supplied moment. The only failure is
    /// the constraint violation of a generated identifier already in use, so
    /// on an empty table success is certain.
    pub fn create(&mut self, name: &str, price: i64, stock: i32, now: i64) -> (r: Result<Product, RepoError>)
        requires
            repo_wf(old(self)@),
            3 <= name@.len() <= 100,
            0 <= price,
            0 <= stock,
            0 <= now <= MAX_TS_MILLIS,
        ensures
            repo_wf(final(self)@),
            r matches Ok(p) ==> (!has_id(old(self)@, p@.id)
                && p@ == new_product_v(p@.id, name@, price as int, stock as int, now as int)
                && final(self)@ == old(self)@.push(p@)),
            r matches Err(e) ==> (e == RepoError::DuplicateId && final(self)@ == old(self)@
                && old(self)@.len() > 0),
    {
        let id = uuid_new_v7();
        self.create_with_id(id, name, price, stock, now)
    }

    /// Returns every row, in table order.
    pub fn find_all(&self) -> (r: Result<Vec<Product>, RepoError>)
        ensures
            r matches Ok(v) && v.deep_view() == self@,
    {
        let mut out: Vec<Product> = Vec::new();
        let n = self.products.len();
        let mut k: usize = 0;
        while k < n
            invariant
                n == self.products.len(),
                k <= n,
                out@.len() == k,
                forall|j: int| 0 <= j < k ==> (#[trigger] out@[j])@ == self@[j],
            decreases n - k,
        {
            out.push(self.products[k].clone());
            k += 1;
        }
        proof {
            assert(out.deep_view() =~= self@);
        }
        Ok(out)
    }

    /// Looks a row up by its identifier in text form: the decode error on
    /// malformed text — never a silent miss — otherwise the row, if any.
    pub fn find_by_id(&self, id: &str) -> (r: Result<Option<Product>, RepoError>)
        requires
            ids_unique(self@),
        ensures
            match uuid_parse_of(id@) {
                None => r == Err::<Option<Product>, RepoError>(RepoError::Decode),
                Some(v) => if has_id(self@, v) {
                    r matches Ok(opt) && opt matches Some(p) && p@ == self@[id_index(self@, v)]
                } else {
                    r matches Ok(opt) && opt is None
                },
            },
    {
        let v = match parse_uuid(id) {
            Ok(v) => v,
            Err(e) => {
                return Err(e);
            },
        };
        let n = self.products.len();
        let mut k: usize = 0;
        while k < n
            invariant
                n == self.products.len(),
                k <= n,
                ids_unique(self@),
                uuid_parse_of(id@) == Some(v),
                forall|j: int| 0 <= j < k ==> (#[trigger] self@[j]).id != v,
            decreases n - k,
        {
            if self.products[k].id == v {
                let found = self.products[k].clone();
                proof {
                    assert(self@[k as int] == self.products@[k as int]@);
                    lemma_id_index(self@, v, k as int);
                    assert(found@ == self@[k as int]);
                }
                return Ok(Some(found));
            }
            k += 1;
        }
        proof {
            assert(!has_id(self@, v));
        }
        Ok(None)
    }

    /// Applies the supplied fields of a partial update to the row with this
    /// identifier, refreshing `updated_at`; decode error on malformed text,
    /// not-found — and no newly created row — when no row matches.
    pub fn update(&mut self, id: &str, dto: UpdateProductDto, now: i64) -> (r: Result<Product, RepoError>)
        requires
            repo_wf(old(self)@),
            update_valid(dto@),
            0 <= now <= MAX_TS_MILLIS,
            forall|i: int| 0 <= i < old(self)@.len() ==> (#[trigger] old(self)@[i]).created_at <= now,
        ensures
            repo_wf(final(self)@),
            match uuid_parse_of(id@) {
                None => r == Err::<Product, RepoError>(RepoError::Decode) && final(self)@ == old(self)@,
                Some(v) => if has_id(old(self)@, v) {
                    r matches Ok(p)
                        && p@ == apply_update(old(self)@[id_index(old(self)@, v)], dto@, now as int)
                        && final(self)@ == old(self)@.update(id_index(old(self)@, v), p@)
                } else {
                    r == Err::<Product, RepoError>(RepoError::RowNotFound) && final(self)@ == old(self)@
                },
            },
    {
        let v = match parse_uuid(id) {
            Ok(v) => v,
            Err(e) => {
                return Err(e);
            },
        };
        let n = self.products.len();
        let mut k: usize = 0;
        while k < n
            invariant
                n == self.products.len(),
                k <= n,
                repo_wf(self@),
                self@ == old(self)@,
                uuid_parse_of(id@) == Some(v),
                update_valid(dto@),
                0 <= now <= MAX_TS_MILLIS,
                forall|i: int| 0 <= i < self@.len() ==> (#[trigger] self@[i]).created_at <= now,
                forall|j: int| 0 <= j < k ==> (#[trigger] self@[j]).id != v,
            decreases n - k,
        {
            if self.products[k].id == v {
                proof {
                    assert(self@[k as int] == self.products@[k as int]@);
                    lemma_id_index(self@, v, k as int);
                    crate::dto::lemma_update_valid_fields(dto@);
                }
                let updated = Product {
                    id: self.products[k].id,
                    name: match &dto.name {
                        Some(nm) => nm.clone(),
                        None => self.products[k].name.clone(),
                    },
                    price: match dto.price {
                        Some(pr) => pr,
                        None => self.products[k].price,
                    },
                    stock: match dto.stock {
                        Some(st) => st,
                        None => self.products[k].stock,
                    },
                    created_at: self.products[k].created_at,
                    updated_at: now,
                };
                let ret = updated.clone();
                proof {
                    assert(ret@ == apply_update(old(self)@[k as int], dto@, now as int));
                }
                self.products[k] = updated;
                proof {
                    assert(self@ =~= old(self)@.update(k as int, ret@));
                    assert forall|i: int, j: int| 0 <= i < j < self@.len() implies (
                    #[trigger] self@[i]).id != (#[trigger] self@[j]).id by {
                        assert(self@[i].id == old(self)@[i].id);
                        assert(self@[j].id == old(self)@[j].id);
                    }
                    assert forall|i: int| 0 <= i < self@.len() implies product_wf(
                    #[trigger] self@[i]) by {
                        assert(product_wf(old(self)@[i]));
                    }
                }
                return Ok(ret);
            }
            k += 1;
        }
        proof {
            assert(!has_id(self@, v));
        }
        Err(RepoError::RowNotFound)
    }

    /// Removes the row with this identifier, answering how many rows went:
    /// zero when nothing matched is no error; malformed text is.
    pub fn delete(&mut self, id: &str) -> (r: Result<u64, RepoError>)
        requires
            repo_wf(old(self)@),
        ensures
            repo_wf(final(self)@),
            match uuid_parse_of(id@) {
                None => r == Err::<u64, RepoError>(RepoError::Decode) && final(self)@ == old(self)@,
                Some(v) => if has_id(old(self)@, v) {
                    r == Ok::<u64, RepoError>(1)
                        && final(self)@ == old(self)@.remove(id_index(old(self)@, v))
                } else {
                    r == Ok::<u64, RepoError>(0) && final(self)@ == old(self)@
                },
            },
    {
        let v = match parse_uuid(id) {
            Ok(v) => v,
            Err(e) => {
                return Err(e);
            },
        };
        let n = self.products.len();
        let mut k: usize = 0;
        while k < n
            invariant
                n == self.products.len(),
                k <= n,
                repo_wf(self@),
                self@ == old(self)@,
                uuid_parse_of(id@) == Some(v),
                forall|j: int| 0 <= j < k ==> (#[trigger] self@[j]).id != v,
            decreases n - k,
        {
            if self.products[k].id == v {
                proof {
                    assert(self@[k as int] == self.products@[k as int]@);
                    lemma_id_index(self@, v, k as int);
                }
                self.products.remove(k);
                proof {
                    assert(self@ =~= old(self)@.remove(k as int));
                    assert forall|i: int, j: int| 0 <= i < j < self@.len() implies (
                    #[trigger] self@[i]).id != (#[trigger] self@[j]).id by {
                        let oi: int = if i < k as int { i } else { i + 1 };
                        let oj: int = if j < k as int { j } else { j + 1 };
                        assert(self@[i] == old(self)@[oi]);
                        assert(self@[j] == old(self)@[oj]);
                    }
                    assert forall|i: int| 0 <= i < self@.len() implies product_wf(
                    #[trigger] self@[i]) by {
                        let oi: int = if i < k as int { i } else { i + 1 };
                        assert(product_wf(old(self)@[oi]));
                    }
                }
                return Ok(1);
            }
            k += 1;
        }
        proof {
            assert(!has_id(self@, v));
        }
        Ok(0)
    }

    /// Empties the table: the wipe half of idempotent-by-replace seeding.
    pub fn clear(&mut self)
        ensures
            final(self)@ == Seq::<ProductV>::empty(),
            repo_wf(final(self)@),
    {
        self.products.clear();
        proof {
            assert(self@ =~= Seq::<ProductV>::empty());
        }
    }
}

} // verus!
