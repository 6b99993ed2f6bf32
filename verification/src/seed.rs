use vstd::prelude::*;
use crate::model::{ProductV, MAX_TS_MILLIS};
use crate::repository::{ProductRepositoryImpl, RepoError, repo_wf};

verus! {

/// One record of the seed list: a product as it stands before the table
/// assigns it an identifier and timestamps.
pub struct SeedProduct {
    pub name: String,
    pub price: i64,
    pub stock: i32,
}

/// Mathematical image of a `SeedProduct`.
#[verifier::ext_equal]
pub struct SeedV {
    pub name: Seq<char>,
    pub price: int,
    pub stock: int,
}

impl View for SeedProduct {
    type V = SeedV;

    open spec fn view(&self) -> SeedV {
        SeedV { name: self.name@, price: self.price as int, stock: self.stock as int }
    }
}

/// A seed record obeys the same field bounds a persisted product does.
pub open spec fn seed_wf(s: SeedV) -> bool {
    &&& 3 <= s.name.len() <= 100
    &&& s.price >= 0
    &&& s.stock >= 0
}

/// The row that seeding record `s` at moment `now` leaves in the table,
/// whatever identifier it was assigned.
pub open spec fn seeded_row(row: ProductV, s: SeedV, now: int) -> bool {
    &&& row.name == s.name
    &&& row.price == s.price
    &&& row.stock == s.stock
    &&& row.created_at == now
    &&& row.updated_at == now
}

/// Replaces the whole table with the seed list: a full wipe first, then one
/// insert per record under a fresh identifier, every row stamped to the same
/// moment. Running it again replaces the table the same way. An empty list
/// cannot fail; on the one possible failure — a drawn identifier colliding —
/// the rows already written form a seeded prefix of the list.
pub fn seed_products(repo: &mut ProductRepositoryImpl, items: &Vec<SeedProduct>, now: i64) -> (r: Result<
    (),
    RepoError,
>)
    requires
        forall|i: int| 0 <= i < items@.len() ==> seed_wf((#[trigger] items@[i])@),
        0 <= now <= MAX_TS_MILLIS,
    ensures
        repo_wf(final(repo)@),
        r matches Ok(u) ==> (final(repo)@.len() == items@.len() && (forall|i: int|
            0 <= i < items@.len() ==> seeded_row(final(repo)@[i], (#[trigger] items@[i])@, now as int))),
        items@.len() == 0 ==> r is Ok,
        r matches Err(e) ==> (e == RepoError::DuplicateId && final(repo)@.len() < items@.len() && (
        forall|i: int|
            0 <= i < final(repo)@.len() ==> seeded_row(final(repo)@[i], (#[trigger] items@[i])@, now as int))),
{
    repo.clear();
    let n = items.len();
    let mut k: usize = 0;
    while k < n
        invariant
            n == items@.len(),
            k <= n,
            repo_wf(repo@),
            repo@.len() == k,
            0 <= now <= MAX_TS_MILLIS,
            forall|i: int| 0 <= i < items@.len() ==> seed_wf((#[trigger] items@[i])@),
            forall|j: int| 0 <= j < k ==> seeded_row(#[trigger] repo@[j], items@[j]@, now as int),
        decreases n - k,
    {
        let item = &items[k];
        match repo.create(item.name.as_str(), item.price, item.stock, now) {
            Ok(_) => {},
            Err(e) => {
                return Err(e);
            },
        }
        k += 1;
    }
    Ok(())
}

} // verus!
