use vstd::prelude::*;
use crate::model::{Product, ProductV, MAX_TS_MILLIS};
use crate::dto::{UpdateProductDto, update_valid};
use crate::repository::{
    ProductRepositoryImpl, RepoError, repo_wf, ids_unique, has_id, id_index, new_product_v,
    apply_update, uuid_parse_of,
};

verus! {

/// Pure delegation between transport and repository: the seam that lets the
/// persistence implementation be swapped without touching transport code.
/// Every operation answers exactly as the repository does.
pub struct ProductService {
    repo: ProductRepositoryImpl,
}

impl View for ProductService {
    type V = Seq<ProductV>;

    closed spec fn view(&self) -> Seq<ProductV> {
        self.repo@
    }
}

impl ProductService {
    pub fn new(repo: ProductRepositoryImpl) -> (r: Self)
        ensures
            r@ == repo@,
    {
        ProductService { repo }
    }

    pub fn create_product(&mut self, name: &str, price: i64, stock: i32, now: i64) -> (r: Result<
        Product,
        RepoError,
    >)
        requires
            repo_wf(old(self)@),
            3 <= name@.len() <= 100,
            0 <= price,
            0 <= stock,
            0 <= now <= MAX_TS_MILLIS,
        ensures
            repo_wf(final(self)@),
            r matches Ok(p) ==> (!has_id(old(self)@, p@.id)
                && p@ == new_product_v(p@.id, name@, price as int, stock as int, now as int)
                && final(self)@ == old(self)@.push(p@)),
            r matches Err(e) ==> (e == RepoError::DuplicateId && final(self)@ == old(self)@
                && old(self)@.len() > 0),
    {
        self.repo.create(name, price, stock, now)
    }

    pub fn get_all_products(&self) -> (r: Result<Vec<Product>, RepoError>)
        ensures
            r matches Ok(v) && v.deep_view() == self@,
    {
        self.repo.find_all()
    }

    pub fn get_product(&self, id: &str) -> (r: Result<Option<Product>, RepoError>)
        requires
            ids_unique(self@),
        ensures
            match uuid_parse_of(id@) {
                None => r == Err::<Option<Product>, RepoError>(RepoError::Decode),
                Some(v) => if has_id(self@, v) {
                    r matches Ok(opt) && opt matches Some(p) && p@ == self@[id_index(self@, v)]
                } else {
                    r matches Ok(opt) && opt is None
                },
            },
    {
        self.repo.find_by_id(id)
    }

    pub fn update_product(&mut self, id: &str, dto: UpdateProductDto, now: i64) -> (r: Result<
        Product,
        RepoError,
    >)
        requires
            repo_wf(old(self)@),
            update_valid(dto@),
            0 <= now <= MAX_TS_MILLIS,
            forall|i: int| 0 <= i < old(self)@.len() ==> (#[trigger] old(self)@[i]).created_at
                <= now,
        ensures
            repo_wf(final(self)@),
            match uuid_parse_of(id@) {
                None => r == Err::<Product, RepoError>(RepoError::Decode) && final(self)@ == old(
                    self,
                )@,
                Some(v) => if has_id(old(self)@, v) {
                    r matches Ok(p)
                        && p@ == apply_update(old(self)@[id_index(old(self)@, v)], dto@, now as int)
                        && final(self)@ == old(self)@.update(id_index(old(self)@, v), p@)
                } else {
                    r == Err::<Product, RepoError>(RepoError::RowNotFound) && final(self)@ == old(
                        self,
                    )@
                },
            },
    {
        self.repo.update(id, dto, now)
    }

    pub fn delete_product(&mut self, id: &str) -> (r: Result<u64, RepoError>)
        requires
            repo_wf(old(self)@),
        ensures
            repo_wf(final(self)@),
            match uuid_parse_of(id@) {
                None => r == Err::<u64, RepoError>(RepoError::Decode) && final(self)@ == old(
                    self,
                )@,
                Some(v) => if has_id(old(self)@, v) {
                    r == Ok::<u64, RepoError>(1) && final(self)@ == old(self)@.remove(
                        id_index(old(self)@, v),
                    )
                } else {
                    r == Ok::<u64, RepoError>(0) && final(self)@ == old(self)@
                },
            },
    {
        self.repo.delete(id)
    }
}

} // verus!
