//! Category use-cases: list, create (validate, insert, re-read), update of
//! name and budget (fetch, overwrite, persist, re-read), delete by id.

use vstd::prelude::*;
use crate::domain::errors::BudgetServiceError;
use crate::domain::models::{Category, CategoryError};
use crate::service::budget::{
    category_ids_wf, category_index, has_category_id, remove_category_by_id, BudgetRepository,
    BudgetServiceImpl, BudgetStore, CategoryRepository,
};

verus! {

/// Command to create a category from raw client input.
pub struct CreateCategoryCmd {
    pub name: String,
    pub budget: Option<i64>,
    pub parent_id: Option<i64>,
}

/// Command to overwrite a category's name and budget; the parent link is not
/// touched.
pub struct UpdateCategoryCmd {
    pub id: i64,
    pub name: String,
    pub budget: Option<i64>,
}

/// The category use-cases, stated over the view of the stored category rows.
pub trait BudgetCategoriesService: BudgetStore {
    /// Returns all stored categories, in no promised order.
    fn list_categories(&self) -> (r: Result<Vec<Category>, BudgetServiceError>)
        ensures
            r matches Ok(v) ==> v@.to_multiset() == self.categories().to_multiset(),
    ;

    /// Creates a category: a name of zero or more than 100 code points is
    /// rejected before any write; on success the returned category is the
    /// stored row, under a fresh positive identity, carrying exactly the
    /// command's fields.
    fn create_category(&mut self, cmd: CreateCategoryCmd) -> (r: Result<
        Category,
        BudgetServiceError,
    >)
        requires
            category_ids_wf(old(self).categories()),
        ensures
            category_ids_wf(final(self).categories()),
            final(self).accounts() == old(self).accounts(),
            final(self).records() == old(self).records(),
            r matches Err(e) ==> e is CategoryValidationError || e is EntityNotFoundError
                || e is DatabaseError,
            r matches Err(e) ==> (e is CategoryValidationError ==> !Category::spec_name_ok(
                cmd.name@,
            )),
            !Category::spec_name_ok(cmd.name@) ==> r == Err::<Category, BudgetServiceError>(
                BudgetServiceError::CategoryValidationError(CategoryError::InvalidCategoryName),
            ) && final(self).categories() == old(self).categories(),
            r matches Ok(c) ==> Category::spec_name_ok(cmd.name@) && c.id > 0 && !has_category_id(
                old(self).categories(),
                c.id,
            ) && c == (Category {
                id: c.id,
                name: cmd.name,
                budget: cmd.budget,
                parent_id: cmd.parent_id,
            }) && final(self).categories() == old(self).categories().push(c),
            r is Err ==> final(self).categories() == old(self).categories() || (exists|cid: i64|
                cid > 0 && final(self).categories() == old(self).categories().push(
                    (Category {
                        id: cid,
                        name: cmd.name,
                        budget: cmd.budget,
                        parent_id: cmd.parent_id,
                    }),
                )),
    ;

    /// Overwrites a category's name and budget: the row is fetched, the two
    /// fields overwritten, persisted, and re-read; an absent id fails without
    /// writing.
    fn update_category(&mut self, cmd: UpdateCategoryCmd) -> (r: Result<
        Category,
        BudgetServiceError,
    >)
        requires
            category_ids_wf(old(self).categories()),
        ensures
            category_ids_wf(final(self).categories()),
            final(self).accounts() == old(self).accounts(),
            final(self).records() == old(self).records(),
            r matches Err(e) ==> e is EntityNotFoundError || e is DatabaseError,
            !has_category_id(old(self).categories(), cmd.id) ==> r is Err && final(self).categories() == old(self).categories(),
            r matches Ok(c) ==> has_category_id(old(self).categories(), cmd.id) && c == (Category {
                name: cmd.name,
                budget: cmd.budget,
                ..old(self).categories()[category_index(old(self).categories(), cmd.id)]
            }) && final(self).categories() == old(self).categories().update(
                category_index(old(self).categories(), cmd.id),
                c,
            ),
            r is Err ==> final(self).categories() == old(self).categories() || (has_category_id(
                old(self).categories(),
                cmd.id,
            ) && final(self).categories() == old(self).categories().update(
                category_index(old(self).categories(), cmd.id),
                (Category {
                    name: cmd.name,
                    budget: cmd.budget,
                    ..old(self).categories()[category_index(old(self).categories(), cmd.id)]
                }),
            )),
    ;

    /// Deletes by id; deleting an absent id is not an error distinct from a
    /// successful delete. Children and records referencing the deleted
    /// category keep their dangling references; no cascade is performed.
    fn delete_category(&mut self, id: i64) -> (r: Result<(), BudgetServiceError>)
        requires
            category_ids_wf(old(self).categories()),
        ensures
            category_ids_wf(final(self).categories()),
            final(self).accounts() == old(self).accounts(),
            final(self).records() == old(self).records(),
            r matches Err(e) ==> e is EntityNotFoundError || e is DatabaseError,
            r is Ok ==> final(self).categories() == remove_category_by_id(
                old(self).categories(),
                id,
            ),
            r is Err ==> final(self).categories() == old(self).categories(),
    ;
}

impl<T: BudgetRepository> BudgetCategoriesService for BudgetServiceImpl<T> {
    fn list_categories(&self) -> (r: Result<Vec<Category>, BudgetServiceError>) {
        self.repo.list_categories()
    }

    fn create_category(&mut self, cmd: CreateCategoryCmd) -> (r: Result<
        Category,
        BudgetServiceError,
    >) {
        let category = match Category::new(cmd.name, cmd.budget, cmd.parent_id) {
            Ok(c) => c,
            Err(e) => {
                return Err(BudgetServiceError::CategoryValidationError(e));
            },
        };
        let ghost cat0 = category;
        let id = match self.repo.create_category(category) {
            Ok(id) => id,
            Err(e) => {
                return Err(e);
            },
        };
        let fetched = match self.repo.get_category_by_id(id) {
            Ok(c) => c,
            Err(e) => {
                return Err(e);
            },
        };
        proof {
            let s = old(self).repo.categories();
            let pushed = Category { id: id, ..cat0 };
            assert(self.repo.categories() == s.push(pushed));
            let j = choose|j: int|
                0 <= j < self.repo.categories().len() && self.repo.categories()[j] == fetched;
            assert(self.repo.categories()[j] == fetched);
            if j < s.len() {
                assert(s[j].id != id);
                assert(false);
            }
            assert(fetched == pushed);
        }
        Ok(fetched)
    }

    fn update_category(&mut self, cmd: UpdateCategoryCmd) -> (r: Result<
        Category,
        BudgetServiceError,
    >) {
        let mut category = match self.repo.get_category_by_id(cmd.id) {
            Ok(c) => c,
            Err(e) => {
                return Err(e);
            },
        };
        proof {
            let s = old(self).repo.categories();
            let j = choose|j: int| 0 <= j < s.len() && s[j] == category;
            assert(s[j].id == cmd.id);
            assert(has_category_id(s, cmd.id));
            let i = category_index(s, cmd.id);
            assert(s[i].id == cmd.id);
            assert(j == i);
        }
        category.name = cmd.name;
        category.budget = cmd.budget;
        let ghost updated = category;
        match self.repo.update_category(category) {
            Ok(()) => (),
            Err(e) => {
                return Err(e);
            },
        };
        let fetched = match self.repo.get_category_by_id(cmd.id) {
            Ok(c) => c,
            Err(e) => {
                return Err(e);
            },
        };
        proof {
            let s = old(self).repo.categories();
            let i = category_index(s, cmd.id);
            let ns = self.repo.categories();
            assert(ns == s.update(i, updated));
            let j = choose|j: int| 0 <= j < ns.len() && ns[j] == fetched;
            assert(ns[j] == fetched);
            assert(ns[i] == updated);
            if j != i {
                assert(ns[j] == s[j]);
                assert(s[j].id != s[i].id);
                assert(false);
            }
            assert(fetched == updated);
        }
        Ok(fetched)
    }

    fn delete_category(&mut self, id: i64) -> (r: Result<(), BudgetServiceError>) {
        self.repo.delete_category(id)
    }
}

} // verus!
