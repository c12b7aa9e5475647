//! The storage contract: capability interfaces a storage adapter must
//! satisfy, stated over a mathematical view of the stored rows, and the
//! service type that orchestrates use-cases against them.
//!
//! Each repository exposes its rows as a sequence in stored order. Reads
//! relate the result to that view; writes say how the view changes, and that
//! a failed write leaves it unchanged. A storage failure may always occur, so
//! no method promises success; what is promised is that a `NotFound` outcome
//! arises exactly when the id is absent.

use vstd::prelude::*;
use crate::domain::errors::BudgetServiceError;
use crate::domain::models::{Account, Category, Record};
use crate::service::accounts::BudgetAccountsService;
use crate::service::categories::BudgetCategoriesService;
use crate::service::records::{
    filtered_records, record_matches_category, BudgetRecordService, ListRecordsCmd,
};

verus! {

/// Stored account rows are well-formed: identities are positive and unique.
pub open spec fn account_ids_wf(s: Seq<Account>) -> bool {
    &&& forall|i: int| 0 <= i < s.len() ==> (#[trigger] s[i]).id > 0
    &&& forall|i: int, j: int| 0 <= i < j < s.len() ==> s[i].id != s[j].id
}

/// Whether some stored account carries this id.
pub open spec fn has_account_id(s: Seq<Account>, id: i64) -> bool {
    exists|i: int| 0 <= i < s.len() && (#[trigger] s[i]).id == id
}

/// The position of the account with this id (unique under well-formedness).
pub open spec fn account_index(s: Seq<Account>, id: i64) -> int {
    choose|i: int| 0 <= i < s.len() && (#[trigger] s[i]).id == id
}

/// The rows after deleting this id: the unique match is removed; deleting an
/// absent id changes nothing.
pub open spec fn remove_account_by_id(s: Seq<Account>, id: i64) -> Seq<Account> {
    if has_account_id(s, id) {
        s.remove(account_index(s, id))
    } else {
        s
    }
}

/// Stored category rows are well-formed: identities are positive and unique.
pub open spec fn category_ids_wf(s: Seq<Category>) -> bool {
    &&& forall|i: int| 0 <= i < s.len() ==> (#[trigger] s[i]).id > 0
    &&& forall|i: int, j: int| 0 <= i < j < s.len() ==> s[i].id != s[j].id
}

/// Whether some stored category carries this id.
pub open spec fn has_category_id(s: Seq<Category>, id: i64) -> bool {
    exists|i: int| 0 <= i < s.len() && (#[trigger] s[i]).id == id
}

/// The position of the category with this id (unique under well-formedness).
pub open spec fn category_index(s: Seq<Category>, id: i64) -> int {
    choose|i: int| 0 <= i < s.len() && (#[trigger] s[i]).id == id
}

/// The rows after deleting this id: the unique match is removed; deleting an
/// absent id changes nothing.
pub open spec fn remove_category_by_id(s: Seq<Category>, id: i64) -> Seq<Category> {
    if has_category_id(s, id) {
        s.remove(category_index(s, id))
    } else {
        s
    }
}

/// Stored record rows are well-formed: identities are positive and unique.
pub open spec fn record_ids_wf(s: Seq<Record>) -> bool {
    &&& forall|i: int| 0 <= i < s.len() ==> (#[trigger] s[i]).id > 0
    &&& forall|i: int, j: int| 0 <= i < j < s.len() ==> s[i].id != s[j].id
}

/// Whether some stored record carries this id.
pub open spec fn has_record_id(s: Seq<Record>, id: i64) -> bool {
    exists|i: int| 0 <= i < s.len() && (#[trigger] s[i]).id == id
}

/// The position of the record with this id (unique under well-formedness).
pub open spec fn record_index(s: Seq<Record>, id: i64) -> int {
    choose|i: int| 0 <= i < s.len() && (#[trigger] s[i]).id == id
}

/// The rows after deleting this id: the unique match is removed; deleting an
/// absent id changes nothing.
pub open spec fn remove_record_by_id(s: Seq<Record>, id: i64) -> Seq<Record> {
    if has_record_id(s, id) {
        s.remove(record_index(s, id))
    } else {
        s
    }
}

/// Law: deleting is idempotent. Removing an id that no well-formed stored row
/// carries changes nothing, so deleting an absent id is not distinguishable
/// from having deleted it already, and a repeated delete equals one delete.
pub proof fn lemma_remove_account_by_id_idempotent(s: Seq<Account>, id: i64)
    requires
        account_ids_wf(s),
    ensures
        !has_account_id(s, id) ==> remove_account_by_id(s, id) == s,
        remove_account_by_id(remove_account_by_id(s, id), id) == remove_account_by_id(s, id),
{
    if has_account_id(s, id) {
        let i = account_index(s, id);
        assert(s[i].id == id);
        let ns = s.remove(i);
        s.remove_ensures(i);
        assert forall|j: int| 0 <= j < ns.len() implies (#[trigger] ns[j]).id != id by {
            if j < i {
                assert(ns[j] == s[j]);
                assert(s[j].id != s[i].id);
            } else {
                assert(ns[j] == s[j + 1]);
                assert(s[i].id != s[j + 1].id);
            }
        }
        assert(!has_account_id(ns, id));
    }
}

/// Law: deleting is idempotent, for categories.
pub proof fn lemma_remove_category_by_id_idempotent(s: Seq<Category>, id: i64)
    requires
        category_ids_wf(s),
    ensures
        !has_category_id(s, id) ==> remove_category_by_id(s, id) == s,
        remove_category_by_id(remove_category_by_id(s, id), id) == remove_category_by_id(s, id),
{
    if has_category_id(s, id) {
        let i = category_index(s, id);
        assert(s[i].id == id);
        let ns = s.remove(i);
        s.remove_ensures(i);
        assert forall|j: int| 0 <= j < ns.len() implies (#[trigger] ns[j]).id != id by {
            if j < i {
                assert(ns[j] == s[j]);
                assert(s[j].id != s[i].id);
            } else {
                assert(ns[j] == s[j + 1]);
                assert(s[i].id != s[j + 1].id);
            }
        }
        assert(!has_category_id(ns, id));
    }
}

/// Law: the round trip of creation. A creation pushes a row under a fresh
/// positive identity; in the resulting well-formed view that identity is
/// present and looking it up yields exactly the pushed row, every other field
/// unchanged.
pub proof fn lemma_created_category_is_found(s: Seq<Category>, c: Category)
    requires
        category_ids_wf(s),
        !has_category_id(s, c.id),
        c.id > 0,
    ensures
        category_ids_wf(s.push(c)),
        has_category_id(s.push(c), c.id),
        s.push(c)[category_index(s.push(c), c.id)] == c,
{
    let ns = s.push(c);
    assert(ns[s.len() as int] == c);
    assert forall|p: int, q: int| 0 <= p < q < ns.len() implies ns[p].id != ns[q].id by {
        if q == s.len() {
            assert(ns[p] == s[p]);
        }
    }
    let k = category_index(ns, c.id);
    assert(ns[k].id == c.id);
    if k < s.len() {
        assert(s[k].id != c.id);
        assert(false);
    }
}

/// Law: deleting is idempotent, for records.
pub proof fn lemma_remove_record_by_id_idempotent(s: Seq<Record>, id: i64)
    requires
        record_ids_wf(s),
    ensures
        !has_record_id(s, id) ==> remove_record_by_id(s, id) == s,
        remove_record_by_id(remove_record_by_id(s, id), id) == remove_record_by_id(s, id),
{
    if has_record_id(s, id) {
        let i = record_index(s, id);
        assert(s[i].id == id);
        let ns = s.remove(i);
        s.remove_ensures(i);
        assert forall|j: int| 0 <= j < ns.len() implies (#[trigger] ns[j]).id != id by {
            if j < i {
                assert(ns[j] == s[j]);
                assert(s[j].id != s[i].id);
            } else {
                assert(ns[j] == s[j + 1]);
                assert(s[i].id != s[j + 1].id);
            }
        }
        assert(!has_record_id(ns, id));
    }
}

/// The mathematical view of a budget store: the three families of stored
/// rows, each a sequence in stored order. Repositories and services state
/// their contracts over these views; a write to one family leaves the others
/// unchanged. An adapter outside verification may leave the default views.
pub trait BudgetStore: Sized {
    /// The stored account rows, in stored order.
    open spec fn accounts(&self) -> Seq<Account> {
        Seq::<Account>::empty()
    }

    /// The stored category rows, in stored order.
    open spec fn categories(&self) -> Seq<Category> {
        Seq::<Category>::empty()
    }

    /// The stored record rows, in stored order.
    open spec fn records(&self) -> Seq<Record> {
        Seq::<Record>::empty()
    }
}

/// Storage capability for accounts.
pub trait AccountRepository: BudgetStore {
    /// Returns all stored accounts, in no promised order.
    fn list_accounts(&self) -> (r: Result<Vec<Account>, BudgetServiceError>)
        ensures
            r matches Ok(v) ==> v@.to_multiset() == self.accounts().to_multiset(),
    ;

    /// Inserts a row and returns the freshly assigned positive identity; the
    /// caller's `id` field is overwritten by the assignment.
    fn create_account(&mut self, acc: Account) -> (r: Result<i64, BudgetServiceError>)
        requires
            account_ids_wf(old(self).accounts()),
        ensures
            account_ids_wf(final(self).accounts()),
            final(self).categories() == old(self).categories(),
            final(self).records() == old(self).records(),
            r matches Err(e) ==> e is DatabaseError || e is EntityNotFoundError,
            r matches Ok(id) ==> id > 0 && !has_account_id(old(self).accounts(), id) && final(self).accounts() == old(self).accounts().push((Account { id: id, ..acc })),
            r is Err ==> final(self).accounts() == old(self).accounts(),
    ;

    /// Fetches the row with this id; an absent id is an error, and a
    /// not-found outcome arises exactly when the id is absent.
    fn get_account_by_id(&self, id: i64) -> (r: Result<Account, BudgetServiceError>)
        ensures
            r matches Ok(a) ==> self.accounts().contains(a) && a.id == id,
            !has_account_id(self.accounts(), id) ==> r is Err,
            r matches Err(e) ==> e is EntityNotFoundError || e is DatabaseError,
            r matches Err(e) && e is EntityNotFoundError ==> !has_account_id(
                self.accounts(),
                id,
            ),
    ;

    /// Overwrites the row carrying `acc.id` with `acc`; an absent id succeeds
    /// silently, changing nothing.
    fn update_account(&mut self, acc: Account) -> (r: Result<(), BudgetServiceError>)
        requires
            account_ids_wf(old(self).accounts()),
        ensures
            account_ids_wf(final(self).accounts()),
            final(self).categories() == old(self).categories(),
            final(self).records() == old(self).records(),
            r matches Err(e) ==> e is DatabaseError || e is EntityNotFoundError,
            r is Ok && has_account_id(old(self).accounts(), acc.id) ==> final(self).accounts()
                == old(self).accounts().update(account_index(old(self).accounts(), acc.id), acc),
            r is Ok && !has_account_id(old(self).accounts(), acc.id) ==> final(self).accounts()
                == old(self).accounts(),
            r is Err ==> final(self).accounts() == old(self).accounts(),
    ;

    /// Deletes the row with this id; deleting an absent id is not an error
    /// distinct from a successful delete.
    fn delete_account(&mut self, id: i64) -> (r: Result<(), BudgetServiceError>)
        requires
            account_ids_wf(old(self).accounts()),
        ensures
            account_ids_wf(final(self).accounts()),
            final(self).categories() == old(self).categories(),
            final(self).records() == old(self).records(),
            r matches Err(e) ==> e is DatabaseError || e is EntityNotFoundError,
            r is Ok ==> final(self).accounts() == remove_account_by_id(old(self).accounts(), id),
            r is Err ==> final(self).accounts() == old(self).accounts(),
    ;
}

/// Storage capability for records.
pub trait RecordRepository: BudgetStore {
    /// Returns stored records under the optional constraints of `req`: every
    /// returned row is stored and passes the category constraint; a limit
    /// caps the count; without a window the matching rows come back complete.
    fn list_records(&self, req: ListRecordsCmd) -> (r: Result<Vec<Record>, BudgetServiceError>)
        ensures
            r matches Ok(v) ==> forall|i: int|
                0 <= i < v@.len() ==> self.records().contains(#[trigger] v@[i])
                    && record_matches_category(v@[i], req.category_id),
            r matches Ok(v) ==> (req.limit matches Some(l) ==> v@.len() <= l),
            r matches Ok(v) ==> (req.limit is None && req.offset is None ==> v@.to_multiset()
                == filtered_records(self.records(), req.category_id).to_multiset()),
    ;

    /// Inserts a row and returns the freshly assigned positive identity; the
    /// caller's `id` field is overwritten by the assignment.
    fn create_record(&mut self, record: Record) -> (r: Result<i64, BudgetServiceError>)
        requires
            record_ids_wf(old(self).records()),
        ensures
            record_ids_wf(final(self).records()),
            final(self).accounts() == old(self).accounts(),
            final(self).categories() == old(self).categories(),
            r matches Err(e) ==> e is DatabaseError || e is EntityNotFoundError,
            r matches Ok(id) ==> id > 0 && !has_record_id(old(self).records(), id) && final(self).records() == old(self).records().push((Record { id: id, ..record })),
            r is Err ==> final(self).records() == old(self).records(),
    ;

    /// Fetches the row with this id; an absent id is an error, and a
    /// not-found outcome arises exactly when the id is absent.
    fn get_record_by_id(&self, id: i64) -> (r: Result<Record, BudgetServiceError>)
        ensures
            r matches Ok(rec) ==> self.records().contains(rec) && rec.id == id,
            !has_record_id(self.records(), id) ==> r is Err,
            r matches Err(e) ==> e is EntityNotFoundError || e is DatabaseError,
            r matches Err(e) && e is EntityNotFoundError ==> !has_record_id(self.records(), id),
    ;

    /// Overwrites the row carrying `record.id` with `record`; an absent id
    /// succeeds silently, changing nothing.
    fn update_record(&mut self, record: Record) -> (r: Result<(), BudgetServiceError>)
        requires
            record_ids_wf(old(self).records()),
        ensures
            record_ids_wf(final(self).records()),
            final(self).accounts() == old(self).accounts(),
            final(self).categories() == old(self).categories(),
            r matches Err(e) ==> e is DatabaseError || e is EntityNotFoundError,
            r is Ok && has_record_id(old(self).records(), record.id) ==> final(self).records()
                == old(self).records().update(
                record_index(old(self).records(), record.id),
                record,
            ),
            r is Ok && !has_record_id(old(self).records(), record.id) ==> final(self).records()
                == old(self).records(),
            r is Err ==> final(self).records() == old(self).records(),
    ;

    /// Deletes the row with this id; deleting an absent id is not an error
    /// distinct from a successful delete.
    fn delete_record(&mut self, id: i64) -> (r: Result<(), BudgetServiceError>)
        requires
            record_ids_wf(old(self).records()),
        ensures
            record_ids_wf(final(self).records()),
            final(self).accounts() == old(self).accounts(),
            final(self).categories() == old(self).categories(),
            r matches Err(e) ==> e is DatabaseError || e is EntityNotFoundError,
            r is Ok ==> final(self).records() == remove_record_by_id(old(self).records(), id),
            r is Err ==> final(self).records() == old(self).records(),
    ;
}

/// Storage capability for categories.
pub trait CategoryRepository: BudgetStore {
    /// Returns all stored categories, in no promised order.
    fn list_categories(&self) -> (r: Result<Vec<Category>, BudgetServiceError>)
        ensures
            r matches Ok(v) ==> v@.to_multiset() == self.categories().to_multiset(),
    ;

    /// Inserts a row and returns the freshly assigned positive identity; the
    /// caller's `id` field is overwritten by the assignment.
    fn create_category(&mut self, category: Category) -> (r: Result<i64, BudgetServiceError>)
        requires
            category_ids_wf(old(self).categories()),
        ensures
            category_ids_wf(final(self).categories()),
            final(self).accounts() == old(self).accounts(),
            final(self).records() == old(self).records(),
            r matches Err(e) ==> e is DatabaseError || e is EntityNotFoundError,
            r matches Ok(id) ==> id > 0 && !has_category_id(old(self).categories(), id) && final(self).categories() == old(self).categories().push((Category { id: id, ..category })),
            r is Err ==> final(self).categories() == old(self).categories(),
    ;

    /// Fetches the row with this id; an absent id is an error, and a
    /// not-found outcome arises exactly when the id is absent.
    fn get_category_by_id(&self, id: i64) -> (r: Result<Category, BudgetServiceError>)
        ensures
            r matches Ok(c) ==> self.categories().contains(c) && c.id == id,
            !has_category_id(self.categories(), id) ==> r is Err,
            r matches Err(e) ==> e is EntityNotFoundError || e is DatabaseError,
            r matches Err(e) && e is EntityNotFoundError ==> !has_category_id(
                self.categories(),
                id,
            ),
    ;

    /// Overwrites the row carrying `category.id` with `category`; an absent
    /// id succeeds silently, changing nothing.
    fn update_category(&mut self, category: Category) -> (r: Result<(), BudgetServiceError>)
        requires
            category_ids_wf(old(self).categories()),
        ensures
            category_ids_wf(final(self).categories()),
            final(self).accounts() == old(self).accounts(),
            final(self).records() == old(self).records(),
            r matches Err(e) ==> e is DatabaseError || e is EntityNotFoundError,
            r is Ok && has_category_id(old(self).categories(), category.id) ==> final(self).categories() == old(self).categories().update(
                category_index(old(self).categories(), category.id),
                category,
            ),
            r is Ok && !has_category_id(old(self).categories(), category.id) ==> final(self).categories() == old(self).categories(),
            r is Err ==> final(self).categories() == old(self).categories(),
    ;

    /// Deletes the row with this id; deleting an absent id is not an error
    /// distinct from a successful delete.
    fn delete_category(&mut self, id: i64) -> (r: Result<(), BudgetServiceError>)
        requires
            category_ids_wf(old(self).categories()),
        ensures
            category_ids_wf(final(self).categories()),
            final(self).accounts() == old(self).accounts(),
            final(self).records() == old(self).records(),
            r matches Err(e) ==> e is DatabaseError || e is EntityNotFoundError,
            r is Ok ==> final(self).categories() == remove_category_by_id(
                old(self).categories(),
                id,
            ),
            r is Err ==> final(self).categories() == old(self).categories(),
    ;
}

/// Storage capability for users; the budget core stores nothing under it yet.
pub trait UserRepository: Sized {

}

/// A storage adapter able to serve every entity family.
pub trait BudgetRepository: RecordRepository + CategoryRepository + AccountRepository {

}

/// A service able to run every use-case.
pub trait BudgetService: BudgetAccountsService + BudgetRecordService + BudgetCategoriesService {

}

impl<T: BudgetRepository> BudgetService for BudgetServiceImpl<T> {

}

/// The orchestration unit for all use-cases, generic over any storage
/// adapter that satisfies the repository abstraction.
pub struct BudgetServiceImpl<T: BudgetRepository> {
    pub repo: T,
}

impl<T: BudgetRepository> BudgetStore for BudgetServiceImpl<T> {
    open spec fn accounts(&self) -> Seq<Account> {
        self.repo.accounts()
    }

    open spec fn categories(&self) -> Seq<Category> {
        self.repo.categories()
    }

    open spec fn records(&self) -> Seq<Record> {
        self.repo.records()
    }
}

impl<T: BudgetRepository> BudgetServiceImpl<T> {
    /// Wraps a storage adapter into a service.
    pub fn new(repo: T) -> (r: BudgetServiceImpl<T>)
        ensures
            r.repo == repo,
    {
        BudgetServiceImpl { repo }
    }
}

} // verus!
