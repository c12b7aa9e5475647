//! An in-memory storage adapter satisfying the full repository abstraction.
//! It keeps rows in insertion order and assigns identities the way a rowid
//! table does: one more than the largest identity in use.

use vstd::prelude::*;
use crate::domain::errors::BudgetServiceError;
use crate::domain::models::{Account, Category, Record};
use crate::service::budget::{
    account_ids_wf, account_index, category_ids_wf, category_index, has_account_id,
    has_category_id, has_record_id, record_ids_wf, record_index, remove_account_by_id,
    remove_category_by_id, remove_record_by_id, AccountRepository, BudgetRepository,
    BudgetStore, CategoryRepository, RecordRepository, UserRepository,
};
use crate::service::records::{
    filtered_records, record_matches_category, windowed_records, ListRecordsCmd,
};

verus! {

/// Filtering one more row keeps what was filtered and appends the row when
/// it passes the category constraint.
proof fn lemma_filtered_records_push(s: Seq<Record>, x: Record, category_id: Option<i64>)
    ensures
        filtered_records(s.push(x), category_id) == (if record_matches_category(x, category_id) {
            filtered_records(s, category_id).push(x)
        } else {
            filtered_records(s, category_id)
        }),
{
    reveal(Seq::filter);
    assert(s.push(x).drop_last() =~= s);
}

/// Every filtered row is a stored row and passes the category constraint.
proof fn lemma_filtered_records_elems(s: Seq<Record>, category_id: Option<i64>)
    ensures
        forall|i: int|
            0 <= i < filtered_records(s, category_id).len() ==> s.contains(
                #[trigger] filtered_records(s, category_id)[i],
            ) && record_matches_category(filtered_records(s, category_id)[i], category_id),
    decreases s.len(),
{
    reveal(Seq::filter);
    if s.len() > 0 {
        let sd = s.drop_last();
        lemma_filtered_records_elems(sd, category_id);
        let f = filtered_records(s, category_id);
        let fd = filtered_records(sd, category_id);
        assert forall|i: int| 0 <= i < f.len() implies s.contains(f[i])
            && record_matches_category(f[i], category_id) by {
            if i < fd.len() {
                assert(f[i] == fd[i]);
                assert(sd.contains(fd[i]));
                let j = choose|j: int| 0 <= j < sd.len() && sd[j] == fd[i];
                assert(s[j] == fd[i]);
            } else {
                assert(f[i] == s.last());
                assert(s[s.len() - 1] == s.last());
            }
        }
    }
}

/// The in-memory storage adapter. Rows live in vectors in insertion order;
/// identities are positive and unique.
pub struct MemoryBudgetRepo {
    accounts: Vec<Account>,
    categories: Vec<Category>,
    records: Vec<Record>,
}

impl MemoryBudgetRepo {
    /// An empty store, whose every row view is empty and well-formed.
    pub fn new() -> (r: MemoryBudgetRepo)
        ensures
            r.accounts() == Seq::<Account>::empty(),
            r.categories() == Seq::<Category>::empty(),
            r.records() == Seq::<Record>::empty(),
            account_ids_wf(r.accounts()),
            category_ids_wf(r.categories()),
            record_ids_wf(r.records()),
    {
        MemoryBudgetRepo { accounts: Vec::new(), categories: Vec::new(), records: Vec::new() }
    }
}

impl BudgetStore for MemoryBudgetRepo {
    closed spec fn accounts(&self) -> Seq<Account> {
        self.accounts@
    }

    closed spec fn categories(&self) -> Seq<Category> {
        self.categories@
    }

    closed spec fn records(&self) -> Seq<Record> {
        self.records@
    }
}

impl AccountRepository for MemoryBudgetRepo {
    fn list_accounts(&self) -> (r: Result<Vec<Account>, BudgetServiceError>)
        ensures
            r is Ok,
            r matches Ok(v) ==> v@ == self.accounts(),
    {
        let mut out: Vec<Account> = Vec::new();
        let mut i: usize = 0;
        while i < self.accounts.len()
            invariant
                i <= self.accounts.len(),
                out@ == self.accounts@.take(i as int),
            decreases self.accounts.len() - i,
        {
            out.push(self.accounts[i].clone());
            proof {
                assert(self.accounts@.take(i + 1 as int) =~= self.accounts@.take(i as int).push(
                    self.accounts@[i as int],
                ));
            }
            i += 1;
        }
        proof {
            assert(self.accounts@.take(self.accounts@.len() as int) =~= self.accounts@);
        }
        Ok(out)
    }

    fn create_account(&mut self, acc: Account) -> (r: Result<i64, BudgetServiceError>)
        ensures
            r is Err <==> has_account_id(old(self).accounts(), i64::MAX),
            r matches Ok(id) ==> (forall|j: int|
                0 <= j < old(self).accounts().len() ==> (#[trigger] old(self).accounts()[j]).id
                    < id) && (id > 1 ==> has_account_id(old(self).accounts(), (id - 1) as i64)),
    {
        let mut max_id: i64 = 0;
        let mut i: usize = 0;
        while i < self.accounts.len()
            invariant
                *self == *old(self),
                account_ids_wf(old(self).accounts@),
                i <= self.accounts.len(),
                0 <= max_id,
                forall|j: int| 0 <= j < i ==> (#[trigger] self.accounts@[j]).id <= max_id,
                max_id > 0 ==> has_account_id(self.accounts@, max_id),
            decreases self.accounts.len() - i,
        {
            if self.accounts[i].id > max_id {
                max_id = self.accounts[i].id;
            }
            i += 1;
        }
        if max_id == i64::MAX {
            return Err(BudgetServiceError::DatabaseError("identity space exhausted".to_owned()));
        }
        let id = max_id + 1;
        let stored = Account { id, ..acc };
        self.accounts.push(stored);
        proof {
            let s = old(self).accounts@;
            let ns = self.accounts@;
            assert(ns == s.push(Account { id: id, ..acc }));
            assert forall|p: int, q: int| 0 <= p < q < ns.len() implies ns[p].id != ns[q].id by {
                if q == s.len() {
                    assert(s[p].id <= max_id);
                }
            }
            assert(account_ids_wf(ns));
        }
        Ok(id)
    }

    fn get_account_by_id(&self, id: i64) -> (r: Result<Account, BudgetServiceError>)
        ensures
            r is Ok <==> has_account_id(self.accounts(), id),
    {
        let mut i: usize = 0;
        while i < self.accounts.len()
            invariant
                i <= self.accounts.len(),
                forall|j: int| 0 <= j < i ==> (#[trigger] self.accounts@[j]).id != id,
            decreases self.accounts.len() - i,
        {
            if self.accounts[i].id == id {
                let found = self.accounts[i].clone();
                proof {
                    assert(self.accounts@[i as int] == found);
                }
                return Ok(found);
            }
            i += 1;
        }
        Err(BudgetServiceError::EntityNotFoundError("account".to_owned()))
    }

    fn update_account(&mut self, acc: Account) -> (r: Result<(), BudgetServiceError>)
        ensures
            r is Ok,
    {
        let mut i: usize = 0;
        while i < self.accounts.len()
            invariant
                *self == *old(self),
                account_ids_wf(old(self).accounts@),
                i <= self.accounts.len(),
                forall|j: int| 0 <= j < i ==> (#[trigger] self.accounts@[j]).id != acc.id,
            decreases self.accounts.len() - i,
        {
            if self.accounts[i].id == acc.id {
                let ghost s = self.accounts@;
                self.accounts.remove(i);
                self.accounts.insert(i, acc);
                proof {
                    let ns = self.accounts@;
                    assert(ns =~= s.update(i as int, acc));
                    assert(has_account_id(s, acc.id));
                    let k = account_index(s, acc.id);
                    assert(s[k].id == acc.id);
                    assert(s[i as int].id == acc.id);
                    if k < i as int {
                        assert(s[k].id != acc.id);
                    }
                    if k > i as int {
                        assert(s[i as int].id != s[k].id);
                    }
                    assert(k == i as int);
                    assert forall|p: int, q: int| 0 <= p < q < ns.len() implies ns[p].id
                        != ns[q].id by {
                        assert(ns[p].id == s[p].id);
                        assert(ns[q].id == s[q].id);
                    }
                    assert(account_ids_wf(ns));
                }
                return Ok(());
            }
            i += 1;
        }
        Ok(())
    }

    fn delete_account(&mut self, id: i64) -> (r: Result<(), BudgetServiceError>)
        ensures
            r is Ok,
    {
        let mut i: usize = 0;
        while i < self.accounts.len()
            invariant
                *self == *old(self),
                account_ids_wf(old(self).accounts@),
                i <= self.accounts.len(),
                forall|j: int| 0 <= j < i ==> (#[trigger] self.accounts@[j]).id != id,
            decreases self.accounts.len() - i,
        {
            if self.accounts[i].id == id {
                let ghost s = self.accounts@;
                self.accounts.remove(i);
                proof {
                    let ns = self.accounts@;
                    assert(has_account_id(s, id));
                    let k = account_index(s, id);
                    assert(s[k].id == id);
                    assert(s[i as int].id == id);
                    if k < i as int {
                        assert(s[k].id != id);
                    }
                    if k > i as int {
                        assert(s[i as int].id != s[k].id);
                    }
                    assert(k == i as int);
                    s.remove_ensures(i as int);
                    assert(ns == remove_account_by_id(s, id));
                    assert forall|p: int| 0 <= p < ns.len() implies (#[trigger] ns[p]).id > 0 by {
                        if p < i as int {
                            assert(ns[p] == s[p]);
                        } else {
                            assert(ns[p] == s[p + 1]);
                        }
                    }
                    assert forall|p: int, q: int| 0 <= p < q < ns.len() implies ns[p].id
                        != ns[q].id by {
                        let sp = if p < i as int {
                            p
                        } else {
                            p + 1
                        };
                        let sq = if q < i as int {
                            q
                        } else {
                            q + 1
                        };
                        assert(ns[p] == s[sp]);
                        assert(ns[q] == s[sq]);
                    }
                    assert(account_ids_wf(ns));
                }
                return Ok(());
            }
            i += 1;
        }
        proof {
            assert(!has_account_id(self.accounts@, id));
        }
        Ok(())
    }
}

impl CategoryRepository for MemoryBudgetRepo {
    fn list_categories(&self) -> (r: Result<Vec<Category>, BudgetServiceError>)
        ensures
            r is Ok,
            r matches Ok(v) ==> v@ == self.categories(),
    {
        let mut out: Vec<Category> = Vec::new();
        let mut i: usize = 0;
        while i < self.categories.len()
            invariant
                i <= self.categories.len(),
                out@ == self.categories@.take(i as int),
            decreases self.categories.len() - i,
        {
            out.push(self.categories[i].clone());
            proof {
                assert(self.categories@.take(i + 1 as int) =~= self.categories@.take(
                    i as int,
                ).push(self.categories@[i as int]));
            }
            i += 1;
        }
        proof {
            assert(self.categories@.take(self.categories@.len() as int) =~= self.categories@);
        }
        Ok(out)
    }

    fn create_category(&mut self, category: Category) -> (r: Result<i64, BudgetServiceError>)
        ensures
            r is Err <==> has_category_id(old(self).categories(), i64::MAX),
            r matches Ok(id) ==> (forall|j: int|
                0 <= j < old(self).categories().len() ==> (#[trigger] old(self).categories()[j]).id
                    < id) && (id > 1 ==> has_category_id(old(self).categories(), (id - 1) as i64)),
    {
        let mut max_id: i64 = 0;
        let mut i: usize = 0;
        while i < self.categories.len()
            invariant
                *self == *old(self),
                category_ids_wf(old(self).categories@),
                i <= self.categories.len(),
                0 <= max_id,
                forall|j: int| 0 <= j < i ==> (#[trigger] self.categories@[j]).id <= max_id,
                max_id > 0 ==> has_category_id(self.categories@, max_id),
            decreases self.categories.len() - i,
        {
            if self.categories[i].id > max_id {
                max_id = self.categories[i].id;
            }
            i += 1;
        }
        if max_id == i64::MAX {
            return Err(BudgetServiceError::DatabaseError("identity space exhausted".to_owned()));
        }
        let id = max_id + 1;
        let stored = Category { id, ..category };
        self.categories.push(stored);
        proof {
            let s = old(self).categories@;
            let ns = self.categories@;
            assert(ns == s.push(Category { id: id, ..category }));
            assert forall|p: int, q: int| 0 <= p < q < ns.len() implies ns[p].id != ns[q].id by {
                if q == s.len() {
                    assert(s[p].id <= max_id);
                }
            }
            assert(category_ids_wf(ns));
        }
        Ok(id)
    }

    fn get_category_by_id(&self, id: i64) -> (r: Result<Category, BudgetServiceError>)
        ensures
            r is Ok <==> has_category_id(self.categories(), id),
    {
        let mut i: usize = 0;
        while i < self.categories.len()
            invariant
                i <= self.categories.len(),
                forall|j: int| 0 <= j < i ==> (#[trigger] self.categories@[j]).id != id,
            decreases self.categories.len() - i,
        {
            if self.categories[i].id == id {
                let found = self.categories[i].clone();
                proof {
                    assert(self.categories@[i as int] == found);
                }
                return Ok(found);
            }
            i += 1;
        }
        Err(BudgetServiceError::EntityNotFoundError("category".to_owned()))
    }

    fn update_category(&mut self, category: Category) -> (r: Result<(), BudgetServiceError>)
        ensures
            r is Ok,
    {
        let mut i: usize = 0;
        while i < self.categories.len()
            invariant
                *self == *old(self),
                category_ids_wf(old(self).categories@),
                i <= self.categories.len(),
                forall|j: int| 0 <= j < i ==> (#[trigger] self.categories@[j]).id != category.id,
            decreases self.categories.len() - i,
        {
            if self.categories[i].id == category.id {
                let ghost s = self.categories@;
                self.categories.remove(i);
                self.categories.insert(i, category);
                proof {
                    let ns = self.categories@;
                    assert(ns =~= s.update(i as int, category));
                    assert(has_category_id(s, category.id));
                    let k = category_index(s, category.id);
                    assert(s[k].id == category.id);
                    assert(s[i as int].id == category.id);
                    if k < i as int {
                        assert(s[k].id != category.id);
                    }
                    if k > i as int {
                        assert(s[i as int].id != s[k].id);
                    }
                    assert(k == i as int);
                    assert forall|p: int, q: int| 0 <= p < q < ns.len() implies ns[p].id
                        != ns[q].id by {
                        assert(ns[p].id == s[p].id);
                        assert(ns[q].id == s[q].id);
                    }
                    assert(category_ids_wf(ns));
                }
                return Ok(());
            }
            i += 1;
        }
        Ok(())
    }

    fn delete_category(&mut self, id: i64) -> (r: Result<(), BudgetServiceError>)
        ensures
            r is Ok,
    {
        let mut i: usize = 0;
        while i < self.categories.len()
            invariant
                *self == *old(self),
                category_ids_wf(old(self).categories@),
                i <= self.categories.len(),
                forall|j: int| 0 <= j < i ==> (#[trigger] self.categories@[j]).id != id,
            decreases self.categories.len() - i,
        {
            if self.categories[i].id == id {
                let ghost s = self.categories@;
                self.categories.remove(i);
                proof {
                    let ns = self.categories@;
                    assert(has_category_id(s, id));
                    let k = category_index(s, id);
                    assert(s[k].id == id);
                    assert(s[i as int].id == id);
                    if k < i as int {
                        assert(s[k].id != id);
                    }
                    if k > i as int {
                        assert(s[i as int].id != s[k].id);
                    }
                    assert(k == i as int);
                    s.remove_ensures(i as int);
                    assert(ns == remove_category_by_id(s, id));
                    assert forall|p: int| 0 <= p < ns.len() implies (#[trigger] ns[p]).id > 0 by {
                        if p < i as int {
                            assert(ns[p] == s[p]);
                        } else {
                            assert(ns[p] == s[p + 1]);
                        }
                    }
                    assert forall|p: int, q: int| 0 <= p < q < ns.len() implies ns[p].id
                        != ns[q].id by {
                        let sp = if p < i as int {
                            p
                        } else {
                            p + 1
                        };
                        let sq = if q < i as int {
                            q
                        } else {
                            q + 1
                        };
                        assert(ns[p] == s[sp]);
                        assert(ns[q] == s[sq]);
                    }
                    assert(category_ids_wf(ns));
                }
                return Ok(());
            }
            i += 1;
        }
        proof {
            assert(!has_category_id(self.categories@, id));
        }
        Ok(())
    }
}

impl RecordRepository for MemoryBudgetRepo {
    fn list_records(&self, req: ListRecordsCmd) -> (r: Result<Vec<Record>, BudgetServiceError>)
        ensures
            r is Ok,
            r matches Ok(v) ==> v@ == windowed_records(
                filtered_records(self.records(), req.category_id),
                req.limit,
                req.offset,
            ),
    {
        let mut matching: Vec<Record> = Vec::new();
        let mut i: usize = 0;
        while i < self.records.len()
            invariant
                i <= self.records.len(),
                matching@ == filtered_records(self.records@.take(i as int), req.category_id),
            decreases self.records.len() - i,
        {
            let rec = &self.records[i];
            let keep = match req.category_id {
                Some(c) => match &rec.category {
                    Some(k) => k.id == c,
                    None => false,
                },
                None => true,
            };
            if keep {
                matching.push(rec.clone());
            }
            proof {
                let t = self.records@.take(i as int);
                assert(self.records@.take(i + 1 as int) =~= t.push(self.records@[i as int]));
                lemma_filtered_records_push(t, self.records@[i as int], req.category_id);
                assert(keep == record_matches_category(self.records@[i as int], req.category_id));
            }
            i += 1;
        }
        proof {
            assert(self.records@.take(self.records@.len() as int) =~= self.records@);
            assert(matching@ == filtered_records(self.records@, req.category_id));
        }
        // the window: skip `offset` matching rows, then cap at `limit` rows
        let off: usize = match req.offset {
            Some(o) => {
                if o >= matching.len() as u64 {
                    matching.len()
                } else {
                    o as usize
                }
            },
            None => 0,
        };
        let end: usize = match req.limit {
            Some(l) => {
                if l >= (matching.len() - off) as u64 {
                    matching.len()
                } else {
                    off + (l as usize)
                }
            },
            None => matching.len(),
        };
        let mut out: Vec<Record> = Vec::new();
        let mut k: usize = off;
        while k < end
            invariant
                off <= k <= end <= matching.len(),
                out@ == matching@.subrange(off as int, k as int),
            decreases end - k,
        {
            out.push(matching[k].clone());
            proof {
                assert(matching@.subrange(off as int, k + 1 as int) =~= matching@.subrange(
                    off as int,
                    k as int,
                ).push(matching@[k as int]));
            }
            k += 1;
        }
        proof {
            let f = filtered_records(self.records@, req.category_id);
            let w = windowed_records(f, req.limit, req.offset);
            assert(out@ =~= w);
            lemma_filtered_records_elems(self.records@, req.category_id);
            assert forall|i: int| 0 <= i < out@.len() implies self.records@.contains(
                #[trigger] out@[i],
            ) && record_matches_category(out@[i], req.category_id) by {
                assert(out@[i] == f[off + i]);
            }
            if req.limit is None && req.offset is None {
                assert(w =~= f);
            }
        }
        Ok(out)
    }

    fn create_record(&mut self, record: Record) -> (r: Result<i64, BudgetServiceError>)
        ensures
            r is Err <==> has_record_id(old(self).records(), i64::MAX),
            r matches Ok(id) ==> (forall|j: int|
                0 <= j < old(self).records().len() ==> (#[trigger] old(self).records()[j]).id
                    < id) && (id > 1 ==> has_record_id(old(self).records(), (id - 1) as i64)),
    {
        let mut max_id: i64 = 0;
        let mut i: usize = 0;
        while i < self.records.len()
            invariant
                *self == *old(self),
                record_ids_wf(old(self).records@),
                i <= self.records.len(),
                0 <= max_id,
                forall|j: int| 0 <= j < i ==> (#[trigger] self.records@[j]).id <= max_id,
                max_id > 0 ==> has_record_id(self.records@, max_id),
            decreases self.records.len() - i,
        {
            if self.records[i].id > max_id {
                max_id = self.records[i].id;
            }
            i += 1;
        }
        if max_id == i64::MAX {
            return Err(BudgetServiceError::DatabaseError("identity space exhausted".to_owned()));
        }
        let id = max_id + 1;
        let stored = Record { id, ..record };
        let ghost rec0 = record;
        self.records.push(stored);
        proof {
            let s = old(self).records@;
            let ns = self.records@;
            assert(ns == s.push(Record { id: id, ..rec0 }));
            assert forall|p: int, q: int| 0 <= p < q < ns.len() implies ns[p].id != ns[q].id by {
                if q == s.len() {
                    assert(s[p].id <= max_id);
                }
            }
            assert(record_ids_wf(ns));
        }
        Ok(id)
    }

    fn get_record_by_id(&self, id: i64) -> (r: Result<Record, BudgetServiceError>)
        ensures
            r is Ok <==> has_record_id(self.records(), id),
    {
        let mut i: usize = 0;
        while i < self.records.len()
            invariant
                i <= self.records.len(),
                forall|j: int| 0 <= j < i ==> (#[trigger] self.records@[j]).id != id,
            decreases self.records.len() - i,
        {
            if self.records[i].id == id {
                let found = self.records[i].clone();
                proof {
                    assert(self.records@[i as int] == found);
                }
                return Ok(found);
            }
            i += 1;
        }
        Err(BudgetServiceError::EntityNotFoundError("record".to_owned()))
    }

    fn update_record(&mut self, record: Record) -> (r: Result<(), BudgetServiceError>)
        ensures
            r is Ok,
    {
        let mut i: usize = 0;
        while i < self.records.len()
            invariant
                *self == *old(self),
                record_ids_wf(old(self).records@),
                i <= self.records.len(),
                forall|j: int| 0 <= j < i ==> (#[trigger] self.records@[j]).id != record.id,
            decreases self.records.len() - i,
        {
            if self.records[i].id == record.id {
                let ghost s = self.records@;
                let ghost rec0 = record;
                self.records.remove(i);
                self.records.insert(i, record);
                proof {
                    let ns = self.records@;
                    assert(ns =~= s.update(i as int, rec0));
                    assert(has_record_id(s, rec0.id));
                    let k = record_index(s, rec0.id);
                    assert(s[k].id == rec0.id);
                    assert(s[i as int].id == rec0.id);
                    if k < i as int {
                        assert(s[k].id != rec0.id);
                    }
                    if k > i as int {
                        assert(s[i as int].id != s[k].id);
                    }
                    assert(k == i as int);
                    assert forall|p: int, q: int| 0 <= p < q < ns.len() implies ns[p].id
                        != ns[q].id by {
                        assert(ns[p].id == s[p].id);
                        assert(ns[q].id == s[q].id);
                    }
                    assert(record_ids_wf(ns));
                }
                return Ok(());
            }
            i += 1;
        }
        Ok(())
    }

    fn delete_record(&mut self, id: i64) -> (r: Result<(), BudgetServiceError>)
        ensures
            r is Ok,
    {
        let mut i: usize = 0;
        while i < self.records.len()
            invariant
                *self == *old(self),
                record_ids_wf(old(self).records@),
                i <= self.records.len(),
                forall|j: int| 0 <= j < i ==> (#[trigger] self.records@[j]).id != id,
            decreases self.records.len() - i,
        {
            if self.records[i].id == id {
                let ghost s = self.records@;
                self.records.remove(i);
                proof {
                    let ns = self.records@;
                    assert(has_record_id(s, id));
                    let k = record_index(s, id);
                    assert(s[k].id == id);
                    assert(s[i as int].id == id);
                    if k < i as int {
                        assert(s[k].id != id);
                    }
                    if k > i as int {
                        assert(s[i as int].id != s[k].id);
                    }
                    assert(k == i as int);
                    s.remove_ensures(i as int);
                    assert(ns == remove_record_by_id(s, id));
                    assert forall|p: int| 0 <= p < ns.len() implies (#[trigger] ns[p]).id > 0 by {
                        if p < i as int {
                            assert(ns[p] == s[p]);
                        } else {
                            assert(ns[p] == s[p + 1]);
                        }
                    }
                    assert forall|p: int, q: int| 0 <= p < q < ns.len() implies ns[p].id
                        != ns[q].id by {
                        let sp = if p < i as int {
                            p
                        } else {
                            p + 1
                        };
                        let sq = if q < i as int {
                            q
                        } else {
                            q + 1
                        };
                        assert(ns[p] == s[sp]);
                        assert(ns[q] == s[sq]);
                    }
                    assert(record_ids_wf(ns));
                }
                return Ok(());
            }
            i += 1;
        }
        proof {
            assert(!has_record_id(self.records@, id));
        }
        Ok(())
    }
}

impl UserRepository for MemoryBudgetRepo {

}

impl BudgetRepository for MemoryBudgetRepo {

}

} // verus!
