//! Record use-cases: commands, the filter semantics of record listing, and
//! the orchestration of record creation and update.

use vstd::prelude::*;
use crate::domain::errors::BudgetServiceError;
use crate::domain::models::{now_local_millis, Category, Record, RecordError, RecordType};
use crate::service::budget::{
    has_category_id, has_record_id, record_ids_wf, record_index, remove_record_by_id,
    BudgetRepository, BudgetServiceImpl, BudgetStore, CategoryRepository, RecordRepository,
};

verus! {

/// Command to create a record. `category` optionally names a category id that
/// must resolve before the record is built.
#[derive(Debug)]
pub struct CreateRecordCmd {
    pub account_id: i64,
    pub transaction_type: String,
    pub amount: i64,
    pub category: Option<i64>,
    pub description: Option<String>,
}

/// Command to list records: three independent optional constraints.
#[derive(Debug)]
pub struct ListRecordsCmd {
    pub limit: Option<u64>,
    pub offset: Option<u64>,
    pub category_id: Option<i64>,
}

/// Command to update a record's amount, description and category.
pub struct UpdateRecordCmd {
    pub id: i64,
    pub amount: i64,
    pub description: Option<String>,
    pub category_id: Option<i64>,
}

/// Whether a record passes the optional category constraint: with a
/// constraint, only records whose resolved category carries exactly that id
/// pass; records without a category never do.
pub open spec fn record_matches_category(r: Record, category_id: Option<i64>) -> bool {
    match category_id {
        Some(c) => r.category matches Some(k) && k.id == c,
        None => true,
    }
}

/// The rows that pass the category constraint, in stored order.
pub open spec fn filtered_records(s: Seq<Record>, category_id: Option<i64>) -> Seq<Record> {
    s.filter(|r: Record| record_matches_category(r, category_id))
}

/// The listing window: skip `offset` rows, then cap at `limit` rows. A window
/// reaching past the end is cut at the end.
pub open spec fn windowed_records(s: Seq<Record>, limit: Option<u64>, offset: Option<u64>) -> Seq<
    Record,
> {
    let off: int = match offset {
        Some(o) => if o as int <= s.len() {
            o as int
        } else {
            s.len() as int
        },
        None => 0,
    };
    let rest = s.skip(off);
    match limit {
        Some(l) => if (l as int) <= rest.len() {
            rest.take(l as int)
        } else {
            rest
        },
        None => rest,
    }
}

/// Whether the command's optional category reference resolves against the
/// stored categories: no reference always resolves.
pub open spec fn category_ref_resolves(s: Seq<Category>, category_id: Option<i64>) -> bool {
    match category_id {
        Some(cid) => has_category_id(s, cid),
        None => true,
    }
}

/// The record use-cases, stated over the views of the stored record and
/// category rows. Validation happens before any write; a referenced category
/// id must resolve before the record is built; every write re-reads the
/// canonical state, so a returned record is always the stored one.
pub trait BudgetRecordService: BudgetStore {
    /// Lists records under the command's optional constraints: every returned
    /// row is stored and passes the category constraint; a limit caps the
    /// count; without a window the matching rows come back complete.
    fn list_records(&self, cmd: ListRecordsCmd) -> (r: Result<Vec<Record>, BudgetServiceError>)
        ensures
            r matches Ok(v) ==> forall|i: int|
                0 <= i < v@.len() ==> self.records().contains(#[trigger] v@[i])
                    && record_matches_category(v@[i], cmd.category_id),
            r matches Ok(v) ==> (cmd.limit matches Some(l) ==> v@.len() <= l),
            r matches Ok(v) ==> (cmd.limit is None && cmd.offset is None ==> v@.to_multiset()
                == filtered_records(self.records(), cmd.category_id).to_multiset()),
    ;

    /// Creates a record: an unrecognized record-type label, then a
    /// non-positive amount, are rejected before any storage call; a supplied
    /// category id that does not resolve aborts before any write. On success
    /// the returned record is the stored row, under a fresh positive
    /// identity, carrying the command's fields and the hydrated category.
    fn create_record(&mut self, cmd: CreateRecordCmd) -> (r: Result<Record, BudgetServiceError>)
        requires
            record_ids_wf(old(self).records()),
        ensures
            record_ids_wf(final(self).records()),
            final(self).accounts() == old(self).accounts(),
            final(self).categories() == old(self).categories(),
            r matches Err(e) ==> e is RecordValidationError || e is EntityNotFoundError
                || e is DatabaseError,
            r matches Err(e) ==> (e is RecordValidationError ==> RecordType::spec_of_label(
                cmd.transaction_type@,
            ) is None || cmd.amount <= 0),
            RecordType::spec_of_label(cmd.transaction_type@) is None ==> r == Err::<
                Record,
                BudgetServiceError,
            >(
                BudgetServiceError::RecordValidationError(
                    RecordError::InvalidRecordType(cmd.transaction_type),
                ),
            ) && final(self).records() == old(self).records(),
            RecordType::spec_of_label(cmd.transaction_type@) is Some && cmd.amount <= 0 ==> r
                == Err::<Record, BudgetServiceError>(
                BudgetServiceError::RecordValidationError(
                    RecordError::AmountCannotBeLessOrEqualToZero,
                ),
            ) && final(self).records() == old(self).records(),
            RecordType::spec_of_label(cmd.transaction_type@) is Some && cmd.amount > 0
                && !category_ref_resolves(old(self).categories(), cmd.category) ==> (r matches Err(
                e,
            ) && (e is EntityNotFoundError || e is DatabaseError)) && final(self).records() == old(
                self,
            ).records(),
            r matches Ok(rec) ==> Some(rec.record_type) == RecordType::spec_of_label(
                cmd.transaction_type@,
            ) && cmd.amount > 0 && category_ref_resolves(old(self).categories(), cmd.category)
                && rec.id > 0 && !has_record_id(old(self).records(), rec.id) && rec.account_id
                == cmd.account_id && rec.amount == cmd.amount && rec.description == cmd.description
                && rec.created_at == rec.updated_at && (cmd.category matches Some(cid) ==> (
            rec.category matches Some(cat) && cat.id == cid && old(self).categories().contains(
                cat,
            ))) && (cmd.category is None ==> rec.category is None) && final(self).records() == old(self).records().push(rec),
            r is Err ==> final(self).records() == old(self).records() || (exists|rec: Record|
                final(self).records() == old(self).records().push(rec)),
    ;

    /// Updates a record's amount, description and category: a non-positive
    /// amount is rejected before any storage call; the record, and the newly
    /// referenced category if any, must resolve before the overwrite; the
    /// update timestamp is re-stamped; account, type and creation timestamp
    /// are untouched. On success the returned record is the stored row.
    fn update_record(&mut self, cmd: UpdateRecordCmd) -> (r: Result<Record, BudgetServiceError>)
        requires
            record_ids_wf(old(self).records()),
        ensures
            record_ids_wf(final(self).records()),
            final(self).accounts() == old(self).accounts(),
            final(self).categories() == old(self).categories(),
            r matches Err(e) ==> e is RecordValidationError || e is EntityNotFoundError
                || e is DatabaseError,
            r matches Err(e) ==> (e is RecordValidationError ==> cmd.amount <= 0),
            cmd.amount <= 0 ==> r == Err::<Record, BudgetServiceError>(
                BudgetServiceError::RecordValidationError(
                    RecordError::AmountCannotBeLessOrEqualToZero,
                ),
            ) && final(self).records() == old(self).records(),
            cmd.amount > 0 && !has_record_id(old(self).records(), cmd.id) ==> (r matches Err(e)
                && (e is EntityNotFoundError || e is DatabaseError)) && final(self).records()
                == old(self).records(),
            cmd.amount > 0 && has_record_id(old(self).records(), cmd.id)
                && !category_ref_resolves(old(self).categories(), cmd.category_id) ==> (r matches
            Err(e) && (e is EntityNotFoundError || e is DatabaseError)) && final(self).records()
                == old(self).records(),
            r matches Ok(rec) ==> cmd.amount > 0 && has_record_id(old(self).records(), cmd.id)
                && category_ref_resolves(old(self).categories(), cmd.category_id) && rec.id
                == cmd.id && rec.amount == cmd.amount && rec.description == cmd.description && (
            rec.account_id == old(self).records()[record_index(old(self).records(), cmd.id)].account_id)
                && (rec.record_type == old(self).records()[record_index(
                old(self).records(),
                cmd.id,
            )].record_type) && (rec.created_at == old(self).records()[record_index(
                old(self).records(),
                cmd.id,
            )].created_at) && (cmd.category_id matches Some(cid) ==> (rec.category matches Some(cat)
                && cat.id == cid && old(self).categories().contains(cat))) && (cmd.category_id
                is None ==> rec.category is None) && final(self).records() == old(self).records().update(record_index(old(self).records(), cmd.id), rec),
            r is Err ==> final(self).records() == old(self).records() || (exists|rec: Record|
                has_record_id(old(self).records(), cmd.id) && final(self).records() == old(self).records().update(record_index(old(self).records(), cmd.id), rec)),
    ;

    /// Deletes by id; deleting an absent id is not an error distinct from a
    /// successful delete.
    fn delete_record(&mut self, id: i64) -> (r: Result<(), BudgetServiceError>)
        requires
            record_ids_wf(old(self).records()),
        ensures
            record_ids_wf(final(self).records()),
            final(self).accounts() == old(self).accounts(),
            final(self).categories() == old(self).categories(),
            r matches Err(e) ==> e is EntityNotFoundError || e is DatabaseError,
            r is Ok ==> final(self).records() == remove_record_by_id(old(self).records(), id),
            r is Err ==> final(self).records() == old(self).records(),
    ;
}

impl<T: BudgetRepository> BudgetRecordService for BudgetServiceImpl<T> {
    fn list_records(&self, cmd: ListRecordsCmd) -> (r: Result<Vec<Record>, BudgetServiceError>) {
        self.repo.list_records(cmd)
    }

    fn create_record(&mut self, cmd: CreateRecordCmd) -> (r: Result<Record, BudgetServiceError>) {
        if RecordType::from_label(cmd.transaction_type.as_str()).is_none() {
            return Err(
                BudgetServiceError::RecordValidationError(
                    RecordError::InvalidRecordType(cmd.transaction_type),
                ),
            );
        }
        if cmd.amount <= 0 {
            return Err(
                BudgetServiceError::RecordValidationError(
                    RecordError::AmountCannotBeLessOrEqualToZero,
                ),
            );
        }
        let category: Option<Category> = match cmd.category {
            Some(category_id) => {
                match self.repo.get_category_by_id(category_id) {
                    Ok(c) => Some(c),
                    Err(e) => {
                        return Err(e);
                    },
                }
            },
            None => None,
        };
        let transaction = match Record::new(
            cmd.account_id,
            cmd.transaction_type,
            cmd.amount,
            category,
            cmd.description,
        ) {
            Ok(rec) => rec,
            Err(_) => {
                // the label and the amount were validated above, so the
                // constructor cannot fail here
                proof {
                    assert(false);
                }
                return Err(BudgetServiceError::DatabaseError(String::new()));
            },
        };
        let ghost rec0 = transaction;
        let id = match self.repo.create_record(transaction) {
            Ok(id) => id,
            Err(e) => {
                return Err(e);
            },
        };
        let fetched = match self.repo.get_record_by_id(id) {
            Ok(rec) => rec,
            Err(e) => {
                return Err(e);
            },
        };
        proof {
            let s = old(self).repo.records();
            let pushed = Record { id: id, ..rec0 };
            assert(self.repo.records() == s.push(pushed));
            let j = choose|j: int|
                0 <= j < self.repo.records().len() && self.repo.records()[j] == fetched;
            assert(self.repo.records()[j] == fetched);
            if j < s.len() {
                assert(s[j].id != id);
                assert(false);
            }
            assert(fetched == pushed);
        }
        Ok(fetched)
    }

    fn update_record(&mut self, cmd: UpdateRecordCmd) -> (r: Result<Record, BudgetServiceError>) {
        if cmd.amount <= 0 {
            return Err(
                BudgetServiceError::RecordValidationError(
                    RecordError::AmountCannotBeLessOrEqualToZero,
                ),
            );
        }
        let mut record = match self.repo.get_record_by_id(cmd.id) {
            Ok(rec) => rec,
            Err(e) => {
                return Err(e);
            },
        };
        proof {
            let s = old(self).repo.records();
            let j = choose|j: int| 0 <= j < s.len() && s[j] == record;
            assert(s[j].id == cmd.id);
            assert(has_record_id(s, cmd.id));
            let i = record_index(s, cmd.id);
            assert(s[i].id == cmd.id);
            assert(j == i);
        }
        let category: Option<Category> = match cmd.category_id {
            Some(category_id) => {
                match self.repo.get_category_by_id(category_id) {
                    Ok(c) => Some(c),
                    Err(e) => {
                        return Err(e);
                    },
                }
            },
            None => None,
        };
        record.description = cmd.description;
        match record.set_amount(cmd.amount) {
            Ok(()) => (),
            Err(_) => {
                // the amount was validated above, so the mutator cannot fail
                proof {
                    assert(false);
                }
                return Err(BudgetServiceError::DatabaseError(String::new()));
            },
        };
        record.category = category;
        record.updated_at = now_local_millis();
        let ghost updated = record;
        match self.repo.update_record(record) {
            Ok(()) => (),
            Err(e) => {
                return Err(e);
            },
        };
        let fetched = match self.repo.get_record_by_id(cmd.id) {
            Ok(rec) => rec,
            Err(e) => {
                return Err(e);
            },
        };
        proof {
            let s = old(self).repo.records();
            let i = record_index(s, cmd.id);
            let ns = self.repo.records();
            assert(ns == s.update(i, updated));
            let j = choose|j: int| 0 <= j < ns.len() && ns[j] == fetched;
            assert(ns[j] == fetched);
            assert(ns[i] == updated);
            if j != i {
                assert(ns[j] == s[j]);
                assert(s[j].id != s[i].id);
                assert(false);
            }
            assert(fetched == updated);
        }
        Ok(fetched)
    }

    fn delete_record(&mut self, id: i64) -> (r: Result<(), BudgetServiceError>) {
        self.repo.delete_record(id)
    }
}

} // verus!
