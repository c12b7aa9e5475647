//! The row shapes a relational storage adapter reads, and their validated
//! conversions into domain entities. A row that a valid store can never hold
//! (an unknown type label, a non-positive amount, a joined category without a
//! name) converts to nothing rather than to an invalid entity.

use vstd::prelude::*;
use crate::domain::models::{Account, AccountType, Category, Record, RecordType};

verus! {

/// The single-column shape a row-returning insert hands back.
#[derive(Debug)]
pub struct ReturnedId {
    pub id: i64,
}

/// An account row as stored: the type under its label.
#[derive(Debug)]
pub struct AccountDTO {
    pub account_id: i64,
    pub name: String,
    pub account_type: String,
    pub current_balance: i64,
}

impl AccountDTO {
    /// Converts a stored row into the account entity; a row carrying an
    /// unknown type label converts to nothing.
    pub fn into_account(self) -> (r: Option<Account>)
        ensures
            r is Some <==> AccountType::spec_of_label(self.account_type@) is Some,
            r matches Some(a) ==> Some(a.account_type) == AccountType::spec_of_label(
                self.account_type@,
            ) && a == (Account {
                id: self.account_id,
                name: self.name,
                account_type: a.account_type,
                balance: self.current_balance,
            }),
    {
        match AccountType::from_label(self.account_type.as_str()) {
            Some(t) => Some(
                Account {
                    id: self.account_id,
                    name: self.name,
                    account_type: t,
                    balance: self.current_balance,
                },
            ),
            None => None,
        }
    }
}

/// A category row as stored.
#[derive(Debug)]
pub struct CategoryDTO {
    pub category_id: i64,
    pub budget: Option<i64>,
    pub name: String,
    pub parent_id: Option<i64>,
}

impl CategoryDTO {
    /// Converts a stored row into the category entity.
    pub fn into_category(self) -> (r: Category)
        ensures
            r == (Category {
                id: self.category_id,
                name: self.name,
                budget: self.budget,
                parent_id: self.parent_id,
            }),
    {
        Category {
            id: self.category_id,
            name: self.name,
            budget: self.budget,
            parent_id: self.parent_id,
        }
    }
}

/// The category columns of an outer join: every column may be absent when the
/// record carries no category.
#[derive(Debug)]
pub struct OptionalCategoryDTO {
    pub category_id: Option<i64>,
    pub budget: Option<i64>,
    pub name: Option<String>,
    pub parent_id: Option<i64>,
}

impl OptionalCategoryDTO {
    /// A joined row is coherent when a present category identity comes with a
    /// present name.
    pub open spec fn spec_wf(self) -> bool {
        self.category_id is Some ==> self.name is Some
    }

    /// The category snapshot a coherent joined row denotes: none when the
    /// join matched nothing.
    pub open spec fn spec_category(self) -> Option<Category> {
        match self.category_id {
            Some(cid) => match self.name {
                Some(n) => Some(
                    Category { id: cid, name: n, budget: self.budget, parent_id: self.parent_id },
                ),
                None => None,
            },
            None => None,
        }
    }

    /// Converts the joined columns into the optional category snapshot.
    pub fn into_category(self) -> (r: Option<Category>)
        requires
            self.spec_wf(),
        ensures
            r == self.spec_category(),
    {
        let category_id = match self.category_id {
            Some(cid) => cid,
            None => {
                return None;
            },
        };
        let name = match self.name {
            Some(n) => n,
            None => {
                // a coherent joined row with a present identity has a name
                proof {
                    assert(false);
                }
                return None;
            },
        };
        Some(Category { id: category_id, name, budget: self.budget, parent_id: self.parent_id })
    }
}

/// The record columns of a listing or fetch row: the type under its label,
/// timestamps as local wall-clock milliseconds.
#[derive(Debug)]
pub struct RecordDTO {
    pub record_id: i64,
    pub account_id: i64,
    pub amount: i64,
    pub description: Option<String>,
    pub record_type: String,
    pub created_at: i64,
    pub updated_at: i64,
}

/// A full row of the record listing: the record columns and the outer-joined
/// category columns.
#[derive(Debug)]
pub struct FullRecordDTO {
    pub record: RecordDTO,
    pub category: OptionalCategoryDTO,
}

impl FullRecordDTO {
    /// Converts a full row into the record entity; a row carrying an unknown
    /// type label, a non-positive amount or an incoherent joined category
    /// converts to nothing.
    pub fn into_record(self) -> (r: Option<Record>)
        ensures
            r is Some <==> (RecordType::spec_of_label(self.record.record_type@) is Some
                && self.record.amount > 0 && self.category.spec_wf()),
            r matches Some(rec) ==> Some(rec.record_type) == RecordType::spec_of_label(
                self.record.record_type@,
            ) && rec.valid() && rec == (Record {
                id: self.record.record_id,
                account_id: self.record.account_id,
                record_type: rec.record_type,
                amount: self.record.amount,
                description: self.record.description,
                category: self.category.spec_category(),
                created_at: self.record.created_at,
                updated_at: self.record.updated_at,
            }),
    {
        let record_type = match RecordType::from_label(self.record.record_type.as_str()) {
            Some(t) => t,
            None => {
                return None;
            },
        };
        if self.record.amount <= 0 {
            return None;
        }
        let category_wf = match (&self.category.category_id, &self.category.name) {
            (Some(_), None) => false,
            _ => true,
        };
        if !category_wf {
            return None;
        }
        let category = self.category.into_category();
        Some(
            Record {
                id: self.record.record_id,
                account_id: self.record.account_id,
                record_type,
                amount: self.record.amount,
                description: self.record.description,
                category,
                created_at: self.record.created_at,
                updated_at: self.record.updated_at,
            },
        )
    }
}

} // verus!
