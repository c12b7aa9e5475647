//! Entity types and their constructors. No invalid entity value can be
//! constructed, independent of how the input arrived.

use vstd::prelude::*;
use crate::domain::text::str_eq;

verus! {

/// Closed enumeration of account kinds.
#[derive(Clone, Copy, Debug, PartialEq, Eq, Structural)]
pub enum AccountType {
    Cash,
    DebitCard,
    CreditCard,
}

impl AccountType {
    /// The label under which this kind is stored and transported.
    pub open spec fn spec_label(self) -> Seq<char> {
        match self {
            AccountType::Cash => "Cash"@,
            AccountType::DebitCard => "DebitCard"@,
            AccountType::CreditCard => "CreditCard"@,
        }
    }

    /// Which account kind, if any, a label denotes.
    pub open spec fn spec_of_label(s: Seq<char>) -> Option<AccountType> {
        if s == "Cash"@ {
            Some(AccountType::Cash)
        } else if s == "DebitCard"@ {
            Some(AccountType::DebitCard)
        } else if s == "CreditCard"@ {
            Some(AccountType::CreditCard)
        } else {
            None
        }
    }

    /// Parses an account-type label; unknown labels are rejected.
    pub fn from_label(s: &str) -> (r: Option<AccountType>)
        ensures
            r == AccountType::spec_of_label(s@),
    {
        if str_eq(s, "Cash") {
            Some(AccountType::Cash)
        } else if str_eq(s, "DebitCard") {
            Some(AccountType::DebitCard)
        } else if str_eq(s, "CreditCard") {
            Some(AccountType::CreditCard)
        } else {
            None
        }
    }

    /// The stored label of this kind.
    pub fn label(&self) -> (r: String)
        ensures
            r@ == self.spec_label(),
    {
        match self {
            AccountType::Cash => "Cash".to_owned(),
            AccountType::DebitCard => "DebitCard".to_owned(),
            AccountType::CreditCard => "CreditCard".to_owned(),
        }
    }
}

/// Validation failure raised by the account constructor.
#[derive(Clone, Copy, Debug, PartialEq, Eq, Structural)]
pub enum AccountError {
    UnknownAcountType,
}

impl AccountError {
    /// The human-readable description of this failure.
    pub open spec fn spec_message(self) -> Seq<char> {
        "unknown account type"@
    }

    /// Renders the human-readable description of this failure.
    pub fn message(&self) -> (r: String)
        ensures
            r@ == self.spec_message(),
    {
        "unknown account type".to_owned()
    }
}

/// A money account. The identity is assigned by storage on creation; a
/// freshly constructed account carries `id = 0`.
#[derive(Debug)]
pub struct Account {
    pub id: i64,
    pub name: String,
    pub account_type: AccountType,
    pub balance: i64,
}

impl Clone for Account {
    fn clone(&self) -> (r: Account)
        ensures
            r == *self,
    {
        Account {
            id: self.id,
            name: self.name.clone(),
            account_type: self.account_type,
            balance: self.balance,
        }
    }
}

impl Account {
    /// Validates raw input into an account value with unassigned identity.
    /// Fails exactly when the account-type label is not one of the closed
    /// enumeration; a rejected input never yields a value.
    pub fn new(name: String, balance: i64, account_type: String) -> (r: Result<Account, AccountError>)
        ensures
            r matches Ok(a) ==> AccountType::spec_of_label(account_type@) == Some(a.account_type)
                && a == (Account { id: 0, name: name, account_type: a.account_type, balance: balance }),
            r is Err <==> AccountType::spec_of_label(account_type@) is None,
            r matches Err(e) ==> e == AccountError::UnknownAcountType,
    {
        match AccountType::from_label(account_type.as_str()) {
            Some(t) => Ok(Account { id: 0, name, account_type: t, balance }),
            None => Err(AccountError::UnknownAcountType),
        }
    }
}

impl vstd::std_specs::cmp::PartialEqSpecImpl for Account {
    open spec fn obeys_eq_spec() -> bool {
        true
    }

    open spec fn eq_spec(&self, o: &Account) -> bool {
        self.id == o.id && self.name@ == o.name@ && self.account_type == o.account_type
            && self.balance == o.balance
    }
}

impl PartialEq for Account {
    fn eq(&self, o: &Account) -> (r: bool) {
        self.id == o.id && self.name == o.name && self.account_type == o.account_type
            && self.balance == o.balance
    }
}

/// Longest category name the constructor accepts, in Unicode code points.
pub const MAX_CATEGORY_NAME_LENGTH: usize = 100;

/// Validation failure raised by the category constructor.
#[derive(Clone, Copy, Debug, PartialEq, Eq, Structural)]
pub enum CategoryError {
    InvalidCategoryName,
}

impl CategoryError {
    /// The human-readable description of this failure.
    pub open spec fn spec_message(self) -> Seq<char> {
        "category name must not be empty or longer than 100 characters"@
    }

    /// Renders the human-readable description of this failure.
    pub fn message(&self) -> (r: String)
        ensures
            r@ == self.spec_message(),
    {
        "category name must not be empty or longer than 100 characters".to_owned()
    }
}

/// A spending category. `parent_id` optionally points at another category,
/// forming a hierarchy; no cycle detection is performed.
#[derive(Debug)]
pub struct Category {
    pub id: i64,
    pub name: String,
    pub budget: Option<i64>,
    pub parent_id: Option<i64>,
}

impl Clone for Category {
    fn clone(&self) -> (r: Category)
        ensures
            r == *self,
    {
        Category {
            id: self.id,
            name: self.name.clone(),
            budget: self.budget,
            parent_id: self.parent_id,
        }
    }
}

impl vstd::std_specs::cmp::PartialEqSpecImpl for Category {
    open spec fn obeys_eq_spec() -> bool {
        true
    }

    open spec fn eq_spec(&self, o: &Category) -> bool {
        self.id == o.id && self.name@ == o.name@ && self.budget == o.budget && self.parent_id
            == o.parent_id
    }
}

impl PartialEq for Category {
    fn eq(&self, o: &Category) -> (r: bool) {
        let budget_eq = match (self.budget, o.budget) {
            (Some(a), Some(b)) => a == b,
            (None, None) => true,
            _ => false,
        };
        let parent_eq = match (self.parent_id, o.parent_id) {
            (Some(a), Some(b)) => a == b,
            (None, None) => true,
            _ => false,
        };
        self.id == o.id && self.name == o.name && budget_eq && parent_eq
    }
}

impl Category {
    /// Whether a name is acceptable: 1 to 100 Unicode code points, inclusive.
    pub open spec fn spec_name_ok(name: Seq<char>) -> bool {
        1 <= name.len() <= MAX_CATEGORY_NAME_LENGTH
    }

    /// Validates raw input into a category value with unassigned identity.
    /// Fails exactly when the name is empty or longer than 100 code points.
    pub fn new(name: String, budget: Option<i64>, parent_id: Option<i64>) -> (r: Result<
        Category,
        CategoryError,
    >)
        ensures
            r is Ok <==> Category::spec_name_ok(name@),
            r matches Ok(c) ==> c == (Category { id: 0, name: name, budget: budget, parent_id: parent_id }),
            r matches Err(e) ==> e == CategoryError::InvalidCategoryName,
    {
        let len = name.as_str().unicode_len();
        if len == 0 || len > MAX_CATEGORY_NAME_LENGTH {
            return Err(CategoryError::InvalidCategoryName);
        }
        Ok(Category { id: 0, name, budget, parent_id })
    }
}

/// Closed enumeration of record kinds; the direction of a money flow is
/// carried here, never by the sign of the amount.
#[derive(Clone, Copy, Debug, PartialEq, Eq, Structural)]
pub enum RecordType {
    Income,
    Outcome,
    Transfer,
}

impl RecordType {
    /// The label under which this kind is stored and transported.
    pub open spec fn spec_label(self) -> Seq<char> {
        match self {
            RecordType::Income => "Income"@,
            RecordType::Outcome => "Outcome"@,
            RecordType::Transfer => "Transfer"@,
        }
    }

    /// Which record kind, if any, a label denotes.
    pub open spec fn spec_of_label(s: Seq<char>) -> Option<RecordType> {
        if s == "Income"@ {
            Some(RecordType::Income)
        } else if s == "Outcome"@ {
            Some(RecordType::Outcome)
        } else if s == "Transfer"@ {
            Some(RecordType::Transfer)
        } else {
            None
        }
    }

    /// Parses a record-type label; unknown labels are rejected.
    pub fn from_label(s: &str) -> (r: Option<RecordType>)
        ensures
            r == RecordType::spec_of_label(s@),
    {
        if str_eq(s, "Income") {
            Some(RecordType::Income)
        } else if str_eq(s, "Outcome") {
            Some(RecordType::Outcome)
        } else if str_eq(s, "Transfer") {
            Some(RecordType::Transfer)
        } else {
            None
        }
    }

    /// The stored label of this kind.
    pub fn label(&self) -> (r: String)
        ensures
            r@ == self.spec_label(),
    {
        match self {
            RecordType::Income => "Income".to_owned(),
            RecordType::Outcome => "Outcome".to_owned(),
            RecordType::Transfer => "Transfer".to_owned(),
        }
    }

    /// The numeric code of this kind in the record-type lookup table.
    pub fn code(&self) -> (r: i64)
        ensures
            r == self.spec_code(),
    {
        match self {
            RecordType::Income => 1,
            RecordType::Outcome => 2,
            RecordType::Transfer => 3,
        }
    }

    /// The numeric code of each kind in the record-type lookup table.
    pub open spec fn spec_code(self) -> i64 {
        match self {
            RecordType::Income => 1,
            RecordType::Outcome => 2,
            RecordType::Transfer => 3,
        }
    }
}

/// Validation failure raised by the record constructor and amount mutator.
/// A rejected record-type label is carried along.
#[derive(Debug)]
pub enum RecordError {
    AmountCannotBeLessOrEqualToZero,
    InvalidRecordType(String),
}

impl RecordError {
    /// The human-readable description of this failure; a rejected label is
    /// quoted inside it.
    pub open spec fn spec_message(self) -> Seq<char> {
        match self {
            RecordError::AmountCannotBeLessOrEqualToZero => {
                "amount cannot be equal or less than zero"@
            },
            RecordError::InvalidRecordType(s) => "invalid record type \""@ + s@ + "\""@,
        }
    }

    /// Renders the human-readable description of this failure.
    pub fn message(&self) -> (r: String)
        ensures
            r@ == self.spec_message(),
    {
        match self {
            RecordError::AmountCannotBeLessOrEqualToZero => {
                "amount cannot be equal or less than zero".to_owned()
            },
            RecordError::InvalidRecordType(s) => {
                let mut m = "invalid record type \"".to_owned();
                m.append(s.as_str());
                m.append("\"");
                m
            },
        }
    }
}

/// Relies on chrono::Local::now for the current local wall-clock time,
/// reported in milliseconds since the Unix epoch; nothing is assumed of the
/// value, which depends on the clock. On a machine whose clock reads before
/// the Unix epoch, or whose local-offset lookup fails, the call itself
/// panics inside chrono.
#[verifier::external_body]
pub(crate) fn now_local_millis() -> i64 {
    chrono::Local::now().timestamp_millis()
}

/// A financial record on an account. The amount is strictly positive; the
/// optional category is a fully hydrated snapshot, resolved at creation or
/// update time. Timestamps are local wall-clock milliseconds.
#[derive(Debug)]
pub struct Record {
    pub id: i64,
    pub account_id: i64,
    pub record_type: RecordType,
    pub amount: i64,
    pub description: Option<String>,
    pub category: Option<Category>,
    pub created_at: i64,
    pub updated_at: i64,
}

impl Clone for Record {
    fn clone(&self) -> (r: Record)
        ensures
            r == *self,
    {
        Record {
            id: self.id,
            account_id: self.account_id,
            record_type: self.record_type,
            amount: self.amount,
            description: match &self.description {
                Some(d) => Some(d.clone()),
                None => None,
            },
            category: match &self.category {
                Some(c) => Some(c.clone()),
                None => None,
            },
            created_at: self.created_at,
            updated_at: self.updated_at,
        }
    }
}

/// Category snapshots agree field by field.
pub open spec fn category_fields_eq(a: Category, b: Category) -> bool {
    a.id == b.id && a.name@ == b.name@ && a.budget == b.budget && a.parent_id == b.parent_id
}

impl vstd::std_specs::cmp::PartialEqSpecImpl for Record {
    open spec fn obeys_eq_spec() -> bool {
        true
    }

    open spec fn eq_spec(&self, o: &Record) -> bool {
        &&& self.id == o.id
        &&& self.account_id == o.account_id
        &&& self.record_type == o.record_type
        &&& self.amount == o.amount
        &&& match (self.description, o.description) {
            (Some(a), Some(b)) => a@ == b@,
            (None, None) => true,
            _ => false,
        }
        &&& match (self.category, o.category) {
            (Some(a), Some(b)) => category_fields_eq(a, b),
            (None, None) => true,
            _ => false,
        }
        &&& self.created_at == o.created_at
        &&& self.updated_at == o.updated_at
    }
}

impl PartialEq for Record {
    fn eq(&self, o: &Record) -> (r: bool) {
        let description_eq = match (&self.description, &o.description) {
            (Some(a), Some(b)) => *a == *b,
            (None, None) => true,
            _ => false,
        };
        let category_eq = match (&self.category, &o.category) {
            (Some(a), Some(b)) => *a == *b,
            (None, None) => true,
            _ => false,
        };
        self.id == o.id && self.account_id == o.account_id && self.record_type == o.record_type
            && self.amount == o.amount && description_eq && category_eq && self.created_at
            == o.created_at && self.updated_at == o.updated_at
    }
}

impl Record {
    /// The invariant every constructed record satisfies.
    pub open spec fn valid(self) -> bool {
        self.amount > 0
    }

    /// Validates raw input into a record value with unassigned identity;
    /// stamps both timestamps with one reading of the clock. Fails exactly
    /// when the record-type label is unrecognized or the amount is zero or
    /// negative, and checks the label first.
    pub fn new(
        account_id: i64,
        record_type: String,
        amount: i64,
        category: Option<Category>,
        description: Option<String>,
    ) -> (r: Result<Record, RecordError>)
        ensures
            r is Ok <==> (RecordType::spec_of_label(record_type@) is Some && amount > 0),
            RecordType::spec_of_label(record_type@) is None ==> r == Err::<Record, RecordError>(
                RecordError::InvalidRecordType(record_type),
            ),
            RecordType::spec_of_label(record_type@) is Some && amount <= 0 ==> r == Err::<
                Record,
                RecordError,
            >(RecordError::AmountCannotBeLessOrEqualToZero),
            r matches Ok(rec) ==> rec.valid() && Some(rec.record_type)
                == RecordType::spec_of_label(record_type@) && rec == (Record {
                id: 0,
                account_id: account_id,
                record_type: rec.record_type,
                amount: amount,
                description: description,
                category: category,
                created_at: rec.created_at,
                updated_at: rec.created_at,
            }),
    {
        let transaction_type = match RecordType::from_label(record_type.as_str()) {
            Some(t) => t,
            None => {
                return Err(RecordError::InvalidRecordType(record_type));
            },
        };
        if amount <= 0 {
            return Err(RecordError::AmountCannotBeLessOrEqualToZero);
        }
        let now = now_local_millis();
        Ok(
            Record {
                id: 0,
                account_id,
                record_type: transaction_type,
                amount,
                description,
                category,
                created_at: now,
                updated_at: now,
            },
        )
    }

    /// Replaces the amount under the same positivity check; a rejected value
    /// leaves the record entirely unchanged.
    pub fn set_amount(&mut self, new_amount: i64) -> (r: Result<(), RecordError>)
        ensures
            r is Ok <==> new_amount > 0,
            new_amount <= 0 ==> *final(self) == *old(self) && r == Err::<(), RecordError>(
                RecordError::AmountCannotBeLessOrEqualToZero,
            ),
            new_amount > 0 ==> *final(self) == (Record { amount: new_amount, ..*old(self) }),
    {
        if new_amount <= 0 {
            return Err(RecordError::AmountCannotBeLessOrEqualToZero);
        }
        self.amount = new_amount;
        Ok(())
    }
}

} // verus!
