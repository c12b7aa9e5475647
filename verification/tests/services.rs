//! Use-case behavior of the service layer over the in-memory adapter.

use budget_api::domain::errors::BudgetServiceError;
use budget_api::domain::models::{AccountType, Category, Record, RecordError, RecordType};
use budget_api::repository::memory::MemoryBudgetRepo;
use budget_api::service::accounts::{BudgetAccountsService, CreateAccountCmd, UpdateAccountCmd};
use budget_api::service::budget::{
    BudgetServiceImpl, CategoryRepository, RecordRepository,
};
use budget_api::service::categories::{
    BudgetCategoriesService, CreateCategoryCmd, UpdateCategoryCmd,
};
use budget_api::service::records::{
    BudgetRecordService, CreateRecordCmd, ListRecordsCmd, UpdateRecordCmd,
};

fn service() -> BudgetServiceImpl<MemoryBudgetRepo> {
    BudgetServiceImpl::new(MemoryBudgetRepo::new())
}

/// Scenario: create a Cash account, then an outcome record on it.
#[test]
fn scenario_account_then_record() {
    let mut svc = service();

    let account = svc
        .create_account(CreateAccountCmd {
            name: "Checking".into(),
            account_type: "Cash".into(),
            initial_balance: 0,
        })
        .unwrap();
    assert!(account.id > 0);
    assert_eq!(account.name, "Checking");
    assert_eq!(account.balance, 0);
    assert_eq!(account.account_type, AccountType::Cash);

    let record = svc
        .create_record(CreateRecordCmd {
            account_id: account.id,
            transaction_type: "Outcome".into(),
            amount: 1500,
            category: None,
            description: Some("Coffee".into()),
        })
        .unwrap();
    assert_eq!(record.amount, 1500);
    assert_eq!(record.record_type, RecordType::Outcome);
    assert_eq!(record.category, None);
    assert_eq!(record.account_id, account.id);
    assert!(record.created_at > 0);
    assert_eq!(record.created_at, record.updated_at);
}

/// Round trip: the category fetched under the returned id equals the created
/// one in every field, and the id is now assigned.
#[test]
fn category_round_trip() {
    let mut svc = service();
    let created = svc
        .create_category(CreateCategoryCmd {
            name: "Groceries".into(),
            budget: Some(500),
            parent_id: None,
        })
        .unwrap();
    assert!(created.id != 0);
    assert_eq!(created.name, "Groceries");
    assert_eq!(created.budget, Some(500));
    assert_eq!(created.parent_id, None);

    let fetched = svc.repo.get_category_by_id(created.id).unwrap();
    assert_eq!(fetched, created);
}

#[test]
fn create_account_rejects_unknown_type_and_writes_nothing() {
    let mut svc = service();
    let r = svc.create_account(CreateAccountCmd {
        name: "Checking".into(),
        account_type: "Wallet".into(),
        initial_balance: 10,
    });
    assert!(matches!(r, Err(BudgetServiceError::AccountValidationError(_))));
    assert!(svc.list_accounts().unwrap().is_empty());
}

#[test]
fn create_category_rejects_bad_name_and_writes_nothing() {
    let mut svc = service();
    let r = svc.create_category(CreateCategoryCmd {
        name: "".into(),
        budget: None,
        parent_id: None,
    });
    assert!(matches!(r, Err(BudgetServiceError::CategoryValidationError(_))));
    assert!(svc.list_categories().unwrap().is_empty());
}

#[test]
fn update_account_renames_and_keeps_the_rest() {
    let mut svc = service();
    let created = svc
        .create_account(CreateAccountCmd {
            name: "Old".into(),
            account_type: "DebitCard".into(),
            initial_balance: 77,
        })
        .unwrap();
    let updated = svc
        .update_account(UpdateAccountCmd { id: created.id, name: "New".into() })
        .unwrap();
    assert_eq!(updated.id, created.id);
    assert_eq!(updated.name, "New");
    assert_eq!(updated.balance, 77);
    assert_eq!(updated.account_type, AccountType::DebitCard);
}

#[test]
fn update_account_of_absent_id_fails() {
    let mut svc = service();
    let r = svc.update_account(UpdateAccountCmd { id: 5, name: "New".into() });
    assert!(matches!(r, Err(BudgetServiceError::EntityNotFoundError(_))));
}

#[test]
fn update_category_overwrites_name_and_budget_only() {
    let mut svc = service();
    let parent = svc
        .create_category(CreateCategoryCmd { name: "Top".into(), budget: None, parent_id: None })
        .unwrap();
    let created = svc
        .create_category(CreateCategoryCmd {
            name: "Food".into(),
            budget: Some(100),
            parent_id: Some(parent.id),
        })
        .unwrap();
    let updated = svc
        .update_category(UpdateCategoryCmd {
            id: created.id,
            name: "Meals".into(),
            budget: Some(250),
        })
        .unwrap();
    assert_eq!(updated.id, created.id);
    assert_eq!(updated.name, "Meals");
    assert_eq!(updated.budget, Some(250));
    assert_eq!(updated.parent_id, Some(parent.id));
}

/// A record created with a category id carries the hydrated snapshot.
#[test]
fn create_record_hydrates_the_referenced_category() {
    let mut svc = service();
    let cat = svc
        .create_category(CreateCategoryCmd {
            name: "Transport".into(),
            budget: Some(90),
            parent_id: None,
        })
        .unwrap();
    let rec = svc
        .create_record(CreateRecordCmd {
            account_id: 1,
            transaction_type: "Outcome".into(),
            amount: 300,
            category: Some(cat.id),
            description: None,
        })
        .unwrap();
    assert_eq!(rec.category, Some(cat));
}

/// A category id that does not resolve aborts the creation before any write.
#[test]
fn create_record_with_missing_category_fails_without_writing() {
    let mut svc = service();
    let r = svc.create_record(CreateRecordCmd {
        account_id: 1,
        transaction_type: "Outcome".into(),
        amount: 300,
        category: Some(99),
        description: None,
    });
    assert!(matches!(r, Err(BudgetServiceError::EntityNotFoundError(_))));
    let all = svc
        .list_records(ListRecordsCmd { limit: None, offset: None, category_id: None })
        .unwrap();
    assert!(all.is_empty());
}

#[test]
fn create_record_rejects_bad_type_then_bad_amount() {
    let mut svc = service();
    let r = svc.create_record(CreateRecordCmd {
        account_id: 1,
        transaction_type: "outcome".into(),
        amount: -10,
        category: None,
        description: None,
    });
    assert!(matches!(
        r,
        Err(BudgetServiceError::RecordValidationError(RecordError::InvalidRecordType(_)))
    ));
    let r = svc.create_record(CreateRecordCmd {
        account_id: 1,
        transaction_type: "Outcome".into(),
        amount: 0,
        category: None,
        description: None,
    });
    assert!(matches!(
        r,
        Err(BudgetServiceError::RecordValidationError(
            RecordError::AmountCannotBeLessOrEqualToZero
        ))
    ));
}

/// Updating a record's amount to a negative value fails and leaves the stored
/// amount untouched, verified by re-fetching after the failed attempt.
#[test]
fn update_record_negative_amount_leaves_stored_record_untouched() {
    let mut svc = service();
    let created = svc
        .create_record(CreateRecordCmd {
            account_id: 1,
            transaction_type: "Outcome".into(),
            amount: 1000,
            category: None,
            description: Some("lunch".into()),
        })
        .unwrap();

    let r = svc.update_record(UpdateRecordCmd {
        id: created.id,
        amount: -100,
        description: Some("changed".into()),
        category_id: None,
    });
    assert!(matches!(
        r,
        Err(BudgetServiceError::RecordValidationError(
            RecordError::AmountCannotBeLessOrEqualToZero
        ))
    ));

    let stored = svc.repo.get_record_by_id(created.id).unwrap();
    assert_eq!(stored.amount, 1000);
    assert_eq!(stored, created);
}

#[test]
fn update_record_overwrites_amount_description_category_and_restamps() {
    let mut svc = service();
    let cat = svc
        .create_category(CreateCategoryCmd { name: "Bills".into(), budget: None, parent_id: None })
        .unwrap();
    let created = svc
        .create_record(CreateRecordCmd {
            account_id: 3,
            transaction_type: "Transfer".into(),
            amount: 500,
            category: None,
            description: None,
        })
        .unwrap();
    let updated = svc
        .update_record(UpdateRecordCmd {
            id: created.id,
            amount: 750,
            description: Some("rent".into()),
            category_id: Some(cat.id),
        })
        .unwrap();
    assert_eq!(updated.id, created.id);
    assert_eq!(updated.amount, 750);
    assert_eq!(updated.description, Some("rent".to_string()));
    assert_eq!(updated.category, Some(cat));
    assert_eq!(updated.account_id, 3);
    assert_eq!(updated.record_type, RecordType::Transfer);
    assert_eq!(updated.created_at, created.created_at);
    assert!(updated.updated_at >= created.updated_at);
}

#[test]
fn update_record_of_absent_id_fails() {
    let mut svc = service();
    let r = svc.update_record(UpdateRecordCmd {
        id: 12,
        amount: 10,
        description: None,
        category_id: None,
    });
    assert!(matches!(r, Err(BudgetServiceError::EntityNotFoundError(_))));
}

/// Deleting a non-existent id is not an error distinct from a successful
/// delete, consistently across all three entity kinds.
#[test]
fn deletes_are_idempotent_across_all_kinds() {
    let mut svc = service();
    assert!(svc.delete_account(9).is_ok());
    assert!(svc.delete_category(9).is_ok());
    assert!(svc.delete_record(9).is_ok());

    let acc = svc
        .create_account(CreateAccountCmd {
            name: "Checking".into(),
            account_type: "Cash".into(),
            initial_balance: 0,
        })
        .unwrap();
    assert!(svc.delete_account(acc.id).is_ok());
    assert!(svc.delete_account(acc.id).is_ok());
    assert!(svc.list_accounts().unwrap().is_empty());
}

/// Listing with a category constraint returns only records whose resolved
/// category carries exactly that id.
#[test]
fn list_records_returns_only_the_constrained_category() {
    let mut svc = service();
    let five = Category { id: 5, name: "five".into(), budget: None, parent_id: None };
    let other = Category { id: 6, name: "six".into(), budget: None, parent_id: None };
    let a = Record::new(1, "Outcome".into(), 100, Some(five.clone()), None).unwrap();
    let b = Record::new(1, "Outcome".into(), 200, Some(other), None).unwrap();
    let c = Record::new(1, "Income".into(), 300, None, None).unwrap();
    svc.repo.create_record(a).unwrap();
    svc.repo.create_record(b).unwrap();
    svc.repo.create_record(c).unwrap();

    let five_only = svc
        .list_records(ListRecordsCmd { limit: None, offset: None, category_id: Some(5) })
        .unwrap();
    assert_eq!(five_only.len(), 1);
    assert!(five_only.iter().all(|r| r.category.as_ref().map(|k| k.id) == Some(5)));
}
