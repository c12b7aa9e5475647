//! Storage behavior of the in-memory adapter, exercised through the
//! repository abstraction the way the original round trips did.

use budget_api::domain::models::{Account, Category, Record};
use budget_api::repository::memory::MemoryBudgetRepo;
use budget_api::service::budget::{AccountRepository, CategoryRepository, RecordRepository};
use budget_api::service::records::ListRecordsCmd;

/// A store seeded like the fixture: one account, one category, one record.
fn seeded_repo() -> MemoryBudgetRepo {
    let mut repo = MemoryBudgetRepo::new();
    let account = Account::new("test account".into(), 0, "Cash".into()).unwrap();
    repo.create_account(account).unwrap();
    let category = Category::new("test category".into(), None, None).unwrap();
    repo.create_category(category).unwrap();
    let record = Record::new(1, "Outcome".into(), 1000, None, Some("test record".into())).unwrap();
    repo.create_record(record).unwrap();
    repo
}

#[test]
fn test_list_accounts() {
    let repo = seeded_repo();

    let mut account = Account::new("test account".into(), 0, "Cash".into()).unwrap();
    account.id = 1;
    let list = vec![account];
    let result = repo.list_accounts();
    assert!(result.is_ok(), "{:?}", result.err().unwrap());
    assert_eq!(result.unwrap(), list)
}

#[test]
fn accounts_test_create_category() {
    let mut repo = seeded_repo();

    let account = Account::new("test account".into(), 0, "Cash".into()).unwrap();
    let result = repo.create_account(account);
    assert!(result.is_ok(), "{:?}", result.err().unwrap());
    assert!(result.unwrap() > 0);
}

#[test]
fn accounts_test_get_category_by_id() {
    let repo = seeded_repo();

    let mut account = Account::new("test account".into(), 0, "Cash".into()).unwrap();
    account.id = 1;
    let found_account = repo.get_account_by_id(1).expect("must find category");

    assert_eq!(account, found_account);
}

#[test]
fn accounts_test_update_category() {
    let mut repo = seeded_repo();

    let mut account = Account::new("test account".into(), 0, "Cash".into()).unwrap();
    account.id = 1;
    let result = repo.update_account(account.clone());
    assert!(result.is_ok(), "{:?}", result.err().unwrap());

    let updated_account = repo.get_account_by_id(1).expect("must find category");

    assert_eq!(account, updated_account);
}

#[test]
fn accounts_test_delete_category() {
    let mut repo = seeded_repo();

    let result = repo.delete_account(1);
    assert!(result.is_ok(), "{:?}", result.err().unwrap());

    let result = repo.get_account_by_id(1);
    assert!(result.is_err(), "{:?}", result.ok().unwrap());
}

#[test]
fn test_list_categories() {
    let repo = seeded_repo();

    let mut category = Category::new("test category".into(), None, None).unwrap();
    category.id = 1;
    let list = vec![category];
    let result = repo.list_categories();
    assert!(result.is_ok(), "{:?}", result.err().unwrap());
    assert_eq!(result.unwrap(), list)
}

#[test]
fn categories_test_create_category() {
    let mut repo = seeded_repo();

    let category = Category::new("test".into(), Some(1000), None).unwrap();
    let result = repo.create_category(category);
    assert!(result.is_ok(), "{:?}", result.err().unwrap());
    assert!(result.unwrap() > 0);
}

#[test]
fn categories_test_get_category_by_id() {
    let repo = seeded_repo();

    let mut category = Category::new("test category".into(), None, None).unwrap();
    category.id = 1;
    let found_category = repo.get_category_by_id(1).expect("must find category");

    assert_eq!(category, found_category);
}

#[test]
fn categories_test_update_category() {
    let mut repo = seeded_repo();

    let mut category = Category::new("test category".into(), Some(1000), None).unwrap();
    category.id = 1;
    let result = repo.update_category(category.clone());
    assert!(result.is_ok(), "{:?}", result.err().unwrap());

    let updated_category = repo.get_category_by_id(1).expect("must find category");

    assert_eq!(category, updated_category);
}

#[test]
fn categories_test_delete_category() {
    let mut repo = seeded_repo();

    let result = repo.delete_category(1);
    assert!(result.is_ok(), "{:?}", result.err().unwrap());

    let result = repo.get_category_by_id(1);
    assert!(result.is_err(), "{:?}", result.ok().unwrap());
}

#[test]
fn test_list_records() {
    let mut repo = MemoryBudgetRepo::new();
    let account = Account::new("test account".into(), 0, "Cash".into()).unwrap();
    repo.create_account(account).unwrap();

    let mut record =
        Record::new(1, "Outcome".into(), 1000, None, Some("test record".into())).expect("error");
    let assigned = repo.create_record(record.clone()).expect("error");
    record.id = assigned;

    let list = vec![record];
    let result = repo.list_records(ListRecordsCmd { limit: None, offset: None, category_id: None });
    assert!(result.is_ok(), "{:?}", result.err().unwrap());
    assert_eq!(result.unwrap(), list)
}

/// Identities behave like a rowid table: one more than the largest in use,
/// never a reused one.
#[test]
fn create_assigns_fresh_increasing_ids() {
    let mut repo = MemoryBudgetRepo::new();
    let a = Account::new("one".into(), 0, "Cash".into()).unwrap();
    let b = Account::new("two".into(), 0, "DebitCard".into()).unwrap();
    let c = Account::new("three".into(), 0, "CreditCard".into()).unwrap();
    assert_eq!(repo.create_account(a).unwrap(), 1);
    assert_eq!(repo.create_account(b).unwrap(), 2);
    repo.delete_account(1).unwrap();
    assert_eq!(repo.create_account(c).unwrap(), 3);
}

/// Updating an id that matches no row succeeds silently and stores nothing.
#[test]
fn update_of_absent_id_is_silent_and_writes_nothing() {
    let mut repo = seeded_repo();
    let mut ghost_account = Account::new("nobody".into(), 9, "Cash".into()).unwrap();
    ghost_account.id = 42;
    assert!(repo.update_account(ghost_account).is_ok());
    assert_eq!(repo.list_accounts().unwrap().len(), 1);
    assert!(repo.get_account_by_id(42).is_err());
}

#[test]
fn list_records_filters_by_category_id() {
    let mut repo = MemoryBudgetRepo::new();
    let five = Category { id: 5, name: "five".into(), budget: None, parent_id: None };
    let seven = Category { id: 7, name: "seven".into(), budget: None, parent_id: None };
    let with_five = Record::new(1, "Outcome".into(), 100, Some(five.clone()), None).unwrap();
    let with_seven = Record::new(1, "Outcome".into(), 200, Some(seven), None).unwrap();
    let without = Record::new(1, "Income".into(), 300, None, None).unwrap();
    repo.create_record(with_five.clone()).unwrap();
    repo.create_record(with_seven).unwrap();
    repo.create_record(without).unwrap();

    let result = repo
        .list_records(ListRecordsCmd { limit: None, offset: None, category_id: Some(5) })
        .unwrap();
    assert_eq!(result.len(), 1);
    assert_eq!(result[0].amount, 100);
    assert_eq!(result[0].category.as_ref().map(|c| c.id), Some(5));
}

#[test]
fn list_records_applies_limit_and_offset_in_stored_order() {
    let mut repo = MemoryBudgetRepo::new();
    for amount in [10, 20, 30, 40] {
        let rec = Record::new(1, "Income".into(), amount, None, None).unwrap();
        repo.create_record(rec).unwrap();
    }

    let capped = repo
        .list_records(ListRecordsCmd { limit: Some(2), offset: None, category_id: None })
        .unwrap();
    assert_eq!(capped.iter().map(|r| r.amount).collect::<Vec<_>>(), vec![10, 20]);

    let skipped = repo
        .list_records(ListRecordsCmd { limit: Some(2), offset: Some(1), category_id: None })
        .unwrap();
    assert_eq!(skipped.iter().map(|r| r.amount).collect::<Vec<_>>(), vec![20, 30]);

    let tail = repo
        .list_records(ListRecordsCmd { limit: None, offset: Some(3), category_id: None })
        .unwrap();
    assert_eq!(tail.iter().map(|r| r.amount).collect::<Vec<_>>(), vec![40]);

    let past_the_end = repo
        .list_records(ListRecordsCmd { limit: Some(5), offset: Some(9), category_id: None })
        .unwrap();
    assert!(past_the_end.is_empty());
}
