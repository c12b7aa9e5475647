//! Error rendering and the mapping to the external representation.

use budget_api::domain::errors::BudgetServiceError;
use budget_api::domain::models::{AccountError, CategoryError, RecordError};
use budget_api::repository::dto::{
    AccountDTO, CategoryDTO, FullRecordDTO, OptionalCategoryDTO, RecordDTO,
};
use budget_api::transport::errors::JsonError;

#[test]
fn validation_messages_are_exact() {
    assert_eq!(
        RecordError::AmountCannotBeLessOrEqualToZero.message(),
        "amount cannot be equal or less than zero"
    );
    assert_eq!(
        RecordError::InvalidRecordType("foo".into()).message(),
        "invalid record type \"foo\""
    );
    assert_eq!(
        CategoryError::InvalidCategoryName.message(),
        "category name must not be empty or longer than 100 characters"
    );
    assert_eq!(AccountError::UnknownAcountType.message(), "unknown account type");
}

#[test]
fn service_error_messages_carry_their_prefix() {
    assert_eq!(
        BudgetServiceError::RecordValidationError(RecordError::AmountCannotBeLessOrEqualToZero)
            .message(),
        "record validation error: amount cannot be equal or less than zero"
    );
    assert_eq!(
        BudgetServiceError::CategoryValidationError(CategoryError::InvalidCategoryName).message(),
        "cagegory validation error: category name must not be empty or longer than 100 characters"
    );
    assert_eq!(
        BudgetServiceError::AccountValidationError(AccountError::UnknownAcountType).message(),
        "account validation error: unknown account type"
    );
    assert_eq!(
        BudgetServiceError::DatabaseError("broken pipe".into()).message(),
        "database error: broken pipe"
    );
    assert_eq!(
        BudgetServiceError::EntityNotFoundError("account".into()).message(),
        "account not found"
    );
}

#[test]
fn status_codes_follow_the_error_family() {
    assert_eq!(
        BudgetServiceError::RecordValidationError(RecordError::AmountCannotBeLessOrEqualToZero)
            .status_code(),
        400
    );
    assert_eq!(
        BudgetServiceError::CategoryValidationError(CategoryError::InvalidCategoryName)
            .status_code(),
        400
    );
    assert_eq!(
        BudgetServiceError::AccountValidationError(AccountError::UnknownAcountType).status_code(),
        400
    );
    assert_eq!(BudgetServiceError::EntityNotFoundError("record".into()).status_code(), 404);
    assert_eq!(BudgetServiceError::DatabaseError("x".into()).status_code(), 500);
}

#[test]
fn error_bodies_carry_code_and_inner_message() {
    let body = JsonError::of_error(&BudgetServiceError::RecordValidationError(
        RecordError::InvalidRecordType("foo".into()),
    ))
    .unwrap();
    assert_eq!(body.code, "RecordValidationError");
    assert_eq!(body.message, "invalid record type \"foo\"");

    let body =
        JsonError::of_error(&BudgetServiceError::EntityNotFoundError("category".into())).unwrap();
    assert_eq!(body.code, "EntityNotFoundError");
    assert_eq!(body.message, "category not found");

    assert!(JsonError::of_error(&BudgetServiceError::DatabaseError("x".into())).is_none());
}

#[test]
fn account_row_converts_only_under_a_known_label() {
    let row = AccountDTO {
        account_id: 3,
        name: "wallet".into(),
        account_type: "Cash".into(),
        current_balance: 12,
    };
    let acc = row.into_account().unwrap();
    assert_eq!(acc.id, 3);
    assert_eq!(acc.balance, 12);

    let bad = AccountDTO {
        account_id: 3,
        name: "wallet".into(),
        account_type: "cash".into(),
        current_balance: 12,
    };
    assert!(bad.into_account().is_none());
}

#[test]
fn record_row_converts_only_when_coherent() {
    let row = FullRecordDTO {
        record: RecordDTO {
            record_id: 1,
            account_id: 2,
            amount: 100,
            description: None,
            record_type: "Income".into(),
            created_at: 5,
            updated_at: 6,
        },
        category: OptionalCategoryDTO {
            category_id: Some(4),
            budget: None,
            name: Some("food".into()),
            parent_id: None,
        },
    };
    let rec = row.into_record().unwrap();
    assert_eq!(rec.id, 1);
    assert_eq!(rec.category.as_ref().map(|c| c.id), Some(4));

    let nonpositive = FullRecordDTO {
        record: RecordDTO {
            record_id: 1,
            account_id: 2,
            amount: 0,
            description: None,
            record_type: "Income".into(),
            created_at: 5,
            updated_at: 6,
        },
        category: OptionalCategoryDTO {
            category_id: None,
            budget: None,
            name: None,
            parent_id: None,
        },
    };
    assert!(nonpositive.into_record().is_none());

    let nameless_join = FullRecordDTO {
        record: RecordDTO {
            record_id: 1,
            account_id: 2,
            amount: 10,
            description: None,
            record_type: "Income".into(),
            created_at: 5,
            updated_at: 6,
        },
        category: OptionalCategoryDTO {
            category_id: Some(4),
            budget: None,
            name: None,
            parent_id: None,
        },
    };
    assert!(nameless_join.into_record().is_none());
}

#[test]
fn category_row_converts_field_by_field() {
    let row = CategoryDTO {
        category_id: 9,
        budget: Some(40),
        name: "fun".into(),
        parent_id: Some(2),
    };
    let c = row.into_category();
    assert_eq!(c.id, 9);
    assert_eq!(c.budget, Some(40));
    assert_eq!(c.name, "fun");
    assert_eq!(c.parent_id, Some(2));
}
