//! Composition of the record-listing query: clause order and bound values.

use budget_api::repository::query::build_list_records_query;
use budget_api::service::records::ListRecordsCmd;

const BASE: &str = "SELECT record.record_id, record.account_id, record.amount, record.description, record_type.name as 'record_type', record.created_at, record.updated_at, category.category_id, category.name, category.parent_id FROM record JOIN record_type ON record.record_type = record_type.record_type_id LEFT JOIN category ON record.category_id = category.category_id ";

#[test]
fn no_constraints_build_the_base_query_alone() {
    let q = build_list_records_query(&ListRecordsCmd {
        limit: None,
        offset: None,
        category_id: None,
    });
    assert_eq!(q.sql, BASE);
    assert!(q.binds.is_empty());
}

#[test]
fn category_constraint_appends_one_bound_clause() {
    let q = build_list_records_query(&ListRecordsCmd {
        limit: None,
        offset: None,
        category_id: Some(5),
    });
    assert_eq!(q.sql, format!("{}WHERE record.category_id = ? ", BASE));
    assert_eq!(q.binds, vec![5]);
}

#[test]
fn limit_alone_appends_its_clause() {
    let q = build_list_records_query(&ListRecordsCmd {
        limit: Some(10),
        offset: None,
        category_id: None,
    });
    assert_eq!(q.sql, format!("{}LIMIT ? ", BASE));
    assert_eq!(q.binds, vec![10]);
}

#[test]
fn offset_alone_appends_its_clause() {
    let q = build_list_records_query(&ListRecordsCmd {
        limit: None,
        offset: Some(4),
        category_id: None,
    });
    assert_eq!(q.sql, format!("{}OFFSET ? ", BASE));
    assert_eq!(q.binds, vec![4]);
}

#[test]
fn all_constraints_compose_in_fixed_order() {
    let q = build_list_records_query(&ListRecordsCmd {
        limit: Some(10),
        offset: Some(20),
        category_id: Some(5),
    });
    assert_eq!(
        q.sql,
        format!("{}WHERE record.category_id = ? LIMIT ? OFFSET ? ", BASE)
    );
    assert_eq!(q.binds, vec![5, 10, 20]);
}

/// A hostile value never reaches the text: it only lands in the bind list.
#[test]
fn values_are_bound_never_interpolated() {
    let q = build_list_records_query(&ListRecordsCmd {
        limit: None,
        offset: None,
        category_id: Some(-1),
    });
    assert!(!q.sql.contains("-1"));
    assert_eq!(q.binds, vec![-1]);
}
