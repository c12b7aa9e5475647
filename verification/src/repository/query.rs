//! Construction of the record-listing query: one base projection with its
//! joins, then zero or more conditionally appended clauses in a fixed order —
//! category equality, row cap, row skip. Every user-supplied value is bound
//! as a parameter, never written into the text.

use vstd::prelude::*;
use crate::service::records::ListRecordsCmd;

verus! {

/// A ready-to-run listing query: the text with one placeholder per bound
/// value, and the values in placeholder order.
#[derive(Debug)]
pub struct RecordsListQuery {
    pub sql: String,
    pub binds: Vec<i64>,
}

/// The base projection: record columns, the record-type label resolved
/// through its lookup table, and the optional category joined with outer
/// semantics so that a record without a category keeps its row.
pub open spec fn base_select_sql() -> Seq<char> {
    "SELECT record.record_id, record.account_id, record.amount, record.description, record_type.name as 'record_type', record.created_at, record.updated_at, category.category_id, category.name, category.parent_id FROM record JOIN record_type ON record.record_type = record_type.record_type_id LEFT JOIN category ON record.category_id = category.category_id "@
}

/// The optional equality filter on the category, as a bound parameter.
pub open spec fn category_clause_sql() -> Seq<char> {
    "WHERE record.category_id = ? "@
}

/// The optional row cap, as a bound parameter.
pub open spec fn limit_clause_sql() -> Seq<char> {
    "LIMIT ? "@
}

/// The optional row skip, as a bound parameter.
pub open spec fn offset_clause_sql() -> Seq<char> {
    "OFFSET ? "@
}

/// The full query text for a listing command: the base projection, then each
/// clause exactly when its constraint is supplied, in fixed order.
pub open spec fn spec_list_records_sql(cmd: ListRecordsCmd) -> Seq<char> {
    base_select_sql() + (if cmd.category_id is Some {
        category_clause_sql()
    } else {
        Seq::<char>::empty()
    }) + (if cmd.limit is Some {
        limit_clause_sql()
    } else {
        Seq::<char>::empty()
    }) + (if cmd.offset is Some {
        offset_clause_sql()
    } else {
        Seq::<char>::empty()
    })
}

/// The bound values for a listing command, in placeholder order: category id,
/// then row cap, then row skip, each exactly when supplied.
pub open spec fn spec_list_records_binds(cmd: ListRecordsCmd) -> Seq<i64> {
    (match cmd.category_id {
        Some(c) => seq![c],
        None => Seq::<i64>::empty(),
    }) + (match cmd.limit {
        Some(l) => seq![l as i64],
        None => Seq::<i64>::empty(),
    }) + (match cmd.offset {
        Some(o) => seq![o as i64],
        None => Seq::<i64>::empty(),
    })
}

/// Builds the listing query for a command: the produced text and bound values
/// are exactly the specified composition, so no user-supplied value ever
/// reaches the text.
pub fn build_list_records_query(cmd: &ListRecordsCmd) -> (r: RecordsListQuery)
    ensures
        r.sql@ == spec_list_records_sql(*cmd),
        r.binds@ == spec_list_records_binds(*cmd),
{
    let mut sql =
        "SELECT record.record_id, record.account_id, record.amount, record.description, record_type.name as 'record_type', record.created_at, record.updated_at, category.category_id, category.name, category.parent_id FROM record JOIN record_type ON record.record_type = record_type.record_type_id LEFT JOIN category ON record.category_id = category.category_id ".to_owned();
    let mut binds: Vec<i64> = Vec::new();
    if let Some(category_id) = cmd.category_id {
        sql.append("WHERE record.category_id = ? ");
        binds.push(category_id);
    }
    if let Some(limit) = cmd.limit {
        sql.append("LIMIT ? ");
        binds.push(limit as i64);
    }
    if let Some(offset) = cmd.offset {
        sql.append("OFFSET ? ");
        binds.push(offset as i64);
    }
    proof {
        assert(sql@ =~= spec_list_records_sql(*cmd));
        assert(binds@ =~= spec_list_records_binds(*cmd));
    }
    RecordsListQuery { sql, binds }
}

} // verus!
