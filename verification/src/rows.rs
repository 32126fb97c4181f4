//! Decoding result rows into domain records.
//!
//! A result row is modeled as named columns holding the three value
//! shapes the schema uses. Each decoder looks columns up by name and
//! fails with a database-kind error when a column is absent or holds the
//! wrong shape — an explicit mapping, no reflection.

use vstd::prelude::*;

use crate::models::AppError;
use crate::models::AppErrorType;
use crate::models::TodoItem;
use crate::models::TodoList;

verus! {

/// A value a result column can hold in this schema.
#[derive(Debug)]
#[verifier::ext_equal]
pub enum SqlValue {
    Int(i32),
    Bool(bool),
    Text(String),
}

/// One named column of a result row.
#[derive(Debug)]
#[verifier::ext_equal]
pub struct SqlColumn {
    pub name: String,
    pub value: SqlValue,
}

impl SqlValue {
    /// A copy equal to `self`.
    pub fn duplicate(&self) -> (r: SqlValue)
        ensures
            r == *self,
    {
        match self {
            SqlValue::Int(i) => SqlValue::Int(*i),
            SqlValue::Bool(b) => SqlValue::Bool(*b),
            SqlValue::Text(s) => {
                let r = SqlValue::Text(s.clone());
                proof {
                    assert(r =~= *self);
                }
                r
            },
        }
    }
}

/// The value of the first column named `name`, if any.
pub open spec fn find_col(row: Seq<SqlColumn>, name: Seq<char>) -> Option<SqlValue>
    decreases row.len(),
{
    if row.len() == 0 {
        None
    } else if row[0].name@ == name {
        Some(row[0].value)
    } else {
        find_col(row.drop_first(), name)
    }
}

/// Looks a column up by name, first match wins.
fn lookup(row: &Vec<SqlColumn>, name: &String) -> (r: Option<SqlValue>)
    ensures
        r == find_col(row@, name@),
{
    let n = row.len();
    let mut k: usize = 0;
    proof {
        assert(row@.skip(0) =~= row@);
    }
    while k < n
        invariant
            n == row@.len(),
            k <= n,
            find_col(row@, name@) == find_col(row@.skip(k as int), name@),
        decreases n - k,
    {
        proof {
            let s = row@;
            assert(s.skip(k as int).len() == n - k);
            assert(s.skip(k as int)[0] == s[k as int]);
            assert(s.skip(k as int).drop_first() =~= s.skip(k + 1));
        }
        if row[k].name == *name {
            return Some(row[k].value.duplicate());
        }
        k += 1;
    }
    proof {
        assert(row@.skip(n as int).len() == 0);
    }
    None
}

/// The failure reported when a row does not decode into the expected
/// record: a database-kind error carrying the reason as its cause.
fn decode_error() -> (e: AppError)
    ensures
        e.error_type == AppErrorType::DataBaseError,
        e.message is None,
        e.cause is Some,
{
    AppError {
        message: None,
        cause: Some("row does not match the expected columns".to_string()),
        error_type: AppErrorType::DataBaseError,
    }
}

/// Decodes a `todo_list` row: column `id` must hold an integer and
/// column `title` text; anything else is a decode failure.
pub fn todo_list_from_row(row: &Vec<SqlColumn>) -> (r: Result<TodoList, AppError>)
    ensures
        match (find_col(row@, "id"@), find_col(row@, "title"@)) {
            (Some(SqlValue::Int(id)), Some(SqlValue::Text(t))) => r matches Ok(l) && l.id == id
                && l.title == t,
            _ => r matches Err(e) && e.error_type == AppErrorType::DataBaseError,
        },
{
    let id_name = "id".to_string();
    let title_name = "title".to_string();
    match (lookup(row, &id_name), lookup(row, &title_name)) {
        (Some(SqlValue::Int(id)), Some(SqlValue::Text(t))) => Ok(TodoList { id: id, title: t }),
        _ => Err(decode_error()),
    }
}

/// Decodes a `todo_item` row: `id` and `list_id` must hold integers,
/// `title` text and `checked` a boolean; anything else is a decode
/// failure.
pub fn todo_item_from_row(row: &Vec<SqlColumn>) -> (r: Result<TodoItem, AppError>)
    ensures
        match (
            find_col(row@, "id"@),
            find_col(row@, "title"@),
            find_col(row@, "checked"@),
            find_col(row@, "list_id"@),
        ) {
            (
                Some(SqlValue::Int(id)),
                Some(SqlValue::Text(t)),
                Some(SqlValue::Bool(c)),
                Some(SqlValue::Int(lid)),
            ) => r matches Ok(it) && it.id == id && it.title == t && it.checked == c
                && it.list_id == lid,
            _ => r matches Err(e) && e.error_type == AppErrorType::DataBaseError,
        },
{
    let id_name = "id".to_string();
    let title_name = "title".to_string();
    let checked_name = "checked".to_string();
    let list_id_name = "list_id".to_string();
    match (
        lookup(row, &id_name),
        lookup(row, &title_name),
        lookup(row, &checked_name),
        lookup(row, &list_id_name),
    ) {
        (
            Some(SqlValue::Int(id)),
            Some(SqlValue::Text(t)),
            Some(SqlValue::Bool(c)),
            Some(SqlValue::Int(lid)),
        ) => Ok(TodoItem { id: id, title: t, checked: c, list_id: lid }),
        _ => Err(decode_error()),
    }
}

} // verus!
