use todo_service::models::AppError;
use todo_service::models::AppErrorType;
use todo_service::rows::todo_item_from_row;
use todo_service::rows::todo_list_from_row;
use todo_service::rows::SqlColumn;
use todo_service::rows::SqlValue;

fn col(name: &str, value: SqlValue) -> SqlColumn {
    SqlColumn { name: name.to_string(), value }
}

#[test]
fn stored_message_wins() {
    let e = AppError {
        message: Some("boom".to_string()),
        cause: Some("ignored".to_string()),
        error_type: AppErrorType::NotFoundError,
    };
    assert_eq!(e.message(), "boom");
}

#[test]
fn missing_message_falls_back_by_kind() {
    let not_found = AppError { message: None, cause: None, error_type: AppErrorType::NotFoundError };
    assert_eq!(not_found.message(), "The requested item was not found");
    let database = AppError { message: None, cause: None, error_type: AppErrorType::DataBaseError };
    assert_eq!(database.message(), "An unexpected error has occurred");
}

#[test]
fn status_codes_by_kind() {
    let database = AppError { message: None, cause: None, error_type: AppErrorType::DataBaseError };
    assert_eq!(database.status_code(), 500);
    let not_found = AppError { message: None, cause: None, error_type: AppErrorType::NotFoundError };
    assert_eq!(not_found.status_code(), 404);
}

#[test]
fn error_response_pairs_status_and_message() {
    let e = AppError {
        message: Some("no such list".to_string()),
        cause: None,
        error_type: AppErrorType::NotFoundError,
    };
    let (code, body) = e.error_response();
    assert_eq!(code, 404);
    assert_eq!(body.error, "no such list");
}

#[test]
fn list_row_decodes() {
    let row = vec![
        col("id", SqlValue::Int(4)),
        col("title", SqlValue::Text("Groceries".to_string())),
    ];
    let l = todo_list_from_row(&row).unwrap();
    assert_eq!(l.id, 4);
    assert_eq!(l.title, "Groceries");
}

#[test]
fn list_row_column_order_does_not_matter() {
    let row = vec![
        col("title", SqlValue::Text("Groceries".to_string())),
        col("id", SqlValue::Int(4)),
    ];
    let l = todo_list_from_row(&row).unwrap();
    assert_eq!(l.id, 4);
    assert_eq!(l.title, "Groceries");
}

#[test]
fn list_row_with_a_missing_column_fails() {
    let row = vec![col("id", SqlValue::Int(4))];
    let e = todo_list_from_row(&row).unwrap_err();
    assert!(matches!(e.error_type, AppErrorType::DataBaseError));
}

#[test]
fn list_row_with_a_wrongly_typed_column_fails() {
    let row = vec![col("id", SqlValue::Text("4".to_string())), col("title", SqlValue::Int(1))];
    assert!(todo_list_from_row(&row).is_err());
}

#[test]
fn item_row_decodes() {
    let row = vec![
        col("id", SqlValue::Int(7)),
        col("title", SqlValue::Text("milk".to_string())),
        col("checked", SqlValue::Bool(false)),
        col("list_id", SqlValue::Int(3)),
    ];
    let it = todo_item_from_row(&row).unwrap();
    assert_eq!(it.id, 7);
    assert_eq!(it.title, "milk");
    assert!(!it.checked);
    assert_eq!(it.list_id, 3);
}

#[test]
fn item_row_with_a_wrongly_typed_checked_fails() {
    let row = vec![
        col("id", SqlValue::Int(7)),
        col("title", SqlValue::Text("milk".to_string())),
        col("checked", SqlValue::Int(0)),
        col("list_id", SqlValue::Int(3)),
    ];
    assert!(todo_item_from_row(&row).is_err());
}

#[test]
fn item_row_with_a_missing_list_id_fails() {
    let row = vec![
        col("id", SqlValue::Int(7)),
        col("title", SqlValue::Text("milk".to_string())),
        col("checked", SqlValue::Bool(true)),
    ];
    assert!(todo_item_from_row(&row).is_err());
}

#[test]
fn first_matching_column_wins() {
    let row = vec![
        col("id", SqlValue::Int(1)),
        col("id", SqlValue::Int(2)),
        col("title", SqlValue::Text("first".to_string())),
    ];
    let l = todo_list_from_row(&row).unwrap();
    assert_eq!(l.id, 1);
}
