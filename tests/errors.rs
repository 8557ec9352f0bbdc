use todo_service::errors::{get_database_error, get_query_error, ErrorKind, ErrorTypes, StorageFailure};

#[test]
fn every_error_kind_has_its_wire_code_and_message() {
    let table = [
        (ErrorKind::Db, 5000, "Database error"),
        (ErrorKind::UserExists, 5001, "The user already exists"),
        (ErrorKind::Login, 5003, "Username or password is incorrect"),
        (ErrorKind::NoUser, 5004, "The provided user does not exist"),
        (ErrorKind::Edit, 5005, "User or todo does not exist"),
        (ErrorKind::Delete, 5007, "The todo or user does not exist"),
        (ErrorKind::WrongFormat, 5008, "Invalid JSON format"),
        (ErrorKind::WrongPath, 5009, "Invalid path"),
    ];
    for (kind, code, message) in table {
        assert_eq!(kind.code(), code);
        assert_eq!(kind.message(), message);
        let r = kind.to_response();
        assert_eq!(r.code, code);
        assert_eq!(r.error, message);
    }
}

#[test]
fn query_errors_translate_to_their_payloads() {
    let r = get_query_error(ErrorTypes::WrongFormat);
    assert_eq!((r.code, r.error.as_str()), (5008, "Invalid JSON format"));
    let r = get_query_error(ErrorTypes::WrongPath);
    assert_eq!((r.code, r.error.as_str()), (5009, "Invalid path"));
    let r = get_query_error(ErrorTypes::Login);
    assert_eq!((r.code, r.error.as_str()), (5003, "Username or password is incorrect"));
    let r = get_query_error(ErrorTypes::NoUser);
    assert_eq!((r.code, r.error.as_str()), (5004, "The provided user does not exist"));
    let r = get_query_error(ErrorTypes::Edit);
    assert_eq!((r.code, r.error.as_str()), (5005, "User or todo does not exist"));
    let r = get_query_error(ErrorTypes::Delete);
    assert_eq!((r.code, r.error.as_str()), (5007, "The todo or user does not exist"));
}

#[test]
fn storage_failures_translate_by_category() {
    let r = get_database_error(StorageFailure::ForeignKeyViolation);
    assert_eq!((r.code, r.error.as_str()), (5004, "The provided user does not exist"));
    let r = get_database_error(StorageFailure::UniqueViolation);
    assert_eq!((r.code, r.error.as_str()), (5001, "The user already exists"));
    let r = get_database_error(StorageFailure::Other);
    assert_eq!((r.code, r.error.as_str()), (5000, "Database error"));
}

#[test]
fn sql_states_map_to_failure_categories() {
    assert_eq!(StorageFailure::from_sql_state(Some("23503")), StorageFailure::ForeignKeyViolation);
    assert_eq!(StorageFailure::from_sql_state(Some("23505")), StorageFailure::UniqueViolation);
    assert_eq!(StorageFailure::from_sql_state(Some("42601")), StorageFailure::Other);
    assert_eq!(StorageFailure::from_sql_state(Some("")), StorageFailure::Other);
    assert_eq!(StorageFailure::from_sql_state(None), StorageFailure::Other);
    let r = get_database_error(StorageFailure::from_sql_state(Some("23505")));
    assert_eq!(r.code, 5001);
}
