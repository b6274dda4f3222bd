use idswitch::registry::load_registry;

#[test]
fn two_rows_load_in_file_order() {
    let bytes = b"key,name,email\nwork,Alice,alice@work.com\npersonal,Alice,alice@home.com\n";
    let rows = load_registry(bytes).expect("registry should load");
    assert_eq!(rows.len(), 2);
    assert_eq!(rows[0].key, "work");
    assert_eq!(rows[0].name, "Alice");
    assert_eq!(rows[0].email, "alice@work.com");
    assert_eq!(rows[1].key, "personal");
    assert_eq!(rows[1].name, "Alice");
    assert_eq!(rows[1].email, "alice@home.com");
}

#[test]
fn header_only_yields_empty_registry() {
    let rows = load_registry(b"key,name,email\n").expect("header-only should load");
    assert!(rows.is_empty());
}

#[test]
fn duplicate_keys_are_kept_in_order() {
    let bytes = b"key,name,email\nwork,A,a@x\nwork,B,b@x\n";
    let rows = load_registry(bytes).expect("registry should load");
    assert_eq!(rows.len(), 2);
    assert_eq!(rows[0].name, "A");
    assert_eq!(rows[1].name, "B");
}

#[test]
fn quoted_fields_are_decoded() {
    let bytes = b"key,name,email\nwork,\"Doe, Jane\",jane@work.com\n";
    let rows = load_registry(bytes).expect("registry should load");
    assert_eq!(rows[0].name, "Doe, Jane");
}

#[test]
fn row_with_extra_column_fails_the_whole_load() {
    let bytes = b"key,name,email\nwork,Alice,alice@work.com,extra\n";
    let err = load_registry(bytes).expect_err("extra column must fail");
    assert_ne!(err.exit_code(), 0);
    assert!(!err.message.is_empty());
}

#[test]
fn row_with_missing_column_fails_the_whole_load() {
    let bytes = b"key,name,email\nwork,Alice\n";
    assert!(load_registry(bytes).is_err());
}

#[test]
fn malformed_row_yields_no_partial_result() {
    let bytes = b"key,name,email\nwork,Alice,alice@work.com\nbroken,row\n";
    assert!(load_registry(bytes).is_err());
}
