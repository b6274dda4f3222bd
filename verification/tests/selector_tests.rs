use idswitch::account::Account;
use idswitch::selector::{menu_lines, resolve_selection, Selection};

fn acct(key: &str, name: &str, email: &str) -> Account {
    Account {
        key: key.to_string(),
        name: name.to_string(),
        email: email.to_string(),
    }
}

#[test]
fn menu_offers_each_account_and_quit() {
    let accounts = vec![
        acct("work", "Alice", "alice@work.com"),
        acct("personal", "Alice", "alice@home.com"),
    ];
    let lines = menu_lines(&accounts);
    assert_eq!(
        lines,
        vec![
            "[1]: work".to_string(),
            "[2]: personal".to_string(),
            "[q]: Quit".to_string()
        ]
    );
}

#[test]
fn menu_for_empty_registry_offers_only_quit() {
    let lines = menu_lines(&Vec::new());
    assert_eq!(lines, vec!["[q]: Quit".to_string()]);
}

#[test]
fn menu_numbers_run_in_load_order() {
    let mut accounts = Vec::new();
    for i in 0..12 {
        accounts.push(acct(&format!("k{}", i), "n", "e"));
    }
    let lines = menu_lines(&accounts);
    assert_eq!(lines.len(), 13);
    assert_eq!(lines[9], "[10]: k9");
    assert_eq!(lines[11], "[12]: k11");
    assert_eq!(lines[12], "[q]: Quit");
}

#[test]
fn quit_resolves_to_quit_with_exit_zero() {
    let sel = resolve_selection("q\n", 4);
    assert_eq!(sel, Selection::Quit);
    assert_eq!(sel.exit_code(), 0);
    assert!(sel.message().is_none());
}

#[test]
fn in_range_number_resolves_to_index() {
    assert_eq!(resolve_selection("1\n", 2), Selection::Chosen(0));
    assert_eq!(resolve_selection("2\r\n", 2), Selection::Chosen(1));
    assert_eq!(resolve_selection("2", 2), Selection::Chosen(1));
}

#[test]
fn zero_and_too_large_are_out_of_range() {
    let low = resolve_selection("0\n", 2);
    let high = resolve_selection("3\n", 2);
    assert_eq!(low, Selection::OutOfRange);
    assert_eq!(high, Selection::OutOfRange);
    assert_ne!(low.exit_code(), 0);
    assert_eq!(
        low.message().as_deref(),
        Some("Out of range selection")
    );
}

#[test]
fn non_numeric_input_is_rejected() {
    let sel = resolve_selection("abc\n", 2);
    assert_eq!(sel, Selection::NotANumber);
    assert_ne!(sel.exit_code(), 0);
    assert_eq!(sel.message().as_deref(), Some("Not an integer..."));
}

#[test]
fn empty_input_is_rejected() {
    assert_eq!(resolve_selection("\n", 2), Selection::NotANumber);
    assert_eq!(resolve_selection("", 2), Selection::NotANumber);
}

#[test]
fn huge_numeral_is_rejected_as_not_a_number() {
    let sel = resolve_selection("99999999999999999999999999\n", 2);
    assert_eq!(sel, Selection::NotANumber);
    assert_ne!(sel.exit_code(), 0);
}

#[test]
fn empty_registry_accepts_only_quit() {
    assert_eq!(resolve_selection("q\n", 0), Selection::Quit);
    assert_eq!(resolve_selection("0\n", 0), Selection::OutOfRange);
    assert_eq!(resolve_selection("1\n", 0), Selection::OutOfRange);
    assert_eq!(resolve_selection("x\n", 0), Selection::NotANumber);
}

#[test]
fn only_one_terminator_is_trimmed() {
    assert_eq!(resolve_selection("1\n\n", 2), Selection::NotANumber);
}
