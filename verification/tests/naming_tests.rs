use ledger_loadgen::naming::{
    next_sequence_number, parse_tx_filename, persist_names, tx_filename_for,
};

#[test]
fn parse_accepts_plain_numbers() {
    assert_eq!(parse_tx_filename("transaction_0"), Some(0));
    assert_eq!(parse_tx_filename("transaction_1"), Some(1));
    assert_eq!(parse_tx_filename("transaction_35"), Some(35));
    assert_eq!(parse_tx_filename("transaction_12345"), Some(12345));
}

#[test]
fn parse_accepts_leading_zeros() {
    assert_eq!(parse_tx_filename("transaction_007"), Some(7));
    assert_eq!(parse_tx_filename("transaction_000"), Some(0));
}

#[test]
fn parse_rejects_other_names() {
    assert_eq!(parse_tx_filename(""), None);
    assert_eq!(parse_tx_filename("block_child"), None);
    assert_eq!(parse_tx_filename("block_parent"), None);
    assert_eq!(parse_tx_filename("block_grandfather"), None);
    assert_eq!(parse_tx_filename("transaction_"), None);
    assert_eq!(parse_tx_filename("transaction"), None);
    assert_eq!(parse_tx_filename("transaction_12x"), None);
    assert_eq!(parse_tx_filename("transaction_x12"), None);
    assert_eq!(parse_tx_filename("Transaction_5"), None);
    assert_eq!(parse_tx_filename("transaction_5 "), None);
}

#[test]
fn parse_respects_number_limit() {
    assert_eq!(parse_tx_filename("transaction_4294967295"), Some(u32::MAX));
    assert_eq!(parse_tx_filename("transaction_4294967296"), None);
    assert_eq!(parse_tx_filename("transaction_99999999999999999999"), None);
}

#[test]
fn format_is_canonical() {
    assert_eq!(tx_filename_for(0), "transaction_0");
    assert_eq!(tx_filename_for(9), "transaction_9");
    assert_eq!(tx_filename_for(10), "transaction_10");
    assert_eq!(tx_filename_for(36), "transaction_36");
    assert_eq!(tx_filename_for(u32::MAX), "transaction_4294967295");
}

#[test]
fn format_parse_round_trip() {
    for n in [0, 1, 9, 10, 99, 100, 12345, 4294967295] {
        assert_eq!(parse_tx_filename(&tx_filename_for(n)), Some(n));
    }
}

#[test]
fn next_sequence_number_empty_is_zero() {
    let names: Vec<String> = Vec::new();
    assert_eq!(next_sequence_number(&names), 0);
}

#[test]
fn next_sequence_number_contiguous() {
    // files transaction_0 .. transaction_35 present: the next number is 36
    let names = persist_names(0, 36);
    assert_eq!(next_sequence_number(&names), 36);
}

#[test]
fn next_sequence_number_tolerates_gaps() {
    let names = vec!["transaction_5".to_string()];
    assert_eq!(next_sequence_number(&names), 6);
    let names = vec![
        "transaction_2".to_string(),
        "block_child".to_string(),
        "transaction_7".to_string(),
        "transaction_3".to_string(),
    ];
    assert_eq!(next_sequence_number(&names), 8);
}

#[test]
fn next_sequence_number_ignores_foreign_names() {
    let names = vec![
        "block_child".to_string(),
        "block_parent".to_string(),
        "block_grandfather".to_string(),
        "notes.txt".to_string(),
    ];
    assert_eq!(next_sequence_number(&names), 0);
}

#[test]
fn next_sequence_number_at_limit() {
    let names = vec!["transaction_4294967295".to_string()];
    assert_eq!(next_sequence_number(&names), 4294967296);
}

#[test]
fn persist_names_are_consecutive() {
    let names = persist_names(36, 3);
    assert_eq!(names, vec!["transaction_36", "transaction_37", "transaction_38"]);
    let names = persist_names(0, 1);
    assert_eq!(names, vec!["transaction_0"]);
    let names = persist_names(7, 0);
    assert!(names.is_empty());
}

#[test]
fn new_names_start_past_prior_max() {
    let existing = persist_names(0, 5);
    let next = next_sequence_number(&existing);
    assert_eq!(next, 5);
    let fresh = persist_names(next, 3);
    assert_eq!(fresh, vec!["transaction_5", "transaction_6", "transaction_7"]);
}
