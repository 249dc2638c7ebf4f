use wallet_log::handler::greeting_line;
use wallet_log::handler::initialize;
use wallet_log::handler::Context;
use wallet_log::handler::Initialize;
use wallet_log::id::declared_program_id;
use wallet_log::id::program_id_text;
use wallet_log::id::ProgramId;

const DECLARED_TEXT: &str = "7cGpQxyVi7HbUZsiqH3EfRwcARzV3otxMCqMt5P4uRih";

fn declared_context() -> Context {
    Context {
        program_id: declared_program_id(),
        accounts: Initialize {},
    }
}

#[test]
fn initialize_succeeds_with_empty_context() {
    let ctx = declared_context();
    let mut log: Vec<String> = Vec::new();
    let r = initialize(&ctx, &mut log);
    assert!(r.is_ok());
    assert_eq!(log.len(), 1);
}

#[test]
fn log_line_carries_identifier_verbatim() {
    let ctx = declared_context();
    let mut log: Vec<String> = Vec::new();
    initialize(&ctx, &mut log).unwrap();
    assert_eq!(log[0], format!("Greetings from: {}", DECLARED_TEXT));
    assert!(log[0].contains(DECLARED_TEXT));
}

#[test]
fn repeated_invocation_alters_no_prior_entries() {
    let ctx = declared_context();
    let mut log: Vec<String> = Vec::new();
    for round in 0..5 {
        let before = log.clone();
        let r = initialize(&ctx, &mut log);
        assert!(r.is_ok());
        assert_eq!(log.len(), round + 1);
        assert_eq!(&log[..round], &before[..]);
        assert_eq!(log[round], format!("Greetings from: {}", DECLARED_TEXT));
    }
}

#[test]
fn outcome_does_not_depend_on_history() {
    let ctx = declared_context();
    let mut empty_log: Vec<String> = Vec::new();
    let mut full_log: Vec<String> = vec![String::from("earlier entry")];
    let r1 = initialize(&ctx, &mut empty_log);
    let r2 = initialize(&ctx, &mut full_log);
    assert_eq!(r1.is_ok(), r2.is_ok());
    assert_eq!(empty_log.last(), full_log.last());
}

#[test]
fn program_id_text_is_declared_base58() {
    assert_eq!(program_id_text(), DECLARED_TEXT);
}

#[test]
fn declared_id_bytes_match_declared_text() {
    let id = declared_program_id();
    let expected: [u8; 32] = [
        98, 47, 85, 177, 212, 205, 136, 3, 83, 212, 235, 219, 10, 169, 171, 11, 134, 34, 119, 172,
        252, 176, 175, 159, 230, 228, 22, 136, 127, 43, 184, 98,
    ];
    assert_eq!(id.bytes, expected);
}

#[test]
fn zero_identifier_renders_as_ones() {
    let id = ProgramId { bytes: [0u8; 32] };
    let line = greeting_line(&id);
    assert_eq!(line, format!("Greetings from: {}", "1".repeat(32)));
}

#[test]
fn distinct_identifiers_give_distinct_lines() {
    let zero = ProgramId { bytes: [0u8; 32] };
    let declared = declared_program_id();
    assert_ne!(greeting_line(&zero), greeting_line(&declared));
}
