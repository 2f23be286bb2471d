use routechain::pipeline::{Combine, Responder};

#[test]
fn adding_pairs_a_success_with_the_second_value() {
    let first: Result<u32, String> = Ok(7);
    let combined = first.adding("extra".to_string());
    assert_eq!(combined, Ok((7, "extra".to_string())));
}

#[test]
fn adding_leaves_a_failure_unchanged() {
    let first: Result<u32, String> = Err("broken".to_string());
    let combined = first.adding("extra".to_string());
    assert_eq!(combined, Err("broken".to_string()));
}

#[test]
fn adding_keeps_both_values_verbatim() {
    let first: Result<String, u8> = Ok("left".to_string());
    let combined = first.adding(99u16);
    assert_eq!(combined, Ok(("left".to_string(), 99u16)));
}

#[test]
fn respond_turns_a_found_document_into_a_success() {
    let looked_up: Result<Option<String>, String> = Ok(Some("{\"name\":\"a\"}".to_string()));
    assert_eq!(looked_up.respond(), Ok("{\"name\":\"a\"}".to_string()));
}

#[test]
fn respond_turns_an_absent_document_into_not_found() {
    let looked_up: Result<Option<String>, String> = Ok(None);
    assert_eq!(looked_up.respond(), Err("Not Found"));
}

#[test]
fn respond_turns_a_store_failure_into_a_database_error() {
    let looked_up: Result<Option<String>, String> = Err("connection reset".to_string());
    assert_eq!(looked_up.respond(), Err("Database error"));
}
