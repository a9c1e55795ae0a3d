//! Continuation, deictic-reference and prior-context utilities.

use cosyn::dcc::continuation::{
    has_deictic_reference, is_continuation, last_assistant_content, prior_has_substance,
};
use cosyn::dcc::types::PriorMessage;

fn message(role: &str, content: &str) -> PriorMessage {
    PriorMessage { role: role.to_string(), content: content.to_string() }
}

#[test]
fn test_is_continuation_elaborate() {
    assert!(is_continuation("elaborate on that"));
}

#[test]
fn test_is_continuation_tell_me_more() {
    assert!(is_continuation("tell me more"));
}

#[test]
fn test_is_continuation_long_input_not_continuation() {
    assert!(!is_continuation("I want to expand my business into new international markets"));
}

#[test]
fn test_has_deictic_it() {
    assert!(has_deictic_reference("tell me about it"));
}

#[test]
fn test_has_deictic_that() {
    assert!(has_deictic_reference("explain that"));
}

#[test]
fn test_no_deictic_in_normal_sentence() {
    assert!(!has_deictic_reference("What is the capital of France?"));
}

#[test]
fn test_has_deictic_its_trimmed() {
    assert!(has_deictic_reference("what's it's purpose"));
}

#[test]
fn test_prior_has_substance_with_content() {
    let msgs = vec![
        message("user", "capital of France?"),
        message("assistant", "The capital of France is Paris."),
    ];
    assert!(prior_has_substance(&msgs));
}

#[test]
fn test_prior_has_substance_empty() {
    let msgs: Vec<PriorMessage> = vec![];
    assert!(!prior_has_substance(&msgs));
}

#[test]
fn test_prior_has_substance_no_assistant() {
    let msgs = vec![message("user", "hello")];
    assert!(!prior_has_substance(&msgs));
}

#[test]
fn test_last_assistant_content() {
    let msgs = vec![
        message("user", "first"),
        message("assistant", "response one"),
        message("user", "second"),
        message("assistant", "response two"),
    ];
    assert_eq!(last_assistant_content(&msgs), Some("response two"));
}

#[test]
fn test_last_assistant_content_none() {
    let msgs = vec![message("user", "hello")];
    assert_eq!(last_assistant_content(&msgs), None);
}
