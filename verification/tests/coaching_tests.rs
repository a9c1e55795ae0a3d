//! Coaching: the request put to the model after a block, and the guidance
//! given back, with the model's reply supplied by the test.

use cosyn::coaching::tips::tips_for_gate;
use cosyn::coaching::{coaching_messages, coaching_outcome};
use cosyn::dcc::types::BlockReasonCode;
use cosyn::provider::LlmResponse;

fn mock_reply() -> LlmResponse {
    LlmResponse {
        content: "Try being more specific about what you want.".to_string(),
        model: "mock".to_string(),
        input_tokens: 10,
        output_tokens: 10,
    }
}

/// Coaching as the proxy gives it: no request when no tip applies, the
/// model's reply when it answers, the static message when it fails.
fn coach(input: &str, code: BlockReasonCode, reply: Option<LlmResponse>) -> String {
    match coaching_messages(input, code) {
        None => coaching_outcome(code, None),
        Some(_) => coaching_outcome(code, reply),
    }
}

#[test]
fn coaching_on_subject_block() {
    let result = coach("asdfghjkl", BlockReasonCode::BrSubjectUnknown, Some(mock_reply()));
    assert!(!result.is_empty());
    assert!(result.contains("specific"));
}

#[test]
fn coaching_on_evidence_block() {
    let result = coach("is the a", BlockReasonCode::BrEvidenceUnsat, Some(mock_reply()));
    assert!(!result.is_empty());
}

#[test]
fn coaching_on_ambiguity_block() {
    let result = coach("do the thing with the stuff", BlockReasonCode::BrAmbiguity, Some(mock_reply()));
    assert!(!result.is_empty());
}

#[test]
fn coaching_fallback_on_llm_failure() {
    let result = coach("asdfghjkl", BlockReasonCode::BrSubjectUnknown, None);
    assert_eq!(result, BlockReasonCode::BrSubjectUnknown.user_message());
}

#[test]
fn no_coaching_on_system_gates() {
    assert!(coaching_messages("anything", BlockReasonCode::BrReleaseDenied).is_none());
    let result = coach("anything", BlockReasonCode::BrReleaseDenied, Some(mock_reply()));
    assert_eq!(result, BlockReasonCode::BrReleaseDenied.user_message());
}

#[test]
fn tips_follow_the_block_reason() {
    let names = |code| tips_for_gate(code).iter().map(|t| t.name).collect::<Vec<_>>();
    assert_eq!(names(BlockReasonCode::BrSubjectUnknown), vec!["Deictic Anchoring", "Modes and Evidence"]);
    assert_eq!(names(BlockReasonCode::BrEvidenceUnsat), vec!["Deterministic Data Handling", "Modes and Evidence"]);
    assert_eq!(names(BlockReasonCode::BrAmbiguity), vec!["Deictic Anchoring", "CRS Directives"]);
    assert_eq!(names(BlockReasonCode::BrStructuralFail), vec!["Formatting Tax"]);
    assert_eq!(names(BlockReasonCode::BrGroundingFail), vec!["Formatting Tax"]);
    assert!(names(BlockReasonCode::BrVersionConflict).is_empty());
    assert!(names(BlockReasonCode::BrVersionUndefined).is_empty());
    assert!(names(BlockReasonCode::BrReleaseDenied).is_empty());
}

#[test]
fn coaching_request_holds_reason_tips_and_prompt() {
    let msgs = coaching_messages("draw a table", BlockReasonCode::BrStructuralFail).unwrap();
    assert_eq!(msgs.len(), 2);
    assert_eq!(msgs[0].role, "system");
    let expected = format!(
        "You are a coaching assistant for the CoSyn governance system. A user's input was blocked by the BR-STRUCTURAL-FAIL gate (reason: {}). Your job is to help them understand why and suggest how to revise their prompt.\n\nUse these principles to guide your advice:\n\n**Formatting Tax**: {}\n\nBe concise (2-3 sentences). Be specific to their actual input. Do not repeat the block reason code. Do not apologize.",
        BlockReasonCode::BrStructuralFail.user_message(),
        tips_for_gate(BlockReasonCode::BrStructuralFail)[0].content
    );
    assert_eq!(msgs[0].content, expected);
    assert_eq!(msgs[1].role, "user");
    assert_eq!(msgs[1].content, "My prompt was blocked. Here is what I wrote:\n\n\"draw a table\"");
}

#[test]
fn two_tips_are_separated_by_a_blank_line() {
    let msgs = coaching_messages("x", BlockReasonCode::BrAmbiguity).unwrap();
    assert!(msgs[0].content.contains("'fix the login timeout bug in auth.rs'.\n\n**CRS Directives**: Be explicit"));
}
