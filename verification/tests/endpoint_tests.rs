//! The chat endpoint's decisions.

use cosyn::dcc::types::{BlockReasonCode, PriorMessage};
use cosyn::proxy::handlers::{
    after_pipeline, breach_reply, coaching_for_error, plan_request, prior_context, released_reply,
    reply_envelope, EndpointAction, EndpointPlan, PipelineOutcome, STREAMING_REFUSAL,
};

fn message(role: &str, content: &str) -> PriorMessage {
    PriorMessage { role: role.to_string(), content: content.to_string() }
}

fn contents(v: &[PriorMessage]) -> Vec<&str> {
    v.iter().map(|m| m.content.as_str()).collect()
}

#[test]
fn prior_context_drops_the_last_message_and_system_messages() {
    let msgs = vec![
        message("system", "Be concise"),
        message("user", "What is the capital of France?"),
        message("assistant", "The capital of France is Paris."),
        message("user", "tell me more about it"),
    ];
    let prior = prior_context(&msgs).unwrap();
    assert_eq!(contents(&prior), vec!["What is the capital of France?", "The capital of France is Paris."]);
}

#[test]
fn prior_context_is_none_when_nothing_remains() {
    assert!(prior_context(&[]).is_none());
    assert!(prior_context(&[message("user", "hi")]).is_none());
    assert!(prior_context(&[message("system", "x"), message("user", "hi")]).is_none());
}

#[test]
fn streaming_requests_are_refused() {
    assert!(matches!(plan_request(Some(true), &[message("user", "hello")]), EndpointPlan::RefuseStreaming));
    assert_eq!(STREAMING_REFUSAL, "Streaming not yet supported. Set stream: false");
}

#[test]
fn other_requests_govern_the_last_user_message() {
    let msgs = vec![message("user", "first"), message("assistant", "answer"), message("user", "second")];
    for stream in [None, Some(false)] {
        match plan_request(stream, &msgs) {
            EndpointPlan::Govern { user_message, prior } => {
                assert_eq!(user_message, "second");
                assert_eq!(contents(&prior.unwrap()), vec!["first", "answer"]);
            }
            EndpointPlan::RefuseStreaming => panic!("not a streaming request"),
        }
    }
    match plan_request(None, &[message("user", "")]) {
        EndpointPlan::Govern { user_message, prior } => {
            assert_eq!(user_message, "");
            assert!(prior.is_none());
        }
        EndpointPlan::RefuseStreaming => panic!("not a streaming request"),
    }
}

#[test]
fn released_reply_fields() {
    let r = released_reply(None, "Paris.".to_string(), 10, 5, None);
    assert_eq!(r.model, "governed");
    assert_eq!(r.content, "Paris.");
    assert_eq!((r.prompt_tokens, r.completion_tokens, r.total_tokens), (10, 5, 15));
    assert!(r.breach.is_none() && r.coaching.is_none());
    let r = released_reply(Some("gpt-4o-mini".to_string()), "x".to_string(), 0, 0, Some(BlockReasonCode::BrGroundingFail));
    assert_eq!(r.model, "gpt-4o-mini");
    assert_eq!(r.breach.as_deref(), Some("BR-GROUNDING-FAIL"));
}

#[test]
fn breach_reply_fields() {
    let r = breach_reply("BR-AMBIGUITY: unclear", Some("Name it.".to_string()));
    assert_eq!(r.model, "cosyn-governance");
    assert_eq!(r.content, "[GOVERNANCE BREACH] BR-AMBIGUITY: unclear\n\nName it.");
    assert_eq!((r.prompt_tokens, r.completion_tokens, r.total_tokens), (0, 0, 0));
    assert_eq!(r.breach.as_deref(), Some("BR-AMBIGUITY: unclear"));
    assert_eq!(r.coaching.as_deref(), Some("Name it."));
    let r = breach_reply("draft error: timeout", None);
    assert_eq!(r.content, "[GOVERNANCE BREACH] draft error: timeout");
    assert!(r.coaching.is_none());
}

#[test]
fn only_input_gate_errors_are_coached() {
    assert_eq!(coaching_for_error("BR-SUBJECT-UNKNOWN: no subject"), Some(BlockReasonCode::BrSubjectUnknown));
    assert_eq!(coaching_for_error("BR-RELEASE-DENIED"), None);
    assert_eq!(coaching_for_error("draft error: timeout"), None);
}

#[test]
fn released_answers_are_replied_to() {
    let outcome = PipelineOutcome::Released {
        text: "Paris.".to_string(),
        input_tokens: 3,
        output_tokens: 4,
        block: None,
    };
    match after_pipeline(Some("m".to_string()), outcome) {
        EndpointAction::Reply(f) => {
            assert_eq!(f.model, "m");
            assert_eq!(f.content, "Paris.");
            assert_eq!(f.total_tokens, 7);
        }
        EndpointAction::Coach { .. } => panic!("released answers are not coached"),
    }
}

#[test]
fn input_gate_failures_are_coached_first() {
    let outcome = PipelineOutcome::Failed { error: "BR-AMBIGUITY: unclear".to_string() };
    match after_pipeline(None, outcome) {
        EndpointAction::Coach { error, code } => {
            assert_eq!(error, "BR-AMBIGUITY: unclear");
            assert_eq!(code, BlockReasonCode::BrAmbiguity);
        }
        EndpointAction::Reply(_) => panic!("input-gate failures are coached"),
    }
}

#[test]
fn other_failures_are_breaches_without_coaching() {
    for e in ["draft error: timeout", "BR-RELEASE-DENIED"] {
        match after_pipeline(None, PipelineOutcome::Failed { error: e.to_string() }) {
            EndpointAction::Reply(f) => {
                assert_eq!(f.model, "cosyn-governance");
                assert_eq!(f.content, format!("[GOVERNANCE BREACH] {e}"));
                assert_eq!(f.breach.as_deref(), Some(e));
                assert!(f.coaching.is_none());
            }
            EndpointAction::Coach { .. } => panic!("{e} is not coached"),
        }
    }
}

#[test]
fn every_reply_has_the_fixed_envelope() {
    let fields = breach_reply("BR-AMBIGUITY", Some("Name it.".to_string()));
    let r = reply_envelope(fields, "1234", 42);
    assert_eq!(r.id, "cosyn-1234");
    assert_eq!(r.object, "chat.completion");
    assert_eq!(r.created, 42);
    assert_eq!(r.model, "cosyn-governance");
    assert_eq!(r.choices.len(), 1);
    assert_eq!(r.choices[0].index, 0);
    assert_eq!(r.choices[0].message.role, "assistant");
    assert_eq!(r.choices[0].message.content, "[GOVERNANCE BREACH] BR-AMBIGUITY\n\nName it.");
    assert_eq!(r.choices[0].finish_reason, "stop");
    assert_eq!(r.usage.total_tokens, 0);
    let m = r.cosyn_metadata.unwrap();
    assert!(m.governed);
    assert_eq!(m.breach.as_deref(), Some("BR-AMBIGUITY"));
    assert_eq!(m.coaching.as_deref(), Some("Name it."));
}
