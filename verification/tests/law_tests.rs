//! The gates' properties, each checked on concrete prompts.

use cosyn::coaching::tips::tips_for_gate;
use cosyn::dcc::ambiguity::evaluate_ambiguity;
use cosyn::dcc::evidence::evaluate_evidence;
use cosyn::dcc::subject::bind_subject;
use cosyn::dcc::types::{AmbiguityState, BlockReasonCode, EvidenceScope, PriorMessage, SubjectSource};
use cosyn::orchestrator::run_input_gates;
use cosyn::proxy::handlers::{is_input_gate, parse_block_reason};

fn message(role: &str, content: &str) -> PriorMessage {
    PriorMessage { role: role.to_string(), content: content.to_string() }
}

fn france_context() -> Vec<PriorMessage> {
    vec![
        message("user", "What is the capital of France?"),
        message("assistant", "The capital of France is Paris."),
    ]
}

const PROMPTS: [&str; 8] = [
    "",
    "asdfghjkl",
    "tell me more about it",
    "explain it further",
    "do the thing with the stuff",
    "What is the capital of France?",
    "summarize",
    "elaborate on that",
];

#[test]
fn empty_context_matches_no_context() {
    let empty: Vec<PriorMessage> = vec![];
    for p in PROMPTS {
        let a = bind_subject(p, Some(&empty));
        let b = bind_subject(p, None);
        assert_eq!(a.source, b.source, "{p}");
        assert_eq!(a.canonical_subject, b.canonical_subject, "{p}");
        assert_eq!(evaluate_evidence(p, Some(&empty)), evaluate_evidence(p, None), "{p}");
        assert_eq!(evaluate_ambiguity(p, Some(&empty)), evaluate_ambiguity(p, None), "{p}");
        assert_eq!(run_input_gates(p, Some(&empty)), run_input_gates(p, None), "{p}");
    }
}

#[test]
fn context_never_blocks_a_cold_pass() {
    let ctx = france_context();
    for p in PROMPTS {
        if run_input_gates(p, None).is_ok() {
            assert_eq!(run_input_gates(p, Some(&ctx)), Ok(()), "{p}");
        }
    }
    assert_eq!(run_input_gates("What is the capital of France?", Some(&ctx)), Ok(()));
}

#[test]
fn context_subject_is_the_last_answer_and_recognized() {
    let ctx = france_context();
    assert_eq!(bind_subject("tell me more about it", None).source, SubjectSource::Unknown);
    let b = bind_subject("tell me more about it", Some(&ctx));
    assert_eq!(b.source, SubjectSource::Recognized);
    assert_eq!(b.canonical_subject.as_deref(), Some("The capital of France is Paris."));
}

#[test]
fn context_without_substance_resolves_nothing() {
    let ctx = vec![message("user", "hi"), message("assistant", "It is so.")];
    assert_eq!(bind_subject("explain it further", Some(&ctx)).source, SubjectSource::Unknown);
    assert_eq!(evaluate_ambiguity("explain it further", Some(&ctx)), AmbiguityState::Ambiguous);
    assert_eq!(run_input_gates("explain it further", Some(&ctx)), Err(BlockReasonCode::BrSubjectUnknown));
}

#[test]
fn vague_prompts_stay_ambiguous_with_context() {
    let ctx = france_context();
    assert_eq!(evaluate_ambiguity("do the thing with the stuff", Some(&ctx)), AmbiguityState::Ambiguous);
    assert_eq!(evaluate_ambiguity("something whatever", Some(&ctx)), AmbiguityState::Ambiguous);
    assert_eq!(evaluate_evidence("do the thing with the stuff", Some(&ctx)), EvidenceScope::Unsatisfied);
}

#[test]
fn blank_prompt_is_blocked_at_subject() {
    let ctx = france_context();
    for p in ["", "   ", "\n\t "] {
        assert_eq!(run_input_gates(p, Some(&ctx)), Err(BlockReasonCode::BrSubjectUnknown));
        assert_eq!(evaluate_evidence(p, Some(&ctx)), EvidenceScope::Unsatisfied);
        assert_eq!(evaluate_ambiguity(p, Some(&ctx)), AmbiguityState::Ambiguous);
    }
}

#[test]
fn naming_the_system_binds_it() {
    let b = bind_subject("  What is CoSyn?  ", None);
    assert_eq!(b.source, SubjectSource::Crs);
    assert_eq!(b.canonical_subject.as_deref(), Some("cosyn"));
}

#[test]
fn input_gate_blocks_are_coached() {
    for p in PROMPTS {
        if let Err(code) = run_input_gates(p, None) {
            assert!(is_input_gate(code), "{p}");
            assert!(!tips_for_gate(code).is_empty(), "{p}");
        }
    }
}

#[test]
fn block_codes_read_back() {
    let all = [
        BlockReasonCode::BrSubjectUnknown,
        BlockReasonCode::BrEvidenceUnsat,
        BlockReasonCode::BrAmbiguity,
        BlockReasonCode::BrStructuralFail,
        BlockReasonCode::BrGroundingFail,
        BlockReasonCode::BrVersionConflict,
        BlockReasonCode::BrVersionUndefined,
        BlockReasonCode::BrReleaseDenied,
    ];
    for c in all {
        assert_eq!(parse_block_reason(c.code()), Some(c));
    }
}

#[test]
fn reference_without_pointing_back_is_ambiguous_in_context() {
    // "her" needs an antecedent, so the prompt does not stand on its own; the
    // conversation supplies a subject, but "her" is no deictic word, so the
    // ambiguity gate is the one that blocks.
    let ctx = france_context();
    assert_eq!(
        run_input_gates("tell me more about her", Some(&ctx)),
        Err(BlockReasonCode::BrAmbiguity)
    );
}

#[test]
fn context_binds_only_an_unbound_prompt_to_the_last_answer() {
    let ctx = france_context();
    // Bound without context: context changes nothing.
    let cold = bind_subject("What is the capital of France?", None);
    let warm = bind_subject("What is the capital of France?", Some(&ctx));
    assert_eq!(cold.source, warm.source);
    assert_eq!(cold.canonical_subject, warm.canonical_subject);
    // Unbound, neither a continuation nor pointing back: stays unbound.
    assert_eq!(bind_subject("asdfghjkl", Some(&ctx)).source, SubjectSource::Unknown);
    // Unbound and blank: stays unbound.
    assert_eq!(bind_subject("  ", Some(&ctx)).source, SubjectSource::Unknown);
    // Unbound, points back, answer has substance: the answer, recognized.
    let b = bind_subject("explain it further", Some(&ctx));
    assert_eq!(b.source, SubjectSource::Recognized);
    assert_eq!(b.canonical_subject.as_deref(), Some("The capital of France is Paris."));
}
