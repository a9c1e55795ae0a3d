//! Cold-start gate tests: every gate runs without conversation context.

use cosyn::dcc::ambiguity::evaluate_ambiguity;
use cosyn::dcc::evidence::evaluate_evidence;
use cosyn::dcc::subject::bind_subject;
use cosyn::dcc::types::{AmbiguityState, EvidenceScope, SubjectSource};

/// Runs the three input gates with no context; the first block reason, or Ok.
fn run_input_gates(input: &str) -> Result<(), &'static str> {
    let binding = bind_subject(input, None);
    if binding.source == SubjectSource::Unknown {
        return Err("BR-SUBJECT-UNKNOWN");
    }
    let evidence = evaluate_evidence(input, None);
    if evidence == EvidenceScope::Unsatisfied {
        return Err("BR-EVIDENCE-UNSAT");
    }
    let ambiguity = evaluate_ambiguity(input, None);
    if ambiguity == AmbiguityState::Ambiguous {
        return Err("BR-AMBIGUITY");
    }
    Ok(())
}

#[test]
fn unresolvable_subject() {
    assert_eq!(run_input_gates("asdfghjkl"), Err("BR-SUBJECT-UNKNOWN"));
}

#[test]
fn max_ambiguity() {
    // All tokens are function words or vague nouns: the evidence gate blocks
    // before the ambiguity gate is reached.
    assert_eq!(run_input_gates("do the thing with the stuff"), Err("BR-EVIDENCE-UNSAT"));
}

#[test]
fn all_function_words() {
    assert_eq!(run_input_gates("is the a"), Err("BR-EVIDENCE-UNSAT"));
}

#[test]
fn all_vague_nouns() {
    assert_eq!(run_input_gates("something whatever"), Err("BR-EVIDENCE-UNSAT"));
}

#[test]
fn empty_input() {
    assert_eq!(run_input_gates(""), Err("BR-SUBJECT-UNKNOWN"));
}

#[test]
fn clean_factual() {
    assert!(run_input_gates("What is the capital of France?").is_ok());
}

#[test]
fn clean_general() {
    assert!(run_input_gates("What are the health benefits of exercise?").is_ok());
}
