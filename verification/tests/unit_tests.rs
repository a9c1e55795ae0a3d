//! Exact results of the library's functions on chosen inputs.

use cosyn::authority_loader::{artifact_pattern, select_artifact, validate_authorities, AuthorityBundle};
use cosyn::dcc::continuation::{content_word_count, has_deictic_reference, is_continuation, prior_has_substance};
use cosyn::dcc::evidence::evaluate_evidence;
use cosyn::dcc::subject::bind_subject;
use cosyn::dcc::types::{BlockReasonCode, EvidenceScope, PriorMessage, SubjectSource};
use cosyn::input_gate::integrity::evaluate_integrity;
use cosyn::orchestrator::run_input_gates;
use cosyn::provider::{
    anthropic_reply, model_or, ollama_reply, openai_reply, provider_kind, split_system_messages,
    LlmMessage, ProviderKind,
};
use cosyn::proxy::handlers::{breach_display, is_input_gate, last_user_message, parse_block_reason};

fn bundle(cgs: &str, governor: &str, architect: &str) -> AuthorityBundle {
    AuthorityBundle {
        cgs_raw: cgs.to_string(),
        governor_raw: governor.to_string(),
        architect_raw: architect.to_string(),
    }
}

#[test]
fn authorities_with_their_titles_are_valid() {
    let b = bundle("# CoSyn Constitution v15", "Persona Governor v2", "the Stack Architect");
    assert_eq!(validate_authorities(&b), Ok(()));
}

#[test]
fn each_missing_title_is_named() {
    let b = bundle("constitution", "Persona Governor", "Stack Architect");
    assert_eq!(validate_authorities(&b), Err("CGS identity invalid".to_string()));
    let b = bundle("CoSyn Constitution", "persona governor", "Stack Architect");
    assert_eq!(validate_authorities(&b), Err("Governor identity invalid".to_string()));
    let b = bundle("CoSyn Constitution", "Persona Governor", "");
    assert_eq!(validate_authorities(&b), Err("Architect identity invalid".to_string()));
}

#[test]
fn artifact_patterns_by_role() {
    assert_eq!(artifact_pattern("cgs"), Ok("cosyn-constitution"));
    assert_eq!(artifact_pattern("governor"), Ok("Persona_Governor"));
    assert_eq!(artifact_pattern("architect"), Ok("Stack_Architect"));
    assert_eq!(artifact_pattern("judge"), Err("Unknown artifact role: judge".to_string()));
}

#[test]
fn first_matching_markdown_file_is_chosen() {
    let names: Vec<String> = ["notes.txt", "Persona_Governor_v2.4.2.txt", "Persona_Governor_v2.4.2.md", "Persona_Governor_old.md"]
        .iter()
        .map(|s| s.to_string())
        .collect();
    assert_eq!(select_artifact("dir", &names, "governor"), Ok(2));
    assert_eq!(
        select_artifact("profiles", &names, "cgs"),
        Err("No cgs artifact found in profiles".to_string())
    );
    assert_eq!(
        select_artifact("profiles", &names, "other"),
        Err("Unknown artifact role: other".to_string())
    );
}

#[test]
fn provider_kinds_by_name() {
    assert_eq!(provider_kind("openai"), Ok(ProviderKind::OpenAi));
    assert_eq!(provider_kind("anthropic"), Ok(ProviderKind::Anthropic));
    assert_eq!(provider_kind("ollama"), Ok(ProviderKind::Ollama));
    assert_eq!(provider_kind("unknown"), Err("Unknown provider: unknown".to_string()));
    assert!(provider_kind("OpenAI").is_err());
}

fn llm(role: &str, content: &str) -> LlmMessage {
    LlmMessage { role: role.to_string(), content: content.to_string() }
}

#[test]
fn system_messages_are_taken_apart() {
    let msgs = vec![llm("user", "a"), llm("system", "first"), llm("assistant", "b"), llm("system", "second")];
    let (rest, system) = split_system_messages(&msgs);
    assert_eq!(rest.iter().map(|m| m.content.as_str()).collect::<Vec<_>>(), vec!["a", "b"]);
    assert_eq!(system.as_deref(), Some("first"));
    let (rest, system) = split_system_messages(&[llm("user", "only")]);
    assert_eq!(rest.len(), 1);
    assert!(system.is_none());
}

#[test]
fn block_reasons_are_read_from_error_texts() {
    assert_eq!(parse_block_reason("blocked: BR-AMBIGUITY at gate"), Some(BlockReasonCode::BrAmbiguity));
    assert_eq!(
        parse_block_reason("BR-RELEASE-DENIED after BR-EVIDENCE-UNSAT"),
        Some(BlockReasonCode::BrEvidenceUnsat)
    );
    assert_eq!(parse_block_reason("network error"), None);
    assert_eq!(parse_block_reason("br-ambiguity"), None);
}

#[test]
fn only_input_gate_reasons_are_coached() {
    assert!(is_input_gate(BlockReasonCode::BrSubjectUnknown));
    assert!(is_input_gate(BlockReasonCode::BrEvidenceUnsat));
    assert!(is_input_gate(BlockReasonCode::BrAmbiguity));
    assert!(!is_input_gate(BlockReasonCode::BrStructuralFail));
    assert!(!is_input_gate(BlockReasonCode::BrReleaseDenied));
}

#[test]
fn breach_text_with_and_without_coaching() {
    assert_eq!(breach_display("BR-AMBIGUITY", None), "[GOVERNANCE BREACH] BR-AMBIGUITY");
    assert_eq!(
        breach_display("BR-AMBIGUITY", Some("Name it.")),
        "[GOVERNANCE BREACH] BR-AMBIGUITY\n\nName it."
    );
}

fn message(role: &str, content: &str) -> PriorMessage {
    PriorMessage { role: role.to_string(), content: content.to_string() }
}

#[test]
fn governed_prompt_is_the_last_user_message() {
    let msgs = vec![message("user", "one"), message("assistant", "two"), message("user", "three"), message("system", "x")];
    assert_eq!(last_user_message(&msgs), "three");
    assert_eq!(last_user_message(&[message("system", "x")]), "");
}

#[test]
fn integrity_signals() {
    let s = evaluate_integrity("What is the capital of France?");
    assert!(s.proceed && !s.recognized_unbound);
    let s = evaluate_integrity("Summarize!");
    assert!(s.proceed && s.recognized_unbound);
    let s = evaluate_integrity("asdfghjkl");
    assert!(!s.proceed && !s.recognized_unbound);
    assert!(!evaluate_integrity("is she coming").proceed);
    assert!(evaluate_integrity("elaborate on that").proceed);
    assert!(!evaluate_integrity("?!").proceed);
}

#[test]
fn lone_directive_is_recognized() {
    let b = bind_subject(" summarize ", None);
    assert_eq!(b.source, SubjectSource::Recognized);
    assert_eq!(b.canonical_subject.as_deref(), Some("summarize"));
}

#[test]
fn user_text_subject_is_the_trimmed_prompt() {
    let b = bind_subject("\t What is the capital of France? \n", None);
    assert_eq!(b.source, SubjectSource::UserText);
    assert_eq!(b.canonical_subject.as_deref(), Some("What is the capital of France?"));
}

#[test]
fn uppercase_continuations_are_recognized() {
    // Lowercasing decides: the phrase is written in capitals here.
    assert!(is_continuation("TELL ME MORE"));
    assert!(!is_continuation("tell me a story"));
}

#[test]
fn whitespace_of_all_kinds_separates_words() {
    assert_eq!(content_word_count("alpha\tbeta\ngamma\u{3000}delta"), 4);
    assert_eq!(content_word_count("alpha-beta"), 1);
    assert_eq!(content_word_count("the, a; an!"), 0);
}

#[test]
fn punctuation_is_trimmed_from_tokens() {
    assert!(has_deictic_reference("(it)"));
    assert!(has_deictic_reference("IT'S"));
    assert!(!has_deictic_reference("itself"));
    let ctx = vec![message("assistant", "...the, a!")];
    assert!(!prior_has_substance(&ctx));
    let ctx = vec![message("assistant", "Paris.")];
    assert!(prior_has_substance(&ctx));
}

#[test]
fn markdown_scaffolding_is_no_evidence() {
    assert_eq!(evaluate_evidence("# \n---\n```\n>\n-\n*", None), EvidenceScope::Unsatisfied);
    assert_eq!(evaluate_evidence("# Title\nParis", None), EvidenceScope::Satisfied);
    assert_eq!(evaluate_evidence("# Paris", None), EvidenceScope::Unsatisfied);
    assert_eq!(evaluate_evidence("is the a", None), EvidenceScope::Unsatisfied);
}

#[test]
fn gates_run_in_order() {
    assert_eq!(run_input_gates("asdfghjkl", None), Err(BlockReasonCode::BrSubjectUnknown));
    assert_eq!(run_input_gates("is the a", None), Err(BlockReasonCode::BrEvidenceUnsat));
    assert_eq!(run_input_gates("What is the capital of France?", None), Ok(()));
}

#[test]
fn provider_replies_become_answers() {
    let r = openai_reply(Some("Paris.".to_string()), "gpt".to_string(), Some((5, 6))).unwrap();
    assert_eq!((r.content.as_str(), r.model.as_str(), r.input_tokens, r.output_tokens), ("Paris.", "gpt", 5, 6));
    let r = openai_reply(Some("x".to_string()), "gpt".to_string(), None).unwrap();
    assert_eq!((r.input_tokens, r.output_tokens), (0, 0));
    let r = anthropic_reply(Some("y".to_string()), "m".to_string(), Some(7), None).unwrap();
    assert_eq!((r.content.as_str(), r.model.as_str(), r.input_tokens, r.output_tokens), ("y", "m", 7, 0));
    let r = ollama_reply(Some("z".to_string()), "llama3".to_string()).unwrap();
    assert_eq!((r.input_tokens, r.output_tokens), (0, 0));
}

#[test]
fn empty_provider_replies_are_refused() {
    assert_eq!(openai_reply(None, "gpt".to_string(), None).unwrap_err(), "API returned empty content");
    assert_eq!(openai_reply(Some(String::new()), "gpt".to_string(), None).unwrap_err(), "API returned empty content");
    assert_eq!(anthropic_reply(None, "m".to_string(), None, None).unwrap_err(), "API returned empty content");
    assert_eq!(ollama_reply(Some(String::new()), "m".to_string()).unwrap_err(), "Ollama returned empty content");
}

#[test]
fn requested_model_or_default() {
    assert_eq!(model_or(None, "gpt-4o-mini"), "gpt-4o-mini");
    assert_eq!(model_or(Some("llama2".to_string()), "llama3"), "llama2");
}
