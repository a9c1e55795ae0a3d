//! The ambiguity gate: a prompt must say something specific.

use vstd::prelude::*;
use crate::dcc::continuation::{
    answer_has_substance, has_context, has_deictic_reference, has_substance, points_back,
    prior_has_substance, prior_view, text_has_substance,
};
use crate::dcc::types::{AmbiguityState, PriorMessage};
use crate::input_gate::integrity::{evaluate_integrity, integrity_of};
use crate::text::{trim, trim_str, Boundary};

verus! {

/// The ambiguity gate's verdict on a prompt, given the earlier messages.
///
/// A prompt whose every token is a function word or a vague noun ("thing",
/// "stuff", ...) is ambiguous whatever the conversation. Otherwise it is clear
/// when it passes the integrity check, or, given a conversation, when it
/// points back with a deictic word and the last answer has substance.
pub open spec fn ambiguity_of(s: Seq<char>, prior: Option<Seq<PriorMessage>>) -> AmbiguityState {
    let t = trim(s, Boundary::Whitespace);
    if t.len() == 0 || !has_substance(t) {
        AmbiguityState::Ambiguous
    } else if integrity_of(t).proceed {
        AmbiguityState::Clear
    } else if has_context(prior) && points_back(t) && answer_has_substance(prior->0) {
        AmbiguityState::Clear
    } else {
        AmbiguityState::Ambiguous
    }
}

/// Evaluates the ambiguity state of a prompt, with the earlier messages of the
/// conversation when there are any. A prompt without content words, or whose
/// content words are all vague nouns, stays ambiguous even with context;
/// deictic references resolve to clear when the last answer has substance.
pub fn evaluate_ambiguity(input: &str, prior_messages: Option<&[PriorMessage]>) -> (r:
    AmbiguityState)
    ensures
        r == ambiguity_of(input@, prior_view(prior_messages)),
{
    let trimmed = trim_str(input);
    if trimmed.is_empty() {
        return AmbiguityState::Ambiguous;
    }
    if !text_has_substance(trimmed) {
        return AmbiguityState::Ambiguous;
    }
    let signal = evaluate_integrity(trimmed);
    if signal.proceed {
        return AmbiguityState::Clear;
    }
    if let Some(msgs) = prior_messages {
        if msgs.len() > 0 && has_deictic_reference(trimmed) && prior_has_substance(msgs) {
            return AmbiguityState::Clear;
        }
    }
    AmbiguityState::Ambiguous
}

} // verus!
