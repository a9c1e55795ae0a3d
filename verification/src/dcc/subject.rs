//! Subject binding: what a prompt is about.

use vstd::prelude::*;
use crate::dcc::continuation::{
    answer_has_substance, continues, has_context, has_deictic_reference, is_continuation,
    last_answer, last_assistant_content, points_back, prior_has_substance, prior_view,
};
use crate::dcc::types::{PriorMessage, SubjectSource};
use crate::input_gate::integrity::{evaluate_integrity, integrity_of, CANONICAL_IDENTITY};
use crate::text::{
    chars_of, contains_text, find_text, lowercase, trim, trim_str, lowercased, Boundary,
};

verus! {

/// The subject a prompt was bound to, and where it was found.
pub struct SubjectBinding {
    pub canonical_subject: Option<String>,
    pub source: SubjectSource,
}

/// The subject and its source, as character sequences.
pub open spec fn binding_view(b: SubjectBinding) -> (Option<Seq<char>>, SubjectSource) {
    (
        match b.canonical_subject {
            Some(s) => Some(s@),
            None => None,
        },
        b.source,
    )
}

/// The binding of a prompt, given the earlier messages.
///
/// A prompt that names the system is bound to the system's identity. A prompt
/// that passes the integrity check is bound to its own trimmed text, as
/// recognized when it binds no subject of its own. Given a conversation, a
/// continuation or a prompt that points back is bound to the last answer when
/// that answer has substance and passes the integrity check; the subject is
/// then recognized, never user text. Anything else has no subject.
pub open spec fn binding_of(s: Seq<char>, prior: Option<Seq<PriorMessage>>) -> (
    Option<Seq<char>>,
    SubjectSource,
) {
    let t = trim(s, Boundary::Whitespace);
    if t.len() == 0 {
        (None, SubjectSource::Unknown)
    } else if contains_text(lowercased(t), CANONICAL_IDENTITY@) {
        (Some(CANONICAL_IDENTITY@), SubjectSource::Crs)
    } else if integrity_of(t).proceed {
        (
            Some(t),
            if integrity_of(t).recognized_unbound {
                SubjectSource::Recognized
            } else {
                SubjectSource::UserText
            },
        )
    } else if has_context(prior) && (continues(t) || points_back(t)) && last_answer(
        prior->0,
    ) is Some && answer_has_substance(prior->0) && integrity_of(
        last_answer(prior->0)->0,
    ).proceed {
        (last_answer(prior->0), SubjectSource::Recognized)
    } else {
        (None, SubjectSource::Unknown)
    }
}

/// Resolves the subject binding of a prompt, with the earlier messages of the
/// conversation when there are any.
pub fn bind_subject(input: &str, prior_messages: Option<&[PriorMessage]>) -> (r: SubjectBinding)
    ensures
        binding_view(r) == binding_of(input@, prior_view(prior_messages)),
{
    let trimmed = trim_str(input);
    if trimmed.is_empty() {
        return SubjectBinding { canonical_subject: None, source: SubjectSource::Unknown };
    }
    let lower = lowercase(chars_of(trimmed).as_slice());
    if find_text(&lower, &chars_of(CANONICAL_IDENTITY)) {
        return SubjectBinding {
            canonical_subject: Some(CANONICAL_IDENTITY.to_owned()),
            source: SubjectSource::Crs,
        };
    }
    let signal = evaluate_integrity(trimmed);
    if signal.proceed {
        if signal.recognized_unbound {
            return SubjectBinding {
                canonical_subject: Some(trimmed.to_owned()),
                source: SubjectSource::Recognized,
            };
        }
        return SubjectBinding {
            canonical_subject: Some(trimmed.to_owned()),
            source: SubjectSource::UserText,
        };
    }
    if let Some(msgs) = prior_messages {
        if msgs.len() > 0 && (is_continuation(trimmed) || has_deictic_reference(trimmed)) {
            if let Some(assistant_content) = last_assistant_content(msgs) {
                if prior_has_substance(msgs) {
                    let context_signal = evaluate_integrity(assistant_content);
                    if context_signal.proceed {
                        return SubjectBinding {
                            canonical_subject: Some(assistant_content.to_owned()),
                            source: SubjectSource::Recognized,
                        };
                    }
                }
            }
        }
    }
    SubjectBinding { canonical_subject: None, source: SubjectSource::Unknown }
}

} // verus!
