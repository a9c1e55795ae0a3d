//! The input phase of the governed pipeline: the gates in their order.

use vstd::prelude::*;
use crate::dcc::ambiguity::{ambiguity_of, evaluate_ambiguity};
use crate::dcc::continuation::prior_view;
use crate::dcc::evidence::{evaluate_evidence, evidence_of};
use crate::dcc::subject::{bind_subject, binding_of};
use crate::dcc::types::{AmbiguityState, BlockReasonCode, EvidenceScope, PriorMessage, SubjectSource};

verus! {

/// The verdict of the input gates: the first gate that blocks, in the order
/// subject, evidence, ambiguity.
pub open spec fn gates_verdict(s: Seq<char>, prior: Option<Seq<PriorMessage>>) -> Result<
    (),
    BlockReasonCode,
> {
    if binding_of(s, prior).1 == SubjectSource::Unknown {
        Err(BlockReasonCode::BrSubjectUnknown)
    } else if evidence_of(s, prior) == EvidenceScope::Unsatisfied {
        Err(BlockReasonCode::BrEvidenceUnsat)
    } else if ambiguity_of(s, prior) == AmbiguityState::Ambiguous {
        Err(BlockReasonCode::BrAmbiguity)
    } else {
        Ok(())
    }
}

/// Runs the input gates on a prompt: subject binding, then evidence, then
/// ambiguity. Returns the reason of the first gate that blocks.
pub fn run_input_gates(input: &str, prior_messages: Option<&[PriorMessage]>) -> (r: Result<
    (),
    BlockReasonCode,
>)
    ensures
        r == gates_verdict(input@, prior_view(prior_messages)),
{
    let binding = bind_subject(input, prior_messages);
    if binding.source == SubjectSource::Unknown {
        return Err(BlockReasonCode::BrSubjectUnknown);
    }
    let evidence = evaluate_evidence(input, prior_messages);
    if evidence == EvidenceScope::Unsatisfied {
        return Err(BlockReasonCode::BrEvidenceUnsat);
    }
    let ambiguity = evaluate_ambiguity(input, prior_messages);
    if ambiguity == AmbiguityState::Ambiguous {
        return Err(BlockReasonCode::BrAmbiguity);
    }
    Ok(())
}

} // verus!
