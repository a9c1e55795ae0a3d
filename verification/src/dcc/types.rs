//! The values that the input gates produce and consume.

use vstd::prelude::*;

verus! {

/// One earlier message of the conversation, as the client sent it.
#[derive(Debug, Clone)]
pub struct PriorMessage {
    pub role: String,
    pub content: String,
}

/// Where the subject of a prompt was found.
#[derive(Debug, Clone, Copy, PartialEq, Eq, Structural)]
pub enum SubjectSource {
    /// The prompt names the system itself.
    Crs,
    /// The prompt itself is grounded.
    UserText,
    /// Understood without a bound subject: a lone directive, or a subject
    /// carried over from the conversation.
    Recognized,
    /// No subject: the prompt is blocked.
    Unknown,
}

/// Whether a prompt can be read one way only.
#[derive(Debug, Clone, Copy, PartialEq, Eq, Structural)]
pub enum AmbiguityState {
    Clear,
    Ambiguous,
}

/// Whether a prompt carries substance to work with.
#[derive(Debug, Clone, Copy, PartialEq, Eq, Structural)]
pub enum EvidenceScope {
    Satisfied,
    Unsatisfied,
}

/// Why the governance pipeline blocked a request or a response.
#[derive(Debug, Clone, Copy, PartialEq, Eq, Structural)]
pub enum BlockReasonCode {
    BrSubjectUnknown,
    BrEvidenceUnsat,
    BrAmbiguity,
    BrStructuralFail,
    BrGroundingFail,
    BrVersionConflict,
    BrVersionUndefined,
    BrReleaseDenied,
}

/// The code under which a block reason is reported.
pub open spec fn reason_code(c: BlockReasonCode) -> &'static str {
    match c {
        BlockReasonCode::BrSubjectUnknown => "BR-SUBJECT-UNKNOWN",
        BlockReasonCode::BrEvidenceUnsat => "BR-EVIDENCE-UNSAT",
        BlockReasonCode::BrAmbiguity => "BR-AMBIGUITY",
        BlockReasonCode::BrStructuralFail => "BR-STRUCTURAL-FAIL",
        BlockReasonCode::BrGroundingFail => "BR-GROUNDING-FAIL",
        BlockReasonCode::BrVersionConflict => "BR-VERSION-CONFLICT",
        BlockReasonCode::BrVersionUndefined => "BR-VERSION-UNDEFINED",
        BlockReasonCode::BrReleaseDenied => "BR-RELEASE-DENIED",
    }
}

/// The message shown to the user for a block reason.
pub open spec fn reason_message(c: BlockReasonCode) -> &'static str {
    match c {
        BlockReasonCode::BrSubjectUnknown =>
            "Your input could not be bound to a clear subject. Say what you are asking about.",
        BlockReasonCode::BrEvidenceUnsat =>
            "Your input has too little substance to act on. Add the specific details or context.",
        BlockReasonCode::BrAmbiguity =>
            "Your input can be read in more than one way. Name what you are referring to.",
        BlockReasonCode::BrStructuralFail =>
            "The response failed structural grounding and was withheld.",
        BlockReasonCode::BrGroundingFail =>
            "The response could not be grounded in your input and was withheld.",
        BlockReasonCode::BrVersionConflict =>
            "The governance versions in use conflict; the request was blocked.",
        BlockReasonCode::BrVersionUndefined =>
            "No governance version is defined; the request was blocked.",
        BlockReasonCode::BrReleaseDenied => "Release of the response was denied by governance.",
    }
}

impl BlockReasonCode {
    /// The code under which this reason is reported, such as "BR-AMBIGUITY".
    pub fn code(&self) -> (r: &'static str)
        ensures
            r == reason_code(*self),
    {
        match self {
            BlockReasonCode::BrSubjectUnknown => "BR-SUBJECT-UNKNOWN",
            BlockReasonCode::BrEvidenceUnsat => "BR-EVIDENCE-UNSAT",
            BlockReasonCode::BrAmbiguity => "BR-AMBIGUITY",
            BlockReasonCode::BrStructuralFail => "BR-STRUCTURAL-FAIL",
            BlockReasonCode::BrGroundingFail => "BR-GROUNDING-FAIL",
            BlockReasonCode::BrVersionConflict => "BR-VERSION-CONFLICT",
            BlockReasonCode::BrVersionUndefined => "BR-VERSION-UNDEFINED",
            BlockReasonCode::BrReleaseDenied => "BR-RELEASE-DENIED",
        }
    }

    /// The message shown to the user when this reason blocks a prompt.
    pub fn user_message(&self) -> (r: &'static str)
        ensures
            r == reason_message(*self),
    {
        match self {
            BlockReasonCode::BrSubjectUnknown =>
                "Your input could not be bound to a clear subject. Say what you are asking about.",
            BlockReasonCode::BrEvidenceUnsat =>
                "Your input has too little substance to act on. Add the specific details or context.",
            BlockReasonCode::BrAmbiguity =>
                "Your input can be read in more than one way. Name what you are referring to.",
            BlockReasonCode::BrStructuralFail =>
                "The response failed structural grounding and was withheld.",
            BlockReasonCode::BrGroundingFail =>
                "The response could not be grounded in your input and was withheld.",
            BlockReasonCode::BrVersionConflict =>
                "The governance versions in use conflict; the request was blocked.",
            BlockReasonCode::BrVersionUndefined =>
                "No governance version is defined; the request was blocked.",
            BlockReasonCode::BrReleaseDenied => "Release of the response was denied by governance.",
        }
    }
}

} // verus!
