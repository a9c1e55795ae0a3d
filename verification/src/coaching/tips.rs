//! The coaching tips, and which of them apply to each block reason.

use vstd::prelude::*;
use crate::dcc::types::BlockReasonCode;

verus! {

/// A short principle for writing prompts that pass governance.
#[derive(Debug, Clone, Copy)]
pub struct CoachingTip {
    pub name: &'static str,
    pub content: &'static str,
}

pub const DEICTIC_ANCHORING_NAME: &'static str = "Deictic Anchoring";

pub const DEICTIC_ANCHORING_TEXT: &'static str =
    "Ground your prompt with specific context. Instead of vague references like 'the thing' or 'it', name what you're talking about. Include who, what, and where. Example: instead of 'fix it', say 'fix the login timeout bug in auth.rs'.";

pub const MODES_EVIDENCE_NAME: &'static str = "Modes and Evidence";

pub const MODES_EVIDENCE_TEXT: &'static str =
    "Provide evidence or context the model can work with. State facts, paste data, or reference specific documents. The governance system needs substance \u{2014} not just instructions \u{2014} to verify the response is grounded.";

pub const DETERMINISTIC_DATA_NAME: &'static str = "Deterministic Data Handling";

pub const DETERMINISTIC_DATA_TEXT: &'static str =
    "When working with data or claims, provide the source. Paste the actual numbers, link the document, or quote the passage. The system cannot verify claims it cannot trace back to evidence you supply.";

pub const CRS_DIRECTIVES_NAME: &'static str = "CRS Directives";

pub const CRS_DIRECTIVES_TEXT: &'static str =
    "Be explicit about what you want the model to do. Use clear directives: 'summarize', 'compare', 'list', 'explain'. Ambiguous requests like 'do the thing' or 'help with stuff' cannot be resolved into a governed action.";

pub const FORMATTING_TAX_NAME: &'static str = "Formatting Tax";

pub const FORMATTING_TAX_TEXT: &'static str =
    "Keep formatting requests minimal. Heavy formatting constraints (tables, specific markdown structures) consume model attention that could go toward content quality. State your format need simply and let the governance layer handle structure.";

pub open spec fn deictic_anchoring() -> CoachingTip {
    CoachingTip { name: DEICTIC_ANCHORING_NAME, content: DEICTIC_ANCHORING_TEXT }
}

pub open spec fn modes_evidence() -> CoachingTip {
    CoachingTip { name: MODES_EVIDENCE_NAME, content: MODES_EVIDENCE_TEXT }
}

pub open spec fn deterministic_data() -> CoachingTip {
    CoachingTip { name: DETERMINISTIC_DATA_NAME, content: DETERMINISTIC_DATA_TEXT }
}

pub open spec fn crs_directives() -> CoachingTip {
    CoachingTip { name: CRS_DIRECTIVES_NAME, content: CRS_DIRECTIVES_TEXT }
}

pub open spec fn formatting_tax() -> CoachingTip {
    CoachingTip { name: FORMATTING_TAX_NAME, content: FORMATTING_TAX_TEXT }
}

/// The tips that apply to a block reason. Version and release reasons are
/// system errors: no tip applies to them.
pub open spec fn tips_of(code: BlockReasonCode) -> Seq<CoachingTip> {
    match code {
        BlockReasonCode::BrSubjectUnknown => seq![deictic_anchoring(), modes_evidence()],
        BlockReasonCode::BrEvidenceUnsat => seq![deterministic_data(), modes_evidence()],
        BlockReasonCode::BrAmbiguity => seq![deictic_anchoring(), crs_directives()],
        BlockReasonCode::BrStructuralFail | BlockReasonCode::BrGroundingFail => seq![
            formatting_tax(),
        ],
        BlockReasonCode::BrVersionConflict
        | BlockReasonCode::BrVersionUndefined
        | BlockReasonCode::BrReleaseDenied => seq![],
    }
}

/// Returns the one or two coaching tips most relevant to a block reason; none
/// for version and release reasons.
pub fn tips_for_gate(code: BlockReasonCode) -> (r: Vec<CoachingTip>)
    ensures
        r@ == tips_of(code),
{
    let deictic = CoachingTip { name: DEICTIC_ANCHORING_NAME, content: DEICTIC_ANCHORING_TEXT };
    let evidence = CoachingTip { name: MODES_EVIDENCE_NAME, content: MODES_EVIDENCE_TEXT };
    let r = match code {
        BlockReasonCode::BrSubjectUnknown => vec![deictic, evidence],
        BlockReasonCode::BrEvidenceUnsat => vec![
            CoachingTip { name: DETERMINISTIC_DATA_NAME, content: DETERMINISTIC_DATA_TEXT },
            evidence,
        ],
        BlockReasonCode::BrAmbiguity => vec![
            deictic,
            CoachingTip { name: CRS_DIRECTIVES_NAME, content: CRS_DIRECTIVES_TEXT },
        ],
        BlockReasonCode::BrStructuralFail | BlockReasonCode::BrGroundingFail => vec![
            CoachingTip { name: FORMATTING_TAX_NAME, content: FORMATTING_TAX_TEXT },
        ],
        BlockReasonCode::BrVersionConflict
        | BlockReasonCode::BrVersionUndefined
        | BlockReasonCode::BrReleaseDenied => vec![],
    };
    assert(r@ =~= tips_of(code));
    r
}

} // verus!
