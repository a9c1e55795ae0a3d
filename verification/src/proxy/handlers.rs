//! What the chat endpoint decides: which prompt it governs, which block reason
//! an error carries, whether the user is coached, and how a breach is shown.

use vstd::prelude::*;
use vstd::string::StringExecFns;
use crate::dcc::continuation::{last_content, last_content_of_role};
use crate::dcc::types::{reason_code, BlockReasonCode, PriorMessage};
use crate::proxy::types::{ChatChoice, ChatCompletionResponse, ChatMessage, ChatUsage, CosynMetadata};
use crate::text::{contains_text, lemma_take_step, str_contains, str_equal};

verus! {

/// The block reason whose code an error text carries, the codes tried in a
/// fixed order.
pub open spec fn block_reason_in(e: Seq<char>) -> Option<BlockReasonCode> {
    if contains_text(e, "BR-SUBJECT-UNKNOWN"@) {
        Some(BlockReasonCode::BrSubjectUnknown)
    } else if contains_text(e, "BR-EVIDENCE-UNSAT"@) {
        Some(BlockReasonCode::BrEvidenceUnsat)
    } else if contains_text(e, "BR-AMBIGUITY"@) {
        Some(BlockReasonCode::BrAmbiguity)
    } else if contains_text(e, "BR-STRUCTURAL-FAIL"@) {
        Some(BlockReasonCode::BrStructuralFail)
    } else if contains_text(e, "BR-GROUNDING-FAIL"@) {
        Some(BlockReasonCode::BrGroundingFail)
    } else if contains_text(e, "BR-VERSION-CONFLICT"@) {
        Some(BlockReasonCode::BrVersionConflict)
    } else if contains_text(e, "BR-VERSION-UNDEFINED"@) {
        Some(BlockReasonCode::BrVersionUndefined)
    } else if contains_text(e, "BR-RELEASE-DENIED"@) {
        Some(BlockReasonCode::BrReleaseDenied)
    } else {
        None
    }
}

/// Parses the block reason from an error text that holds a "BR-" code.
pub fn parse_block_reason(error: &str) -> (r: Option<BlockReasonCode>)
    ensures
        r == block_reason_in(error@),
{
    if str_contains(error, "BR-SUBJECT-UNKNOWN") {
        Some(BlockReasonCode::BrSubjectUnknown)
    } else if str_contains(error, "BR-EVIDENCE-UNSAT") {
        Some(BlockReasonCode::BrEvidenceUnsat)
    } else if str_contains(error, "BR-AMBIGUITY") {
        Some(BlockReasonCode::BrAmbiguity)
    } else if str_contains(error, "BR-STRUCTURAL-FAIL") {
        Some(BlockReasonCode::BrStructuralFail)
    } else if str_contains(error, "BR-GROUNDING-FAIL") {
        Some(BlockReasonCode::BrGroundingFail)
    } else if str_contains(error, "BR-VERSION-CONFLICT") {
        Some(BlockReasonCode::BrVersionConflict)
    } else if str_contains(error, "BR-VERSION-UNDEFINED") {
        Some(BlockReasonCode::BrVersionUndefined)
    } else if str_contains(error, "BR-RELEASE-DENIED") {
        Some(BlockReasonCode::BrReleaseDenied)
    } else {
        None
    }
}

/// The reasons raised by the input gates, where coaching the user helps.
pub open spec fn input_gate_reason(code: BlockReasonCode) -> bool {
    ||| code == BlockReasonCode::BrSubjectUnknown
    ||| code == BlockReasonCode::BrEvidenceUnsat
    ||| code == BlockReasonCode::BrAmbiguity
}

/// Whether a block reason comes from an input gate.
pub fn is_input_gate(code: BlockReasonCode) -> (r: bool)
    ensures
        r == input_gate_reason(code),
{
    match code {
        BlockReasonCode::BrSubjectUnknown
        | BlockReasonCode::BrEvidenceUnsat
        | BlockReasonCode::BrAmbiguity => true,
        _ => false,
    }
}

pub const BREACH_MARKER: &'static str = "[GOVERNANCE BREACH] ";

/// The text shown for a breach: the marker and the error, then the coaching
/// after a blank line when there is any.
pub open spec fn breach_text(error: Seq<char>, coaching: Option<Seq<char>>) -> Seq<char> {
    match coaching {
        Some(c) => BREACH_MARKER@ + error + "\n\n"@ + c,
        None => BREACH_MARKER@ + error,
    }
}

/// Writes the message that replaces the model's answer when governance
/// blocks a request.
pub fn breach_display(error: &str, coaching: Option<&str>) -> (r: String)
    ensures
        r@ == breach_text(
            error@,
            match coaching {
                Some(c) => Some(c@),
                None => None,
            },
        ),
{
    let mut out = BREACH_MARKER.to_owned();
    out.append(error);
    if let Some(c) = coaching {
        out.append("\n\n");
        out.append(c);
    }
    out
}

/// The prompt that the proxy governs: the content of the last user message,
/// or the empty text when there is none.
pub open spec fn governed_prompt(ms: Seq<PriorMessage>) -> Seq<char> {
    match last_content(ms, "user"@) {
        Some(c) => c,
        None => Seq::empty(),
    }
}

/// The prompt that the proxy governs: the content of the last user message,
/// or the empty text when there is none.
pub fn last_user_message(messages: &[PriorMessage]) -> (r: String)
    ensures
        r@ == governed_prompt(messages@),
{
    match last_content_of_role(messages, "user") {
        Some(c) => c.to_owned(),
        None => String::new(),
    }
}

/// The roles that make up a conversation: the user's and the assistant's.
pub open spec fn is_conversation_role(role: Seq<char>) -> bool {
    role == "user"@ || role == "assistant"@
}

/// The user and assistant messages of `ms`, in order.
pub open spec fn conversation_only(ms: Seq<PriorMessage>) -> Seq<PriorMessage>
    decreases ms.len(),
{
    if ms.len() == 0 {
        seq![]
    } else if is_conversation_role(ms.last().role@) {
        conversation_only(ms.drop_last()).push(ms.last())
    } else {
        conversation_only(ms.drop_last())
    }
}

/// The earlier conversation handed to the gates: every message but the last,
/// kept to the user and assistant roles; none when nothing remains.
pub open spec fn prior_context_of(ms: Seq<PriorMessage>) -> Option<Seq<PriorMessage>> {
    if ms.len() <= 1 {
        None
    } else {
        let kept = conversation_only(ms.drop_last());
        if kept.len() == 0 {
            None
        } else {
            Some(kept)
        }
    }
}

pub open spec fn messages_view(o: Option<Vec<PriorMessage>>) -> Option<Seq<PriorMessage>> {
    match o {
        Some(v) => Some(v@),
        None => None,
    }
}

/// Takes the earlier conversation out of a request's messages: all of them
/// but the last, kept to the user and assistant roles, or `None` when none
/// remain.
pub fn prior_context(messages: &[PriorMessage]) -> (r: Option<Vec<PriorMessage>>)
    ensures
        messages_view(r) == prior_context_of(messages@),
{
    let n = messages.len();
    if n <= 1 {
        return None;
    }
    let mut kept: Vec<PriorMessage> = Vec::new();
    let mut i: usize = 0;
    while i < n - 1
        invariant
            0 <= i <= n - 1,
            n == messages@.len(),
            kept@ == conversation_only(messages@.take(i as int)),
        decreases n - 1 - i,
    {
        proof {
            lemma_take_step(messages@, i as int);
        }
        let m = &messages[i];
        if str_equal(m.role.as_str(), "user") || str_equal(m.role.as_str(), "assistant") {
            kept.push(PriorMessage { role: m.role.clone(), content: m.content.clone() });
        }
        i = i + 1;
    }
    assert(messages@.take((n - 1) as int) =~= messages@.drop_last());
    if kept.len() == 0 {
        None
    } else {
        Some(kept)
    }
}

/// The answer given to a request that asks for streaming.
pub const STREAMING_REFUSAL: &'static str = "Streaming not yet supported. Set stream: false";

/// What the chat endpoint does with a request.
pub enum EndpointPlan {
    /// Streaming was asked for: the request is refused.
    RefuseStreaming,
    /// The prompt is governed, with the earlier conversation when there is one.
    Govern { user_message: String, prior: Option<Vec<PriorMessage>> },
}

/// Plans a chat request: a request that asks for streaming is refused;
/// otherwise the last user message is governed, with the earlier conversation.
pub fn plan_request(stream: Option<bool>, messages: &[PriorMessage]) -> (r: EndpointPlan)
    ensures
        match r {
            EndpointPlan::RefuseStreaming => stream == Some(true),
            EndpointPlan::Govern { user_message, prior } => {
                &&& stream != Some(true)
                &&& user_message@ == governed_prompt(messages@)
                &&& messages_view(prior) == prior_context_of(messages@)
            },
        },
{
    match stream {
        Some(true) => EndpointPlan::RefuseStreaming,
        _ => EndpointPlan::Govern {
            user_message: last_user_message(messages),
            prior: prior_context(messages),
        },
    }
}

/// The block reason to coach the user on for a failed request: the reason the
/// error text carries, when an input gate raised it.
pub open spec fn coaching_reason_in(e: Seq<char>) -> Option<BlockReasonCode> {
    match block_reason_in(e) {
        Some(c) => if input_gate_reason(c) {
            Some(c)
        } else {
            None
        },
        None => None,
    }
}

/// Whether, and for which reason, the user of a failed request is coached.
pub fn coaching_for_error(error: &str) -> (r: Option<BlockReasonCode>)
    ensures
        r == coaching_reason_in(error@),
{
    match parse_block_reason(error) {
        Some(code) => if is_input_gate(code) {
            Some(code)
        } else {
            None
        },
        None => None,
    }
}

/// The fields of a chat reply that governance decides.
pub struct ReplyFields {
    pub model: String,
    pub content: String,
    pub prompt_tokens: u64,
    pub completion_tokens: u64,
    pub total_tokens: u64,
    pub breach: Option<String>,
    pub coaching: Option<String>,
}

pub open spec fn opt_string_view(o: Option<String>) -> Option<Seq<char>> {
    match o {
        Some(s) => Some(s@),
        None => None,
    }
}

/// The fields of the reply to a released answer: the requested model or
/// "governed", the answer, its token counts and their total, the block code,
/// if any, and no coaching.
pub open spec fn released_fields(
    f: ReplyFields,
    model: Option<String>,
    text: String,
    input_tokens: u64,
    output_tokens: u64,
    block: Option<BlockReasonCode>,
) -> bool {
    &&& f.model@ == match model {
        Some(m) => m@,
        None => "governed"@,
    }
    &&& f.content == text
    &&& f.prompt_tokens == input_tokens
    &&& f.completion_tokens == output_tokens
    &&& f.total_tokens == input_tokens + output_tokens
    &&& opt_string_view(f.breach) == match block {
        Some(c) => Some(reason_code(c)@),
        None => None,
    }
    &&& f.coaching is None
}

/// The fields of the reply to a blocked request: the governance model, the
/// breach text with the coaching, no tokens, and the error as the breach.
pub open spec fn breach_fields(f: ReplyFields, error: Seq<char>, coaching: Option<String>) -> bool {
    &&& f.model@ == "cosyn-governance"@
    &&& f.content@ == breach_text(error, opt_string_view(coaching))
    &&& f.prompt_tokens == 0
    &&& f.completion_tokens == 0
    &&& f.total_tokens == 0
    &&& opt_string_view(f.breach) == Some(error)
    &&& f.coaching == coaching
}

/// The reply to a released answer.
pub fn released_reply(
    model: Option<String>,
    text: String,
    input_tokens: u64,
    output_tokens: u64,
    block: Option<BlockReasonCode>,
) -> (r: ReplyFields)
    requires
        input_tokens + output_tokens <= u64::MAX,
    ensures
        released_fields(r, model, text, input_tokens, output_tokens, block),
{
    let model = match model {
        Some(m) => m,
        None => "governed".to_owned(),
    };
    let breach = match block {
        Some(c) => Some(c.code().to_owned()),
        None => None,
    };
    ReplyFields {
        model,
        content: text,
        prompt_tokens: input_tokens,
        completion_tokens: output_tokens,
        total_tokens: input_tokens + output_tokens,
        breach,
        coaching: None,
    }
}

/// The reply to a blocked request, with the coaching when there is any.
pub fn breach_reply(error: &str, coaching: Option<String>) -> (r: ReplyFields)
    ensures
        breach_fields(r, error@, coaching),
{
    let content = match &coaching {
        Some(c) => breach_display(error, Some(c.as_str())),
        None => breach_display(error, None),
    };
    ReplyFields {
        model: "cosyn-governance".to_owned(),
        content,
        prompt_tokens: 0,
        completion_tokens: 0,
        total_tokens: 0,
        breach: Some(error.to_owned()),
        coaching,
    }
}

/// What the governed pipeline gave for a prompt.
pub enum PipelineOutcome {
    /// An answer was released.
    Released {
        text: String,
        input_tokens: u64,
        output_tokens: u64,
        block: Option<BlockReasonCode>,
    },
    /// The pipeline failed; the text of its error.
    Failed { error: String },
}

/// What the endpoint does next.
pub enum EndpointAction {
    /// Answer with these fields.
    Reply(ReplyFields),
    /// Ask for coaching on the blocked prompt, then answer with
    /// `breach_reply(error, Some(coaching))`.
    Coach { error: String, code: BlockReasonCode },
}

/// Decides the endpoint's next step after the governed pipeline: a released
/// answer is replied to; a failure whose error carries an input-gate code is
/// coached first; any other failure is replied to as a breach without
/// coaching.
pub fn after_pipeline(model: Option<String>, outcome: PipelineOutcome) -> (r: EndpointAction)
    requires
        outcome matches PipelineOutcome::Released { input_tokens, output_tokens, .. }
            ==> input_tokens + output_tokens <= u64::MAX,
    ensures
        match outcome {
            PipelineOutcome::Released { text, input_tokens, output_tokens, block } => {
                r matches EndpointAction::Reply(f) && released_fields(
                    f,
                    model,
                    text,
                    input_tokens,
                    output_tokens,
                    block,
                )
            },
            PipelineOutcome::Failed { error } => match coaching_reason_in(error@) {
                Some(c) => r matches EndpointAction::Coach { error: e, code } && e == error && code
                    == c,
                None => r matches EndpointAction::Reply(f) && breach_fields(f, error@, None),
            },
        },
{
    match outcome {
        PipelineOutcome::Released { text, input_tokens, output_tokens, block } => {
            EndpointAction::Reply(released_reply(model, text, input_tokens, output_tokens, block))
        },
        PipelineOutcome::Failed { error } => match coaching_for_error(error.as_str()) {
            Some(code) => EndpointAction::Coach { error, code },
            None => EndpointAction::Reply(breach_reply(error.as_str(), None)),
        },
    }
}

/// What every chat reply carries: the id made of "cosyn-" and the request's
/// identifier, the object kind, the creation time, one assistant choice at
/// index 0 that stops, the usage, and governance metadata marked governed.
pub open spec fn enveloped(
    r: ChatCompletionResponse,
    f: ReplyFields,
    request_id: Seq<char>,
    created: u64,
) -> bool {
    &&& r.id@ == "cosyn-"@ + request_id
    &&& r.object@ == "chat.completion"@
    &&& r.created == created
    &&& r.model == f.model
    &&& r.choices@.len() == 1
    &&& r.choices@[0].index == 0
    &&& r.choices@[0].message.role@ == "assistant"@
    &&& r.choices@[0].message.content == f.content
    &&& r.choices@[0].finish_reason@ == "stop"@
    &&& r.usage == (ChatUsage {
        prompt_tokens: f.prompt_tokens,
        completion_tokens: f.completion_tokens,
        total_tokens: f.total_tokens,
    })
    &&& r.cosyn_metadata == Some(
        CosynMetadata { governed: true, breach: f.breach, coaching: f.coaching },
    )
}

/// Wraps the governed fields into an OpenAI-compatible chat reply, given the
/// request's identifier and the creation time.
pub fn reply_envelope(fields: ReplyFields, request_id: &str, created: u64) -> (r:
    ChatCompletionResponse)
    ensures
        enveloped(r, fields, request_id@, created),
{
    let mut id = "cosyn-".to_owned();
    id.append(request_id);
    ChatCompletionResponse {
        id,
        object: "chat.completion".to_owned(),
        created,
        model: fields.model,
        choices: vec![
            ChatChoice {
                index: 0,
                message: ChatMessage { role: "assistant".to_owned(), content: fields.content },
                finish_reason: "stop".to_owned(),
            },
        ],
        usage: ChatUsage {
            prompt_tokens: fields.prompt_tokens,
            completion_tokens: fields.completion_tokens,
            total_tokens: fields.total_tokens,
        },
        cosyn_metadata: Some(
            CosynMetadata { governed: true, breach: fields.breach, coaching: fields.coaching },
        ),
    }
}

} // verus!
