//! The chat reply the proxy gives, in the shape of the OpenAI chat API.

use vstd::prelude::*;

verus! {

/// One message of a reply.
pub struct ChatMessage {
    pub role: String,
    pub content: String,
}

/// One choice of a reply.
pub struct ChatChoice {
    pub index: u32,
    pub message: ChatMessage,
    pub finish_reason: String,
}

/// The token counts of a reply.
pub struct ChatUsage {
    pub prompt_tokens: u64,
    pub completion_tokens: u64,
    pub total_tokens: u64,
}

/// What governance reports with a reply.
pub struct CosynMetadata {
    pub governed: bool,
    pub breach: Option<String>,
    pub coaching: Option<String>,
}

/// A chat completion reply.
pub struct ChatCompletionResponse {
    pub id: String,
    pub object: String,
    pub created: u64,
    pub model: String,
    pub choices: Vec<ChatChoice>,
    pub usage: ChatUsage,
    pub cosyn_metadata: Option<CosynMetadata>,
}

} // verus!
