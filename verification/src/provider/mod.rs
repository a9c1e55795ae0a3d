//! What the proxy exchanges with a language-model provider, the choice of the
//! provider, and the preparation of a conversation for providers that take
//! the system prompt apart from the messages.

use vstd::prelude::*;
use vstd::string::StringExecFns;
use crate::text::{chars_of, is_word, str_equal};

verus! {

/// One message of a conversation with the model.
#[derive(Debug, Clone)]
pub struct LlmMessage {
    pub role: String,
    pub content: String,
}

/// What the model answered, and what the exchange cost in tokens.
#[derive(Debug, Clone)]
pub struct LlmResponse {
    pub content: String,
    pub model: String,
    pub input_tokens: u64,
    pub output_tokens: u64,
}

/// The providers the proxy can forward to.
#[derive(Debug, Clone, Copy, PartialEq, Eq, Structural)]
pub enum ProviderKind {
    OpenAi,
    Anthropic,
    Ollama,
}

/// The provider a configured name selects.
pub open spec fn kind_of(name: Seq<char>) -> Option<ProviderKind> {
    if name == "openai"@ {
        Some(ProviderKind::OpenAi)
    } else if name == "anthropic"@ {
        Some(ProviderKind::Anthropic)
    } else if name == "ollama"@ {
        Some(ProviderKind::Ollama)
    } else {
        None
    }
}

/// Chooses the provider named in the configuration ("openai", "anthropic" or
/// "ollama"); any other name is an error.
pub fn provider_kind(name: &str) -> (r: Result<ProviderKind, String>)
    ensures
        match r {
            Ok(k) => kind_of(name@) == Some(k),
            Err(e) => kind_of(name@) is None && e@ == "Unknown provider: "@ + name@,
        },
{
    let nc = chars_of(name);
    if is_word(&nc, "openai") {
        Ok(ProviderKind::OpenAi)
    } else if is_word(&nc, "anthropic") {
        Ok(ProviderKind::Anthropic)
    } else if is_word(&nc, "ollama") {
        Ok(ProviderKind::Ollama)
    } else {
        let mut e = "Unknown provider: ".to_owned();
        e.append(name);
        Err(e)
    }
}

/// The messages whose role is not "system", in order.
pub open spec fn non_system(ms: Seq<LlmMessage>) -> Seq<LlmMessage>
    decreases ms.len(),
{
    if ms.len() == 0 {
        seq![]
    } else if ms.last().role@ == "system"@ {
        non_system(ms.drop_last())
    } else {
        non_system(ms.drop_last()).push(ms.last())
    }
}

/// The content of the first message whose role is "system".
pub open spec fn first_system(ms: Seq<LlmMessage>) -> Option<Seq<char>>
    decreases ms.len(),
{
    if ms.len() == 0 {
        None
    } else if ms[0].role@ == "system"@ {
        Some(ms[0].content@)
    } else {
        first_system(ms.drop_first())
    }
}

proof fn lemma_first_system_prefix(ms: Seq<LlmMessage>, i: int)
    requires
        0 <= i < ms.len(),
        forall|j: int| 0 <= j < i ==> (#[trigger] ms[j]).role@ != "system"@,
    ensures
        first_system(ms) == first_system(ms.subrange(i, ms.len() as int)),
    decreases i,
{
    if i > 0 {
        assert(ms.drop_first().subrange(i - 1, ms.drop_first().len() as int) =~= ms.subrange(
            i,
            ms.len() as int,
        ));
        assert forall|j: int| 0 <= j < i - 1 implies (#[trigger] ms.drop_first()[j]).role@
            != "system"@ by {
            assert(ms.drop_first()[j] == ms[j + 1]);
        }
        lemma_first_system_prefix(ms.drop_first(), i - 1);
    } else {
        assert(ms.subrange(0, ms.len() as int) =~= ms);
    }
}

proof fn lemma_first_system_none(ms: Seq<LlmMessage>)
    requires
        forall|j: int| 0 <= j < ms.len() ==> (#[trigger] ms[j]).role@ != "system"@,
    ensures
        first_system(ms) is None,
    decreases ms.len(),
{
    if ms.len() > 0 {
        assert forall|j: int| 0 <= j < ms.len() - 1 implies (#[trigger] ms.drop_first()[j]).role@
            != "system"@ by {
            assert(ms.drop_first()[j] == ms[j + 1]);
        }
        lemma_first_system_none(ms.drop_first());
    }
}

/// Parts a conversation for providers that take the system prompt on its own:
/// the messages that are not system messages, in order, and the content of
/// the first system message, if any.
pub fn split_system_messages(messages: &[LlmMessage]) -> (r: (Vec<LlmMessage>, Option<String>))
    ensures
        r.0@ == non_system(messages@),
        match r.1 {
            Some(s) => first_system(messages@) == Some(s@),
            None => first_system(messages@) is None,
        },
{
    let mut rest: Vec<LlmMessage> = Vec::new();
    let mut system: Option<String> = None;
    let ghost mut first_at: int = 0;
    let mut i: usize = 0;
    while i < messages.len()
        invariant
            0 <= i <= messages@.len(),
            rest@ == non_system(messages@.take(i as int)),
            match system {
                Some(s) => 0 <= first_at < i && messages@[first_at].role@ == "system"@
                    && messages@[first_at].content@ == s@ && forall|j: int|
                    0 <= j < first_at ==> (#[trigger] messages@[j]).role@ != "system"@,
                None => forall|j: int| 0 <= j < i ==> (#[trigger] messages@[j]).role@ != "system"@,
            },
        decreases messages.len() - i,
    {
        let m = &messages[i];
        proof {
            assert(messages@.take(i + 1).drop_last() =~= messages@.take(i as int));
        }
        if str_equal(m.role.as_str(), "system") {
            if system.is_none() {
                system = Some(m.content.clone());
                proof {
                    first_at = i as int;
                }
            }
        } else {
            rest.push(LlmMessage { role: m.role.clone(), content: m.content.clone() });
        }
        i = i + 1;
    }
    assert(messages@.take(messages@.len() as int) =~= messages@);
    proof {
        if system is Some {
            {
                lemma_first_system_prefix(messages@, first_at);
                assert(messages@.subrange(first_at, messages@.len() as int)[0]
                    == messages@[first_at]);
            }
        } else {
            lemma_first_system_none(messages@);
        }
    }
    (rest, system)
}

/// The model asked of OpenAI when the request names none.
pub const OPENAI_DEFAULT_MODEL: &'static str = "gpt-4o-mini";

/// The model asked of Ollama when the request names none.
pub const OLLAMA_DEFAULT_MODEL: &'static str = "llama3";

/// The model a request names, or the provider's default.
pub fn model_or(requested: Option<String>, default: &str) -> (r: String)
    ensures
        r@ == match requested {
            Some(m) => m@,
            None => default@,
        },
{
    match requested {
        Some(m) => m,
        None => default.to_owned(),
    }
}

/// The text of an answer that may be missing: the empty text then.
pub open spec fn text_or_empty(t: Option<String>) -> Seq<char> {
    match t {
        Some(s) => s@,
        None => Seq::empty(),
    }
}

/// The answer built from a provider's reply, refused with `empty_error` when
/// its text is empty.
pub open spec fn reply_result(
    r: Result<LlmResponse, String>,
    text: Option<String>,
    model: String,
    input_tokens: u64,
    output_tokens: u64,
    empty_error: Seq<char>,
) -> bool {
    match r {
        Ok(resp) => {
            &&& text_or_empty(text).len() > 0
            &&& resp.content@ == text_or_empty(text)
            &&& resp.model == model
            &&& resp.input_tokens == input_tokens
            &&& resp.output_tokens == output_tokens
        },
        Err(e) => text_or_empty(text).len() == 0 && e@ == empty_error,
    }
}

fn answer_or_refusal(
    text: Option<String>,
    model: String,
    input_tokens: u64,
    output_tokens: u64,
    empty_error: &str,
) -> (r: Result<LlmResponse, String>)
    ensures
        reply_result(r, text, model, input_tokens, output_tokens, empty_error@),
{
    let content = match text {
        Some(t) => t,
        None => String::new(),
    };
    if content.as_str().is_empty() {
        return Err(empty_error.to_owned());
    }
    Ok(LlmResponse { content, model, input_tokens, output_tokens })
}

/// The answer from an OpenAI reply: the first choice's text, the model the
/// reply reports, and the usage it reports (none counts as zero tokens). An
/// empty or missing text is refused.
pub fn openai_reply(first_content: Option<String>, model: String, usage: Option<(u64, u64)>) -> (r:
    Result<LlmResponse, String>)
    ensures
        reply_result(
            r,
            first_content,
            model,
            match usage {
                Some(u) => u.0,
                None => 0,
            },
            match usage {
                Some(u) => u.1,
                None => 0,
            },
            "API returned empty content"@,
        ),
{
    let (input_tokens, output_tokens) = match usage {
        Some(u) => u,
        None => (0, 0),
    };
    answer_or_refusal(first_content, model, input_tokens, output_tokens, "API returned empty content")
}

/// The answer from an Anthropic reply: the first content block's text, the
/// model that was asked for, and the token counts it reports (a missing count
/// is zero). An empty or missing text is refused.
pub fn anthropic_reply(
    first_text: Option<String>,
    model: String,
    input_tokens: Option<u64>,
    output_tokens: Option<u64>,
) -> (r: Result<LlmResponse, String>)
    ensures
        reply_result(
            r,
            first_text,
            model,
            match input_tokens {
                Some(n) => n,
                None => 0,
            },
            match output_tokens {
                Some(n) => n,
                None => 0,
            },
            "API returned empty content"@,
        ),
{
    let i = match input_tokens {
        Some(n) => n,
        None => 0,
    };
    let o = match output_tokens {
        Some(n) => n,
        None => 0,
    };
    answer_or_refusal(first_text, model, i, o, "API returned empty content")
}

/// The answer from an Ollama reply: the message's text and the model that was
/// asked for, with no token counts. An empty or missing text is refused.
pub fn ollama_reply(content: Option<String>, model: String) -> (r: Result<LlmResponse, String>)
    ensures
        reply_result(r, content, model, 0, 0, "Ollama returned empty content"@),
{
    answer_or_refusal(content, model, 0, 0, "Ollama returned empty content")
}

} // verus!
