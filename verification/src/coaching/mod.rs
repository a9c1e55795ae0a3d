//! Coaching for a user whose prompt was blocked: the request put to the model
//! with the tips that fit the block reason, and the guidance given back.

pub mod tips;

use vstd::prelude::*;
use vstd::string::StringExecFns;
use crate::coaching::tips::{tips_for_gate, tips_of, CoachingTip};
use crate::dcc::types::{reason_code, reason_message, BlockReasonCode};
use crate::provider::{LlmMessage, LlmResponse};

verus! {

/// How a tip is written into the coaching prompt: "**name**: content".
pub open spec fn tip_line(t: CoachingTip) -> Seq<char> {
    "**"@ + t.name@ + "**: "@ + t.content@
}

/// The tips written one after another, separated by a blank line.
pub open spec fn joined_tips(ts: Seq<CoachingTip>) -> Seq<char>
    decreases ts.len(),
{
    if ts.len() == 0 {
        Seq::empty()
    } else if ts.len() == 1 {
        tip_line(ts[0])
    } else {
        joined_tips(ts.drop_last()) + "\n\n"@ + tip_line(ts.last())
    }
}

pub const SYSTEM_PROMPT_OPENING: &'static str =
    "You are a coaching assistant for the CoSyn governance system. A user's input was blocked by the ";

pub const SYSTEM_PROMPT_REASON: &'static str = " gate (reason: ";

pub const SYSTEM_PROMPT_TASK: &'static str =
    "). Your job is to help them understand why and suggest how to revise their prompt.\n\nUse these principles to guide your advice:\n\n";

pub const SYSTEM_PROMPT_CLOSING: &'static str =
    "\n\nBe concise (2-3 sentences). Be specific to their actual input. Do not repeat the block reason code. Do not apologize.";

pub const USER_PROMPT_OPENING: &'static str = "My prompt was blocked. Here is what I wrote:\n\n\"";

/// The instructions given to the model for coaching after a block.
pub open spec fn system_prompt(code: BlockReasonCode) -> Seq<char> {
    SYSTEM_PROMPT_OPENING@ + reason_code(code)@ + SYSTEM_PROMPT_REASON@ + reason_message(code)@
        + SYSTEM_PROMPT_TASK@ + joined_tips(tips_of(code)) + SYSTEM_PROMPT_CLOSING@
}

/// The user's side of the coaching request: the blocked prompt, quoted.
pub open spec fn user_prompt(input: Seq<char>) -> Seq<char> {
    USER_PROMPT_OPENING@ + input + "\""@
}

/// Writes the tips one after another, separated by a blank line.
fn join_tips(tips: &Vec<CoachingTip>) -> (r: String)
    ensures
        r@ == joined_tips(tips@),
{
    let mut out = String::new();
    let mut i: usize = 0;
    while i < tips.len()
        invariant
            0 <= i <= tips@.len(),
            out@ == joined_tips(tips@.take(i as int)),
        decreases tips.len() - i,
    {
        proof {
            assert(tips@.take(i + 1).drop_last() =~= tips@.take(i as int));
        }
        if i > 0 {
            out.append("\n\n");
        }
        out.append("**");
        out.append(tips[i].name);
        out.append("**: ");
        out.append(tips[i].content);
        if i == 0 {
            assert(out@ =~= tip_line(tips@[0]));
        } else {
            assert(out@ =~= joined_tips(tips@.take(i as int)) + "\n\n"@ + tip_line(tips@[i as int]));
        }
        i = i + 1;
    }
    assert(tips@.take(tips@.len() as int) =~= tips@);
    out
}

/// The coaching request for a blocked prompt: a system message with the block
/// reason and the tips that fit it, and a user message quoting the prompt.
/// No request is made for a reason that no tip fits.
pub fn coaching_messages(original_input: &str, block_code: BlockReasonCode) -> (r: Option<
    Vec<LlmMessage>,
>)
    ensures
        r is None <==> tips_of(block_code).len() == 0,
        r matches Some(ms) ==> {
            &&& ms@.len() == 2
            &&& ms@[0].role@ == "system"@
            &&& ms@[0].content@ == system_prompt(block_code)
            &&& ms@[1].role@ == "user"@
            &&& ms@[1].content@ == user_prompt(original_input@)
        },
{
    let tips = tips_for_gate(block_code);
    if tips.len() == 0 {
        return None;
    }
    let mut system = SYSTEM_PROMPT_OPENING.to_owned();
    system.append(block_code.code());
    system.append(SYSTEM_PROMPT_REASON);
    system.append(block_code.user_message());
    system.append(SYSTEM_PROMPT_TASK);
    let tip_text = join_tips(&tips);
    system.append(tip_text.as_str());
    system.append(SYSTEM_PROMPT_CLOSING);
    assert(system@ =~= system_prompt(block_code));
    let mut user = USER_PROMPT_OPENING.to_owned();
    user.append(original_input);
    user.append("\"");
    assert(user@ =~= user_prompt(original_input@));
    Some(
        vec![
            LlmMessage { role: "system".to_owned(), content: system },
            LlmMessage { role: "user".to_owned(), content: user },
        ],
    )
}

/// The guidance shown to the user: the model's reply when it answered, the
/// block reason's own message when it did not.
pub fn coaching_outcome(block_code: BlockReasonCode, reply: Option<LlmResponse>) -> (r: String)
    ensures
        r@ == match reply {
            Some(resp) => resp.content@,
            None => reason_message(block_code)@,
        },
{
    match reply {
        Some(response) => response.content,
        None => block_code.user_message().to_owned(),
    }
}

} // verus!
