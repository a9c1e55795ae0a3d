//! Recognition of conversational continuations ("tell me more"), of words
//! that point back at earlier messages ("it", "that"), and of whether the
//! previous answer gives such words something to point at.

use vstd::prelude::*;
use crate::dcc::lexicon::{
    continuation_phrase_list, continuation_phrases, deictic_word_list, deictic_words,
    function_word_list, function_words, is_listed, listed, non_substantive_list,
    non_substantive_words,
};
use crate::dcc::types::PriorMessage;
use crate::text::{
    alphanumeric_words, chars_of, contains_text, find_text, gate_tokens, lemma_take_step,
    lowercase, str_equal, tokenize, tokenize_words, lowercased, views,
};

verus! {

/// Whether some member of `ts` is one of `words`.
pub open spec fn some_listed(ts: Seq<Seq<char>>, words: Seq<&'static str>) -> bool {
    exists|i: int| 0 <= i < ts.len() && #[trigger] listed(words, ts[i])
}

/// Whether some member of `ts` is not one of `words`.
pub open spec fn some_unlisted(ts: Seq<Seq<char>>, words: Seq<&'static str>) -> bool {
    exists|i: int| 0 <= i < ts.len() && !#[trigger] listed(words, ts[i])
}

/// How many members of `ts` are not function words.
pub open spec fn count_content(ts: Seq<Seq<char>>) -> nat
    decreases ts.len(),
{
    if ts.len() == 0 {
        0
    } else {
        count_content(ts.drop_last()) + if listed(function_words(), ts.last()) {
            0nat
        } else {
            1nat
        }
    }
}

/// The number of content words (tokens that are not function words) in `s`.
pub open spec fn content_words_in(s: Seq<char>) -> nat {
    count_content(gate_tokens(s))
}

/// Whether the text holds one of the continuation phrases.
pub open spec fn mentions_continuation(t: Seq<char>) -> bool {
    exists|i: int|
        0 <= i < continuation_phrases().len() && #[trigger] contains_text(
            t,
            continuation_phrases()[i]@,
        )
}

/// A continuation: fewer than six content words, and a continuation phrase
/// somewhere in the lowercased text.
pub open spec fn continues(s: Seq<char>) -> bool {
    content_words_in(s) < 6 && mentions_continuation(lowercased(s))
}

/// Whether some alphanumeric word of `s` is a deictic word.
pub open spec fn points_back(s: Seq<char>) -> bool {
    some_listed(alphanumeric_words(s), deictic_words())
}

/// Whether `s` has a token that is neither a function word nor a vague noun.
pub open spec fn has_substance(s: Seq<char>) -> bool {
    some_unlisted(gate_tokens(s), non_substantive_words())
}

/// The index of the last message with the given role.
pub open spec fn last_role_index(msgs: Seq<PriorMessage>, role: Seq<char>) -> Option<int>
    decreases msgs.len(),
{
    if msgs.len() == 0 {
        None
    } else if msgs.last().role@ == role {
        Some(msgs.len() - 1)
    } else {
        last_role_index(msgs.drop_last(), role)
    }
}

/// The content of the last message with the given role.
pub open spec fn last_content(msgs: Seq<PriorMessage>, role: Seq<char>) -> Option<Seq<char>> {
    match last_role_index(msgs, role) {
        Some(i) => Some(msgs[i].content@),
        None => None,
    }
}

/// The content of the last assistant message.
pub open spec fn last_answer(msgs: Seq<PriorMessage>) -> Option<Seq<char>> {
    last_content(msgs, "assistant"@)
}

/// Whether the last assistant message has a substantive word.
pub open spec fn answer_has_substance(msgs: Seq<PriorMessage>) -> bool {
    match last_answer(msgs) {
        Some(c) => has_substance(c),
        None => false,
    }
}

/// The earlier messages handed to a gate, as a sequence.
pub open spec fn prior_view(p: Option<&[PriorMessage]>) -> Option<Seq<PriorMessage>> {
    match p {
        Some(m) => Some(m@),
        None => None,
    }
}

/// Whether a conversation with at least one earlier message was handed over.
pub open spec fn has_context(p: Option<Seq<PriorMessage>>) -> bool {
    p matches Some(m) && m.len() > 0
}

pub open spec fn opt_view(o: Option<&str>) -> Option<Seq<char>> {
    match o {
        Some(s) => Some(s@),
        None => None,
    }
}

/// Whether some of the token vectors is one of `words`.
pub fn any_listed(ts: &Vec<Vec<char>>, words: &Vec<&'static str>) -> (r: bool)
    ensures
        r == some_listed(views(ts@), words@),
{
    let mut i: usize = 0;
    while i < ts.len()
        invariant
            0 <= i <= ts@.len(),
            forall|j: int| 0 <= j < i ==> !#[trigger] listed(words@, views(ts@)[j]),
        decreases ts.len() - i,
    {
        if is_listed(words, &ts[i]) {
            assert(listed(words@, views(ts@)[i as int]));
            return true;
        }
        i = i + 1;
    }
    false
}

/// Whether some of the token vectors is not one of `words`.
pub fn any_unlisted(ts: &Vec<Vec<char>>, words: &Vec<&'static str>) -> (r: bool)
    ensures
        r == some_unlisted(views(ts@), words@),
{
    let mut i: usize = 0;
    while i < ts.len()
        invariant
            0 <= i <= ts@.len(),
            forall|j: int| 0 <= j < i ==> #[trigger] listed(words@, views(ts@)[j]),
        decreases ts.len() - i,
    {
        if !is_listed(words, &ts[i]) {
            assert(!listed(words@, views(ts@)[i as int]));
            return true;
        }
        i = i + 1;
    }
    false
}

/// Counts the content words (tokens that are not function words) in `input`.
pub fn content_word_count(input: &str) -> (r: usize)
    ensures
        r == content_words_in(input@),
{
    let tokens = tokenize(&chars_of(input));
    let ghost ts = views(tokens@);
    let fw = function_word_list();
    let mut count: usize = 0;
    let mut i: usize = 0;
    while i < tokens.len()
        invariant
            0 <= i <= tokens@.len(),
            ts == views(tokens@),
            fw@ == function_words(),
            count == count_content(ts.take(i as int)),
            count <= i,
        decreases tokens.len() - i,
    {
        proof {
            lemma_take_step(ts, i as int);
        }
        if !is_listed(&fw, &tokens[i]) {
            count = count + 1;
        }
        i = i + 1;
    }
    assert(ts.take(tokens@.len() as int) =~= ts);
    count
}

/// Whether the text holds one of the continuation phrases.
fn holds_continuation_phrase(t: &Vec<char>) -> (r: bool)
    ensures
        r == mentions_continuation(t@),
{
    let phrases = continuation_phrase_list();
    let mut i: usize = 0;
    while i < phrases.len()
        invariant
            0 <= i <= phrases@.len(),
            phrases@ == continuation_phrases(),
            forall|j: int|
                0 <= j < i ==> !#[trigger] contains_text(t@, continuation_phrases()[j]@),
        decreases phrases.len() - i,
    {
        if find_text(t, &chars_of(phrases[i])) {
            return true;
        }
        i = i + 1;
    }
    false
}

/// Detects whether an input is a conversational continuation: it has fewer
/// than six content words and its lowercased text holds a continuation phrase.
pub fn is_continuation(input: &str) -> (r: bool)
    ensures
        r == continues(input@),
        content_words_in(input@) >= 6 ==> !r,
{
    if content_word_count(input) >= 6 {
        return false;
    }
    let lower = lowercase(chars_of(input).as_slice());
    holds_continuation_phrase(&lower)
}

/// Detects whether the input holds a deictic word ("it", "that", "this",
/// "those", "these", "them") among its alphanumeric words, so that "it's"
/// counts as "it".
pub fn has_deictic_reference(input: &str) -> (r: bool)
    ensures
        r == points_back(input@),
{
    let words = tokenize_words(&chars_of(input));
    any_listed(&words, &deictic_word_list())
}

/// Whether the text has a word that is neither a function word nor a vague
/// noun.
pub fn text_has_substance(s: &str) -> (r: bool)
    ensures
        r == has_substance(s@),
{
    let tokens = tokenize(&chars_of(s));
    any_unlisted(&tokens, &non_substantive_list())
}

/// Checks whether the last assistant message has at least one substantive
/// word; false when there is no assistant message.
pub fn prior_has_substance(messages: &[PriorMessage]) -> (r: bool)
    ensures
        r == answer_has_substance(messages@),
        last_answer(messages@) is None ==> !r,
{
    match last_assistant_content(messages) {
        None => false,
        Some(content) => text_has_substance(content),
    }
}

/// The content of the last message with the given role, if any.
pub fn last_content_of_role<'a>(messages: &'a [PriorMessage], role: &str) -> (r: Option<&'a str>)
    ensures
        opt_view(r) == last_content(messages@, role@),
{
    let mut i = messages.len();
    assert(messages@.take(i as int) =~= messages@);
    while i > 0
        invariant
            0 <= i <= messages@.len(),
            last_role_index(messages@, role@) == last_role_index(messages@.take(i as int), role@),
        decreases i,
    {
        proof {
            lemma_take_step(messages@, i - 1);
        }
        if str_equal(messages[i - 1].role.as_str(), role) {
            return Some(messages[i - 1].content.as_str());
        }
        i = i - 1;
    }
    None
}

/// Returns the content of the last assistant message, or `None` when there is
/// none.
pub fn last_assistant_content(messages: &[PriorMessage]) -> (r: Option<&str>)
    ensures
        opt_view(r) == last_answer(messages@),
{
    last_content_of_role(messages, "assistant")
}

} // verus!
