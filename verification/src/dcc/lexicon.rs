//! The word lists that the gates consult.

use vstd::prelude::*;
use crate::text::is_word;

verus! {

/// Whether `t` spells one of `words`.
pub open spec fn listed(words: Seq<&'static str>, t: Seq<char>) -> bool {
    exists|i: int| 0 <= i < words.len() && #[trigger] words[i]@ == t
}

/// A word is listed in two lists put end to end exactly when it is listed in
/// one of them.
pub proof fn lemma_listed_concat(a: Seq<&'static str>, b: Seq<&'static str>, t: Seq<char>)
    ensures
        listed(a + b, t) <==> (listed(a, t) || listed(b, t)),
{
    if listed(a + b, t) {
        let i = choose|i: int| 0 <= i < (a + b).len() && #[trigger] (a + b)[i]@ == t;
        if i < a.len() {
            assert(a[i]@ == t);
        } else {
            assert(b[i - a.len()]@ == t);
        }
    }
    if listed(a, t) {
        let i = choose|i: int| 0 <= i < a.len() && #[trigger] a[i]@ == t;
        assert((a + b)[i]@ == t);
    }
    if listed(b, t) {
        let i = choose|i: int| 0 <= i < b.len() && #[trigger] b[i]@ == t;
        assert((a + b)[a.len() + i]@ == t);
    }
}

/// Whether the characters `t` spell one of `words`.
pub fn is_listed(words: &Vec<&'static str>, t: &Vec<char>) -> (r: bool)
    ensures
        r == listed(words@, t@),
{
    let mut i: usize = 0;
    while i < words.len()
        invariant
            0 <= i <= words@.len(),
            forall|j: int| 0 <= j < i ==> #[trigger] words@[j]@ != t@,
        decreases words.len() - i,
    {
        if is_word(t, words[i]) {
            return true;
        }
        i = i + 1;
    }
    false
}

/// Function words (articles, prepositions, pronouns, auxiliaries) that do not
/// contribute substantive content on their own.
pub open spec fn function_words() -> Seq<&'static str> {
    seq![
        "the", "a", "an", "is", "are", "was", "were", "be", "been", "being", "do", "does",
        "did", "have", "has", "had", "will", "would", "could", "should", "can", "may", "might",
        "shall", "must", "i", "me", "my", "you", "your", "he", "she", "it", "we", "they",
        "this", "that", "these", "those", "in", "on", "at", "to", "for", "of", "with", "from",
        "by", "about", "into", "through", "during", "before", "after", "above", "below",
        "between", "under", "over", "and", "or", "but", "not", "no", "so", "if", "then",
        "just",
    ]
}

pub fn function_word_list() -> (r: Vec<&'static str>)
    ensures
        r@ == function_words(),
{
    let r = vec![
        "the", "a", "an", "is", "are", "was", "were", "be", "been", "being", "do", "does",
        "did", "have", "has", "had", "will", "would", "could", "should", "can", "may", "might",
        "shall", "must", "i", "me", "my", "you", "your", "he", "she", "it", "we", "they",
        "this", "that", "these", "those", "in", "on", "at", "to", "for", "of", "with", "from",
        "by", "about", "into", "through", "during", "before", "after", "above", "below",
        "between", "under", "over", "and", "or", "but", "not", "no", "so", "if", "then",
        "just",
    ];
    assert(r@ =~= function_words());
    r
}

/// Words that carry no specific meaning on their own.
pub open spec fn vague_nouns() -> Seq<&'static str> {
    seq![
        "thing", "things", "stuff", "something", "whatever", "anything", "everything",
        "somewhere", "somehow", "someone", "anybody",
    ]
}

pub fn vague_noun_list() -> (r: Vec<&'static str>)
    ensures
        r@ == vague_nouns(),
{
    let r = vec![
        "thing", "things", "stuff", "something", "whatever", "anything", "everything",
        "somewhere", "somehow", "someone", "anybody",
    ];
    assert(r@ =~= vague_nouns());
    r
}

/// Function words and vague placeholders: words that are no evidence.
pub open spec fn non_substantive_words() -> Seq<&'static str> {
    function_words() + vague_nouns()
}
pub fn non_substantive_list() -> (r: Vec<&'static str>)
    ensures
        r@ == non_substantive_words(),
{
    let mut r = function_word_list();
    let mut v = vague_noun_list();
    r.append(&mut v);
    r
}

/// Pronouns and demonstratives that point back at something said before.
pub open spec fn deictic_words() -> Seq<&'static str> {
    seq![
        "it", "that", "this", "those", "these", "them",
    ]
}

pub fn deictic_word_list() -> (r: Vec<&'static str>)
    ensures
        r@ == deictic_words(),
{
    let r = vec![
        "it", "that", "this", "those", "these", "them",
    ];
    assert(r@ =~= deictic_words());
    r
}

/// Phrases that ask to carry on from the previous answer.
pub open spec fn continuation_phrases() -> Seq<&'static str> {
    seq![
        "elaborate", "expand", "tell me more", "explain further", "go on", "continue",
        "more detail", "keep going", "what about", "how about", "and also",
    ]
}

pub fn continuation_phrase_list() -> (r: Vec<&'static str>)
    ensures
        r@ == continuation_phrases(),
{
    let r = vec![
        "elaborate", "expand", "tell me more", "explain further", "go on", "continue",
        "more detail", "keep going", "what about", "how about", "and also",
    ];
    assert(r@ =~= continuation_phrases());
    r
}

/// Personal pronouns that need an antecedent to be understood. "that" is not
/// among them: it serves as a relative pronoun too often.
pub open spec fn reference_tokens() -> Seq<&'static str> {
    seq![
        "it", "he", "him", "she", "her", "they", "them",
    ]
}

pub fn reference_token_list() -> (r: Vec<&'static str>)
    ensures
        r@ == reference_tokens(),
{
    let r = vec![
        "it", "he", "him", "she", "her", "they", "them",
    ];
    assert(r@ =~= reference_tokens());
    r
}

/// Directives that are understood as a request on their own.
pub open spec fn directive_words() -> Seq<&'static str> {
    seq![
        "summarize", "compare", "list", "explain",
    ]
}

pub fn directive_word_list() -> (r: Vec<&'static str>)
    ensures
        r@ == directive_words(),
{
    let r = vec![
        "summarize", "compare", "list", "explain",
    ];
    assert(r@ =~= directive_words());
    r
}

} // verus!
