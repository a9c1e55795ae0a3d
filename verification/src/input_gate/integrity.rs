//! The integrity check: whether a prompt stands on its own.
//!
//! A prompt proceeds when it has at least one token, none of its tokens is a
//! personal pronoun that would need an antecedent ("it", "they", ...), and it
//! is either at least two tokens long or a lone directive ("summarize",
//! "compare", "list", "explain"). A lone directive is recognized but binds no
//! subject of its own.

use vstd::prelude::*;
use crate::dcc::continuation::{any_listed, some_listed};
use crate::dcc::lexicon::{
    directive_word_list, directive_words, is_listed, listed, reference_token_list,
    reference_tokens,
};
use crate::text::{chars_of, gate_tokens, tokenize};

verus! {

/// The name under which the system refers to itself.
pub const CANONICAL_IDENTITY: &'static str = "cosyn";

/// The outcome of the integrity check.
#[derive(Debug, Clone, Copy, PartialEq, Eq, Structural)]
pub struct IntegritySignal {
    /// The prompt may go on through the gates.
    pub proceed: bool,
    /// The prompt is understood, but binds no subject of its own.
    pub recognized_unbound: bool,
}

pub open spec fn integrity_of(s: Seq<char>) -> IntegritySignal {
    let ts = gate_tokens(s);
    if ts.len() == 0 || some_listed(ts, reference_tokens()) {
        IntegritySignal { proceed: false, recognized_unbound: false }
    } else if ts.len() >= 2 {
        IntegritySignal { proceed: true, recognized_unbound: false }
    } else if listed(directive_words(), ts[0]) {
        IntegritySignal { proceed: true, recognized_unbound: true }
    } else {
        IntegritySignal { proceed: false, recognized_unbound: false }
    }
}

/// Runs the integrity check on a prompt.
pub fn evaluate_integrity(input: &str) -> (r: IntegritySignal)
    ensures
        r == integrity_of(input@),
        r.recognized_unbound ==> r.proceed,
{
    let tokens = tokenize(&chars_of(input));
    if tokens.len() == 0 || any_listed(&tokens, &reference_token_list()) {
        IntegritySignal { proceed: false, recognized_unbound: false }
    } else if tokens.len() >= 2 {
        IntegritySignal { proceed: true, recognized_unbound: false }
    } else if is_listed(&directive_word_list(), &tokens[0]) {
        IntegritySignal { proceed: true, recognized_unbound: true }
    } else {
        IntegritySignal { proceed: false, recognized_unbound: false }
    }
}

} // verus!
