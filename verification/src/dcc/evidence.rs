//! The evidence gate: a prompt must carry some substance to work with.

use vstd::prelude::*;
use crate::dcc::continuation::{
    answer_has_substance, continues, has_context, has_substance, is_continuation,
    prior_has_substance, prior_view, text_has_substance,
};
use crate::dcc::types::{EvidenceScope, PriorMessage};
use crate::text::{
    chars_of, copy_range, pieces, split_pieces, trim, trim_chars, trim_str, views, Boundary,
};

verus! {

/// A line with no content but markdown scaffolding: blank, a heading, a rule,
/// a code fence, or a lone ">", "-" or "*".
pub open spec fn is_structural_line(l: Seq<char>) -> bool {
    let t = trim(l, Boundary::Whitespace);
    ||| t.len() == 0
    ||| t[0] == '#'
    ||| t.len() >= 3 && t[0] == '-' && t[1] == '-' && t[2] == '-'
    ||| t.len() >= 3 && t[0] == '`' && t[1] == '`' && t[2] == '`'
    ||| t.len() == 1 && (t[0] == '>' || t[0] == '-' || t[0] == '*')
}

/// `p` without one final carriage return.
pub open spec fn strip_cr(p: Seq<char>) -> Seq<char> {
    if p.len() > 0 && p.last() == '\r' {
        p.drop_last()
    } else {
        p
    }
}

/// The lines of `s` as `str::lines` yields them: split at line feeds, a
/// carriage return before a line feed dropped, no final empty line.
pub open spec fn lines_of(s: Seq<char>) -> Seq<Seq<char>> {
    let ps = pieces(s, Boundary::Newline);
    let body = ps.drop_last().map_values(|p: Seq<char>| strip_cr(p));
    if ps.last().len() > 0 {
        body.push(ps.last())
    } else {
        body
    }
}

/// Whether every line of `s` is structural.
pub open spec fn all_structural(s: Seq<char>) -> bool {
    forall|i: int| 0 <= i < lines_of(s).len() ==> #[trigger] is_structural_line(lines_of(s)[i])
}

/// The evidence gate's verdict on a prompt, given the earlier messages.
pub open spec fn evidence_of(s: Seq<char>, prior: Option<Seq<PriorMessage>>) -> EvidenceScope {
    let t = trim(s, Boundary::Whitespace);
    if t.len() == 0 {
        EvidenceScope::Unsatisfied
    } else if all_structural(t) {
        EvidenceScope::Unsatisfied
    } else if has_substance(t) {
        EvidenceScope::Satisfied
    } else if has_context(prior) && continues(t) && answer_has_substance(prior->0) {
        EvidenceScope::Satisfied
    } else {
        EvidenceScope::Unsatisfied
    }
}

fn structural_line(l: &Vec<char>) -> (r: bool)
    ensures
        r == is_structural_line(l@),
{
    let t = trim_chars(l, Boundary::Whitespace);
    let n = t.len();
    n == 0 || t[0] == '#' || (n >= 3 && t[0] == '-' && t[1] == '-' && t[2] == '-') || (n >= 3
        && t[0] == '`' && t[1] == '`' && t[2] == '`') || (n == 1 && (t[0] == '>' || t[0] == '-'
        || t[0] == '*'))
}

fn without_cr(p: &Vec<char>) -> (r: Vec<char>)
    ensures
        r@ == strip_cr(p@),
{
    let n = p.len();
    if n > 0 && p[n - 1] == '\r' {
        let r = copy_range(p, 0, n - 1);
        assert(r@ =~= p@.drop_last());
        r
    } else {
        let r = copy_range(p, 0, n);
        assert(r@ =~= p@);
        r
    }
}

/// Whether every line of the text is structural.
fn all_lines_structural(s: &Vec<char>) -> (r: bool)
    ensures
        r == all_structural(s@),
{
    let ps = split_pieces(s, Boundary::Newline);
    let ghost all = views(ps@);
    let ghost lines = lines_of(s@);
    proof {
        crate::text::lemma_pieces_not_empty(s@, Boundary::Newline);
    }
    let last = ps.len() - 1;
    let mut i: usize = 0;
    while i < last
        invariant
            0 <= i <= last,
            last == ps@.len() - 1,
            all == views(ps@),
            all == pieces(s@, Boundary::Newline),
            lines == lines_of(s@),
            forall|j: int| 0 <= j < i ==> #[trigger] is_structural_line(lines[j]),
        decreases last - i,
    {
        assert(lines[i as int] == strip_cr(all[i as int]));
        if !structural_line(&without_cr(&ps[i])) {
            return false;
        }
        i = i + 1;
    }
    if ps[last].len() > 0 {
        assert(lines[last as int] == all[last as int]);
        structural_line(&ps[last])
    } else {
        true
    }
}

/// Evaluates the evidence scope of a prompt. The prompt is trimmed first; an
/// empty prompt, or one whose every line is markdown scaffolding, is
/// unsatisfied; one with a word that is neither a function word nor a vague
/// noun is satisfied. Otherwise, given a conversation, a continuation phrase
/// inherits the substance of the last answer when that answer has some.
pub fn evaluate_evidence(input: &str, prior_messages: Option<&[PriorMessage]>) -> (r: EvidenceScope)
    ensures
        r == evidence_of(input@, prior_view(prior_messages)),
{
    let trimmed = trim_str(input);
    if trimmed.is_empty() {
        return EvidenceScope::Unsatisfied;
    }
    if all_lines_structural(&chars_of(trimmed)) {
        return EvidenceScope::Unsatisfied;
    }
    if text_has_substance(trimmed) {
        return EvidenceScope::Satisfied;
    }
    if let Some(msgs) = prior_messages {
        if msgs.len() > 0 && is_continuation(trimmed) && prior_has_substance(msgs) {
            return EvidenceScope::Satisfied;
        }
    }
    EvidenceScope::Unsatisfied
}

} // verus!
