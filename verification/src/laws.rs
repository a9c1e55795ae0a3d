//! Properties of the gates and of the block reasons that hold across
//! functions and across calls.

use vstd::prelude::*;
use crate::coaching::tips::tips_of;
use crate::dcc::ambiguity::ambiguity_of;
use crate::dcc::continuation::{answer_has_substance, continues, has_substance, last_answer, points_back};
use crate::dcc::evidence::evidence_of;
use crate::dcc::lexicon::{
    continuation_phrases, directive_words, reference_tokens, function_words, lemma_listed_concat, listed, non_substantive_words,
    vague_nouns,
};
use crate::dcc::subject::binding_of;
use crate::dcc::types::{
    reason_code, AmbiguityState, BlockReasonCode, EvidenceScope, PriorMessage, SubjectSource,
};
use crate::input_gate::integrity::{integrity_of, CANONICAL_IDENTITY};
use crate::orchestrator::gates_verdict;
use crate::dcc::continuation::{count_content, last_content, last_role_index};
use crate::dcc::evidence::{is_structural_line, lines_of};
use crate::proxy::handlers::{
    block_reason_in, conversation_only, input_gate_reason, is_conversation_role, prior_context_of,
};
use crate::text::{
    all_ascii, alphanumeric_words, contains_text, gate_tokens, is_boundary, lowercased, lowered,
    occurs_at,
    pieces, trim, Boundary,
};

verus! {

/// No context is a cold start: handing the gates an empty conversation gives
/// exactly the verdicts they give when no conversation is handed over.
pub proof fn law_empty_context_is_cold_start(s: Seq<char>, empty: Seq<PriorMessage>)
    requires
        empty.len() == 0,
    ensures
        binding_of(s, Some(empty)) == binding_of(s, None),
        evidence_of(s, Some(empty)) == evidence_of(s, None),
        ambiguity_of(s, Some(empty)) == ambiguity_of(s, None),
        gates_verdict(s, Some(empty)) == gates_verdict(s, None),
{
}

/// Context only ever lets more through: a prompt that passes a gate without a
/// conversation passes it, with the same outcome, given any conversation.
pub proof fn law_context_never_blocks_a_cold_pass(s: Seq<char>, prior: Seq<PriorMessage>)
    ensures
        binding_of(s, None).1 != SubjectSource::Unknown ==> binding_of(s, Some(prior))
            == binding_of(s, None),
        evidence_of(s, None) == EvidenceScope::Satisfied ==> evidence_of(s, Some(prior))
            == EvidenceScope::Satisfied,
        ambiguity_of(s, None) == AmbiguityState::Clear ==> ambiguity_of(s, Some(prior))
            == AmbiguityState::Clear,
        gates_verdict(s, None) is Ok ==> gates_verdict(s, Some(prior)) is Ok,
{
}

/// A subject found only through the conversation is the last answer, and it
/// is recognized, never bound as the user's own text or as the system.
pub proof fn law_context_subject_is_recognized(s: Seq<char>, prior: Seq<PriorMessage>)
    requires
        binding_of(s, None).1 == SubjectSource::Unknown,
        binding_of(s, Some(prior)).1 != SubjectSource::Unknown,
    ensures
        binding_of(s, Some(prior)).1 == SubjectSource::Recognized,
        binding_of(s, Some(prior)).0 == last_answer(prior),
        answer_has_substance(prior),
{
}

/// Context resolves references but never weakens the evidence requirement:
/// what a conversation lets through that the prompt alone would not, it lets
/// through only for a continuation (for evidence) or a prompt that points back
/// (for ambiguity), and only when the last answer has substance.
pub proof fn law_context_needs_prior_substance(s: Seq<char>, prior: Seq<PriorMessage>)
    ensures
        evidence_of(s, Some(prior)) == EvidenceScope::Satisfied ==> evidence_of(s, None)
            == EvidenceScope::Satisfied || (continues(trim(s, Boundary::Whitespace))
            && answer_has_substance(prior)),
        ambiguity_of(s, Some(prior)) == AmbiguityState::Clear ==> ambiguity_of(s, None)
            == AmbiguityState::Clear || (points_back(trim(s, Boundary::Whitespace))
            && answer_has_substance(prior)),
{
}

/// Vague nouns are not references: a prompt whose every token is a function
/// word or a vague noun is ambiguous whatever the conversation, has no
/// evidence of its own, and gains none from a conversation unless it is a
/// continuation.
pub proof fn law_vague_prompts_stay_blocked(s: Seq<char>, prior: Option<Seq<PriorMessage>>)
    requires
        forall|i: int|
            0 <= i < gate_tokens(trim(s, Boundary::Whitespace)).len() ==> listed(
                function_words(),
                #[trigger] gate_tokens(trim(s, Boundary::Whitespace))[i],
            ) || listed(vague_nouns(), gate_tokens(trim(s, Boundary::Whitespace))[i]),
    ensures
        ambiguity_of(s, prior) == AmbiguityState::Ambiguous,
        evidence_of(s, None) == EvidenceScope::Unsatisfied,
        !continues(trim(s, Boundary::Whitespace)) ==> evidence_of(s, prior)
            == EvidenceScope::Unsatisfied,
{
    let ts = gate_tokens(trim(s, Boundary::Whitespace));
    assert forall|i: int| 0 <= i < ts.len() implies #[trigger] listed(
        non_substantive_words(),
        ts[i],
    ) by {
        lemma_listed_concat(function_words(), vague_nouns(), ts[i]);
    }
    assert(!has_substance(trim(s, Boundary::Whitespace)));
}

/// The gates fail closed: a blank prompt is blocked at subject binding, and
/// no gate lets it through, whatever the conversation.
pub proof fn law_blank_prompt_is_blocked(s: Seq<char>, prior: Option<Seq<PriorMessage>>)
    requires
        trim(s, Boundary::Whitespace).len() == 0,
    ensures
        binding_of(s, prior) == (None::<Seq<char>>, SubjectSource::Unknown),
        evidence_of(s, prior) == EvidenceScope::Unsatisfied,
        ambiguity_of(s, prior) == AmbiguityState::Ambiguous,
        gates_verdict(s, prior) == Err::<(), BlockReasonCode>(BlockReasonCode::BrSubjectUnknown),
{
}

/// Blank text is neither a continuation nor a reference to earlier messages.
proof fn lemma_blank_text_neither_continues_nor_points_back()
    ensures
        !continues(Seq::<char>::empty()),
        !points_back(Seq::<char>::empty()),
{
    let e = Seq::<char>::empty();
    assert(all_ascii(e));
    assert(lowercased(e) =~= e);
    reveal_strlit("elaborate");
    reveal_strlit("expand");
    reveal_strlit("tell me more");
    reveal_strlit("explain further");
    reveal_strlit("go on");
    reveal_strlit("continue");
    reveal_strlit("more detail");
    reveal_strlit("keep going");
    reveal_strlit("what about");
    reveal_strlit("how about");
    reveal_strlit("and also");
    assert forall|i: int| 0 <= i < continuation_phrases().len() implies !#[trigger] contains_text(
        e,
        continuation_phrases()[i]@,
    ) by {
        assert(continuation_phrases()[i]@.len() > 0);
    }
    assert(pieces(e, Boundary::NonAlphanumeric) == seq![e]);
    assert(seq![e].drop_last() =~= Seq::<Seq<char>>::empty());
    assert(lowered(Seq::<Seq<char>>::empty()) == Seq::<Seq<char>>::empty());
    assert(lowercased(seq![e].last()).len() == 0);
    assert(lowered(seq![e]) == Seq::<Seq<char>>::empty());
    assert(alphanumeric_words(e) =~= Seq::<Seq<char>>::empty());
}

/// Context never alters a binding found without it. When the prompt alone
/// binds nothing, the conversation binds it to the last answer exactly when
/// there is a conversation, the prompt is a continuation or points back, the
/// last answer has substance, and that answer passes the integrity check; the
/// subject is then recognized. Otherwise the prompt stays unbound.
pub proof fn law_context_binding(s: Seq<char>, prior: Seq<PriorMessage>)
    ensures
        binding_of(s, None).1 != SubjectSource::Unknown ==> binding_of(s, Some(prior))
            == binding_of(s, None),
        binding_of(s, None).1 == SubjectSource::Unknown ==> binding_of(s, Some(prior)) == (if prior.len()
            > 0 && (continues(trim(s, Boundary::Whitespace)) || points_back(
            trim(s, Boundary::Whitespace),
        )) && answer_has_substance(prior) && integrity_of(last_answer(prior)->0).proceed {
            (last_answer(prior), SubjectSource::Recognized)
        } else {
            (None, SubjectSource::Unknown)
        }),
{
    if trim(s, Boundary::Whitespace).len() == 0 {
        assert(trim(s, Boundary::Whitespace) =~= Seq::<char>::empty());
        lemma_blank_text_neither_continues_nor_points_back();
    }
}

/// A prompt that names the system is bound to the system's identity,
/// whatever the conversation.
pub proof fn law_naming_the_system_binds_it(s: Seq<char>, prior: Option<Seq<PriorMessage>>)
    requires
        trim(s, Boundary::Whitespace).len() > 0,
        contains_text(lowercased(trim(s, Boundary::Whitespace)), CANONICAL_IDENTITY@),
    ensures
        binding_of(s, prior) == (Some(CANONICAL_IDENTITY@), SubjectSource::Crs),
{
}

/// Every block reason raised by an input gate has coaching tips, and the
/// reasons without tips are exactly the version and release reasons.
pub proof fn law_input_gate_blocks_are_coached(code: BlockReasonCode)
    ensures
        input_gate_reason(code) ==> tips_of(code).len() > 0,
        tips_of(code).len() == 0 <==> (code == BlockReasonCode::BrVersionConflict || code
            == BlockReasonCode::BrVersionUndefined || code == BlockReasonCode::BrReleaseDenied),
{
}

/// Whatever blocks a prompt at the input gates is an input-gate reason, and so
/// the user is offered coaching for it.
pub proof fn law_input_gate_verdicts_are_coached(s: Seq<char>, prior: Option<Seq<PriorMessage>>)
    ensures
        gates_verdict(s, prior) matches Err(code) ==> input_gate_reason(code) && tips_of(code).len()
            > 0,
{
}

proof fn lemma_text_contains_itself(h: Seq<char>)
    ensures
        contains_text(h, h),
{
    assert(h.subrange(0, h.len() as int) =~= h);
    assert(occurs_at(h, h, 0));
}

/// A code that starts with 'B' does not occur in a shorter text, nor in a text
/// whose only 'B' is its first character and which does not begin with it.
proof fn lemma_code_absent(h: Seq<char>, n: Seq<char>, k: int)
    requires
        n.len() > 0,
        n[0] == 'B',
        0 <= k < n.len(),
        n.len() <= h.len() ==> h[k] != n[k] && forall|i: int| 0 < i < h.len() ==> h[i] != 'B',
    ensures
        !contains_text(h, n),
{
    if contains_text(h, n) {
        let i = choose|i: int| #[trigger] occurs_at(h, n, i);
        assert(h.subrange(i, i + n.len())[0] == n[0]);
        if i == 0 {
            assert(h.subrange(0, n.len() as int)[k] == n[k]);
        }
    }
}

/// Reading the block reason back from its own code gives the reason itself.
pub proof fn law_block_code_round_trip(code: BlockReasonCode)
    ensures
        block_reason_in(reason_code(code)@) == Some(code),
{
    reveal_strlit("BR-SUBJECT-UNKNOWN");
    reveal_strlit("BR-EVIDENCE-UNSAT");
    reveal_strlit("BR-AMBIGUITY");
    reveal_strlit("BR-STRUCTURAL-FAIL");
    reveal_strlit("BR-GROUNDING-FAIL");
    reveal_strlit("BR-VERSION-CONFLICT");
    reveal_strlit("BR-VERSION-UNDEFINED");
    reveal_strlit("BR-RELEASE-DENIED");
    let s = "BR-SUBJECT-UNKNOWN"@;
    let e = "BR-EVIDENCE-UNSAT"@;
    let a = "BR-AMBIGUITY"@;
    let st = "BR-STRUCTURAL-FAIL"@;
    let g = "BR-GROUNDING-FAIL"@;
    let vc = "BR-VERSION-CONFLICT"@;
    let vu = "BR-VERSION-UNDEFINED"@;
    let rd = "BR-RELEASE-DENIED"@;
    let h = reason_code(code)@;
    lemma_text_contains_itself(h);
    match code {
        BlockReasonCode::BrSubjectUnknown => {},
        BlockReasonCode::BrEvidenceUnsat => {
            lemma_code_absent(h, s, 3);
        },
        BlockReasonCode::BrAmbiguity => {
            lemma_code_absent(h, s, 3);
            lemma_code_absent(h, e, 3);
        },
        BlockReasonCode::BrStructuralFail => {
            lemma_code_absent(h, s, 4);
            lemma_code_absent(h, e, 3);
            lemma_code_absent(h, a, 3);
        },
        BlockReasonCode::BrGroundingFail => {
            lemma_code_absent(h, s, 3);
            lemma_code_absent(h, e, 3);
            lemma_code_absent(h, a, 3);
            lemma_code_absent(h, st, 3);
        },
        BlockReasonCode::BrVersionConflict => {
            lemma_code_absent(h, s, 3);
            lemma_code_absent(h, e, 3);
            lemma_code_absent(h, a, 3);
            lemma_code_absent(h, st, 3);
            lemma_code_absent(h, g, 3);
        },
        BlockReasonCode::BrVersionUndefined => {
            lemma_code_absent(h, s, 3);
            lemma_code_absent(h, e, 3);
            lemma_code_absent(h, a, 3);
            lemma_code_absent(h, st, 3);
            lemma_code_absent(h, g, 3);
            lemma_code_absent(h, vc, 11);
        },
        BlockReasonCode::BrReleaseDenied => {
            lemma_code_absent(h, s, 3);
            lemma_code_absent(h, e, 3);
            lemma_code_absent(h, a, 3);
            lemma_code_absent(h, st, 3);
            lemma_code_absent(h, g, 3);
            lemma_code_absent(h, vc, 3);
            lemma_code_absent(h, vu, 3);
        },
    }
}


/// A word of the prompt that is neither a function word nor a vague noun.
pub open spec fn is_specific(t: Seq<char>) -> bool {
    !listed(function_words(), t) && !listed(vague_nouns(), t)
}

proof fn lemma_specific_word_is_substance(t: Seq<char>, i: int)
    requires
        0 <= i < gate_tokens(t).len(),
        is_specific(gate_tokens(t)[i]),
    ensures
        has_substance(t),
        t.len() > 0,
{
    lemma_listed_concat(function_words(), vague_nouns(), gate_tokens(t)[i]);
    if t.len() == 0 {
        assert(t =~= Seq::<char>::empty());
        assert(pieces(t, Boundary::Whitespace) == seq![t]);
        assert(seq![t].drop_last() =~= Seq::<Seq<char>>::empty());
        assert(seq![t].last() == t);
        assert(crate::text::nonempty(Seq::<Seq<char>>::empty()) == Seq::<Seq<char>>::empty());
        assert(crate::text::nonempty(seq![t]) == Seq::<Seq<char>>::empty());
    }
}

/// Vague nouns make a prompt ambiguous only when every content word is one: a
/// prompt that stands on its own and holds one specific word (neither a
/// function word nor a vague noun) is clear, whatever vague nouns it also
/// holds and whatever the conversation.
pub proof fn law_one_specific_word_clears(
    s: Seq<char>,
    prior: Option<Seq<PriorMessage>>,
    i: int,
)
    requires
        0 <= i < gate_tokens(trim(s, Boundary::Whitespace)).len(),
        is_specific(gate_tokens(trim(s, Boundary::Whitespace))[i]),
        integrity_of(trim(s, Boundary::Whitespace)).proceed,
    ensures
        ambiguity_of(s, prior) == AmbiguityState::Clear,
{
    lemma_specific_word_is_substance(trim(s, Boundary::Whitespace), i);
}

/// Markdown scaffolding withholds evidence only when every line is
/// scaffolding: a prompt with one line that is not, and one specific word,
/// carries evidence, whatever the conversation.
pub proof fn law_one_content_line_gives_evidence(
    s: Seq<char>,
    prior: Option<Seq<PriorMessage>>,
    j: int,
    i: int,
)
    requires
        0 <= j < lines_of(trim(s, Boundary::Whitespace)).len(),
        !is_structural_line(lines_of(trim(s, Boundary::Whitespace))[j]),
        0 <= i < gate_tokens(trim(s, Boundary::Whitespace)).len(),
        is_specific(gate_tokens(trim(s, Boundary::Whitespace))[i]),
    ensures
        evidence_of(s, prior) == EvidenceScope::Satisfied,
{
    lemma_specific_word_is_substance(trim(s, Boundary::Whitespace), i);
}

/// A prompt whose every line is markdown scaffolding carries no evidence,
/// whatever the conversation.
pub proof fn law_scaffolding_gives_no_evidence(s: Seq<char>, prior: Option<Seq<PriorMessage>>)
    requires
        forall|j: int|
            0 <= j < lines_of(trim(s, Boundary::Whitespace)).len() ==> #[trigger] is_structural_line(
                lines_of(trim(s, Boundary::Whitespace))[j],
            ),
    ensures
        evidence_of(s, prior) == EvidenceScope::Unsatisfied,
{
}

/// A token that is not a function word.
pub open spec fn is_content_word(t: Seq<char>) -> bool {
    !listed(function_words(), t)
}

proof fn lemma_count_is_filter(ts: Seq<Seq<char>>, pred: spec_fn(Seq<char>) -> bool)
    requires
        forall|t: Seq<char>| #[trigger] pred(t) == is_content_word(t),
    ensures
        count_content(ts) == ts.filter(pred).len(),
    decreases ts.len(),
{
    reveal(Seq::filter);
    if ts.len() > 0 {
        lemma_count_is_filter(ts.drop_last(), pred);
        assert(pred(ts.last()) == is_content_word(ts.last()));
    }
}

/// Continuation depends on content words only, not on how many function
/// words the text holds: a text is a continuation exactly when fewer than six
/// of its tokens are not function words and its lowercased form holds a
/// continuation phrase.
pub proof fn law_continuation_counts_content_words(s: Seq<char>)
    ensures
        continues(s) <==> (gate_tokens(s).filter(|t: Seq<char>| is_content_word(t)).len() < 6
            && exists|k: int|
            0 <= k < continuation_phrases().len() && #[trigger] contains_text(
                lowercased(s),
                continuation_phrases()[k]@,
            )),
{
    let pred = |t: Seq<char>| is_content_word(t);
    lemma_count_is_filter(gate_tokens(s), pred);
}

proof fn lemma_conversation_only_is_filter(ms: Seq<PriorMessage>)
    ensures
        conversation_only(ms) == ms.filter(|m: PriorMessage| is_conversation_role(m.role@)),
    decreases ms.len(),
{
    reveal(Seq::filter);
    if ms.len() > 0 {
        lemma_conversation_only_is_filter(ms.drop_last());
    }
}

proof fn lemma_last_role_index_in_range(ms: Seq<PriorMessage>, role: Seq<char>)
    ensures
        last_role_index(ms, role) matches Some(i) ==> 0 <= i < ms.len() && ms[i].role@ == role,
    decreases ms.len(),
{
    if ms.len() > 0 {
        lemma_last_role_index_in_range(ms.drop_last(), role);
    }
}

proof fn lemma_conversation_keeps_last(ms: Seq<PriorMessage>, role: Seq<char>)
    requires
        is_conversation_role(role),
    ensures
        last_content(conversation_only(ms), role) == last_content(ms, role),
    decreases ms.len(),
{
    if ms.len() > 0 {
        lemma_conversation_keeps_last(ms.drop_last(), role);
        let c = conversation_only(ms.drop_last());
        lemma_last_role_index_in_range(c, role);
        lemma_last_role_index_in_range(ms.drop_last(), role);
        if is_conversation_role(ms.last().role@) {
            assert(c.push(ms.last()).drop_last() =~= c);
            assert(c.push(ms.last()).last() == ms.last());
        }
    }
}

/// The earlier conversation handed to the gates is every user and assistant
/// message before the last message, in order: nothing is dropped, nothing is
/// added, and the last answer and last user message the gates see are those
/// of the request. It is absent exactly when there is no such message.
pub proof fn law_prior_context_keeps_the_whole_conversation(ms: Seq<PriorMessage>)
    ensures
        ms.len() > 0 ==> (prior_context_of(ms) is None <==> ms.drop_last().filter(
            |m: PriorMessage| is_conversation_role(m.role@),
        ).len() == 0),
        prior_context_of(ms) matches Some(v) ==> {
            &&& v == ms.drop_last().filter(|m: PriorMessage| is_conversation_role(m.role@))
            &&& last_answer(v) == last_answer(ms.drop_last())
            &&& last_content(v, "user"@) == last_content(ms.drop_last(), "user"@)
        },
{
    if ms.len() > 0 {
        lemma_conversation_only_is_filter(ms.drop_last());
        lemma_conversation_keeps_last(ms.drop_last(), "assistant"@);
        lemma_conversation_keeps_last(ms.drop_last(), "user"@);
        if ms.len() <= 1 {
            assert(ms.drop_last() =~= Seq::<PriorMessage>::empty());
            reveal(Seq::filter);
        }
    }
}


/// Every word of the gates' word lists is at most ten characters long.
proof fn lemma_listed_words_are_short(t: Seq<char>)
    requires
        t.len() > 10,
    ensures
        !listed(function_words(), t),
        !listed(vague_nouns(), t),
        !listed(reference_tokens(), t),
        !listed(directive_words(), t),
{
    reveal_strlit("the");
    reveal_strlit("a");
    reveal_strlit("an");
    reveal_strlit("is");
    reveal_strlit("are");
    reveal_strlit("was");
    reveal_strlit("were");
    reveal_strlit("be");
    reveal_strlit("been");
    reveal_strlit("being");
    reveal_strlit("do");
    reveal_strlit("does");
    reveal_strlit("did");
    reveal_strlit("have");
    reveal_strlit("has");
    reveal_strlit("had");
    reveal_strlit("will");
    reveal_strlit("would");
    reveal_strlit("could");
    reveal_strlit("should");
    reveal_strlit("can");
    reveal_strlit("may");
    reveal_strlit("might");
    reveal_strlit("shall");
    reveal_strlit("must");
    reveal_strlit("i");
    reveal_strlit("me");
    reveal_strlit("my");
    reveal_strlit("you");
    reveal_strlit("your");
    reveal_strlit("he");
    reveal_strlit("she");
    reveal_strlit("it");
    reveal_strlit("we");
    reveal_strlit("they");
    reveal_strlit("this");
    reveal_strlit("that");
    reveal_strlit("these");
    reveal_strlit("those");
    reveal_strlit("in");
    reveal_strlit("on");
    reveal_strlit("at");
    reveal_strlit("to");
    reveal_strlit("for");
    reveal_strlit("of");
    reveal_strlit("with");
    reveal_strlit("from");
    reveal_strlit("by");
    reveal_strlit("about");
    reveal_strlit("into");
    reveal_strlit("through");
    reveal_strlit("during");
    reveal_strlit("before");
    reveal_strlit("after");
    reveal_strlit("above");
    reveal_strlit("below");
    reveal_strlit("between");
    reveal_strlit("under");
    reveal_strlit("over");
    reveal_strlit("and");
    reveal_strlit("or");
    reveal_strlit("but");
    reveal_strlit("not");
    reveal_strlit("no");
    reveal_strlit("so");
    reveal_strlit("if");
    reveal_strlit("then");
    reveal_strlit("just");
    reveal_strlit("thing");
    reveal_strlit("things");
    reveal_strlit("stuff");
    reveal_strlit("something");
    reveal_strlit("whatever");
    reveal_strlit("anything");
    reveal_strlit("everything");
    reveal_strlit("somewhere");
    reveal_strlit("somehow");
    reveal_strlit("someone");
    reveal_strlit("anybody");
    reveal_strlit("him");
    reveal_strlit("her");
    reveal_strlit("them");
    reveal_strlit("summarize");
    reveal_strlit("compare");
    reveal_strlit("list");
    reveal_strlit("explain");
    assert(forall|i: int| 0 <= i < function_words().len() ==> #[trigger] function_words()[i]@.len() <= 10);
    assert(forall|i: int| 0 <= i < vague_nouns().len() ==> #[trigger] vague_nouns()[i]@.len() <= 10);
    assert(forall|i: int| 0 <= i < reference_tokens().len() ==> #[trigger] reference_tokens()[i]@.len() <= 10);
    assert(forall|i: int| 0 <= i < directive_words().len() ==> #[trigger] directive_words()[i]@.len() <= 10);
}

proof fn lemma_pieces_without_boundary(s: Seq<char>, b: Boundary)
    requires
        forall|i: int| 0 <= i < s.len() ==> !is_boundary(b, #[trigger] s[i]),
    ensures
        pieces(s, b) == seq![s],
    decreases s.len(),
{
    if s.len() > 0 {
        lemma_pieces_without_boundary(s.drop_last(), b);
        assert(s.drop_last().push(s.last()) =~= s);
        assert(seq![s.drop_last()].update(0, s.drop_last().push(s.last())) =~= seq![s]);
    } else {
        assert(s =~= Seq::<char>::empty());
    }
}

proof fn lemma_trim_keeps(s: Seq<char>, b: Boundary)
    requires
        s.len() > 0,
        !is_boundary(b, s[0]),
        !is_boundary(b, s.last()),
    ensures
        trim(s, b) == s,
{
}

/// A one-word prompt of lowercase ASCII letters, as the gates read it.
proof fn lemma_one_lowercase_word(s: Seq<char>)
    requires
        s.len() > 0,
        forall|i: int| 0 <= i < s.len() ==> 'a' <= #[trigger] s[i] && s[i] <= 'z',
    ensures
        trim(s, Boundary::Whitespace) == s,
        lowercased(s) == s,
        gate_tokens(s) == seq![s],
        lines_of(s) == seq![s],
        !is_structural_line(s),
{
    assert(forall|i: int| 0 <= i < s.len() ==> !is_boundary(Boundary::Whitespace, #[trigger] s[i]));
    assert(forall|i: int| 0 <= i < s.len() ==> !is_boundary(Boundary::Newline, #[trigger] s[i]));
    lemma_trim_keeps(s, Boundary::Whitespace);
    lemma_trim_keeps(s, Boundary::NonAlphanumeric);
    assert(all_ascii(s));
    assert(lowercased(s) =~= s);
    lemma_pieces_without_boundary(s, Boundary::Whitespace);
    lemma_pieces_without_boundary(s, Boundary::Newline);
    assert(seq![s].drop_last() =~= Seq::<Seq<char>>::empty());
    assert(seq![s].last() == s);
    assert(crate::text::nonempty(Seq::<Seq<char>>::empty()) == Seq::<Seq<char>>::empty());
    assert(crate::text::nonempty(seq![s]) =~= seq![s]);
    assert(crate::text::cleaned(Seq::<Seq<char>>::empty()) == Seq::<Seq<char>>::empty());
    assert(crate::text::clean_word(s) == s);
    assert(crate::text::cleaned(seq![s]) =~= seq![s]);
    assert(Seq::<Seq<char>>::empty().map_values(|p: Seq<char>| crate::dcc::evidence::strip_cr(p))
        =~= Seq::<Seq<char>>::empty());
    assert(lines_of(s) =~= seq![s]);
}

/// Coaching is offered for exactly the block reasons that the input gates can
/// raise: a reason is an input-gate reason if and only if some prompt, with or
/// without a conversation, is blocked by the gates for it. No output-gate,
/// version or release reason is coached.
pub proof fn law_coached_reasons_are_what_the_gates_raise(c: BlockReasonCode)
    ensures
        input_gate_reason(c) <==> exists|s: Seq<char>, p: Option<Seq<PriorMessage>>|
            #[trigger] gates_verdict(s, p) == Err::<(), BlockReasonCode>(c),
{
    if exists|s: Seq<char>, p: Option<Seq<PriorMessage>>|
        #[trigger] gates_verdict(s, p) == Err::<(), BlockReasonCode>(c) {
        let (s, p) = choose|s: Seq<char>, p: Option<Seq<PriorMessage>>|
            #[trigger] gates_verdict(s, p) == Err::<(), BlockReasonCode>(c);
        law_input_gate_verdicts_are_coached(s, p);
    }
    if input_gate_reason(c) {
        reveal_strlit("cosyn");
        let none = None::<Seq<PriorMessage>>;
        if c == BlockReasonCode::BrSubjectUnknown {
            let e = Seq::<char>::empty();
            assert(trim(e, Boundary::Whitespace) =~= e);
            assert(gates_verdict(e, none) == Err::<(), BlockReasonCode>(c));
        } else if c == BlockReasonCode::BrEvidenceUnsat {
            let w = seq!['c', 'o', 's', 'y', 'n'];
            let s = seq!['#'] + w;
            assert(s.subrange(1, 6) =~= CANONICAL_IDENTITY@);
            assert(occurs_at(s, CANONICAL_IDENTITY@, 1));
            assert(forall|i: int| 0 <= i < s.len() ==> !is_boundary(Boundary::Whitespace, #[trigger] s[i]));
            assert(forall|i: int| 0 <= i < s.len() ==> !is_boundary(Boundary::Newline, #[trigger] s[i]));
            lemma_trim_keeps(s, Boundary::Whitespace);
            assert(all_ascii(s));
            assert(lowercased(s) =~= s);
            lemma_pieces_without_boundary(s, Boundary::Newline);
            assert(seq![s].drop_last() =~= Seq::<Seq<char>>::empty());
            assert(Seq::<Seq<char>>::empty().map_values(|p: Seq<char>| crate::dcc::evidence::strip_cr(p))
                =~= Seq::<Seq<char>>::empty());
            assert(lines_of(s) =~= seq![s]);
            assert(is_structural_line(s));
            assert(gates_verdict(s, none) == Err::<(), BlockReasonCode>(c));
        } else {
            let s = seq!['c', 'o', 's', 'y', 'n', 'g', 'o', 'v', 'e', 'r', 'n', 'a', 'n', 'c', 'e'];
            lemma_one_lowercase_word(s);
            assert(s.subrange(0, 5) =~= CANONICAL_IDENTITY@);
            assert(occurs_at(s, CANONICAL_IDENTITY@, 0));
            lemma_listed_words_are_short(s);
            lemma_listed_concat(function_words(), vague_nouns(), s);
            assert(gate_tokens(s)[0] == s);
            assert(has_substance(s));
            assert(!crate::dcc::continuation::some_listed(gate_tokens(s), reference_tokens()));
            assert(!integrity_of(s).proceed);
            assert(gates_verdict(s, none) == Err::<(), BlockReasonCode>(c));
        }
    }
}

} // verus!
