//! The completion parser: recovers the question and the answer from a
//! completion by an ordered table of marker rules.
use vstd::prelude::*;
use crate::markers::{
    ANSWER_FOR, A_MARK, BACKGROUND, BACKGROUND_LEAD, FOLLOWING, HINT, NEWLINE, PARAGRAPH,
    PIPE_MARKER, PLACEHOLDER, QUESTION_MARK, Q_MARK, REFERRING, TASK_MARKER, USE_BACKGROUND,
};
use crate::text::{
    after, before, chars_of, contains, first_index, lemma_first_index_is, lemma_no_early_occurrence,
    lemma_occurs_none_before, lemma_trim_lead_white, lemma_trim_padded, occurs, occurs_at, push_all,
    replace_all, replaced, string_of, text_after, text_before, trim, trimmed,
};

verus! {

/// `Some(t)` where `t` is not empty.
pub open spec fn non_empty(t: Seq<char>) -> Option<Seq<char>> {
    if t.len() > 0 {
        Some(t)
    } else {
        None
    }
}

/// The first of `a` and `b` that is present.
pub open spec fn first_of(a: Option<Seq<char>>, b: Option<Seq<char>>) -> Option<Seq<char>> {
    if a is Some {
        a
    } else {
        b
    }
}

/// The trimmed text before `cut` in `s`, where `cut` occurs and that text is not empty.
pub open spec fn cut_rule(s: Seq<char>, cut: Seq<char>) -> Option<Seq<char>> {
    if occurs(s, cut) {
        non_empty(trim(before(s, cut)))
    } else {
        None
    }
}

/// The rule on `Q:` ... `A:`.
pub open spec fn q_rule(bp: Seq<char>) -> Option<Seq<char>> {
    if !occurs(bp, Q_MARK@) {
        None
    } else {
        let aq = after(bp, Q_MARK@);
        let referring = cut_rule(aq, REFERRING@);
        let answered = if occurs(aq, A_MARK@) {
            let ba = before(aq, A_MARK@);
            first_of(
                if occurs(ba, PLACEHOLDER@) {
                    non_empty(trim(before(aq, PLACEHOLDER@)))
                } else {
                    None
                },
                non_empty(trim(ba)),
            )
        } else {
            None
        };
        first_of(referring, answered)
    }
}

/// The rule on `Question:`.
pub open spec fn question_rule(bp: Seq<char>) -> Option<Seq<char>> {
    if occurs(bp, QUESTION_MARK@) {
        non_empty(trim(after(bp, QUESTION_MARK@)))
    } else {
        None
    }
}

/// The text after `lead`, cut before `cut` where that leaves text.
pub open spec fn lead_rule(bp: Seq<char>, lead: Seq<char>, cut: Seq<char>) -> Option<Seq<char>> {
    if occurs(bp, lead) {
        let r = after(bp, lead);
        first_of(cut_rule(r, cut), non_empty(trim(r)))
    } else {
        None
    }
}

/// The text after the task marker, with the placeholder handled.
pub open spec fn fallback_rule(bp: Seq<char>, ctx: Seq<char>) -> Option<Seq<char>> {
    if !occurs(bp, TASK_MARKER@) {
        None
    } else {
        let ft = after(bp, TASK_MARKER@);
        let background = if occurs(ft, BACKGROUND@) {
            non_empty(trim(BACKGROUND_LEAD@ + ctx + NEWLINE@ + after(ft, BACKGROUND@)))
        } else {
            None
        };
        let used = if occurs(ft, USE_BACKGROUND@) {
            non_empty(trim(replace_all(ft, PLACEHOLDER@, ctx)))
        } else {
            None
        };
        first_of(
            cut_rule(ft, HINT@),
            first_of(background, first_of(used, non_empty(trim(ft)))),
        )
    }
}

/// The question rules, in order, on the text before the pipe marker.
pub open spec fn question_rules(bp: Seq<char>, ctx: Seq<char>) -> Option<Seq<char>> {
    first_of(
        q_rule(bp),
        first_of(
            question_rule(bp),
            first_of(
                lead_rule(bp, ANSWER_FOR@, PLACEHOLDER@),
                first_of(
                    lead_rule(bp, FOLLOWING@, PLACEHOLDER@),
                    first_of(lead_rule(bp, PARAGRAPH@, HINT@), fallback_rule(bp, ctx)),
                ),
            ),
        ),
    )
}

/// The question that a completion holds, given the passage it was made from.
pub open spec fn question_of(completion: Seq<char>, ctx: Seq<char>) -> Option<Seq<char>> {
    question_rules(before(completion, PIPE_MARKER@), ctx)
}

/// The answer that a completion holds: the trimmed text after the pipe marker.
pub open spec fn answer_of(completion: Seq<char>) -> Option<Seq<char>> {
    if occurs(completion, PIPE_MARKER@) {
        Some(trim(after(completion, PIPE_MARKER@)))
    } else {
        None
    }
}

/// The view of an optional string.
pub open spec fn opt_view(r: Option<String>) -> Option<Seq<char>> {
    match r {
        Some(s) => Some(s@),
        None => None,
    }
}

/// The view of an optional character vector.
pub open spec fn opt_chars(r: Option<Vec<char>>) -> Option<Seq<char>> {
    match r {
        Some(s) => Some(s@),
        None => None,
    }
}

fn non_empty_of(t: Vec<char>) -> (r: Option<Vec<char>>)
    ensures
        opt_chars(r) == non_empty(t@),
{
    if t.len() > 0 {
        Some(t)
    } else {
        None
    }
}

fn cut_rule_of(s: &Vec<char>, cut: &Vec<char>) -> (r: Option<Vec<char>>)
    ensures
        opt_chars(r) == cut_rule(s@, cut@),
{
    if contains(s, cut) {
        non_empty_of(trimmed(&text_before(s, cut)))
    } else {
        None
    }
}

fn q_rule_of(bp: &Vec<char>) -> (r: Option<Vec<char>>)
    ensures
        opt_chars(r) == q_rule(bp@),
{
    let q = chars_of(Q_MARK);
    if !contains(bp, &q) {
        return None;
    }
    let aq = text_after(bp, &q);
    let referring = cut_rule_of(&aq, &chars_of(REFERRING));
    if referring.is_some() {
        return referring;
    }
    let a = chars_of(A_MARK);
    if !contains(&aq, &a) {
        return None;
    }
    let ba = text_before(&aq, &a);
    let placeholder = chars_of(PLACEHOLDER);
    if contains(&ba, &placeholder) {
        let r = non_empty_of(trimmed(&text_before(&aq, &placeholder)));
        if r.is_some() {
            return r;
        }
    }
    non_empty_of(trimmed(&ba))
}

fn question_rule_of(bp: &Vec<char>) -> (r: Option<Vec<char>>)
    ensures
        opt_chars(r) == question_rule(bp@),
{
    let m = chars_of(QUESTION_MARK);
    if contains(bp, &m) {
        non_empty_of(trimmed(&text_after(bp, &m)))
    } else {
        None
    }
}

fn lead_rule_of(bp: &Vec<char>, lead: &Vec<char>, cut: &Vec<char>) -> (r: Option<Vec<char>>)
    ensures
        opt_chars(r) == lead_rule(bp@, lead@, cut@),
{
    if !contains(bp, lead) {
        return None;
    }
    let rest = text_after(bp, lead);
    let c = cut_rule_of(&rest, cut);
    if c.is_some() {
        return c;
    }
    non_empty_of(trimmed(&rest))
}

fn fallback_rule_of(bp: &Vec<char>, ctx: &Vec<char>) -> (r: Option<Vec<char>>)
    ensures
        opt_chars(r) == fallback_rule(bp@, ctx@),
{
    let task = chars_of(TASK_MARKER);
    if !contains(bp, &task) {
        return None;
    }
    let ft = text_after(bp, &task);
    let hint = cut_rule_of(&ft, &chars_of(HINT));
    if hint.is_some() {
        return hint;
    }
    let background = chars_of(BACKGROUND);
    if contains(&ft, &background) {
        let mut spliced = chars_of(BACKGROUND_LEAD);
        push_all(&mut spliced, ctx);
        push_all(&mut spliced, &chars_of(NEWLINE));
        push_all(&mut spliced, &text_after(&ft, &background));
        let r = non_empty_of(trimmed(&spliced));
        if r.is_some() {
            return r;
        }
    }
    if contains(&ft, &chars_of(USE_BACKGROUND)) {
        let placeholder = chars_of(PLACEHOLDER);
        proof {
            reveal_strlit("{{context}}");
        }
        let r = non_empty_of(trimmed(&replaced(&ft, &placeholder, ctx)));
        if r.is_some() {
            return r;
        }
    }
    non_empty_of(trimmed(&ft))
}

/// The question in a completion: the first rule of the table that yields
/// non-empty text, applied to the text before the pipe marker (all of the
/// completion where there is none). Where the placeholder of the passage is
/// to be filled in, `context` is put in its place. Where no rule yields
/// text, and in particular where the completion has no task marker to fall
/// back on, there is no question.
pub fn parse_q(completion: &str, context: &str) -> (r: Option<String>)
    ensures
        opt_view(r) == question_of(completion@, context@),
{
    let c = chars_of(completion);
    let ctx = chars_of(context);
    let bp = text_before(&c, &chars_of(PIPE_MARKER));
    let mut found = q_rule_of(&bp);
    if found.is_none() {
        found = question_rule_of(&bp);
    }
    if found.is_none() {
        found = lead_rule_of(&bp, &chars_of(ANSWER_FOR), &chars_of(PLACEHOLDER));
    }
    if found.is_none() {
        found = lead_rule_of(&bp, &chars_of(FOLLOWING), &chars_of(PLACEHOLDER));
    }
    if found.is_none() {
        found = lead_rule_of(&bp, &chars_of(PARAGRAPH), &chars_of(HINT));
    }
    if found.is_none() {
        found = fallback_rule_of(&bp, &ctx);
    }
    match found {
        Some(q) => Some(string_of(&q)),
        None => None,
    }
}

/// The answer in a completion: the trimmed text after the first pipe
/// marker, or nothing where the completion has no pipe marker.
pub fn parse_a(completion: &str) -> (r: Option<String>)
    ensures
        opt_view(r) == answer_of(completion@),
{
    let c = chars_of(completion);
    let pipe = chars_of(PIPE_MARKER);
    if contains(&c, &pipe) {
        Some(string_of(&trimmed(&text_after(&c, &pipe))))
    } else {
        None
    }
}

/// A completion of the plain form: the task marker, a blank line, `Q: `,
/// the question, a line `A:`, the pipe marker on a line of its own, and the
/// answer.
pub open spec fn qa_completion(q: Seq<char>, a: Seq<char>) -> Seq<char> {
    "<|task|>\n \nQ: "@ + q + "\nA:\n<|pipe|>\n"@ + a
}

/// Parsing a completion of the plain form gives back the question and the
/// answer, trimmed. The question must not itself hold the pipe marker, `A:`,
/// the placeholder or the referring phrase, and must not be blank.
pub proof fn lemma_round_trip(q: Seq<char>, a: Seq<char>, ctx: Seq<char>)
    requires
        !occurs(q, PIPE_MARKER@),
        !occurs(q, A_MARK@),
        !occurs(q, PLACEHOLDER@),
        !occurs(q, REFERRING@),
        trim(q).len() > 0,
    ensures
        question_of(qa_completion(q, a), ctx) == Some(trim(q)),
        answer_of(qa_completion(q, a)) == Some(trim(a)),
{
    reveal_strlit("<|task|>\n \nQ: ");
    reveal_strlit("\nA:\n<|pipe|>\n");
    reveal_strlit("<|pipe|>");
    reveal_strlit("A:");
    reveal_strlit("Q:");
    reveal_strlit("{{context}}");
    reveal_strlit("Referring to the passage above, the correct answer to the given question is");
    let head = "<|task|>\n \nQ: "@;
    let c = qa_completion(q, a);
    let pipe = PIPE_MARKER@;
    let y = seq!['\n', 'A', ':', '\n'];
    let z = pipe + seq!['\n'] + a;
    assert(c =~= head + q + y + z);

    // The pipe marker comes first right after the `A:` line.
    assert forall|i: int| 0 <= i < head.len() implies !occurs_at(head + q + y + z, pipe, i) by {
        let s = head + q + y + z;
        if occurs_at(s, pipe, i) {
            assert(s.subrange(i, i + 8)[0] == s[i]);
            assert(s.subrange(i, i + 8)[2] == s[i + 2]);
        }
    }
    lemma_no_early_occurrence(head, q, y, z, pipe);
    let k0: int = (head.len() + q.len() + y.len()) as int;
    assert(c.subrange(k0, k0 + 8) =~= pipe);
    lemma_first_index_is(c, pipe, k0);
    let bp = before(c, pipe);
    assert(bp =~= head + q + y);
    assert(after(c, pipe) =~= seq!['\n'] + a);
    lemma_trim_lead_white('\n', a);

    // `Q:` comes first at the end of the head.
    let qm = Q_MARK@;
    assert forall|i: int| 0 <= i < 11 implies !occurs_at(bp, qm, i) by {
        if occurs_at(bp, qm, i) {
            assert(bp.subrange(i, i + 2)[0] == bp[i]);
        }
    }
    assert(bp.subrange(11, 13) =~= qm);
    lemma_first_index_is(bp, qm, 11);
    let aq = after(bp, qm);
    let sp = seq![' '];
    assert(aq =~= sp + q + y + Seq::<char>::empty());

    // The referring phrase is not there.
    let referring = REFERRING@;
    assert(!occurs_at(aq, referring, 0)) by {
        if occurs_at(aq, referring, 0) {
            assert(aq.subrange(0, referring.len() as int)[0] == aq[0]);
        }
    }
    lemma_no_early_occurrence(sp, q, y, Seq::<char>::empty(), referring);
    lemma_occurs_none_before(aq, referring, aq.len() as int);

    // `A:` comes first right after the question.
    let am = A_MARK@;
    let nl = seq!['\n'];
    let rest = seq!['A', ':', '\n'];
    assert(aq =~= sp + q + nl + rest);
    assert(!occurs_at(sp + q + nl + rest, am, 0)) by {
        let s = sp + q + nl + rest;
        if occurs_at(s, am, 0) {
            assert(s.subrange(0, 2)[0] == s[0]);
        }
    }
    lemma_no_early_occurrence(sp, q, nl, rest, am);
    let k1: int = (2 + q.len()) as int;
    assert(aq.subrange(k1, k1 + 2) =~= am);
    lemma_first_index_is(aq, am, k1);
    let ba = before(aq, am);
    assert(ba =~= sp + q + nl);

    // No placeholder before `A:`.
    let ph = PLACEHOLDER@;
    assert(ba =~= sp + q + nl + Seq::<char>::empty());
    assert(!occurs_at(sp + q + nl + Seq::<char>::empty(), ph, 0)) by {
        let s = sp + q + nl + Seq::<char>::empty();
        if occurs_at(s, ph, 0) {
            assert(s.subrange(0, 11)[0] == s[0]);
        }
    }
    lemma_no_early_occurrence(sp, q, nl, Seq::<char>::empty(), ph);
    lemma_occurs_none_before(ba, ph, ba.len() as int);
    lemma_trim_padded(' ', q, '\n');
}

/// Without a pipe marker a completion has no answer, and the question rules
/// run on the whole completion.
pub proof fn lemma_no_pipe(completion: Seq<char>, ctx: Seq<char>)
    requires
        !occurs(completion, PIPE_MARKER@),
    ensures
        answer_of(completion) is None,
        question_of(completion, ctx) == question_rules(completion, ctx),
{
}

/// Parsing keeps no state: equal completions and passages give equal results.
pub proof fn lemma_parse_deterministic(c1: Seq<char>, c2: Seq<char>, x1: Seq<char>, x2: Seq<char>)
    requires
        c1 == c2,
        x1 == x2,
    ensures
        question_of(c1, x1) == question_of(c2, x2),
        answer_of(c1) == answer_of(c2),
{
}

} // verus!
