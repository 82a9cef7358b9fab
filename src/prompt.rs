//! The prompt template.
use vstd::prelude::*;
use crate::markers::{CONTEXT_MARKER, PIPE_MARKER, TASK_MARKER, TASK_TYPE_MARKER};
use crate::task::{instruction, task_type_to_task_prompt, TaskType};
use crate::text::{lemma_first_index_none, lemma_occurs_at_occurs, occurs, occurs_at};

verus! {

/// Opens a prompt, before the instruction.
pub const PROMPT_HEAD: &'static str = "<|tasktype|>\n";

/// Stands between the instruction and the passage.
pub const PROMPT_MIDDLE: &'static str = "\n<|context|>\n";

/// Closes a prompt; generation starts right after its final space.
pub const PROMPT_TAIL: &'static str = "\n<|task|>\n ";

/// The prompt for a passage and an instruction phrase.
pub open spec fn prompt_text(context: Seq<char>, instr: Seq<char>) -> Seq<char> {
    PROMPT_HEAD@ + instr + PROMPT_MIDDLE@ + context + PROMPT_TAIL@
}

/// The prompt for a passage and a task.
pub open spec fn prompt_for(context: Seq<char>, t: TaskType) -> Seq<char> {
    prompt_text(context, instruction(t))
}

fn get_prompt_by_task_type(context: &str, task_prompt: &str) -> (r: String)
    ensures
        r@ == prompt_text(context@, task_prompt@),
{
    let mut prompt = String::from_str(PROMPT_HEAD);
    prompt.append(task_prompt);
    prompt.append(PROMPT_MIDDLE);
    prompt.append(context);
    prompt.append(PROMPT_TAIL);
    prompt
}

/// The prompt for `context` and `task_type`: the task-type block with the
/// task's instruction, the context block with the passage as it is, and the
/// task marker followed by the single space that generation continues from.
pub fn prepare_prompt(context: &str, task_type: &TaskType) -> (r: String)
    ensures
        r@ == prompt_for(context@, *task_type),
{
    match task_type_to_task_prompt(task_type) {
        Some(instr) => get_prompt_by_task_type(context, instr.as_str()),
        None => String::new(),
    }
}

/// `m` occurs in `s` at `k` and nowhere else.
pub open spec fn once_at(s: Seq<char>, m: Seq<char>, k: int) -> bool {
    occurs_at(s, m, k) && forall|j: int| occurs_at(s, m, j) ==> j == k
}

/// No instruction phrase holds `<`.
proof fn lemma_instruction_plain(t: TaskType)
    ensures
        forall|i: int| 0 <= i < instruction(t).len() ==> instruction(t)[i] != '<',
{
    reveal_strlit("extractive question answering");
    reveal_strlit("multiple-choice question answering");
    reveal_strlit("question generation");
    reveal_strlit("question answering without choices");
    reveal_strlit("yes-no question answering");
    reveal_strlit("coreference resolution");
    reveal_strlit("paraphrase generation");
    reveal_strlit("paraphrase identification");
    reveal_strlit("sentence completion");
    reveal_strlit("sentiment");
    reveal_strlit("summarization");
    reveal_strlit("text generation");
    reveal_strlit("topic classification");
    reveal_strlit("word sense disambiguation");
    reveal_strlit("textual entailment");
    reveal_strlit("natural language inference");
}

/// In a prompt, a sequence that starts with `<`, holds no line break and
/// does not occur in the passage can only start where one of the three
/// markers of the template starts.
proof fn lemma_prompt_starts(context: Seq<char>, instr: Seq<char>, m: Seq<char>, j: int)
    requires
        forall|i: int| 0 <= i < instr.len() ==> instr[i] != '<',
        m.len() > 0,
        m[0] == '<',
        forall|i: int| 0 <= i < m.len() ==> m[i] != '\n',
        !occurs(context, m),
        occurs_at(prompt_text(context, instr), m, j),
    ensures
        j == 0 || j == 14 + instr.len() || j == 27 + instr.len() + context.len(),
{
    reveal_strlit("<|tasktype|>\n");
    reveal_strlit("\n<|context|>\n");
    reveal_strlit("\n<|task|>\n ");
    let p = prompt_text(context, instr);
    let head = PROMPT_HEAD@;
    let middle = PROMPT_MIDDLE@;
    let tail = PROMPT_TAIL@;
    assert(p.subrange(j, j + m.len())[0] == p[j]);
    let b: int = 13 + instr.len() as int;
    let cstart: int = b + 13;
    let cend: int = cstart + context.len();
    if j < 13 {
        assert(p[j] == head[j]);
    } else if j < b {
        assert(p[j] == instr[j - 13]);
    } else if j < cstart {
        assert(p[j] == middle[j - b]);
    } else if j < cend {
        let k = j - cstart;
        if k + m.len() <= context.len() {
            assert(context.subrange(k, k + m.len()) =~= p.subrange(j, j + m.len()));
            lemma_occurs_at_occurs(context, m, k);
        } else {
            assert(p.subrange(j, j + m.len())[cend - j] == p[cend]);
            assert(p[cend] == tail[0]);
        }
    } else {
        assert(p[j] == tail[j - cend]);
    }
}

/// A prompt holds the task-type marker, the context marker and the task
/// marker exactly once each, in that order, and no pipe marker, for every
/// task and every passage that holds none of these four markers.
pub proof fn lemma_prompt_markers(context: Seq<char>, t: TaskType)
    requires
        !occurs(context, TASK_TYPE_MARKER@),
        !occurs(context, CONTEXT_MARKER@),
        !occurs(context, TASK_MARKER@),
        !occurs(context, PIPE_MARKER@),
    ensures
        ({
            let p = prompt_for(context, t);
            let l = instruction(t).len() as int;
            &&& once_at(p, TASK_TYPE_MARKER@, 0)
            &&& once_at(p, CONTEXT_MARKER@, 14 + l)
            &&& once_at(p, TASK_MARKER@, 27 + l + context.len())
            &&& 0 < 14 + l < 27 + l + context.len()
            &&& !occurs(p, PIPE_MARKER@)
        }),
{
    reveal_strlit("<|tasktype|>\n");
    reveal_strlit("\n<|context|>\n");
    reveal_strlit("\n<|task|>\n ");
    reveal_strlit("<|tasktype|>");
    reveal_strlit("<|context|>");
    reveal_strlit("<|task|>");
    reveal_strlit("<|pipe|>");
    let instr = instruction(t);
    let p = prompt_for(context, t);
    let l = instr.len() as int;
    let a = 14 + l;
    let e = 27 + l + context.len();
    let tt = TASK_TYPE_MARKER@;
    let cm = CONTEXT_MARKER@;
    let tm = TASK_MARKER@;
    let pm = PIPE_MARKER@;
    lemma_instruction_plain(t);
    assert(p.subrange(0, 12) =~= tt);
    assert(p.subrange(a, a + 11) =~= cm);
    assert(p.subrange(e, e + 8) =~= tm);
    assert(p.len() == e + 10);
    assert forall|j: int| occurs_at(p, tt, j) implies j == 0 by {
        lemma_prompt_starts(context, instr, tt, j);
        assert(p.subrange(j, j + 12)[2] == p[j + 2]);
    }
    assert forall|j: int| occurs_at(p, cm, j) implies j == a by {
        lemma_prompt_starts(context, instr, cm, j);
        assert(p.subrange(j, j + 11)[2] == p[j + 2]);
    }
    assert forall|j: int| occurs_at(p, tm, j) implies j == e by {
        lemma_prompt_starts(context, instr, tm, j);
        assert(p.subrange(j, j + 8)[6] == p[j + 6]);
    }
    assert forall|j: int| !occurs_at(p, pm, j) by {
        if occurs_at(p, pm, j) {
            lemma_prompt_starts(context, instr, pm, j);
            assert(p.subrange(j, j + 8)[2] == p[j + 2]);
        }
    }
    lemma_first_index_none(p, pm);
}

} // verus!
