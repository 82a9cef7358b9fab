//! The literal delimiters and phrases of the prompt protocol.
use vstd::prelude::*;

verus! {

/// Opens the task-type block of a prompt.
pub const TASK_TYPE_MARKER: &'static str = "<|tasktype|>";

/// Opens the context block of a prompt.
pub const CONTEXT_MARKER: &'static str = "<|context|>";

/// Opens the task block; generation starts right after it.
pub const TASK_MARKER: &'static str = "<|task|>";

/// Separates the generated question text from the generated answer.
pub const PIPE_MARKER: &'static str = "<|pipe|>";

/// Placeholder that stands for the passage inside generated instructions.
pub const PLACEHOLDER: &'static str = "{{context}}";

/// Opens a question in the `Q:` ... `A:` form.
pub const Q_MARK: &'static str = "Q:";

/// Opens the answer line in the `Q:` ... `A:` form.
pub const A_MARK: &'static str = "A:";

/// A closing phrase that the question stops before.
pub const REFERRING: &'static str =
    "Referring to the passage above, the correct answer to the given question is";

/// Opens a question.
pub const QUESTION_MARK: &'static str = "Question:";

/// Leads into a question.
pub const ANSWER_FOR: &'static str = "What is the answer for the question:";

/// Leads into a question.
pub const FOLLOWING: &'static str = "answer the following question:";

/// Leads into a question about the paragraph before it.
pub const PARAGRAPH: &'static str =
    "Given the paragraph above, please answer correctly the following question:";

/// A hint line that the question stops before.
pub const HINT: &'static str = "Hint: {{context}}";

/// A background line whose placeholder is spliced with the passage.
pub const BACKGROUND: &'static str = "Given the background: {{context}}";

/// What stands before the passage where `BACKGROUND` is spliced.
pub const BACKGROUND_LEAD: &'static str = "Given the background: ";

/// A background line whose placeholders are all filled with the passage.
pub const USE_BACKGROUND: &'static str = "use this background: {{context}}";

/// A line break.
pub const NEWLINE: &'static str = "\n";

} // verus!
