//! The catalog of generation tasks: their short codes and the instruction
//! phrase that each puts into a prompt.
use vstd::prelude::*;
use crate::text::chars_of;

verus! {

/// The kinds of generation task.
#[derive(Clone, Copy, Debug, PartialEq, Eq, Structural)]
pub enum TaskType {
    ExtractiveQuestionAnswering,
    MultipleChoiceQuestionAnswering,
    QuestionGeneration,
    QuestionAnsweringWithoutChoices,
    YesNoQuestionAnswering,
    CoreferenceResolution,
    ParaphraseGeneration,
    ParaphraseIdentification,
    SentenceCompletion,
    Sentiment,
    Summarization,
    TextGeneration,
    TopicClassification,
    WordSenseDisambiguation,
    TextualEntailment,
    NaturalLanguageInference,
}

/// The task that a short code names, if any.
pub open spec fn task_of_code(code: Seq<char>) -> Option<TaskType> {
    if code == "exqa"@ {
        Some(TaskType::ExtractiveQuestionAnswering)
    } else if code == "mcqa"@ {
        Some(TaskType::MultipleChoiceQuestionAnswering)
    } else if code == "qg"@ {
        Some(TaskType::QuestionGeneration)
    } else if code == "qa"@ {
        Some(TaskType::QuestionAnsweringWithoutChoices)
    } else if code == "ynqa"@ {
        Some(TaskType::YesNoQuestionAnswering)
    } else if code == "coref"@ {
        Some(TaskType::CoreferenceResolution)
    } else if code == "paraphrase"@ {
        Some(TaskType::ParaphraseGeneration)
    } else if code == "paraphrase_id"@ {
        Some(TaskType::ParaphraseIdentification)
    } else if code == "sent_comp"@ {
        Some(TaskType::SentenceCompletion)
    } else if code == "sentiment"@ {
        Some(TaskType::Sentiment)
    } else if code == "summarization"@ {
        Some(TaskType::Summarization)
    } else if code == "text_gen"@ {
        Some(TaskType::TextGeneration)
    } else if code == "topic_class"@ {
        Some(TaskType::TopicClassification)
    } else if code == "wsd"@ {
        Some(TaskType::WordSenseDisambiguation)
    } else if code == "te"@ {
        Some(TaskType::TextualEntailment)
    } else if code == "nli"@ {
        Some(TaskType::NaturalLanguageInference)
    } else {
        None
    }
}

/// The instruction phrase of each task.
pub open spec fn instruction(t: TaskType) -> Seq<char> {
    match t {
        TaskType::ExtractiveQuestionAnswering => "extractive question answering"@,
        TaskType::MultipleChoiceQuestionAnswering => "multiple-choice question answering"@,
        TaskType::QuestionGeneration => "question generation"@,
        TaskType::QuestionAnsweringWithoutChoices => "question answering without choices"@,
        TaskType::YesNoQuestionAnswering => "yes-no question answering"@,
        TaskType::CoreferenceResolution => "coreference resolution"@,
        TaskType::ParaphraseGeneration => "paraphrase generation"@,
        TaskType::ParaphraseIdentification => "paraphrase identification"@,
        TaskType::SentenceCompletion => "sentence completion"@,
        TaskType::Sentiment => "sentiment"@,
        TaskType::Summarization => "summarization"@,
        TaskType::TextGeneration => "text generation"@,
        TaskType::TopicClassification => "topic classification"@,
        TaskType::WordSenseDisambiguation => "word sense disambiguation"@,
        TaskType::TextualEntailment => "textual entailment"@,
        TaskType::NaturalLanguageInference => "natural language inference"@,
    }
}

/// Whether two character sequences are equal.
fn same_chars(a: &Vec<char>, b: &Vec<char>) -> (r: bool)
    ensures
        r == (a@ == b@),
{
    if a.len() != b.len() {
        return false;
    }
    let mut i: usize = 0;
    while i < a.len()
        invariant
            a@.len() == b@.len(),
            i <= a@.len(),
            forall|j: int| 0 <= j < i ==> a@[j] == b@[j],
        decreases a@.len() - i,
    {
        if a[i] != b[i] {
            return false;
        }
        i += 1;
    }
    assert(a@ =~= b@);
    true
}

/// Maps a short code (`"exqa"`, `"mcqa"`, ...) to its task; `None` for a code
/// that names no task.
pub fn str_to_task_type(task_type_str: &str) -> (r: Option<TaskType>)
    ensures
        r == task_of_code(task_type_str@),
{
    let code = chars_of(task_type_str);
    if same_chars(&code, &chars_of("exqa")) {
        return Some(TaskType::ExtractiveQuestionAnswering);
    }
    if same_chars(&code, &chars_of("mcqa")) {
        return Some(TaskType::MultipleChoiceQuestionAnswering);
    }
    if same_chars(&code, &chars_of("qg")) {
        return Some(TaskType::QuestionGeneration);
    }
    if same_chars(&code, &chars_of("qa")) {
        return Some(TaskType::QuestionAnsweringWithoutChoices);
    }
    if same_chars(&code, &chars_of("ynqa")) {
        return Some(TaskType::YesNoQuestionAnswering);
    }
    if same_chars(&code, &chars_of("coref")) {
        return Some(TaskType::CoreferenceResolution);
    }
    if same_chars(&code, &chars_of("paraphrase")) {
        return Some(TaskType::ParaphraseGeneration);
    }
    if same_chars(&code, &chars_of("paraphrase_id")) {
        return Some(TaskType::ParaphraseIdentification);
    }
    if same_chars(&code, &chars_of("sent_comp")) {
        return Some(TaskType::SentenceCompletion);
    }
    if same_chars(&code, &chars_of("sentiment")) {
        return Some(TaskType::Sentiment);
    }
    if same_chars(&code, &chars_of("summarization")) {
        return Some(TaskType::Summarization);
    }
    if same_chars(&code, &chars_of("text_gen")) {
        return Some(TaskType::TextGeneration);
    }
    if same_chars(&code, &chars_of("topic_class")) {
        return Some(TaskType::TopicClassification);
    }
    if same_chars(&code, &chars_of("wsd")) {
        return Some(TaskType::WordSenseDisambiguation);
    }
    if same_chars(&code, &chars_of("te")) {
        return Some(TaskType::TextualEntailment);
    }
    if same_chars(&code, &chars_of("nli")) {
        return Some(TaskType::NaturalLanguageInference);
    }
    None
}

/// The instruction phrase of a task, as it stands in a prompt. Every task has
/// one, so the result is always present.
pub fn task_type_to_task_prompt(task_type: &TaskType) -> (r: Option<String>)
    ensures
        r matches Some(s) && s@ == instruction(*task_type),
{
    let phrase: &str = match task_type {
        TaskType::ExtractiveQuestionAnswering => "extractive question answering",
        TaskType::MultipleChoiceQuestionAnswering => "multiple-choice question answering",
        TaskType::QuestionGeneration => "question generation",
        TaskType::QuestionAnsweringWithoutChoices => "question answering without choices",
        TaskType::YesNoQuestionAnswering => "yes-no question answering",
        TaskType::CoreferenceResolution => "coreference resolution",
        TaskType::ParaphraseGeneration => "paraphrase generation",
        TaskType::ParaphraseIdentification => "paraphrase identification",
        TaskType::SentenceCompletion => "sentence completion",
        TaskType::Sentiment => "sentiment",
        TaskType::Summarization => "summarization",
        TaskType::TextGeneration => "text generation",
        TaskType::TopicClassification => "topic classification",
        TaskType::WordSenseDisambiguation => "word sense disambiguation",
        TaskType::TextualEntailment => "textual entailment",
        TaskType::NaturalLanguageInference => "natural language inference",
    };
    Some(String::from_str(phrase))
}

} // verus!
