//! Question/answer generation around a language model: the task catalog, the
//! prompt template, the pre-flight capacity checks, the decode-loop state
//! machine and the completion parser.
pub mod capacity;
pub mod decode;
pub mod markers;
pub mod parse;
pub mod prompt;
pub mod sampling;
pub mod task;
pub mod text;

pub use parse::{parse_a, parse_q};
pub use prompt::prepare_prompt;
pub use task::{str_to_task_type, task_type_to_task_prompt, TaskType};
