use bonito::capacity::{check_capacity, CapacityError};
use bonito::decode::{prefill_batch, submit_entry, Action, BatchEntry, DecodeLoop, Event, Phase, StopReason};
use bonito::sampling::finalize;
use bonito::{parse_a, parse_q, prepare_prompt, str_to_task_type, task_type_to_task_prompt, TaskType};

const ALL_CODES: [(&str, TaskType, &str); 16] = [
    ("exqa", TaskType::ExtractiveQuestionAnswering, "extractive question answering"),
    ("mcqa", TaskType::MultipleChoiceQuestionAnswering, "multiple-choice question answering"),
    ("qg", TaskType::QuestionGeneration, "question generation"),
    ("qa", TaskType::QuestionAnsweringWithoutChoices, "question answering without choices"),
    ("ynqa", TaskType::YesNoQuestionAnswering, "yes-no question answering"),
    ("coref", TaskType::CoreferenceResolution, "coreference resolution"),
    ("paraphrase", TaskType::ParaphraseGeneration, "paraphrase generation"),
    ("paraphrase_id", TaskType::ParaphraseIdentification, "paraphrase identification"),
    ("sent_comp", TaskType::SentenceCompletion, "sentence completion"),
    ("sentiment", TaskType::Sentiment, "sentiment"),
    ("summarization", TaskType::Summarization, "summarization"),
    ("text_gen", TaskType::TextGeneration, "text generation"),
    ("topic_class", TaskType::TopicClassification, "topic classification"),
    ("wsd", TaskType::WordSenseDisambiguation, "word sense disambiguation"),
    ("te", TaskType::TextualEntailment, "textual entailment"),
    ("nli", TaskType::NaturalLanguageInference, "natural language inference"),
];

#[test]
fn codes_map_to_tasks() {
    for (code, task, phrase) in ALL_CODES.iter() {
        assert_eq!(str_to_task_type(code), Some(*task));
        assert_eq!(task_type_to_task_prompt(task).unwrap(), *phrase);
    }
}

#[test]
fn unknown_codes_map_to_nothing() {
    assert_eq!(str_to_task_type(""), None);
    assert_eq!(str_to_task_type("EXQA"), None);
    assert_eq!(str_to_task_type("exqa "), None);
    assert_eq!(str_to_task_type("paraphrase_"), None);
}

#[test]
fn prompt_layout_is_exact() {
    let p = prepare_prompt("A passage.", &TaskType::ExtractiveQuestionAnswering);
    assert_eq!(
        p,
        "<|tasktype|>\nextractive question answering\n<|context|>\nA passage.\n<|task|>\n "
    );
}

#[test]
fn prompt_keeps_context_verbatim() {
    let p = prepare_prompt("  {{x}}\n\"q\"  ", &TaskType::Sentiment);
    assert_eq!(p, "<|tasktype|>\nsentiment\n<|context|>\n  {{x}}\n\"q\"  \n<|task|>\n ");
}

#[test]
fn prompt_markers_once_each_in_order() {
    for (_, task, _) in ALL_CODES.iter() {
        let p = prepare_prompt("Some passage about things.", task);
        let markers = ["<|tasktype|>", "<|context|>", "<|task|>"];
        let mut last = 0;
        for m in markers.iter() {
            assert_eq!(p.matches(m).count(), 1);
            let at = p.find(m).unwrap();
            assert!(at >= last);
            last = at;
        }
        assert_eq!(p.matches("<|pipe|>").count(), 0);
        assert!(p.ends_with("<|task|>\n "));
    }
}

#[test]
fn capacity_accepts_a_fitting_prompt() {
    assert_eq!(check_capacity(100, 1024, 512, 2048), Ok(()));
    assert_eq!(check_capacity(512, 1024, 512, 1024), Ok(()));
}

#[test]
fn capacity_refuses_a_prompt_over_the_batch() {
    let e = CapacityError::PromptExceedsBatch { prompt_tokens: 513, batch_capacity: 512 };
    assert_eq!(check_capacity(513, 1024, 512, 2048), Err(e));
    assert_eq!(check_capacity(513, 100, 512, 10), Err(e));
}

#[test]
fn capacity_refuses_a_prompt_at_the_budget() {
    assert_eq!(
        check_capacity(300, 300, 512, 2048),
        Err(CapacityError::PromptExceedsBudget { prompt_tokens: 300, generation_budget: 300 })
    );
    assert_eq!(
        check_capacity(400, 300, 512, 10),
        Err(CapacityError::PromptExceedsBudget { prompt_tokens: 400, generation_budget: 300 })
    );
}

#[test]
fn capacity_refuses_an_empty_prompt() {
    assert_eq!(check_capacity(0, 1024, 512, 2048), Err(CapacityError::EmptyPrompt));
}

#[test]
fn capacity_refuses_a_small_window() {
    assert_eq!(
        check_capacity(10, 1024, 512, 1023),
        Err(CapacityError::ContextTooSmall { required: 1024, context_window: 1023 })
    );
}

#[test]
fn prefill_requests_output_for_the_last_token_only() {
    let b = prefill_batch(&vec![5, 6, 7]);
    assert_eq!(
        b,
        vec![
            BatchEntry { token: 5, position: 0, sequence: 0, wants_output: false },
            BatchEntry { token: 6, position: 1, sequence: 0, wants_output: false },
            BatchEntry { token: 7, position: 2, sequence: 0, wants_output: true },
        ]
    );
    assert_eq!(submit_entry(9, 4), BatchEntry { token: 9, position: 4, sequence: 0, wants_output: true });
}

#[test]
fn decode_stops_at_end_of_sequence() {
    let mut run = DecodeLoop::start(3, 10, 8, 16, 2).unwrap();
    assert_eq!(run.pending(), Action::Prefill);
    assert_eq!(run.step(Event::Prefilled), Action::Sample);
    assert_eq!(run.cache_len, 3);
    assert_eq!(run.step(Event::Sampled { token: 7 }), Action::Submit { token: 7, position: 3 });
    assert_eq!(run.step(Event::Decoded), Action::Sample);
    assert_eq!(run.cache_len, 4);
    let a = run.step(Event::Sampled { token: 2 });
    assert_eq!(a, Action::Finish { reason: StopReason::EndOfSequence });
    assert_eq!(run.cache_len, 0);
    assert_eq!(run.iterations, 2);
}

#[test]
fn decode_stops_when_the_budget_is_spent() {
    let budget = 6;
    let prompt = 4;
    let mut run = DecodeLoop::start(prompt, budget, 8, 16, -1).unwrap();
    let mut action = run.step(Event::Prefilled);
    let mut samples = 0;
    loop {
        match action {
            Action::Sample => {
                samples += 1;
                action = run.step(Event::Sampled { token: 11 });
            }
            Action::Submit { .. } => action = run.step(Event::Decoded),
            Action::Finish { reason } => {
                assert_eq!(reason, StopReason::BudgetExhausted);
                break;
            }
            Action::Prefill => panic!("prefill twice"),
        }
    }
    assert_eq!(samples, budget - prompt + 1);
    assert_eq!(run.iterations, budget - prompt + 1);
    assert_eq!(run.cache_len, 0);
}

#[test]
fn decode_failures_empty_the_cache() {
    let mut run = DecodeLoop::start(2, 10, 8, 16, 0).unwrap();
    assert_eq!(run.step(Event::PrefillError), Action::Finish { reason: StopReason::PrefillFailed });
    assert_eq!(run.cache_len, 0);

    let mut run = DecodeLoop::start(2, 10, 8, 16, 0).unwrap();
    run.step(Event::Prefilled);
    run.step(Event::Sampled { token: 4 });
    assert_eq!(run.step(Event::DecodeError), Action::Finish { reason: StopReason::DecodeFailed });
    assert_eq!(run.cache_len, 0);
    assert!(matches!(run.phase, Phase::Stopped { .. }));
}

#[test]
fn decode_ignores_out_of_turn_events() {
    let mut run = DecodeLoop::start(2, 10, 8, 16, 0).unwrap();
    let before = run;
    assert_eq!(run.step(Event::Decoded), Action::Prefill);
    assert_eq!(run, before);
}

#[test]
fn decode_start_refuses_bad_prompts() {
    assert_eq!(
        DecodeLoop::start(20, 10, 8, 16, 0).err(),
        Some(CapacityError::PromptExceedsBatch { prompt_tokens: 20, batch_capacity: 8 })
    );
}

#[test]
fn finalizer_takes_the_best_and_records_it() {
    let mut history = vec![1, 2];
    assert_eq!(finalize(&vec![9, 3, 4], &mut history), 9);
    assert_eq!(history, vec![1, 2, 9]);
}

#[test]
fn round_trip_of_the_q_a_form() {
    let c = "<|task|>\n \nQ:  Where is it? \nA:\n<|pipe|>\n  Here \n";
    assert_eq!(parse_q(c, "").unwrap(), "Where is it?");
    assert_eq!(parse_a(c).unwrap(), "Here");
}

#[test]
fn question_rule_scenario() {
    let c = "<|task|>\n Question: What was Mattingly's last year of eligibility?\n<|pipe|>\n1995";
    assert_eq!(parse_q(c, "").unwrap(), "What was Mattingly's last year of eligibility?");
    assert_eq!(parse_a(c).unwrap(), "1995");
}

#[test]
fn background_placeholder_is_filled_everywhere() {
    let c = "<|task|>\n I can use this background: {{context}}\nAgain {{context}}.\n<|pipe|>\nyes";
    assert_eq!(parse_q(c, "CTX").unwrap(), "I can use this background: CTX\nAgain CTX.");
}

#[test]
fn given_background_is_spliced() {
    let c = "<|task|>\n x\nGiven the background: {{context}} and more\n<|pipe|>\na";
    assert_eq!(parse_q(c, "CTX").unwrap(), "Given the background: CTX\n and more");
}

#[test]
fn no_pipe_means_no_answer() {
    let c = "<|task|>\n Question: Who?";
    assert_eq!(parse_a(c), None);
    assert_eq!(parse_q(c, "").unwrap(), "Who?");
}

#[test]
fn empty_answer_after_pipe_is_present() {
    assert_eq!(parse_a("x<|pipe|>  \n").unwrap(), "");
    assert_eq!(parse_a("x<|pipe|> a <|pipe|> b").unwrap(), "a <|pipe|> b");
}

#[test]
fn no_rule_no_question() {
    assert_eq!(parse_q("nothing here<|pipe|>a", ""), None);
    assert_eq!(parse_q("<|task|>\n   \n<|pipe|>a", ""), None);
}

#[test]
fn referring_phrase_cuts_the_question() {
    let c = "<|task|>\nQ: Why? Referring to the passage above, the correct answer to the given question is\n<|pipe|>\nx";
    assert_eq!(parse_q(c, "").unwrap(), "Why?");
}

#[test]
fn placeholder_before_a_cuts_the_question() {
    let c = "<|task|>\nQ: Which one? {{context}}\nA:\n<|pipe|>\nx";
    assert_eq!(parse_q(c, "").unwrap(), "Which one?");
}

#[test]
fn hint_cuts_the_fallback() {
    let c = "<|task|>\n Pick one.\nHint: {{context}}\n<|pipe|>\nx";
    assert_eq!(parse_q(c, "").unwrap(), "Pick one.");
}

#[test]
fn trimming_uses_unicode_white_space() {
    let c = "<|task|>\n\u{3000}\u{a0}Question:\u{2003} Why\u{85}\t<|pipe|>\u{2028}a\u{202f}";
    assert_eq!(parse_q(c, "").unwrap(), "Why");
    assert_eq!(parse_a(c).unwrap(), "a");
}

#[test]
fn parsing_twice_gives_the_same() {
    let c = "<|task|>\nQ: Again?\nA:\n<|pipe|>\nyes";
    assert_eq!(parse_q(c, "ctx"), parse_q(c, "ctx"));
    assert_eq!(parse_a(c), parse_a(c));
}
