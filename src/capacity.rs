//! Pre-flight checks of a tokenized prompt against the generation budget,
//! the batch capacity and the model's context window.
use vstd::prelude::*;

verus! {

/// Why a run cannot start. Each error carries the limit that was exceeded.
#[derive(Clone, Copy, Debug, PartialEq, Eq, Structural)]
pub enum CapacityError {
    /// The longest sequence the run may reach does not fit the context window.
    ContextTooSmall { required: usize, context_window: usize },
    /// The prompt has more tokens than one batch holds.
    PromptExceedsBatch { prompt_tokens: usize, batch_capacity: usize },
    /// The prompt leaves no room for generation within the budget.
    PromptExceedsBudget { prompt_tokens: usize, generation_budget: usize },
    /// The prompt has no tokens.
    EmptyPrompt,
}

/// The verdict on a prompt of `n` tokens. The batch limit is checked first,
/// then the budget, then that the prompt is not empty, and last that the
/// longest possible sequence, `n + (budget - n)` tokens, fits the window.
pub open spec fn capacity_verdict(n: usize, budget: usize, batch: usize, window: usize) -> Result<
    (),
    CapacityError,
> {
    if n > batch {
        Err(CapacityError::PromptExceedsBatch { prompt_tokens: n, batch_capacity: batch })
    } else if n >= budget {
        Err(CapacityError::PromptExceedsBudget { prompt_tokens: n, generation_budget: budget })
    } else if n == 0 {
        Err(CapacityError::EmptyPrompt)
    } else if budget > window {
        Err(CapacityError::ContextTooSmall { required: budget, context_window: window })
    } else {
        Ok(())
    }
}

/// Decides whether a prompt of `prompt_token_count` tokens can be run.
pub fn check_capacity(
    prompt_token_count: usize,
    generation_budget: usize,
    batch_capacity: usize,
    context_window: usize,
) -> (r: Result<(), CapacityError>)
    ensures
        r == capacity_verdict(prompt_token_count, generation_budget, batch_capacity, context_window),
{
    if prompt_token_count > batch_capacity {
        return Err(
            CapacityError::PromptExceedsBatch {
                prompt_tokens: prompt_token_count,
                batch_capacity,
            },
        );
    }
    if prompt_token_count >= generation_budget {
        return Err(
            CapacityError::PromptExceedsBudget {
                prompt_tokens: prompt_token_count,
                generation_budget,
            },
        );
    }
    if prompt_token_count == 0 {
        return Err(CapacityError::EmptyPrompt);
    }
    let required: usize = prompt_token_count + (generation_budget - prompt_token_count);
    if required > context_window {
        return Err(CapacityError::ContextTooSmall { required, context_window });
    }
    Ok(())
}

/// A prompt longer than the batch capacity is refused for that reason,
/// whatever the other limits; one that fits the batch but reaches the
/// generation budget is refused for the budget.
pub proof fn lemma_capacity_refusals(n: usize, budget: usize, batch: usize, window: usize)
    ensures
        n > batch ==> capacity_verdict(n, budget, batch, window) == Err::<(), CapacityError>(
            CapacityError::PromptExceedsBatch { prompt_tokens: n, batch_capacity: batch },
        ),
        n <= batch && n >= budget ==> capacity_verdict(n, budget, batch, window) == Err::<
            (),
            CapacityError,
        >(CapacityError::PromptExceedsBudget { prompt_tokens: n, generation_budget: budget }),
        capacity_verdict(n, budget, batch, window) is Ok ==> 0 < n < budget && n <= batch && budget
            <= window,
{
}

} // verus!
