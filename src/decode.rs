//! The decode loop as a state machine. The caller runs the model: it
//! performs each `Action` that `step` returns and reports the outcome back as
//! an `Event`. The machine decides when to sample, what to submit, and when
//! to stop; every way of stopping empties the key/value cache.
use vstd::prelude::*;
use crate::capacity::{capacity_verdict, check_capacity, CapacityError};

verus! {

/// Why a run stopped.
#[derive(Clone, Copy, Debug, PartialEq, Eq, Structural)]
pub enum StopReason {
    /// The model produced its end-of-sequence token.
    EndOfSequence,
    /// The position counter passed the generation budget.
    BudgetExhausted,
    /// The prompt could not be processed.
    PrefillFailed,
    /// A decode step failed.
    DecodeFailed,
}

/// Where a run stands.
#[derive(Clone, Copy, Debug, PartialEq, Eq, Structural)]
pub enum Phase {
    /// The prompt is yet to be processed.
    Prefill,
    /// A token is to be sampled for the last processed position.
    Decoding,
    /// `token` was submitted at the current position and awaits its decode step.
    Submitted { token: i32 },
    /// The run is over.
    Stopped { reason: StopReason },
}

/// What the caller is to do next.
#[derive(Clone, Copy, Debug, PartialEq, Eq, Structural)]
pub enum Action {
    /// Submit the prompt, one entry per token, and run the model on it.
    Prefill,
    /// Sample one token from the distribution of the last processed position.
    Sample,
    /// Append the text of `token` to the completion, submit `token` alone at
    /// `position` with its output requested, and run the model on it.
    Submit { token: i32, position: usize },
    /// Empty the key/value cache; the run is over.
    Finish { reason: StopReason },
}

/// What happened when the caller performed an action.
#[derive(Clone, Copy, Debug, PartialEq, Eq, Structural)]
pub enum Event {
    /// The prompt was processed.
    Prefilled,
    /// Processing the prompt failed.
    PrefillError,
    /// The sampling pipeline chose `token`.
    Sampled { token: i32 },
    /// The submitted token was processed.
    Decoded,
    /// Processing the submitted token failed.
    DecodeError,
}

/// One entry of a generation batch.
#[derive(Clone, Copy, Debug, PartialEq, Eq, Structural)]
pub struct BatchEntry {
    pub token: i32,
    pub position: usize,
    pub sequence: i32,
    pub wants_output: bool,
}

/// The state of one generation run.
#[derive(Clone, Copy, Debug, PartialEq, Eq, Structural)]
pub struct DecodeLoop {
    /// The largest position that may be generated.
    pub generation_budget: usize,
    /// The number of tokens in the prompt.
    pub prompt_len: usize,
    /// The model's end-of-sequence token.
    pub eos: i32,
    /// The number of positions processed so far.
    pub position: usize,
    /// The number of decode iterations, that is of tokens sampled.
    pub iterations: usize,
    /// The number of positions the key/value cache holds.
    pub cache_len: usize,
    pub phase: Phase,
}

/// The most decode iterations a run may take.
pub open spec fn iteration_bound(s: DecodeLoop) -> int {
    s.generation_budget - s.prompt_len + 1
}

impl DecodeLoop {
    /// The invariant of a run.
    pub open spec fn wf(&self) -> bool {
        &&& 0 < self.prompt_len < self.generation_budget
        &&& match self.phase {
            Phase::Prefill => self.position == 0 && self.iterations == 0 && self.cache_len == 0,
            Phase::Decoding => {
                &&& self.position == self.prompt_len + self.iterations
                &&& self.position <= self.generation_budget
                &&& self.cache_len == self.position
            },
            Phase::Submitted { .. } => {
                &&& self.position + 1 == self.prompt_len + self.iterations
                &&& self.position <= self.generation_budget
                &&& self.cache_len == self.position
            },
            Phase::Stopped { .. } => {
                &&& self.cache_len == 0
                &&& self.iterations <= iteration_bound(*self)
            },
        }
    }

    /// The number of steps that may still come before the run stops.
    pub open spec fn steps_left(&self) -> int {
        match self.phase {
            Phase::Prefill => 2 * (self.generation_budget - self.prompt_len) + 3,
            Phase::Decoding => 2 * (self.generation_budget - self.position) + 2,
            Phase::Submitted { .. } => 2 * (self.generation_budget - self.position) + 1,
            Phase::Stopped { .. } => 0,
        }
    }

    /// The action that the current phase waits on.
    pub open spec fn awaited(&self) -> Action {
        match self.phase {
            Phase::Prefill => Action::Prefill,
            Phase::Decoding => Action::Sample,
            Phase::Submitted { token } => Action::Submit { token, position: self.position },
            Phase::Stopped { reason } => Action::Finish { reason },
        }
    }

    /// Whether the current phase takes `e`.
    pub open spec fn takes(&self, e: Event) -> bool {
        match (self.phase, e) {
            (Phase::Prefill, Event::Prefilled) => true,
            (Phase::Prefill, Event::PrefillError) => true,
            (Phase::Decoding, Event::Sampled { .. }) => true,
            (Phase::Submitted { .. }, Event::Decoded) => true,
            (Phase::Submitted { .. }, Event::DecodeError) => true,
            _ => false,
        }
    }

    /// The state after stopping for `reason`, with the cache emptied.
    pub open spec fn stopped(&self, reason: StopReason) -> DecodeLoop {
        DecodeLoop { cache_len: 0, phase: Phase::Stopped { reason }, ..*self }
    }

    /// The state after `e`, where the current phase takes it.
    pub open spec fn next(&self, e: Event) -> DecodeLoop {
        match (self.phase, e) {
            (Phase::Prefill, Event::Prefilled) => DecodeLoop {
                position: self.prompt_len,
                cache_len: self.prompt_len,
                phase: Phase::Decoding,
                ..*self
            },
            (Phase::Decoding, Event::Sampled { token }) => if token == self.eos {
                DecodeLoop { iterations: (self.iterations + 1) as usize, ..self.stopped(StopReason::EndOfSequence) }
            } else {
                DecodeLoop { iterations: (self.iterations + 1) as usize, phase: Phase::Submitted { token }, ..*self }
            },
            (Phase::Submitted { .. }, Event::Decoded) => if self.position < self.generation_budget {
                DecodeLoop {
                    position: (self.position + 1) as usize,
                    cache_len: (self.cache_len + 1) as usize,
                    phase: Phase::Decoding,
                    ..*self
                }
            } else {
                self.stopped(StopReason::BudgetExhausted)
            },
            (Phase::Prefill, Event::PrefillError) => self.stopped(StopReason::PrefillFailed),
            (Phase::Submitted { .. }, Event::DecodeError) => self.stopped(StopReason::DecodeFailed),
            _ => *self,
        }
    }

    /// Starts a run for a prompt of `prompt_len` tokens, after the capacity
    /// checks; a prompt that fails them starts nothing.
    pub fn start(
        prompt_len: usize,
        generation_budget: usize,
        batch_capacity: usize,
        context_window: usize,
        eos: i32,
    ) -> (r: Result<DecodeLoop, CapacityError>)
        ensures
            match capacity_verdict(prompt_len, generation_budget, batch_capacity, context_window) {
                Err(e) => r == Err::<DecodeLoop, CapacityError>(e),
                Ok(_) => r matches Ok(s) && s.wf() && s.phase == Phase::Prefill && s.prompt_len
                    == prompt_len && s.generation_budget == generation_budget && s.eos == eos,
            },
    {
        match check_capacity(prompt_len, generation_budget, batch_capacity, context_window) {
            Err(e) => Err(e),
            Ok(()) => Ok(
                DecodeLoop {
                    generation_budget,
                    prompt_len,
                    eos,
                    position: 0,
                    iterations: 0,
                    cache_len: 0,
                    phase: Phase::Prefill,
                },
            ),
        }
    }

    /// The action that the run waits on.
    pub fn pending(&self) -> (a: Action)
        ensures
            a == self.awaited(),
    {
        match self.phase {
            Phase::Prefill => Action::Prefill,
            Phase::Decoding => Action::Sample,
            Phase::Submitted { token } => Action::Submit { token, position: self.position },
            Phase::Stopped { reason } => Action::Finish { reason },
        }
    }

    /// Takes the outcome of the last action and returns the next one. An
    /// event that the current phase does not take changes nothing.
    pub fn step(&mut self, e: Event) -> (a: Action)
        requires
            old(self).wf(),
        ensures
            final(self).wf(),
            *final(self) == old(self).next(e),
            a == final(self).awaited(),
            old(self).takes(e) ==> final(self).steps_left() < old(self).steps_left(),
            final(self).iterations <= old(self).iterations + 1,
    {
        match (self.phase, e) {
            (Phase::Prefill, Event::Prefilled) => {
                self.position = self.prompt_len;
                self.cache_len = self.prompt_len;
                self.phase = Phase::Decoding;
            },
            (Phase::Prefill, Event::PrefillError) => {
                self.cache_len = 0;
                self.phase = Phase::Stopped { reason: StopReason::PrefillFailed };
            },
            (Phase::Decoding, Event::Sampled { token }) => {
                self.iterations = self.iterations + 1;
                if token == self.eos {
                    self.cache_len = 0;
                    self.phase = Phase::Stopped { reason: StopReason::EndOfSequence };
                } else {
                    self.phase = Phase::Submitted { token };
                }
            },
            (Phase::Submitted { .. }, Event::Decoded) => {
                if self.position < self.generation_budget {
                    self.position = self.position + 1;
                    self.cache_len = self.cache_len + 1;
                    self.phase = Phase::Decoding;
                } else {
                    self.cache_len = 0;
                    self.phase = Phase::Stopped { reason: StopReason::BudgetExhausted };
                }
            },
            (Phase::Submitted { .. }, Event::DecodeError) => {
                self.cache_len = 0;
                self.phase = Phase::Stopped { reason: StopReason::DecodeFailed };
            },
            _ => {},
        }
        self.pending()
    }
}

/// The prefill batch: every prompt token at its position in sequence 0,
/// with output requested for the last one only.
pub fn prefill_batch(tokens: &Vec<i32>) -> (b: Vec<BatchEntry>)
    ensures
        b@.len() == tokens@.len(),
        forall|i: int|
            0 <= i < b@.len() ==> b@[i] == (BatchEntry {
                token: tokens@[i],
                position: i as usize,
                sequence: 0,
                wants_output: i == tokens@.len() - 1,
            }),
{
    let n: usize = tokens.len();
    let mut b: Vec<BatchEntry> = Vec::new();
    let mut i: usize = 0;
    while i < n
        invariant
            n == tokens@.len(),
            i <= n,
            b@.len() == i,
            forall|j: int|
                0 <= j < i ==> b@[j] == (BatchEntry {
                    token: tokens@[j],
                    position: j as usize,
                    sequence: 0,
                    wants_output: j == n - 1,
                }),
        decreases n - i,
    {
        b.push(BatchEntry { token: tokens[i], position: i, sequence: 0, wants_output: i + 1 == n });
        i += 1;
    }
    b
}

/// The batch entry for a token that a `Submit` action names.
pub fn submit_entry(token: i32, position: usize) -> (e: BatchEntry)
    ensures
        e == (BatchEntry { token, position, sequence: 0, wants_output: true }),
{
    BatchEntry { token, position, sequence: 0, wants_output: true }
}

/// A run never takes more than `generation_budget - prompt_len + 1` decode
/// iterations.
pub proof fn lemma_iterations_bounded(s: DecodeLoop)
    requires
        s.wf(),
    ensures
        s.iterations <= iteration_bound(s),
{
}

/// Once a run has stopped, for whatever reason, its key/value cache is empty;
/// and whenever the machine asks the caller to finish, it has stopped.
pub proof fn lemma_stopped_cache_empty(s: DecodeLoop, e: Event)
    requires
        s.wf(),
    ensures
        s.phase is Stopped ==> s.cache_len == 0,
        s.next(e).awaited() is Finish ==> s.next(e).phase is Stopped && s.next(e).cache_len == 0,
{
    lemma_next_wf(s, e);
}

/// Every event keeps a run well formed.
pub proof fn lemma_next_wf(s: DecodeLoop, e: Event)
    requires
        s.wf(),
    ensures
        s.next(e).wf(),
{
}

/// The steps left to a run never exceed those it started with, so a run
/// that takes every event it is given stops within
/// `2 * (generation_budget - prompt_len) + 3` steps.
pub proof fn lemma_steps_bounded(s: DecodeLoop)
    requires
        s.wf(),
    ensures
        0 <= s.steps_left() <= 2 * (s.generation_budget - s.prompt_len) + 3,
        s.steps_left() == 0 <==> s.phase is Stopped,
{
}

} // verus!
