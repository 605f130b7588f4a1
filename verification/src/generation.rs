//! The generation loop of one window, as a state machine.
//!
//! The decoder runs in the tensor engine, outside of this library. The
//! driver of a window alternates between the two: it asks the state what to
//! do, lets the engine do it, and hands the engine's answer back as an
//! event. The state decides everything else: which token is taken, when
//! the generation stops, and where the next token goes.

use vstd::prelude::*;
use crate::cache::KvCache;
use crate::config::{DecoderConfig, VoxtralGenerationConfig};
use crate::error::PipelineError;
use crate::sampling::{sample, spec_sampled, SamplingPolicy};
use crate::stitch::TranscriptionResult;

verus! {

/// Where a generation stands.
#[derive(Clone, Copy, Debug, PartialEq, Eq, Structural)]
pub enum Phase {
    /// The prompt has not been fed yet.
    Prefill,
    /// Tokens are generated one by one.
    Decoding,
    /// The generation has stopped and its tokens stand.
    Done,
    /// The generation was aborted by an error.
    Failed,
}

/// Why a generation stopped.
#[derive(Clone, Copy, Debug, PartialEq, Eq, Structural)]
pub enum StopReason {
    /// The end token was generated.
    EndToken,
    /// The largest number of new tokens was reached.
    MaxTokens,
    /// The context was full before another token could be fed; the tokens
    /// generated up to there stand.
    ContextFull,
}

/// What the driver has to let the engine do next.
#[derive(Clone, Copy, Debug, PartialEq, Eq, Structural)]
pub enum Action {
    /// Feed the whole fused prompt in one pass.
    Prefill,
    /// Feed `token` at `position`, on top of the cache.
    Decode { token: u32, position: usize },
    /// Nothing: the generation is done, and its tokens can be turned into
    /// text.
    Finish,
    /// Nothing: the generation has failed, and its error is to be reported.
    Abort,
}

/// What the engine answered.
#[derive(Clone, Debug, PartialEq, Eq)]
pub enum Event {
    /// The pass succeeded: the scores of the next token, and a number drawn
    /// from the caller's source of randomness.
    Scores { scores: Vec<u32>, draw: u64 },
    /// The pass failed with this message.
    Failure { message: String },
}

/// The values that stay fixed while one window is generated.
#[derive(Clone, Copy, Debug, PartialEq, Eq, Structural)]
pub struct Limits {
    /// The number of positions of the fused prompt.
    pub prompt_len: usize,
    /// The largest number of tokens to generate.
    pub max_new_tokens: usize,
    /// How a token is chosen from the scores.
    pub policy: SamplingPolicy,
    /// The token that ends the generation.
    pub end_token: u32,
    /// The number of scores that a pass must give.
    pub vocab_size: usize,
    /// The number of decoder layers.
    pub layers: usize,
    /// The largest number of positions in the cache.
    pub max_context: usize,
}

/// The state of a generation as contracts see it.
pub struct GenerationView {
    pub limits: Limits,
    pub phase: Phase,
    /// The tokens generated so far.
    pub tokens: Seq<u32>,
    /// The number of positions in the cache, which is the position of the
    /// next token to feed.
    pub position: nat,
    pub stop: Option<StopReason>,
    pub error: Option<PipelineError>,
}

impl GenerationView {
    /// The state before anything was fed.
    pub open spec fn fresh(limits: Limits) -> GenerationView {
        GenerationView {
            limits,
            phase: Phase::Prefill,
            tokens: Seq::empty(),
            position: 0,
            stop: None,
            error: None,
        }
    }

    /// Whether the generation has ended, one way or the other.
    pub open spec fn is_terminal(self) -> bool {
        self.phase == Phase::Done || self.phase == Phase::Failed
    }

    /// What holds of every state that a generation passes through: the
    /// bounds are kept, and as long as nothing fails the cache holds the
    /// prompt and every generated token but the last, which is not fed
    /// before the next one is asked for.
    pub open spec fn wf(self) -> bool {
        &&& self.limits.prompt_len <= self.limits.max_context
        &&& self.tokens.len() <= self.limits.max_new_tokens
        &&& self.position <= self.limits.max_context
        &&& self.phase == Phase::Prefill ==> self.tokens.len() == 0 && self.position == 0
        &&& self.phase == Phase::Decoding ==> {
            &&& 0 < self.tokens.len() < self.limits.max_new_tokens
            &&& self.position + 1 == self.limits.prompt_len + self.tokens.len()
            &&& self.position < self.limits.max_context
            &&& self.tokens.last() != self.limits.end_token
        }
        &&& self.phase == Phase::Done && self.tokens.len() > 0 ==> self.position + 1
            == self.limits.prompt_len + self.tokens.len()
        &&& self.phase == Phase::Done <==> self.stop is Some
        &&& self.phase == Phase::Failed <==> self.error is Some
    }

    /// The state stopped for `reason`.
    pub open spec fn stopped(self, reason: StopReason) -> GenerationView {
        GenerationView { phase: Phase::Done, stop: Some(reason), ..self }
    }

    /// The state aborted by `error`.
    pub open spec fn failed(self, error: PipelineError) -> GenerationView {
        GenerationView { phase: Phase::Failed, error: Some(error), ..self }
    }

    /// The number of positions in the cache after the pass that the state
    /// asked for: the prompt after the prefill, one more after a step.
    pub open spec fn position_after_pass(self) -> nat {
        if self.phase == Phase::Prefill {
            self.limits.prompt_len as nat
        } else {
            self.position + 1
        }
    }

    /// The state after a pass gave `scores`.
    ///
    /// The cache has taken what was fed. Where no token may be generated
    /// the generation is done at once. Scores of another number than the
    /// vocabulary abort it. Otherwise the policy chooses a token, which is
    /// appended; the generation then stops if the token is the end token,
    /// if the largest number of tokens is reached, or if the context has no
    /// room to feed the token, and goes on otherwise.
    pub open spec fn on_scores(self, scores: Seq<u32>, draw: u64) -> GenerationView {
        if self.is_terminal() {
            self
        } else {
            let fed = GenerationView { position: self.position_after_pass(), ..self };
            if self.limits.max_new_tokens == 0 {
                fed.stopped(StopReason::MaxTokens)
            } else if scores.len() != self.limits.vocab_size {
                fed.failed(PipelineError::Shape)
            } else {
                let token = spec_sampled(self.limits.policy, scores, draw) as u32;
                let grown = GenerationView {
                    phase: Phase::Decoding,
                    tokens: fed.tokens.push(token),
                    ..fed
                };
                if token == self.limits.end_token {
                    grown.stopped(StopReason::EndToken)
                } else if grown.tokens.len() >= self.limits.max_new_tokens {
                    grown.stopped(StopReason::MaxTokens)
                } else if grown.position >= self.limits.max_context {
                    grown.stopped(StopReason::ContextFull)
                } else {
                    grown
                }
            }
        }
    }

    /// The state after a pass failed with `message`.
    pub open spec fn on_failure(self, message: String) -> GenerationView {
        if self.is_terminal() {
            self
        } else {
            self.failed(PipelineError::Compute(message))
        }
    }

    /// The state after `event`. A state that has ended stays as it is.
    pub open spec fn on_event(self, event: Event) -> GenerationView {
        match event {
            Event::Scores { scores, draw } => self.on_scores(scores@, draw),
            Event::Failure { message } => self.on_failure(message),
        }
    }

    /// What the driver has to do in this state.
    pub open spec fn action(self) -> Action {
        match self.phase {
            Phase::Prefill => Action::Prefill,
            Phase::Decoding => Action::Decode {
                token: self.tokens.last(),
                position: self.position as usize,
            },
            Phase::Done => Action::Finish,
            Phase::Failed => Action::Abort,
        }
    }

    /// The state after the events of `events`, in order.
    pub open spec fn run(self, events: Seq<Event>) -> GenerationView
        decreases events.len(),
    {
        if events.len() == 0 {
            self
        } else {
            self.run(events.drop_last()).on_event(events.last())
        }
    }
}

/// Whether two answers of the engine are the same but for the number drawn.
pub open spec fn spec_same_answer(first: Event, second: Event) -> bool {
    match (first, second) {
        (Event::Scores { scores: a, .. }, Event::Scores { scores: b, .. }) => a@ == b@,
        (Event::Failure { message: a }, Event::Failure { message: b }) => a == b,
        _ => false,
    }
}

/// An event leads from a state of a generation to a state of a generation:
/// in particular, never to more tokens than were asked for.
pub proof fn lemma_event_keeps_wf(state: GenerationView, event: Event)
    requires
        state.wf(),
    ensures
        state.on_event(event).wf(),
        state.on_event(event).tokens.len() <= state.limits.max_new_tokens,
        state.on_event(event).limits == state.limits,
        state.is_terminal() ==> state.on_event(event) == state,
{
}

/// Each answer of the engine ends the generation or adds exactly one token
/// to it.
pub proof fn lemma_event_makes_progress(state: GenerationView, event: Event)
    requires
        state.wf(),
        !state.is_terminal(),
    ensures
        state.on_event(event).is_terminal() || (state.on_event(event).phase == Phase::Decoding
            && state.on_event(event).tokens.len() == state.tokens.len() + 1),
        state.tokens.is_prefix_of(state.on_event(event).tokens),
{
}

/// However the engine answers, a generation keeps within its bounds.
pub proof fn lemma_run_keeps_wf(state: GenerationView, events: Seq<Event>)
    requires
        state.wf(),
    ensures
        state.run(events).wf(),
        state.run(events).tokens.len() <= state.limits.max_new_tokens,
        state.run(events).limits == state.limits,
    decreases events.len(),
{
    if events.len() > 0 {
        lemma_run_keeps_wf(state, events.drop_last());
        lemma_event_keeps_wf(state.run(events.drop_last()), events.last());
    }
}

/// A generation has ended after as many answers of the engine as tokens
/// were asked for, and after the first where none was: it ends even if the
/// end token never comes.
pub proof fn lemma_run_terminates(limits: Limits, events: Seq<Event>)
    requires
        GenerationView::fresh(limits).wf(),
        events.len() >= 1,
        events.len() >= limits.max_new_tokens,
    ensures
        GenerationView::fresh(limits).run(events).is_terminal(),
        GenerationView::fresh(limits).run(events).tokens.len() <= limits.max_new_tokens,
{
    lemma_run_counts(limits, events);
    lemma_run_keeps_wf(GenerationView::fresh(limits), events);
}

/// After `n` answers a generation has ended or holds exactly `n` tokens.
proof fn lemma_run_counts(limits: Limits, events: Seq<Event>)
    requires
        GenerationView::fresh(limits).wf(),
    ensures
        GenerationView::fresh(limits).run(events).is_terminal() || GenerationView::fresh(
            limits,
        ).run(events).tokens.len() == events.len(),
        events.len() > 0 ==> GenerationView::fresh(limits).run(events).phase != Phase::Prefill,
    decreases events.len(),
{
    if events.len() > 0 {
        let before = GenerationView::fresh(limits).run(events.drop_last());
        lemma_run_counts(limits, events.drop_last());
        lemma_run_keeps_wf(GenerationView::fresh(limits), events.drop_last());
        lemma_event_keeps_wf(before, events.last());
        if !before.is_terminal() {
            lemma_event_makes_progress(before, events.last());
        }
    }
}

/// At temperature zero a generation can be repeated: where the engine
/// gives the same answers, the same tokens are generated, whatever numbers
/// are drawn.
pub proof fn lemma_greedy_is_reproducible(
    state: GenerationView,
    first: Seq<Event>,
    second: Seq<Event>,
)
    requires
        state.limits.policy.spec_is_greedy(),
        first.len() == second.len(),
        forall|i: int| 0 <= i < first.len() ==> spec_same_answer(first[i], second[i]),
    ensures
        state.run(first) == state.run(second),
        state.run(first).tokens == state.run(second).tokens,
    decreases first.len(),
{
    if first.len() > 0 {
        lemma_greedy_is_reproducible(state, first.drop_last(), second.drop_last());
        lemma_limits_fixed(state, first.drop_last());
        assert(spec_same_answer(first.last(), second.last()));
    }
}

/// The fixed values of a generation stay what they are.
proof fn lemma_limits_fixed(state: GenerationView, events: Seq<Event>)
    ensures
        state.run(events).limits == state.limits,
    decreases events.len(),
{
    if events.len() > 0 {
        lemma_limits_fixed(state, events.drop_last());
    }
}

/// The generation of the tokens of one window.
pub struct GenerationState {
    limits: Limits,
    phase: Phase,
    cache: KvCache,
    tokens_generated: Vec<u32>,
    position_index: usize,
    stop: Option<StopReason>,
    error: Option<PipelineError>,
}

impl View for GenerationState {
    type V = GenerationView;

    closed spec fn view(&self) -> GenerationView {
        GenerationView {
            limits: self.limits,
            phase: self.phase,
            tokens: self.tokens_generated@,
            position: self.position_index as nat,
            stop: self.stop,
            error: self.error,
        }
    }
}

impl GenerationState {
    #[verifier::type_invariant]
    spec fn inv(self) -> bool {
        &&& self@.wf()
        &&& 0 < self.limits.vocab_size <= 0x1_0000_0000
        &&& self.cache.positions() == self.position_index
        &&& self.cache.limit() == self.limits.max_context
        &&& self.cache.layers() == self.limits.layers
    }

    /// The fixed values of a generation with these configurations over a
    /// prompt of `prompt_len` positions.
    pub open spec fn spec_limits(
        generation: VoxtralGenerationConfig,
        decoder: DecoderConfig,
        prompt_len: usize,
    ) -> Limits {
        Limits {
            prompt_len,
            max_new_tokens: generation.max_new_tokens,
            policy: generation.spec_policy(),
            end_token: decoder.end_token,
            vocab_size: decoder.vocab_size,
            layers: decoder.layers,
            max_context: decoder.max_context,
        }
    }

    /// Begins the generation for a fused prompt of `prompt_len` positions,
    /// with an empty cache of its own.
    ///
    /// An unusable configuration is a configuration error, a prompt without
    /// positions a shape error, and a prompt that does not fit into the
    /// context a cache overflow.
    pub fn start(
        generation: &VoxtralGenerationConfig,
        decoder: &DecoderConfig,
        prompt_len: usize,
    ) -> (r: Result<GenerationState, PipelineError>)
        ensures
            r is Ok <==> generation.wf() && decoder.wf() && 0 < prompt_len <= decoder.max_context,
            r matches Ok(s) ==> s@ == GenerationView::fresh(
                Self::spec_limits(*generation, *decoder, prompt_len),
            ) && s@.wf(),
            r matches Err(e) ==> e == (if !generation.wf() || !decoder.wf() {
                PipelineError::Config
            } else if prompt_len == 0 {
                PipelineError::Shape
            } else {
                PipelineError::CacheOverflow
            }),
    {
        if !generation.is_valid() || !decoder.is_valid() {
            return Err(PipelineError::Config);
        }
        if prompt_len == 0 {
            return Err(PipelineError::Shape);
        }
        if prompt_len > decoder.max_context {
            return Err(PipelineError::CacheOverflow);
        }
        let cache = match KvCache::new(decoder.layers, decoder.max_context) {
            Ok(cache) => cache,
            Err(e) => {
                return Err(e);
            },
        };
        let limits = Limits {
            prompt_len,
            max_new_tokens: generation.max_new_tokens,
            policy: generation.policy(),
            end_token: decoder.end_token,
            vocab_size: decoder.vocab_size,
            layers: decoder.layers,
            max_context: decoder.max_context,
        };
        Ok(
            GenerationState {
                limits,
                phase: Phase::Prefill,
                cache,
                tokens_generated: Vec::new(),
                position_index: 0,
                stop: None,
                error: None,
            },
        )
    }

    /// What the driver has to let the engine do now.
    pub fn next_action(&self) -> (a: Action)
        ensures
            a == self@.action(),
            self@.wf(),
    {
        proof {
            use_type_invariant(self);
        }
        match self.phase {
            Phase::Prefill => Action::Prefill,
            Phase::Decoding => Action::Decode {
                token: self.tokens_generated[self.tokens_generated.len() - 1],
                position: self.position_index,
            },
            Phase::Done => Action::Finish,
            Phase::Failed => Action::Abort,
        }
    }

    /// The state after the engine answered with `event`, and what the
    /// driver has to do next.
    pub fn advance(self, event: Event) -> (r: (GenerationState, Action))
        ensures
            r.0@ == self@.on_event(event),
            r.1 == r.0@.action(),
            r.0@.wf(),
    {
        proof {
            use_type_invariant(&self);
        }
        if self.phase == Phase::Done {
            return (self, Action::Finish);
        }
        if self.phase == Phase::Failed {
            return (self, Action::Abort);
        }
        let GenerationState {
            limits,
            phase,
            mut cache,
            mut tokens_generated,
            position_index,
            stop,
            error,
        } = self;
        let (scores, draw) = match event {
            Event::Failure { message } => {
                let failed = GenerationState {
                    limits,
                    phase: Phase::Failed,
                    cache,
                    tokens_generated,
                    position_index,
                    stop,
                    error: Some(PipelineError::Compute(message)),
                };
                return (failed, Action::Abort);
            },
            Event::Scores { scores, draw } => (scores, draw),
        };
        let fed = if phase == Phase::Prefill {
            cache.extend(limits.prompt_len)
        } else {
            cache.grow()
        };
        assert(fed is Ok);
        let position: usize = cache.len();
        if limits.max_new_tokens == 0 {
            let done = GenerationState {
                limits,
                phase: Phase::Done,
                cache,
                tokens_generated,
                position_index: position,
                stop: Some(StopReason::MaxTokens),
                error,
            };
            return (done, Action::Finish);
        }
        let chosen: Option<usize> = if scores.len() == limits.vocab_size {
            sample(&limits.policy, &scores, draw)
        } else {
            None
        };
        let token: u32 = match chosen {
            Some(index) => index as u32,
            None => {
                let failed = GenerationState {
                    limits,
                    phase: Phase::Failed,
                    cache,
                    tokens_generated,
                    position_index: position,
                    stop,
                    error: Some(PipelineError::Shape),
                };
                return (failed, Action::Abort);
            },
        };
        tokens_generated.push(token);
        let reason: Option<StopReason> = if token == limits.end_token {
            Some(StopReason::EndToken)
        } else if tokens_generated.len() >= limits.max_new_tokens {
            Some(StopReason::MaxTokens)
        } else if position >= limits.max_context {
            Some(StopReason::ContextFull)
        } else {
            None
        };
        match reason {
            Some(r) => {
                let done = GenerationState {
                    limits,
                    phase: Phase::Done,
                    cache,
                    tokens_generated,
                    position_index: position,
                    stop: Some(r),
                    error,
                };
                (done, Action::Finish)
            },
            None => {
                let next = GenerationState {
                    limits,
                    phase: Phase::Decoding,
                    cache,
                    tokens_generated,
                    position_index: position,
                    stop,
                    error,
                };
                (next, Action::Decode { token, position })
            },
        }
    }

    /// Where the generation stands.
    pub fn phase(&self) -> (p: Phase)
        ensures
            p == self@.phase,
    {
        self.phase
    }

    /// Whether the generation has ended, one way or the other.
    pub fn is_done(&self) -> (done: bool)
        ensures
            done == self@.is_terminal(),
    {
        self.phase == Phase::Done || self.phase == Phase::Failed
    }

    /// The tokens generated so far, never more than the configured number.
    pub fn tokens_generated(&self) -> (tokens: &Vec<u32>)
        ensures
            tokens@ == self@.tokens,
            tokens@.len() <= self@.limits.max_new_tokens,
    {
        proof {
            use_type_invariant(self);
        }
        &self.tokens_generated
    }

    /// The number of positions in the cache, which is the position of the
    /// next token to feed.
    pub fn position_index(&self) -> (position: usize)
        ensures
            position == self@.position,
            position <= self@.limits.max_context,
    {
        proof {
            use_type_invariant(self);
        }
        self.position_index
    }

    /// The cache of this generation.
    pub fn cache(&self) -> (cache: &KvCache)
        ensures
            cache.positions() == self@.position,
            cache.limit() == self@.limits.max_context,
            cache.layers() == self@.limits.layers,
    {
        proof {
            use_type_invariant(self);
        }
        &self.cache
    }

    /// Why the generation stopped, once it is done.
    pub fn stop_reason(&self) -> (reason: Option<StopReason>)
        ensures
            reason == self@.stop,
            reason is Some <==> self@.phase == Phase::Done,
    {
        proof {
            use_type_invariant(self);
        }
        self.stop
    }

    /// The error that aborted the generation, once it has failed.
    pub fn error(&self) -> (e: Option<PipelineError>)
        ensures
            e == self@.error,
            e is Some <==> self@.phase == Phase::Failed,
    {
        proof {
            use_type_invariant(self);
        }
        match &self.error {
            None => None,
            Some(PipelineError::AudioFormat) => Some(PipelineError::AudioFormat),
            Some(PipelineError::Shape) => Some(PipelineError::Shape),
            Some(PipelineError::ShapeMismatch { expected, actual }) => Some(
                PipelineError::ShapeMismatch { expected: *expected, actual: *actual },
            ),
            Some(PipelineError::Config) => Some(PipelineError::Config),
            Some(PipelineError::CacheOverflow) => Some(PipelineError::CacheOverflow),
            Some(PipelineError::Compute(message)) => Some(PipelineError::Compute(message.clone())),
        }
    }

    /// The result of the window, from the text that the tokenizer gives for
    /// the generated tokens: the transcript where the generation is done,
    /// its error where it has failed, and `None` as long as it is running.
    pub fn finish(self, text: String) -> (r: Option<Result<TranscriptionResult, PipelineError>>)
        ensures
            r is Some <==> self@.is_terminal(),
            self@.phase == Phase::Done ==> (r matches Some(Ok(t)) && t.text == text && t.tokens@
                == self@.tokens),
            self@.phase == Phase::Failed ==> (r matches Some(Err(e)) && Some(e) == self@.error),
    {
        proof {
            use_type_invariant(&self);
        }
        match self.phase {
            Phase::Done => Some(Ok(TranscriptionResult { text, tokens: self.tokens_generated })),
            Phase::Failed => match self.error {
                Some(e) => Some(Err(e)),
                None => None,
            },
            _ => None,
        }
    }
}

} // verus!
