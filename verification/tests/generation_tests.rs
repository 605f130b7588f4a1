use voxtral::cache::KvCache;
use voxtral::config::{DecoderConfig, Device, VoxtralGenerationConfig};
use voxtral::error::{ErrorKind, PipelineError};
use voxtral::generation::{Action, Event, GenerationState, Phase, StopReason};
use voxtral::ratio::Ratio;
use voxtral::stitch::TranscriptionResult;

const END: u32 = 2;

fn decoder(max_context: usize) -> DecoderConfig {
    DecoderConfig { vocab_size: 6, layers: 3, max_context, end_token: END }
}

fn greedy(max_new_tokens: usize) -> VoxtralGenerationConfig {
    VoxtralGenerationConfig::greedy(max_new_tokens, Device::Cpu)
}

/// Scores whose best token is `token`.
fn scores_for(token: u32) -> Event {
    let mut scores = vec![1u32; 6];
    scores[token as usize] = 9;
    Event::Scores { scores, draw: 0 }
}

fn scores_with_draw(token: u32, draw: u64) -> Event {
    match scores_for(token) {
        Event::Scores { scores, .. } => Event::Scores { scores, draw },
        other => other,
    }
}

/// Feeds the answers to the state and returns the state and the actions asked for.
fn drive(mut state: GenerationState, answers: Vec<Event>) -> (GenerationState, Vec<Action>) {
    let mut actions = vec![state.next_action()];
    for answer in answers {
        let (next, action) = state.advance(answer);
        assert_eq!(action, next.next_action());
        actions.push(action);
        state = next;
    }
    (state, actions)
}

#[test]
fn cache_starts_empty_and_grows_by_one_position_in_every_layer() {
    let mut cache = KvCache::new(3, 5).unwrap();
    assert_eq!(cache.layer_count(), 3);
    assert_eq!(cache.len(), 0);
    assert_eq!(cache.max_context(), 5);
    assert!(!cache.is_full());
    assert_eq!(cache.extend(3), Ok(()));
    assert_eq!(cache.len(), 3);
    assert_eq!(cache.grow(), Ok(()));
    for layer in 0..3 {
        assert_eq!(cache.layer_len(layer), Some(4));
    }
    assert_eq!(cache.layer_len(3), None);
    assert_eq!(cache.grow(), Ok(()));
    assert!(cache.is_full());
    assert_eq!(cache.len(), 5);
}

#[test]
fn cache_refuses_what_does_not_fit_and_stays_as_it_was() {
    let mut cache = KvCache::new(2, 4).unwrap();
    assert_eq!(cache.extend(5), Err(PipelineError::CacheOverflow));
    assert_eq!(cache.len(), 0);
    assert_eq!(cache.extend(4), Ok(()));
    assert_eq!(cache.grow(), Err(PipelineError::CacheOverflow));
    assert_eq!(cache.extend(usize::MAX), Err(PipelineError::CacheOverflow));
    assert_eq!(cache.len(), 4);
    assert_eq!(cache.layer_len(1), Some(4));
    assert_eq!(cache.extend(0), Ok(()));
    assert_eq!(cache.len(), 4);
}

#[test]
fn cache_needs_layers_and_context() {
    assert_eq!(KvCache::new(0, 5).err(), Some(PipelineError::Config));
    assert_eq!(KvCache::new(5, 0).err(), Some(PipelineError::Config));
    assert!(KvCache::new(1, 1).is_ok());
}

#[test]
fn generation_refuses_unusable_configurations() {
    let bad_temperature = VoxtralGenerationConfig {
        max_new_tokens: 4,
        temperature: Ratio { numer: 1, denom: 0 },
        top_p: None,
        device: Device::Cpu,
    };
    assert!(!bad_temperature.is_valid());
    assert_eq!(
        GenerationState::start(&bad_temperature, &decoder(10), 3).err(),
        Some(PipelineError::Config)
    );
    let bad_nucleus = VoxtralGenerationConfig {
        max_new_tokens: 4,
        temperature: Ratio { numer: 1, denom: 1 },
        top_p: Some(Ratio { numer: 1, denom: 0 }),
        device: Device::Cpu,
    };
    assert_eq!(
        GenerationState::start(&bad_nucleus, &decoder(10), 3).err(),
        Some(PipelineError::Config)
    );
    let decoders = [
        DecoderConfig { vocab_size: 0, layers: 3, max_context: 10, end_token: 0 },
        DecoderConfig { vocab_size: 6, layers: 0, max_context: 10, end_token: 2 },
        DecoderConfig { vocab_size: 6, layers: 3, max_context: 0, end_token: 2 },
        DecoderConfig { vocab_size: 6, layers: 3, max_context: 10, end_token: 6 },
        DecoderConfig { vocab_size: 0x1_0000_0001, layers: 3, max_context: 10, end_token: 2 },
    ];
    for d in decoders {
        assert!(!d.is_valid());
        assert_eq!(GenerationState::start(&greedy(4), &d, 3).err(), Some(PipelineError::Config));
    }
    assert!(DecoderConfig { vocab_size: 0x1_0000_0000, layers: 1, max_context: 1, end_token: u32::MAX }
        .is_valid());
    // the configuration is looked at before the prompt
    assert_eq!(
        GenerationState::start(&bad_temperature, &decoder(10), 0).err(),
        Some(PipelineError::Config)
    );
}

#[test]
fn generation_refuses_an_empty_prompt_and_one_beyond_the_context() {
    assert_eq!(
        GenerationState::start(&greedy(4), &decoder(10), 0).err(),
        Some(PipelineError::Shape)
    );
    let overflow = GenerationState::start(&greedy(4), &decoder(10), 11).err().unwrap();
    assert_eq!(overflow, PipelineError::CacheOverflow);
    assert_eq!(overflow.kind(), ErrorKind::CacheOverflow);
    assert!(GenerationState::start(&greedy(4), &decoder(10), 10).is_ok());
}

#[test]
fn generation_runs_from_prefill_to_the_end_token() {
    let state = GenerationState::start(&greedy(10), &decoder(100), 7).unwrap();
    assert_eq!(state.phase(), Phase::Prefill);
    assert!(!state.is_done());
    let (state, actions) =
        drive(state, vec![scores_for(4), scores_for(5), scores_for(0), scores_for(END)]);
    assert_eq!(
        actions,
        vec![
            Action::Prefill,
            Action::Decode { token: 4, position: 7 },
            Action::Decode { token: 5, position: 8 },
            Action::Decode { token: 0, position: 9 },
            Action::Finish,
        ]
    );
    assert_eq!(state.phase(), Phase::Done);
    assert!(state.is_done());
    assert_eq!(state.stop_reason(), Some(StopReason::EndToken));
    assert_eq!(state.error(), None);
    assert_eq!(state.tokens_generated(), &vec![4, 5, 0, END]);
    // the prompt and the three tokens that were fed
    assert_eq!(state.position_index(), 10);
    assert_eq!(state.cache().len(), 10);
    assert_eq!(state.cache().layer_len(2), Some(10));
    assert_eq!(
        state.finish("hello".to_string()),
        Some(Ok(TranscriptionResult { text: "hello".to_string(), tokens: vec![4, 5, 0, END] }))
    );
}

#[test]
fn generation_stops_at_the_largest_number_of_tokens() {
    let max_new_tokens = 5;
    let state = GenerationState::start(&greedy(max_new_tokens), &decoder(100), 3).unwrap();
    // the end token never comes
    let answers: Vec<Event> = (0..max_new_tokens).map(|_| scores_for(1)).collect();
    let (state, actions) = drive(state, answers);
    assert_eq!(actions.len(), max_new_tokens + 1);
    assert_eq!(actions[max_new_tokens], Action::Finish);
    assert_eq!(actions[max_new_tokens - 1], Action::Decode { token: 1, position: 6 });
    assert_eq!(state.stop_reason(), Some(StopReason::MaxTokens));
    assert_eq!(state.tokens_generated(), &vec![1; 5]);
    // further answers change nothing
    let (state, action) = state.advance(scores_for(3));
    assert_eq!(action, Action::Finish);
    let (state, action) = state.advance(Event::Failure { message: "late".to_string() });
    assert_eq!(action, Action::Finish);
    assert_eq!(state.tokens_generated(), &vec![1; 5]);
    assert_eq!(state.error(), None);
    assert_eq!(state.position_index(), 7);
}

#[test]
fn generation_of_one_token_needs_the_prefill_only() {
    let state = GenerationState::start(&greedy(1), &decoder(100), 3).unwrap();
    let (state, actions) = drive(state, vec![scores_for(4)]);
    assert_eq!(actions, vec![Action::Prefill, Action::Finish]);
    assert_eq!(state.tokens_generated(), &vec![4]);
    assert_eq!(state.stop_reason(), Some(StopReason::MaxTokens));
    assert_eq!(state.position_index(), 3);
}

#[test]
fn generation_of_no_token_is_done_after_the_prefill() {
    let state = GenerationState::start(&greedy(0), &decoder(100), 3).unwrap();
    assert_eq!(state.next_action(), Action::Prefill);
    let (state, actions) = drive(state, vec![scores_for(4)]);
    assert_eq!(actions, vec![Action::Prefill, Action::Finish]);
    assert!(state.tokens_generated().is_empty());
    assert_eq!(state.stop_reason(), Some(StopReason::MaxTokens));
    assert_eq!(state.position_index(), 3);
    assert_eq!(
        state.finish(String::new()),
        Some(Ok(TranscriptionResult { text: String::new(), tokens: vec![] }))
    );
}

#[test]
fn the_end_token_wins_over_the_largest_number_of_tokens() {
    let state = GenerationState::start(&greedy(2), &decoder(100), 3).unwrap();
    let (state, _) = drive(state, vec![scores_for(4), scores_for(END)]);
    assert_eq!(state.stop_reason(), Some(StopReason::EndToken));
    assert_eq!(state.tokens_generated(), &vec![4, END]);
}

#[test]
fn generation_keeps_what_it_has_when_the_context_is_full() {
    // a prompt of 3 in a context of 5: two tokens can be fed
    let state = GenerationState::start(&greedy(10), &decoder(5), 3).unwrap();
    let (state, actions) = drive(state, vec![scores_for(4), scores_for(5), scores_for(0)]);
    assert_eq!(
        actions,
        vec![
            Action::Prefill,
            Action::Decode { token: 4, position: 3 },
            Action::Decode { token: 5, position: 4 },
            Action::Finish,
        ]
    );
    assert_eq!(state.phase(), Phase::Done);
    assert_eq!(state.stop_reason(), Some(StopReason::ContextFull));
    assert_eq!(state.tokens_generated(), &vec![4, 5, 0]);
    assert_eq!(state.position_index(), 5);
    assert!(state.cache().is_full());
    assert_eq!(
        state.finish("partial".to_string()),
        Some(Ok(TranscriptionResult { text: "partial".to_string(), tokens: vec![4, 5, 0] }))
    );
}

#[test]
fn a_prompt_that_fills_the_context_leaves_one_token() {
    let state = GenerationState::start(&greedy(10), &decoder(3), 3).unwrap();
    let (state, actions) = drive(state, vec![scores_for(4)]);
    assert_eq!(actions, vec![Action::Prefill, Action::Finish]);
    assert_eq!(state.stop_reason(), Some(StopReason::ContextFull));
    assert_eq!(state.tokens_generated(), &vec![4]);
}

#[test]
fn a_failure_of_the_engine_aborts_the_generation() {
    let state = GenerationState::start(&greedy(10), &decoder(100), 3).unwrap();
    let (state, actions) = drive(
        state,
        vec![scores_for(4), Event::Failure { message: "out of memory".to_string() }, scores_for(1)],
    );
    assert_eq!(
        actions,
        vec![
            Action::Prefill,
            Action::Decode { token: 4, position: 3 },
            Action::Abort,
            Action::Abort
        ]
    );
    assert_eq!(state.phase(), Phase::Failed);
    assert!(state.is_done());
    assert_eq!(state.stop_reason(), None);
    let error = state.error().unwrap();
    assert_eq!(error, PipelineError::Compute("out of memory".to_string()));
    assert_eq!(error.kind(), ErrorKind::Compute);
    assert_eq!(error.message(), "out of memory");
    assert_eq!(state.tokens_generated(), &vec![4]);
    assert_eq!(state.finish("x".to_string()), Some(Err(error)));
}

#[test]
fn a_failure_of_the_prefill_aborts_the_generation() {
    let state = GenerationState::start(&greedy(10), &decoder(100), 3).unwrap();
    let (state, action) = state.advance(Event::Failure { message: String::new() });
    assert_eq!(action, Action::Abort);
    assert_eq!(state.error(), Some(PipelineError::Compute(String::new())));
    assert!(state.tokens_generated().is_empty());
    assert_eq!(state.position_index(), 0);
}

#[test]
fn scores_of_another_number_than_the_vocabulary_abort_the_generation() {
    for wrong in [0usize, 5, 7] {
        let state = GenerationState::start(&greedy(10), &decoder(100), 3).unwrap();
        let (state, action) = state.advance(Event::Scores { scores: vec![1; wrong], draw: 0 });
        assert_eq!(action, Action::Abort);
        assert_eq!(state.error(), Some(PipelineError::Shape));
        assert!(state.error().unwrap().is_fatal());
        assert!(state.tokens_generated().is_empty());
        assert_eq!(state.finish(String::new()), Some(Err(PipelineError::Shape)));
    }
    let state = GenerationState::start(&greedy(10), &decoder(100), 3).unwrap();
    let (state, _) = state.advance(scores_for(4));
    let (state, action) = state.advance(Event::Scores { scores: vec![1; 5], draw: 0 });
    assert_eq!(action, Action::Abort);
    assert_eq!(state.tokens_generated(), &vec![4]);
    assert_eq!(state.position_index(), 4);
}

#[test]
fn a_running_generation_has_no_result() {
    let state = GenerationState::start(&greedy(10), &decoder(100), 3).unwrap();
    assert_eq!(state.finish(String::new()), None);
    let state = GenerationState::start(&greedy(10), &decoder(100), 3).unwrap();
    let (state, _) = state.advance(scores_for(4));
    assert_eq!(state.phase(), Phase::Decoding);
    assert_eq!(state.stop_reason(), None);
    assert_eq!(state.error(), None);
    assert_eq!(state.finish(String::new()), None);
}

#[test]
fn greedy_generation_gives_the_same_tokens_whatever_is_drawn() {
    let tokens = [3u32, 3, 0, 5, 1, 4, END, 1];
    let run = |draws: &dyn Fn(usize) -> u64| {
        let state = GenerationState::start(&greedy(20), &decoder(100), 4).unwrap();
        let answers = tokens.iter().enumerate().map(|(i, &t)| scores_with_draw(t, draws(i))).collect();
        let (state, actions) = drive(state, answers);
        (state.tokens_generated().clone(), actions)
    };
    let first = run(&|_| 0);
    let second = run(&|i| 1000 * i as u64 + 17);
    let third = run(&|_| u64::MAX);
    assert_eq!(first.0, vec![3, 3, 0, 5, 1, 4, END]);
    assert_eq!(first, second);
    assert_eq!(first, third);
}

#[test]
fn sampled_generation_is_repeated_by_the_same_draws() {
    let config = VoxtralGenerationConfig {
        max_new_tokens: 6,
        temperature: Ratio { numer: 1, denom: 1 },
        top_p: Some(Ratio { numer: 9, denom: 10 }),
        device: Device::Cpu,
    };
    let run = |seed: u64| {
        let state = GenerationState::start(&config, &decoder(100), 4).unwrap();
        let answers = (0..6u64)
            .map(|i| Event::Scores {
                scores: vec![30, 25, 0, 20, 15, 10],
                draw: seed.wrapping_mul(6364136223846793005).wrapping_add(i * 7919) >> 7,
            })
            .collect();
        drive(state, answers).0.tokens_generated().clone()
    };
    assert_eq!(run(1), run(1));
    assert_eq!(run(99), run(99));
    assert_eq!(run(1).len(), 6);
    // the nucleus leaves the last token of the ranking and the end token, which has no score, out
    for seed in 0..50 {
        assert!(run(seed).iter().all(|&t| t != 5 && t != END));
    }
    assert!((0..50).any(|seed| run(seed) != run(0)));
}
