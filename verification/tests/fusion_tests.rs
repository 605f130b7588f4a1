use voxtral::config::{DecoderConfig, Device, VoxtralGenerationConfig};
use voxtral::error::{ErrorKind, PipelineError, WindowError};
use voxtral::fusion::fuse;
use voxtral::generation::{Action, Phase};
use voxtral::model::{load_model, VoxtralConfig};
use voxtral::prompt::{PromptBuilder, PromptSequence, PromptTemplate};
use voxtral::ratio::Ratio;

fn template() -> PromptTemplate {
    PromptTemplate {
        bos: 1,
        inst_open: 3,
        begin_audio: 25,
        placeholder: 24,
        inst_close: 4,
        language_tag: vec![9909, 1058, 1262],
        transcribe: 34,
    }
}

fn prompt(n: usize) -> PromptSequence {
    PromptBuilder::new(template()).unwrap().build(n).unwrap()
}

fn text_embeddings(p: &PromptSequence) -> Vec<String> {
    p.tokens().iter().enumerate().map(|(i, t)| format!("text{}:{}", i, t)).collect()
}

fn audio_embeddings(n: usize) -> Vec<String> {
    (0..n).map(|k| format!("audio{}", k)).collect()
}

#[test]
fn prompt_builder_refuses_a_prompt_without_placeholders() {
    let builder = PromptBuilder::new(template()).unwrap();
    assert_eq!(builder.build(0).err(), Some(PipelineError::Config));
    assert_eq!(builder.template(), &template());
}

#[test]
fn prompt_builder_refuses_a_placeholder_that_is_a_control_token() {
    let changes: Vec<fn(&mut PromptTemplate)> = vec![
        |t| t.bos = 24,
        |t| t.inst_open = 24,
        |t| t.begin_audio = 24,
        |t| t.inst_close = 24,
        |t| t.transcribe = 24,
        |t| t.language_tag = vec![24],
        |t| t.language_tag = vec![1, 2, 24],
        |t| t.placeholder = 1058,
    ];
    for change in changes {
        let mut t = template();
        change(&mut t);
        assert!(!t.is_valid());
        assert_eq!(PromptBuilder::new(t).err(), Some(PipelineError::Config));
    }
    let mut no_tag = template();
    no_tag.language_tag = vec![];
    assert!(no_tag.is_valid());
    let p = PromptBuilder::new(no_tag).unwrap().build(2).unwrap();
    assert_eq!(p.tokens(), &vec![1, 3, 25, 24, 24, 4, 34]);
}

#[test]
fn prompt_has_the_placeholders_behind_the_audio_announcement() {
    let p = prompt(3);
    assert_eq!(p.tokens(), &vec![1, 3, 25, 24, 24, 24, 4, 9909, 1058, 1262, 34]);
    assert_eq!(p.len(), 11);
    assert_eq!(p.reserved(), 3);
    assert_eq!(p.placeholder(), 24);
    assert_eq!(prompt(1).tokens(), &vec![1, 3, 25, 24, 4, 9909, 1058, 1262, 34]);
}

#[test]
fn fusion_puts_the_audio_embeddings_at_the_placeholders() {
    let p = prompt(3);
    let fused = fuse(&p, text_embeddings(&p), audio_embeddings(3)).unwrap();
    assert_eq!(
        fused,
        vec![
            "text0:1", "text1:3", "text2:25", "audio0", "audio1", "audio2", "text6:4",
            "text7:9909", "text8:1058", "text9:1262", "text10:34"
        ]
    );
    assert_eq!(fused.len(), p.len());
}

#[test]
fn fusion_refuses_one_embedding_too_few() {
    let p = prompt(375);
    let r = fuse(&p, text_embeddings(&p), audio_embeddings(374));
    assert_eq!(r, Err(PipelineError::ShapeMismatch { expected: 375, actual: 374 }));
    let e = r.unwrap_err();
    assert_eq!(e.kind(), ErrorKind::ShapeMismatch);
    assert!(e.is_fatal());
}

#[test]
fn fusion_refuses_every_other_number_of_embeddings() {
    let p = prompt(4);
    for n in [0usize, 1, 2, 3, 5, 6, 100] {
        assert_eq!(
            fuse(&p, text_embeddings(&p), audio_embeddings(n)),
            Err(PipelineError::ShapeMismatch { expected: 4, actual: n })
        );
    }
    assert!(fuse(&p, text_embeddings(&p), audio_embeddings(4)).is_ok());
}

#[test]
fn fusion_refuses_an_embedded_prompt_of_another_length() {
    let p = prompt(2);
    let mut short = text_embeddings(&p);
    short.pop();
    assert_eq!(fuse(&p, short, audio_embeddings(2)), Err(PipelineError::Shape));
    let mut long = text_embeddings(&p);
    long.push("extra".to_string());
    assert_eq!(fuse(&p, long, audio_embeddings(2)), Err(PipelineError::Shape));
    // the number of audio embeddings is looked at first
    let mut short = text_embeddings(&p);
    short.pop();
    assert_eq!(
        fuse(&p, short, audio_embeddings(1)),
        Err(PipelineError::ShapeMismatch { expected: 2, actual: 1 })
    );
}

fn model(max_context: usize) -> voxtral::model::VoxtralModel {
    load_model(
        true,
        false,
        VoxtralConfig {
            sample_rate: 16000,
            chunk_samples: 240000,
            overlap: Ratio { numer: 1, denom: 10 },
            hop_samples: 160,
            mel_bins: 128,
            encoder_capacity_frames: 3000,
            frames_per_embedding: 8,
            template: template(),
            decoder: DecoderConfig { vocab_size: 8, layers: 2, max_context, end_token: 2 },
            generation: VoxtralGenerationConfig::greedy(16, Device::Cpu),
        },
    )
    .unwrap()
}

#[test]
fn no_generation_is_begun_when_the_fusion_fails() {
    let m = model(4096);
    let p = m.prompt_for(80000).unwrap();
    assert_eq!(p.reserved(), 375);
    let r = m.begin_window(&p, text_embeddings(&p), audio_embeddings(374));
    assert_eq!(r.err(), Some(PipelineError::ShapeMismatch { expected: 375, actual: 374 }));
    let failure = WindowError::new(
        3,
        m.begin_window(&p, text_embeddings(&p), audio_embeddings(376)).err().unwrap(),
    );
    assert_eq!(failure.window_index, 3);
    assert_eq!(failure.error, PipelineError::ShapeMismatch { expected: 375, actual: 376 });
}

#[test]
fn a_window_begins_with_the_fused_prompt_and_a_fresh_generation() {
    let m = model(4096);
    let p = m.prompt_for(80000).unwrap();
    let (fused, state) = m.begin_window(&p, text_embeddings(&p), audio_embeddings(375)).unwrap();
    assert_eq!(fused.len(), 383);
    assert_eq!(fused[2], "text2:25");
    assert_eq!(fused[3], "audio0");
    assert_eq!(fused[377], "audio374");
    assert_eq!(fused[378], "text378:4");
    assert_eq!(state.phase(), Phase::Prefill);
    assert_eq!(state.next_action(), Action::Prefill);
    assert_eq!(state.position_index(), 0);
    assert_eq!(state.cache().len(), 0);
    assert_eq!(state.cache().layer_count(), 2);
    assert!(state.tokens_generated().is_empty());
}

#[test]
fn a_prompt_longer_than_the_context_overflows_the_cache() {
    let m = model(382);
    let p = m.prompt_for(80000).unwrap();
    let r = m.begin_window(&p, text_embeddings(&p), audio_embeddings(375));
    assert_eq!(r.err(), Some(PipelineError::CacheOverflow));
    let exact = model(383);
    assert!(exact.begin_window(&p, text_embeddings(&p), audio_embeddings(375)).is_ok());
}
