use voxtral::config::{DecoderConfig, Device, VoxtralGenerationConfig};
use voxtral::error::{PipelineError, WindowError};
use voxtral::features::FeaturePlan;
use voxtral::model::{load_model, VoxtralConfig, VoxtralModel};
use voxtral::prompt::PromptTemplate;
use voxtral::ratio::Ratio;
use voxtral::run::{FailurePolicy, RunStep, TranscriptionRun};
use voxtral::schedule::{default_overlap, AudioWindow};
use voxtral::stitch::{stitch, TranscriptionResult};

fn model() -> VoxtralModel {
    load_model(
        true,
        false,
        VoxtralConfig {
            sample_rate: 16000,
            chunk_samples: 240000,
            overlap: default_overlap(),
            hop_samples: 160,
            mel_bins: 128,
            encoder_capacity_frames: 3000,
            frames_per_embedding: 8,
            template: PromptTemplate {
                bos: 1,
                inst_open: 3,
                begin_audio: 25,
                placeholder: 24,
                inst_close: 4,
                language_tag: vec![9909, 1058, 1262],
                transcribe: 34,
            },
            decoder: DecoderConfig { vocab_size: 131072, layers: 30, max_context: 4096, end_token: 2 },
            generation: VoxtralGenerationConfig::greedy(1000, Device::Cpu),
        },
    )
    .unwrap()
}

fn window(start_sample: usize, end_sample: usize, is_last: bool) -> AudioWindow {
    AudioWindow { start_sample, end_sample, is_last }
}

fn three_windows() -> Vec<AudioWindow> {
    vec![window(0, 10, false), window(7, 17, false), window(14, 20, true)]
}

fn result(text: &str, tokens: Vec<u32>) -> TranscriptionResult {
    TranscriptionResult { text: text.to_string(), tokens }
}

#[test]
fn the_default_overlap_is_a_tenth() {
    assert_eq!(default_overlap(), Ratio { numer: 1, denom: 10 });
    assert_eq!(FailurePolicy::default(), FailurePolicy::Abort);
}

#[test]
fn audio_without_samples_is_finished_at_once_with_an_empty_transcript() {
    let run = model().begin_run(0, FailurePolicy::Abort);
    assert_eq!(run.next_step(), RunStep::Finish);
    assert!(run.is_over());
    assert!(run.failures().is_empty());
    assert_eq!(run.finish(), Some(Ok(TranscriptionResult { text: String::new(), tokens: vec![] })));
}

#[test]
fn audio_shorter_than_a_window_is_one_window_with_padded_features_and_one_result() {
    let m = model();
    // five seconds at 16 kHz into windows of fifteen
    let run = m.begin_run(5 * 16000, FailurePolicy::Abort);
    let step = run.next_step();
    assert_eq!(step, RunStep::Transcribe { index: 0, window: window(0, 80000, true) });
    assert_eq!(m.extractor().plan(80000), Ok(FeaturePlan { raw_frames: 500, pad_frames: 2500 }));
    let (run, step) = run.record(Ok(result("five seconds", vec![5, 6])));
    assert_eq!(step, RunStep::Finish);
    assert_eq!(run.finish(), Some(Ok(result("five seconds", vec![5, 6]))));
}

#[test]
fn a_long_recording_is_run_window_by_window() {
    let m = model();
    let mut run = m.begin_run(2 * 216000 + 240000, FailurePolicy::Abort);
    let mut step = run.next_step();
    let mut seen = Vec::new();
    while let RunStep::Transcribe { index, window } = step {
        seen.push((index, window));
        (run, step) = run.record(Ok(result(&format!("w{}", index), vec![index as u32])));
    }
    assert_eq!(
        seen,
        vec![
            (0, window(0, 240000, false)),
            (1, window(216000, 456000, false)),
            (2, window(432000, 672000, true)),
        ]
    );
    assert_eq!(step, RunStep::Finish);
    assert_eq!(run.finish(), Some(Ok(result("w0 w1 w2", vec![0, 1, 2]))));
}

#[test]
fn a_run_gives_what_stitching_gives() {
    let results =
        vec![result("one", vec![1]), result("", vec![]), result("three three", vec![3, 3])];
    let mut run = TranscriptionRun::new(three_windows(), FailurePolicy::Abort);
    for r in &results {
        assert!(!run.is_over());
        run = run.record(Ok(r.clone())).0;
    }
    assert!(run.is_over());
    assert_eq!(run.finish(), Some(Ok(stitch(&results))));
}

#[test]
fn a_running_run_has_no_result() {
    let run = TranscriptionRun::new(three_windows(), FailurePolicy::Abort);
    assert_eq!(run.finish(), None);
    let run = TranscriptionRun::new(three_windows(), FailurePolicy::Continue);
    let (run, step) = run.record(Ok(result("a", vec![1])));
    assert_eq!(step, RunStep::Transcribe { index: 1, window: window(7, 17, false) });
    assert_eq!(run.finish(), None);
}

#[test]
fn the_first_failure_aborts_the_run() {
    let run = TranscriptionRun::new(three_windows(), FailurePolicy::default());
    let (run, _) = run.record(Ok(result("a", vec![1])));
    let (run, step) = run.record(Err(PipelineError::ShapeMismatch { expected: 375, actual: 374 }));
    assert_eq!(step, RunStep::Abort);
    assert!(run.is_over());
    let failure =
        WindowError { window_index: 1, error: PipelineError::ShapeMismatch { expected: 375, actual: 374 } };
    assert_eq!(run.failures(), &vec![failure.clone()]);
    // what comes after the end changes nothing
    let (run, step) = run.record(Ok(result("late", vec![9])));
    assert_eq!(step, RunStep::Abort);
    let (run, step) = run.record(Err(PipelineError::Config));
    assert_eq!(step, RunStep::Abort);
    assert_eq!(run.failures().len(), 1);
    assert_eq!(run.finish(), Some(Err(failure)));
}

#[test]
fn a_failure_of_the_first_window_aborts_the_run() {
    let run = TranscriptionRun::new(three_windows(), FailurePolicy::Abort);
    let (run, step) = run.record(Err(PipelineError::Compute("no memory".to_string())));
    assert_eq!(step, RunStep::Abort);
    assert_eq!(
        run.finish(),
        Some(Err(WindowError {
            window_index: 0,
            error: PipelineError::Compute("no memory".to_string())
        }))
    );
}

#[test]
fn a_run_that_continues_notes_its_failures() {
    let run = TranscriptionRun::new(three_windows(), FailurePolicy::Continue);
    let (run, step) = run.record(Err(PipelineError::CacheOverflow));
    assert_eq!(step, RunStep::Transcribe { index: 1, window: window(7, 17, false) });
    let (run, step) = run.record(Ok(result("middle", vec![4, 5])));
    assert_eq!(step, RunStep::Transcribe { index: 2, window: window(14, 20, true) });
    let (run, step) = run.record(Err(PipelineError::Shape));
    assert_eq!(step, RunStep::Finish);
    assert_eq!(
        run.failures(),
        &vec![
            WindowError { window_index: 0, error: PipelineError::CacheOverflow },
            WindowError { window_index: 2, error: PipelineError::Shape },
        ]
    );
    // a finished run takes nothing more
    let (run, step) = run.record(Ok(result("late", vec![9])));
    assert_eq!(step, RunStep::Finish);
    assert_eq!(run.finish(), Some(Ok(result("middle", vec![4, 5]))));
}
