//! The model as the orchestration core sees it: its configuration, checked
//! once, and the steps of a window that need no tensor.

use vstd::prelude::*;
use crate::config::{select_device, DecoderConfig, Device, VoxtralGenerationConfig};
use crate::error::PipelineError;
use crate::features::{spec_raw_frames, FeatureExtractor};
use crate::fusion::{fuse, spec_fused};
use crate::generation::{GenerationState, GenerationView};
use crate::prompt::{PromptBuilder, PromptSequence, PromptTemplate};
use crate::ratio::Ratio;
use crate::run::{FailurePolicy, RunStep, RunView, TranscriptionRun};
use crate::schedule::{is_window, spec_step, spec_window_count, AudioWindow, ChunkScheduler};

verus! {

/// Whether this build computes on an accelerator unless told otherwise.
/// It does not: the library is built for the processor.
pub fn use_cpu() -> (accelerated: bool)
    ensures
        !accelerated,
{
    false
}

/// Everything that is fixed for a run of the pipeline.
#[derive(Clone, Debug, PartialEq, Eq)]
pub struct VoxtralConfig {
    /// The sample rate that the model requires, in Hz.
    pub sample_rate: u32,
    /// The length of a window, in samples.
    pub chunk_samples: usize,
    /// The fraction of a window that it shares with the next.
    pub overlap: Ratio,
    /// The number of samples from one feature frame to the next.
    pub hop_samples: usize,
    /// The number of mel bins of a feature frame.
    pub mel_bins: usize,
    /// The number of feature frames that the encoder takes in one pass.
    pub encoder_capacity_frames: usize,
    /// The number of feature frames that become one audio embedding.
    pub frames_per_embedding: usize,
    /// The control tokens of the prompt.
    pub template: PromptTemplate,
    /// What the generation loop has to know of the decoder.
    pub decoder: DecoderConfig,
    /// How tokens are generated.
    pub generation: VoxtralGenerationConfig,
}

impl VoxtralConfig {
    /// A configuration is usable when each of its parts is, a window is no
    /// longer than what the encoder takes, and the encoder gives at least
    /// one embedding.
    pub open spec fn wf(self) -> bool {
        &&& self.sample_rate > 0
        &&& self.chunk_samples > 0
        &&& self.overlap.wf()
        &&& self.hop_samples > 0
        &&& self.mel_bins > 0
        &&& self.encoder_capacity_frames > 0
        &&& self.frames_per_embedding > 0
        &&& self.encoder_capacity_frames * self.hop_samples <= usize::MAX
        &&& self.chunk_samples <= self.encoder_capacity_frames * self.hop_samples
        &&& self.frames_per_embedding <= self.encoder_capacity_frames
        &&& self.template.wf()
        &&& self.decoder.wf()
        &&& self.generation.wf()
    }
}

/// A checked configuration together with the device of the run.
pub struct VoxtralModel {
    device: Device,
    sample_rate: u32,
    scheduler: ChunkScheduler,
    extractor: FeatureExtractor,
    builder: PromptBuilder,
    decoder: DecoderConfig,
    generation: VoxtralGenerationConfig,
}

impl VoxtralModel {
    #[verifier::type_invariant]
    spec fn inv(self) -> bool {
        &&& self.sample_rate > 0
        &&& self.extractor.hop() > 0
        &&& self.extractor.fold() > 0
        &&& self.scheduler.chunk() <= self.extractor.capacity() * self.extractor.hop()
        &&& self.extractor.fold() <= self.extractor.capacity()
        &&& self.decoder.wf()
        &&& self.generation.wf()
    }

    /// The device of the run.
    pub closed spec fn spec_device(self) -> Device {
        self.device
    }

    /// The sample rate that the model requires, in Hz.
    pub closed spec fn spec_sample_rate(self) -> u32 {
        self.sample_rate
    }

    /// The length of a window, in samples.
    pub closed spec fn spec_chunk(self) -> nat {
        self.scheduler.chunk()
    }

    /// The distance between the starts of consecutive windows.
    pub closed spec fn spec_stride(self) -> nat {
        self.scheduler.stride()
    }

    /// The number of samples from one feature frame to the next.
    pub closed spec fn spec_hop(self) -> nat {
        self.extractor.hop()
    }

    /// The number of feature frames that the encoder takes in one pass.
    pub closed spec fn spec_capacity_frames(self) -> nat {
        self.extractor.capacity()
    }

    /// The number of placeholders in the prompt of every window.
    pub closed spec fn spec_placeholders(self) -> nat {
        self.extractor.capacity() / self.extractor.fold()
    }

    /// The control tokens of the prompt.
    pub closed spec fn spec_template(self) -> PromptTemplate {
        self.builder.spec_template()
    }

    /// What the generation loop has to know of the decoder.
    pub closed spec fn spec_decoder(self) -> DecoderConfig {
        self.decoder
    }

    /// How tokens are generated.
    pub closed spec fn spec_generation(self) -> VoxtralGenerationConfig {
        self.generation
    }

    /// Checks `config` and binds it to a device.
    ///
    /// The accelerator is taken where `use_cpu` does not forbid it and
    /// `accelerator_available` says that there is one. A configuration that
    /// is not usable is a configuration error.
    pub fn new(use_cpu: bool, accelerator_available: bool, config: VoxtralConfig) -> (r: Result<
        VoxtralModel,
        PipelineError,
    >)
        ensures
            r is Ok <==> config.wf(),
            r matches Err(e) ==> e == PipelineError::Config,
            r matches Ok(m) ==> {
                &&& m.spec_device() == (if !use_cpu && accelerator_available {
                    Device::Cuda
                } else {
                    Device::Cpu
                })
                &&& m.spec_sample_rate() == config.sample_rate
                &&& m.spec_chunk() == config.chunk_samples
                &&& m.spec_stride() == spec_step(config.chunk_samples as nat, config.overlap)
                &&& m.spec_hop() == config.hop_samples
                &&& m.spec_capacity_frames() == config.encoder_capacity_frames
                &&& m.spec_placeholders() == config.encoder_capacity_frames
                    / config.frames_per_embedding
                &&& m.spec_template() == config.template
                &&& m.spec_decoder() == config.decoder
                &&& m.spec_generation() == config.generation
            },
    {
        if config.sample_rate == 0 || !config.decoder.is_valid() || !config.generation.is_valid() {
            return Err(PipelineError::Config);
        }
        let scheduler = match ChunkScheduler::new(config.chunk_samples, config.overlap) {
            Ok(s) => s,
            Err(e) => {
                return Err(e);
            },
        };
        let extractor = match FeatureExtractor::new(
            config.hop_samples,
            config.mel_bins,
            config.encoder_capacity_frames,
            config.frames_per_embedding,
        ) {
            Ok(x) => x,
            Err(e) => {
                return Err(e);
            },
        };
        if config.chunk_samples > extractor.capacity_samples() || config.frames_per_embedding
            > config.encoder_capacity_frames {
            return Err(PipelineError::Config);
        }
        let builder = match PromptBuilder::new(config.template) {
            Ok(b) => b,
            Err(e) => {
                return Err(e);
            },
        };
        Ok(
            VoxtralModel {
                device: select_device(use_cpu, accelerator_available),
                sample_rate: config.sample_rate,
                scheduler,
                extractor,
                builder,
                decoder: config.decoder,
                generation: config.generation,
            },
        )
    }

    /// The device of the run.
    pub fn device(&self) -> (d: Device)
        ensures
            d == self.spec_device(),
    {
        self.device
    }

    /// The sample rate that the model requires, in Hz.
    pub fn sample_rate(&self) -> (rate: u32)
        ensures
            rate == self.spec_sample_rate(),
            rate > 0,
    {
        proof {
            use_type_invariant(self);
        }
        self.sample_rate
    }

    /// The geometry of the acoustic features.
    pub fn extractor(&self) -> (x: &FeatureExtractor)
        ensures
            x.hop() == self.spec_hop(),
            x.capacity() == self.spec_capacity_frames(),
            x.capacity() / x.fold() == self.spec_placeholders(),
    {
        &self.extractor
    }

    /// How tokens are generated.
    pub fn generation(&self) -> (g: VoxtralGenerationConfig)
        ensures
            g == self.spec_generation(),
            g.wf(),
    {
        proof {
            use_type_invariant(self);
        }
        self.generation
    }

    /// What the generation loop has to know of the decoder.
    pub fn decoder(&self) -> (d: DecoderConfig)
        ensures
            d == self.spec_decoder(),
            d.wf(),
    {
        proof {
            use_type_invariant(self);
        }
        self.decoder
    }

    /// The windows of audio of `total_samples` samples, in order; none for
    /// audio without samples, for which the transcript is empty.
    pub fn windows(&self, total_samples: usize) -> (ws: Vec<AudioWindow>)
        ensures
            ws@.len() == spec_window_count(
                total_samples as nat,
                self.spec_chunk(),
                self.spec_stride(),
            ),
            forall|i: int|
                0 <= i < ws@.len() ==> is_window(
                    #[trigger] ws@[i],
                    i as nat,
                    total_samples as nat,
                    self.spec_chunk(),
                    self.spec_stride(),
                ),
    {
        self.scheduler.windows(total_samples)
    }

    /// Begins the run over the windows of audio of `total_samples` samples.
    /// For audio without samples the run is finished at once, with an empty
    /// transcript.
    pub fn begin_run(&self, total_samples: usize, policy: FailurePolicy) -> (run: TranscriptionRun)
        ensures
            run@ == RunView::begun(run@.windows, policy),
            run@.wf(),
            run@.windows.len() == spec_window_count(
                total_samples as nat,
                self.spec_chunk(),
                self.spec_stride(),
            ),
            forall|i: int|
                0 <= i < run@.windows.len() ==> is_window(
                    #[trigger] run@.windows[i],
                    i as nat,
                    total_samples as nat,
                    self.spec_chunk(),
                    self.spec_stride(),
                ),
            total_samples == 0 ==> run@.step() == RunStep::Finish,
    {
        TranscriptionRun::new(self.windows(total_samples), policy)
    }

    /// The prompt for a window of `window_samples` samples: it reserves one
    /// placeholder for each embedding that the encoder will give for the
    /// window.
    ///
    /// A window that is longer than what the encoder takes is a shape
    /// error; a window cut by [`VoxtralModel::windows`] never is.
    pub fn prompt_for(&self, window_samples: usize) -> (r: Result<PromptSequence, PipelineError>)
        ensures
            r is Ok <==> spec_raw_frames(window_samples as nat, self.spec_hop())
                <= self.spec_capacity_frames(),
            window_samples <= self.spec_chunk() ==> r is Ok,
            r matches Err(e) ==> e == PipelineError::Shape,
            r matches Ok(p) ==> {
                &&& p@ == self.spec_template().spec_prompt(self.spec_placeholders())
                &&& p.spec_placeholder() == self.spec_template().placeholder
                &&& p.spec_reserved() == self.spec_placeholders()
                &&& self.spec_placeholders() > 0
            },
    {
        proof {
            use_type_invariant(self);
            let hop = self.extractor.hop();
            let cap = self.extractor.capacity();
            let fold = self.extractor.fold();
            if window_samples <= self.scheduler.chunk() {
                assert(spec_raw_frames(window_samples as nat, hop) <= cap) by (nonlinear_arith)
                    requires
                        hop > 0,
                        window_samples <= cap * hop,
                        spec_raw_frames(window_samples as nat, hop) == (window_samples + hop - 1)
                            / (hop as int),
                ;
            }
            assert(cap / fold >= 1) by (nonlinear_arith)
                requires
                    0 < fold <= cap,
            ;
        }
        let count: usize = match self.extractor.placeholder_count(window_samples) {
            Ok(n) => n,
            Err(e) => {
                return Err(e);
            },
        };
        // the encoder gives at least one embedding, so the builder never refuses
        match self.builder.build(count) {
            Ok(p) => Ok(p),
            Err(_) => Err(PipelineError::Shape),
        }
    }

    /// Fuses the audio embeddings of a window into its embedded prompt and
    /// begins the generation over the result.
    ///
    /// Where the fusion fails, with a shape mismatch for a wrong number of
    /// audio embeddings, no generation is begun.
    pub fn begin_window<T>(&self, prompt: &PromptSequence, embedded: Vec<T>, audio: Vec<T>) -> (r:
        Result<(Vec<T>, GenerationState), PipelineError>)
        ensures
            r is Ok <==> audio@.len() == prompt.spec_reserved() && embedded@.len() == prompt@.len()
                && 0 < prompt@.len() <= self.spec_decoder().max_context,
            audio@.len() != prompt.spec_reserved() ==> r == Err::<
                (Vec<T>, GenerationState),
                PipelineError,
            >(
                PipelineError::ShapeMismatch {
                    expected: prompt.spec_reserved() as usize,
                    actual: audio@.len() as usize,
                },
            ),
            r matches Ok(begun) ==> {
                &&& begun.0@ == spec_fused(prompt@, prompt.spec_placeholder(), embedded@, audio@)
                &&& begun.1@ == GenerationView::fresh(
                    GenerationState::spec_limits(
                        self.spec_generation(),
                        self.spec_decoder(),
                        prompt@.len() as usize,
                    ),
                )
            },
            r matches Err(e) ==> e == (if audio@.len() != prompt.spec_reserved() {
                PipelineError::ShapeMismatch {
                    expected: prompt.spec_reserved() as usize,
                    actual: audio@.len() as usize,
                }
            } else if embedded@.len() != prompt@.len() || prompt@.len() == 0 {
                PipelineError::Shape
            } else {
                PipelineError::CacheOverflow
            }),
    {
        proof {
            use_type_invariant(self);
        }
        let fused = match fuse(prompt, embedded, audio) {
            Ok(f) => f,
            Err(e) => {
                return Err(e);
            },
        };
        match GenerationState::start(&self.generation, &self.decoder, fused.len()) {
            Ok(state) => Ok((fused, state)),
            Err(e) => Err(e),
        }
    }
}

/// Checks `config` and binds it to the device of the run: the model as far
/// as the orchestration needs it.
pub fn load_model(use_cpu: bool, accelerator_available: bool, config: VoxtralConfig) -> (r: Result<
    VoxtralModel,
    PipelineError,
>)
    ensures
        r is Ok <==> config.wf(),
        r matches Err(e) ==> e == PipelineError::Config,
        r matches Ok(m) ==> {
            &&& m.spec_device() == (if !use_cpu && accelerator_available {
                Device::Cuda
            } else {
                Device::Cpu
            })
            &&& m.spec_sample_rate() == config.sample_rate
            &&& m.spec_chunk() == config.chunk_samples
            &&& m.spec_stride() == spec_step(config.chunk_samples as nat, config.overlap)
            &&& m.spec_hop() == config.hop_samples
            &&& m.spec_capacity_frames() == config.encoder_capacity_frames
            &&& m.spec_placeholders() == config.encoder_capacity_frames
                / config.frames_per_embedding
            &&& m.spec_template() == config.template
            &&& m.spec_decoder() == config.decoder
            &&& m.spec_generation() == config.generation
        },
{
    VoxtralModel::new(use_cpu, accelerator_available, config)
}

} // verus!
