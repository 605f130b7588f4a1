//! The values that configure one run of the pipeline.

use vstd::prelude::*;
use crate::ratio::Ratio;
use crate::sampling::SamplingPolicy;

verus! {

/// Where the tensor engine computes.
#[derive(Clone, Copy, Debug, PartialEq, Eq, Structural)]
pub enum Device {
    /// The processor, at native precision.
    Cpu,
    /// An accelerator.
    Cuda,
}

/// The device for a run: the accelerator where the caller does not insist
/// on the processor and an accelerator is there, else the processor.
pub fn select_device(use_cpu: bool, accelerator_available: bool) -> (d: Device)
    ensures
        d == (if !use_cpu && accelerator_available {
            Device::Cuda
        } else {
            Device::Cpu
        }),
{
    if !use_cpu && accelerator_available {
        Device::Cuda
    } else {
        Device::Cpu
    }
}

/// How the tokens of one window are generated.
#[derive(Clone, Copy, Debug, PartialEq, Eq, Structural)]
pub struct VoxtralGenerationConfig {
    /// The largest number of tokens generated for one window.
    pub max_new_tokens: usize,
    /// The temperature; at zero decoding is greedy.
    pub temperature: Ratio,
    /// The nucleus threshold, where the nucleus is used.
    pub top_p: Option<Ratio>,
    /// Where the tensor engine computes.
    pub device: Device,
}

impl VoxtralGenerationConfig {
    /// The fractions of a usable configuration have denominators.
    pub open spec fn wf(self) -> bool {
        &&& self.temperature.wf()
        &&& self.top_p matches Some(p) ==> p.wf()
    }

    /// The sampling policy that the configuration asks for.
    pub open spec fn spec_policy(self) -> SamplingPolicy {
        SamplingPolicy { temperature: self.temperature, top_p: self.top_p }
    }

    /// Greedy decoding of at most `max_new_tokens` tokens.
    pub fn greedy(max_new_tokens: usize, device: Device) -> (c: VoxtralGenerationConfig)
        ensures
            c.wf(),
            c.max_new_tokens == max_new_tokens,
            c.device == device,
            c.temperature.spec_is_zero(),
            c.top_p is None,
    {
        VoxtralGenerationConfig {
            max_new_tokens,
            temperature: Ratio { numer: 0, denom: 1 },
            top_p: None,
            device,
        }
    }

    /// Whether the configuration is usable.
    pub fn is_valid(&self) -> (ok: bool)
        ensures
            ok == self.wf(),
    {
        if self.temperature.denom == 0 {
            return false;
        }
        match self.top_p {
            Some(p) => p.denom != 0,
            None => true,
        }
    }

    /// The sampling policy that the configuration asks for.
    pub fn policy(&self) -> (p: SamplingPolicy)
        ensures
            p == self.spec_policy(),
    {
        SamplingPolicy { temperature: self.temperature, top_p: self.top_p }
    }
}

/// What the generation loop has to know of the decoder.
#[derive(Clone, Copy, Debug, PartialEq, Eq, Structural)]
pub struct DecoderConfig {
    /// The number of tokens in the vocabulary.
    pub vocab_size: usize,
    /// The number of decoder layers.
    pub layers: usize,
    /// The largest number of positions that the decoder can attend to.
    pub max_context: usize,
    /// The token that ends a generation.
    pub end_token: u32,
}

impl DecoderConfig {
    /// A usable decoder has a vocabulary whose tokens fit their type, at
    /// least one layer, room for at least one position, and an end token
    /// from its vocabulary.
    pub open spec fn wf(self) -> bool {
        &&& 0 < self.vocab_size <= 0x1_0000_0000
        &&& self.layers > 0
        &&& self.max_context > 0
        &&& self.end_token < self.vocab_size
    }

    /// Whether the configuration is usable.
    pub fn is_valid(&self) -> (ok: bool)
        ensures
            ok == self.wf(),
    {
        let limit: u64 = 0x1_0000_0000;
        self.vocab_size > 0 && self.vocab_size as u64 <= limit && self.layers > 0
            && self.max_context > 0 && (self.end_token as u64) < self.vocab_size as u64
    }
}

} // verus!
