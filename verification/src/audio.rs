//! What is decided about the audio before it is cut into windows.
//!
//! Reading a recording and converting its rate work on floating-point
//! samples and belong to the caller. Decided here is whether a conversion
//! is needed, and how a recording is fed to a converter that takes blocks
//! of a fixed length.

use vstd::prelude::*;
use crate::error::PipelineError;

verus! {

/// The sample rate that the model requires, in Hz.
pub const SAMPLE_RATE: u32 = 16_000;

/// What has to happen to decoded audio before it is cut into windows.
#[derive(Clone, Copy, Debug, PartialEq, Eq, Structural)]
pub enum PrepareStep {
    /// The audio has the rate of the model and is used as it is.
    Ready,
    /// The audio has to be converted from the rate `from` to the rate `to`.
    Resample { from: u32, to: u32 },
}

/// What has to happen to audio of `sample_rate` Hz for a model that
/// requires `target_rate` Hz.
pub fn prepare_step(sample_rate: u32, target_rate: u32) -> (step: PrepareStep)
    ensures
        step == (if sample_rate == target_rate {
            PrepareStep::Ready
        } else {
            PrepareStep::Resample { from: sample_rate, to: target_rate }
        }),
{
    if sample_rate == target_rate {
        PrepareStep::Ready
    } else {
        PrepareStep::Resample { from: sample_rate, to: target_rate }
    }
}

/// What a conversion of the rate leaves: the converted samples where it
/// went through, and an audio format error where the converter failed.
pub fn resampled<T>(outcome: Option<Vec<T>>) -> (r: Result<Vec<T>, PipelineError>)
    ensures
        r == (match outcome {
            Some(samples) => Ok::<Vec<T>, PipelineError>(samples),
            None => Err::<Vec<T>, PipelineError>(PipelineError::AudioFormat),
        }),
{
    match outcome {
        Some(samples) => Ok(samples),
        None => Err(PipelineError::AudioFormat),
    }
}

/// How a recording is fed to a converter that takes `block` samples at a
/// time.
#[derive(Clone, Copy, Debug, PartialEq, Eq, Structural)]
pub struct ResamplePlan {
    /// The number of whole blocks that are fed first.
    pub full_blocks: usize,
    /// The number of samples that are left for the final, partial feed.
    pub tail_samples: usize,
}

/// The number of whole blocks fed before the tail: blocks are fed as long
/// as more than a block is left, so that something is left for the tail.
pub open spec fn spec_full_blocks(samples: nat, block: nat) -> nat {
    if samples == 0 {
        0
    } else {
        ((samples - 1) / (block as int)) as nat
    }
}

/// How `samples` samples are fed in blocks of `block` samples: whole blocks
/// as long as more than one block is left, and what is left then, at most
/// a block and nothing only for an empty recording, as the tail. `None`
/// for blocks without samples.
pub fn plan_resampling(samples: usize, block: usize) -> (r: Option<ResamplePlan>)
    ensures
        r is Some <==> block > 0,
        r matches Some(p) ==> {
            &&& p.full_blocks == spec_full_blocks(samples as nat, block as nat)
            &&& p.full_blocks * block + p.tail_samples == samples
            &&& samples > 0 ==> 0 < p.tail_samples <= block
        },
{
    if block == 0 {
        return None;
    }
    if samples == 0 {
        assert(0 * block == 0) by (nonlinear_arith);
        return Some(ResamplePlan { full_blocks: 0, tail_samples: 0 });
    }
    let full_blocks: usize = (samples - 1) / block;
    assert(full_blocks * block <= samples - 1 && samples - 1 < full_blocks * block + block)
        by (nonlinear_arith)
        requires
            block > 0,
            samples > 0,
            full_blocks == (samples - 1) / (block as int),
    ;
    let tail_samples: usize = samples - full_blocks * block;
    Some(ResamplePlan { full_blocks, tail_samples })
}

/// The number of samples to make room for when `samples` samples are
/// converted from `rate_in` to `rate_out`: the converted length and some
/// slack, or as much as can be asked for. `None` for a rate of zero.
pub fn resampled_capacity(samples: usize, rate_in: u32, rate_out: u32) -> (r: Option<usize>)
    ensures
        r is Some <==> rate_in > 0,
        r matches Some(n) ==> n == (if samples * rate_out / (rate_in as int) + 1024 <= usize::MAX {
            samples * rate_out / (rate_in as int) + 1024
        } else {
            usize::MAX as int
        }),
{
    if rate_in == 0 {
        return None;
    }
    let wide: u128 = samples as u128;
    let out: u128 = rate_out as u128;
    assert(wide * out <= 0xFFFF_FFFF_FFFF_FFFF * 0xFFFF_FFFF) by (nonlinear_arith)
        requires
            wide <= 0xFFFF_FFFF_FFFF_FFFF,
            out <= 0xFFFF_FFFF,
    ;
    assert(samples * rate_out == wide * out) by (nonlinear_arith)
        requires
            wide == samples,
            out == rate_out,
    ;
    let converted: u128 = wide * out / (rate_in as u128) + 1024;
    if converted <= usize::MAX as u128 {
        Some(converted as usize)
    } else {
        Some(usize::MAX)
    }
}

} // verus!
