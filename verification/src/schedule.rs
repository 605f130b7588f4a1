//! Splitting long audio into overlapping windows.

use vstd::prelude::*;
use crate::error::PipelineError;
use crate::ratio::Ratio;

verus! {

/// A contiguous range of samples handed to the encoder in one pass.
///
/// The window covers the samples `start_sample..end_sample` of the audio;
/// `is_last` marks the window that reaches the end of the audio.
#[derive(Clone, Copy, Debug, PartialEq, Eq, Structural)]
pub struct AudioWindow {
    pub start_sample: usize,
    pub end_sample: usize,
    pub is_last: bool,
}

/// The overlap between consecutive windows where none is configured: a
/// tenth of a window.
pub fn default_overlap() -> (overlap: Ratio)
    ensures
        overlap == (Ratio { numer: 1, denom: 10 }),
{
    Ratio { numer: 1, denom: 10 }
}

/// The distance between the starts of two consecutive windows: the window
/// length less the overlap, or the window length where nothing would be
/// left.
pub open spec fn spec_step(chunk: nat, overlap: Ratio) -> nat {
    let shared = overlap.spec_scale(chunk);
    if shared < chunk {
        (chunk - shared) as nat
    } else {
        chunk
    }
}

/// The number of windows that audio of `total` samples is split into.
pub open spec fn spec_window_count(total: nat, chunk: nat, step: nat) -> nat {
    if total == 0 {
        0
    } else if total <= chunk {
        1
    } else {
        ((total - chunk + step - 1) / (step as int) + 1) as nat
    }
}

/// The first sample of window `i`.
pub open spec fn spec_window_start(i: nat, step: nat) -> nat {
    i * step
}

/// One past the final sample of window `i`: the window is clipped to the
/// end of the audio.
pub open spec fn spec_window_end(i: nat, total: nat, chunk: nat, step: nat) -> nat {
    if i * step + chunk < total {
        i * step + chunk
    } else {
        total
    }
}

/// Whether window `i` reaches the end of the audio.
pub open spec fn spec_window_is_last(i: nat, total: nat, chunk: nat, step: nat) -> bool {
    i * step + chunk >= total
}

/// Whether `w` is window `i` of audio of `total` samples.
pub open spec fn is_window(w: AudioWindow, i: nat, total: nat, chunk: nat, step: nat) -> bool {
    &&& w.start_sample == spec_window_start(i, step)
    &&& w.end_sample == spec_window_end(i, total, chunk, step)
    &&& w.is_last == spec_window_is_last(i, total, chunk, step)
}

/// Where `step` is positive, the number of steps needed to get from `chunk`
/// to at least `total` is the rounded-up quotient.
proof fn lemma_steps_needed(k: nat, gap: nat, step: nat)
    requires
        step > 0,
        gap > 0,
        k > 0,
        (k - 1) * step < gap,
        gap <= k * step,
    ensures
        (gap + step - 1) / (step as int) == k,
{
    let q = (gap + step - 1) / (step as int);
    assert(q == k) by (nonlinear_arith)
        requires
            step > 0,
            gap > 0,
            k > 0,
            (k - 1) * step < gap,
            gap <= k * step,
            q == (gap + step - 1) / (step as int),
    ;
}

/// The rounded-up quotient `q` of `gap` by `step` is the least number of
/// steps that reach `gap`.
proof fn lemma_rounded_up_quotient(gap: nat, step: nat)
    requires
        step > 0,
        gap > 0,
    ensures
        (gap + step - 1) / (step as int) >= 1,
        ((gap + step - 1) / (step as int) - 1) * step < gap,
        gap <= ((gap + step - 1) / (step as int)) * step,
{
    let q = (gap + step - 1) / (step as int);
    assert(q >= 1 && (q - 1) * step < gap && gap <= q * step) by (nonlinear_arith)
        requires
            step > 0,
            gap > 0,
            q == (gap + step - 1) / (step as int),
    ;
}

/// Multiplying by a positive step keeps the order of the factors.
proof fn lemma_steps_ordered(i: nat, j: nat, step: nat)
    requires
        i <= j,
    ensures
        i * step <= j * step,
        i < j && step > 0 ==> i * step + step <= j * step,
{
    assert(i * step <= j * step) by (nonlinear_arith)
        requires
            i <= j,
    ;
    if i < j && step > 0 {
        assert(i * step + step <= j * step) by (nonlinear_arith)
            requires
                i + 1 <= j,
                step > 0,
        ;
    }
}

/// The first sample of window `i` that no earlier window holds.
pub open spec fn spec_new_start(i: nat, total: nat, chunk: nat, step: nat) -> nat {
    if i == 0 {
        0
    } else {
        spec_window_end((i - 1) as nat, total, chunk, step)
    }
}

/// The index of the window that is the first to hold sample `p`.
pub open spec fn spec_first_holder(p: nat, chunk: nat, step: nat) -> nat {
    if p < chunk {
        0
    } else {
        ((p - chunk) / (step as int) + 1) as nat
    }
}

/// Audio without samples has no window; audio that fits into one window has
/// exactly one, which spans all of it.
pub proof fn lemma_short_audio(total: nat, chunk: nat, overlap: Ratio)
    requires
        chunk > 0,
        overlap.wf(),
        total <= chunk,
    ensures
        total == 0 ==> spec_window_count(total, chunk, spec_step(chunk, overlap)) == 0,
        total > 0 ==> spec_window_count(total, chunk, spec_step(chunk, overlap)) == 1,
        spec_window_start(0, spec_step(chunk, overlap)) == 0,
        spec_window_end(0, total, chunk, spec_step(chunk, overlap)) == total,
        spec_window_is_last(0, total, chunk, spec_step(chunk, overlap)),
{
    let step = spec_step(chunk, overlap);
    assert(0 * step == 0) by (nonlinear_arith);
}

/// The step between windows is positive and no longer than a window, so
/// that consecutive windows leave no gap.
pub proof fn lemma_step_bounds(chunk: nat, overlap: Ratio)
    requires
        chunk > 0,
    ensures
        0 < spec_step(chunk, overlap) <= chunk,
        overlap.spec_scale(chunk) < chunk ==> spec_step(chunk, overlap) + overlap.spec_scale(
            chunk,
        ) == chunk,
{
}

/// Only the final window is marked as last; it ends where the audio ends,
/// and every window before it has the full length. No window is empty, and
/// none is longer than the full length.
pub proof fn lemma_last_window(i: nat, total: nat, chunk: nat, overlap: Ratio)
    requires
        chunk > 0,
        i < spec_window_count(total, chunk, spec_step(chunk, overlap)),
    ensures
        spec_window_is_last(i, total, chunk, spec_step(chunk, overlap)) <==> i + 1
            == spec_window_count(total, chunk, spec_step(chunk, overlap)),
        i + 1 == spec_window_count(total, chunk, spec_step(chunk, overlap)) ==> spec_window_end(
            i,
            total,
            chunk,
            spec_step(chunk, overlap),
        ) == total,
        i + 1 < spec_window_count(total, chunk, spec_step(chunk, overlap)) ==> spec_window_end(
            i,
            total,
            chunk,
            spec_step(chunk, overlap),
        ) == spec_window_start(i, spec_step(chunk, overlap)) + chunk,
        spec_window_start(i, spec_step(chunk, overlap)) < spec_window_end(
            i,
            total,
            chunk,
            spec_step(chunk, overlap),
        ) <= total,
        spec_window_end(i, total, chunk, spec_step(chunk, overlap)) <= spec_window_start(
            i,
            spec_step(chunk, overlap),
        ) + chunk,
{
    let step = spec_step(chunk, overlap);
    let n = spec_window_count(total, chunk, step);
    if total <= chunk {
        assert(i == 0);
        assert(0 * step == 0) by (nonlinear_arith);
    } else {
        let gap = (total - chunk) as nat;
        lemma_rounded_up_quotient(gap, step);
        let k = (n - 1) as nat;
        if i < k {
            lemma_steps_ordered(i, (k - 1) as nat, step);
        } else {
            assert(i == k);
        }
        if i > 0 {
            lemma_steps_ordered((i - 1) as nat, (k - 1) as nat, step);
            assert(i * step == (i - 1) * step + step) by (nonlinear_arith)
                requires
                    i > 0,
            ;
        } else {
            assert(0 * step == 0) by (nonlinear_arith);
        }
    }
}

/// Two consecutive windows share exactly the declared overlap: the samples
/// between the start of the later window and the end of the earlier one.
pub proof fn lemma_consecutive_windows(i: nat, total: nat, chunk: nat, overlap: Ratio)
    requires
        chunk > 0,
        i + 1 < spec_window_count(total, chunk, spec_step(chunk, overlap)),
    ensures
        spec_window_start(i + 1, spec_step(chunk, overlap)) == spec_window_start(
            i,
            spec_step(chunk, overlap),
        ) + spec_step(chunk, overlap),
        spec_window_start(i + 1, spec_step(chunk, overlap)) + (chunk - spec_step(chunk, overlap))
            == spec_window_end(i, total, chunk, spec_step(chunk, overlap)),
        spec_window_end(i, total, chunk, spec_step(chunk, overlap)) < spec_window_end(
            i + 1,
            total,
            chunk,
            spec_step(chunk, overlap),
        ),
{
    let step = spec_step(chunk, overlap);
    lemma_last_window(i, total, chunk, overlap);
    lemma_last_window(i + 1, total, chunk, overlap);
    assert((i + 1) * step == i * step + step) by (nonlinear_arith);
}

/// Every sample of the audio is held by a window, and the parts of the
/// windows that lie beyond their overlap with the window before hold each
/// sample exactly once.
pub proof fn lemma_windows_tile_audio(p: nat, total: nat, chunk: nat, overlap: Ratio)
    requires
        chunk > 0,
        p < total,
    ensures
        spec_first_holder(p, chunk, spec_step(chunk, overlap)) < spec_window_count(
            total,
            chunk,
            spec_step(chunk, overlap),
        ),
        spec_window_start(
            spec_first_holder(p, chunk, spec_step(chunk, overlap)),
            spec_step(chunk, overlap),
        ) <= p < spec_window_end(
            spec_first_holder(p, chunk, spec_step(chunk, overlap)),
            total,
            chunk,
            spec_step(chunk, overlap),
        ),
        forall|i: nat|
            i < spec_window_count(total, chunk, spec_step(chunk, overlap)) ==> ((
            #[trigger] spec_new_start(i, total, chunk, spec_step(chunk, overlap)) <= p
                < spec_window_end(i, total, chunk, spec_step(chunk, overlap))) <==> i
                == spec_first_holder(p, chunk, spec_step(chunk, overlap))),
{
    let step = spec_step(chunk, overlap);
    let n = spec_window_count(total, chunk, step);
    let h = spec_first_holder(p, chunk, step);
    if total <= chunk {
        assert(0 * step == 0) by (nonlinear_arith);
    } else {
        let gap = (total - chunk) as nat;
        lemma_rounded_up_quotient(gap, step);
        let k = (n - 1) as nat;
        assert(0 * step == 0) by (nonlinear_arith);
        if p >= chunk {
            let a = (p - chunk) as nat;
            let q = a / step;
            assert(q * step <= a && a < q * step + step) by (nonlinear_arith)
                requires
                    step > 0,
                    q == a / step,
            ;
            assert((q + 1) * step == q * step + step) by (nonlinear_arith);
            // the holder is a window of the audio
            if q + 1 > k {
                lemma_steps_ordered(k, q, step);
            }
        }
        assert forall|i: nat| i < n implies ((#[trigger] spec_new_start(i, total, chunk, step) <= p
            < spec_window_end(i, total, chunk, step)) <==> i == h) by {
            lemma_last_window(i, total, chunk, overlap);
            if i > 0 {
                lemma_last_window((i - 1) as nat, total, chunk, overlap);
                assert(i * step == (i - 1) * step + step) by (nonlinear_arith)
                    requires
                        i > 0,
                ;
            }
            if p >= chunk {
                let a = (p - chunk) as nat;
                let q = a / step;
                if i < h {
                    lemma_steps_ordered(i, q, step);
                } else if i > h {
                    lemma_steps_ordered(h, (i - 1) as nat, step);
                }
            } else {
                if i > 0 {
                    lemma_steps_ordered(0, (i - 1) as nat, step);
                }
            }
        }
    }
}

/// Plans the windows of one recording.
pub struct ChunkScheduler {
    chunk_samples: usize,
    step: usize,
}

impl ChunkScheduler {
    #[verifier::type_invariant]
    spec fn inv(self) -> bool {
        0 < self.step <= self.chunk_samples
    }

    /// The length of a full window, in samples.
    pub closed spec fn chunk(self) -> nat {
        self.chunk_samples as nat
    }

    /// The distance between the starts of consecutive windows, in samples.
    pub closed spec fn stride(self) -> nat {
        self.step as nat
    }

    /// A scheduler for windows of `chunk_samples` samples of which the
    /// fraction `overlap` is shared with the next window.
    ///
    /// A window length of zero or an overlap without denominator is a
    /// configuration error.
    pub fn new(chunk_samples: usize, overlap: Ratio) -> (r: Result<ChunkScheduler, PipelineError>)
        ensures
            r is Err <==> chunk_samples == 0 || overlap.denom == 0,
            r matches Err(e) ==> e == PipelineError::Config,
            r matches Ok(s) ==> s.chunk() == chunk_samples && s.stride() == spec_step(
                chunk_samples as nat,
                overlap,
            ),
    {
        if chunk_samples == 0 || overlap.denom == 0 {
            return Err(PipelineError::Config);
        }
        let shared: u128 = overlap.scale(chunk_samples);
        let step: usize = if shared < chunk_samples as u128 {
            chunk_samples - shared as usize
        } else {
            chunk_samples
        };
        Ok(ChunkScheduler { chunk_samples, step })
    }

    /// The length of a full window, in samples.
    pub fn chunk_samples(&self) -> (c: usize)
        ensures
            c == self.chunk(),
            c > 0,
    {
        proof {
            use_type_invariant(self);
        }
        self.chunk_samples
    }

    /// The distance between the starts of consecutive windows, in samples.
    pub fn step(&self) -> (s: usize)
        ensures
            s == self.stride(),
            0 < s <= self.chunk(),
    {
        proof {
            use_type_invariant(self);
        }
        self.step
    }

    /// The number of samples that two consecutive windows share.
    pub fn overlap_samples(&self) -> (o: usize)
        ensures
            o == self.chunk() - self.stride(),
    {
        proof {
            use_type_invariant(self);
        }
        self.chunk_samples - self.step
    }

    /// The number of windows that audio of `total_samples` samples is split
    /// into.
    pub fn window_count(&self, total_samples: usize) -> (n: usize)
        ensures
            n == spec_window_count(total_samples as nat, self.chunk(), self.stride()),
    {
        proof {
            use_type_invariant(self);
        }
        if total_samples == 0 {
            0
        } else if total_samples <= self.chunk_samples {
            1
        } else {
            let gap: usize = total_samples - self.chunk_samples;
            let whole: usize = gap / self.step;
            let steps: usize = if gap % self.step == 0 {
                whole
            } else {
                whole + 1
            };
            proof {
                let g = gap as nat;
                let st = self.step as nat;
                assert((g + st - 1) / (st as int) == steps && steps <= g) by (nonlinear_arith)
                    requires
                        st > 0,
                        g > 0,
                        whole == g / st,
                        steps == (if g % st == 0 {
                            whole as int
                        } else {
                            whole + 1
                        }),
                ;
            }
            steps + 1
        }
    }

    /// The windows of audio of `total_samples` samples, in order.
    ///
    /// Windows start every `step` samples and are `chunk_samples` long; the
    /// first one that reaches the end of the audio is clipped to it, marked
    /// as last, and ends the list. Audio without samples has no windows.
    pub fn windows(&self, total_samples: usize) -> (ws: Vec<AudioWindow>)
        ensures
            ws@.len() == spec_window_count(total_samples as nat, self.chunk(), self.stride()),
            forall|i: int|
                0 <= i < ws@.len() ==> is_window(
                    #[trigger] ws@[i],
                    i as nat,
                    total_samples as nat,
                    self.chunk(),
                    self.stride(),
                ),
    {
        proof {
            use_type_invariant(self);
        }
        let chunk: usize = self.chunk_samples;
        let step: usize = self.step;
        let mut ws: Vec<AudioWindow> = Vec::new();
        if total_samples == 0 {
            return ws;
        }
        let mut start: usize = 0;
        let mut index: usize = 0;
        loop
            invariant_except_break
                0 < step <= chunk,
                chunk == self.chunk(),
                step == self.stride(),
                total_samples > 0,
                start == index * step,
                index <= start < total_samples,
                index == 0 || (index - 1) * step + chunk < total_samples,
                ws@.len() == index,
                forall|i: int|
                    0 <= i < ws@.len() ==> is_window(
                        #[trigger] ws@[i],
                        i as nat,
                        total_samples as nat,
                        chunk as nat,
                        step as nat,
                    ),
            ensures
                ws@.len() == spec_window_count(total_samples as nat, chunk as nat, step as nat),
                forall|i: int|
                    0 <= i < ws@.len() ==> is_window(
                        #[trigger] ws@[i],
                        i as nat,
                        total_samples as nat,
                        chunk as nat,
                        step as nat,
                    ),
            decreases total_samples - start,
        {
            let is_last: bool = total_samples - start <= chunk;
            let end: usize = if is_last {
                total_samples
            } else {
                start + chunk
            };
            ws.push(AudioWindow { start_sample: start, end_sample: end, is_last });
            if is_last {
                proof {
                    if total_samples > chunk {
                        lemma_steps_needed(
                            index as nat,
                            (total_samples - chunk) as nat,
                            step as nat,
                        );
                    } else if index > 0 {
                        assert((index - 1) * step >= 0) by (nonlinear_arith)
                            requires
                                index > 0,
                                step > 0,
                        ;
                    }
                }
                break ;
            }
            proof {
                assert((index + 1) * step == index * step + step) by (nonlinear_arith);
            }
            start = start + step;
            index = index + 1;
        }
        ws
    }
}

} // verus!
