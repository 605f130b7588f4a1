//! The shape of the acoustic features of one window.
//!
//! The spectral transform itself works on floating-point samples and is
//! left to the caller. What is decided here is how many feature frames a
//! window gives, how far they are padded, which shapes are refused, and how
//! many embeddings the encoder will emit for them.

use vstd::prelude::*;
use crate::error::PipelineError;

verus! {

/// The number of feature frames that `samples` samples give at one frame
/// per `hop` samples: a last, partial hop still gives a frame.
pub open spec fn spec_raw_frames(samples: nat, hop: nat) -> nat {
    ((samples + hop - 1) / (hop as int)) as nat
}

/// `samples` rounded up to a whole number of units of `unit` samples.
pub open spec fn spec_padded_samples(samples: nat, unit: nat) -> nat {
    if samples % unit == 0 {
        samples
    } else {
        (samples / unit + 1) * unit
    }
}

/// A row of feature values padded on the right with `zero` up to `width`
/// values.
pub open spec fn spec_padded_row<T>(row: Seq<T>, width: nat, zero: T) -> Seq<T> {
    Seq::new(
        width,
        |t: int|
            if t < row.len() {
                row[t]
            } else {
                zero
            },
    )
}

/// Whether every row has `width` values.
pub open spec fn spec_rows_have_width<T>(rows: Seq<Vec<T>>, width: nat) -> bool {
    forall|m: int| 0 <= m < rows.len() ==> (#[trigger] rows[m])@.len() == width
}

/// The number of samples of a recording after it has been padded to a
/// whole number of units of `unit` samples; `None` where `unit` is zero or
/// the padded length cannot be held.
pub fn padded_sample_count(samples: usize, unit: usize) -> (r: Option<usize>)
    ensures
        r is Some <==> unit > 0 && spec_padded_samples(samples as nat, unit as nat) <= usize::MAX,
        r matches Some(n) ==> n == spec_padded_samples(samples as nat, unit as nat),
{
    if unit == 0 {
        return None;
    }
    if samples % unit == 0 {
        return Some(samples);
    }
    assert(samples / unit < samples) by (nonlinear_arith)
        requires
            unit > 0,
            samples % unit != 0,
    ;
    let units: usize = samples / unit + 1;
    assert(units as nat * unit as nat == (samples as nat / unit as nat + 1) * unit as nat);
    units.checked_mul(unit)
}

/// How the frames of one window fill the encoder's fixed number of frames.
#[derive(Clone, Copy, Debug, PartialEq, Eq, Structural)]
pub struct FeaturePlan {
    /// The frames that the samples of the window give.
    pub raw_frames: usize,
    /// The zero-valued frames appended to reach the encoder's capacity.
    pub pad_frames: usize,
}

/// The geometry of the acoustic features that the encoder accepts.
pub struct FeatureExtractor {
    hop_samples: usize,
    mel_bins: usize,
    capacity_frames: usize,
    frames_per_embedding: usize,
}

impl FeatureExtractor {
    #[verifier::type_invariant]
    spec fn inv(self) -> bool {
        &&& self.hop_samples > 0
        &&& self.mel_bins > 0
        &&& self.capacity_frames > 0
        &&& self.frames_per_embedding > 0
        &&& self.capacity_frames * self.hop_samples <= usize::MAX
    }

    /// The number of samples from one feature frame to the next.
    pub closed spec fn hop(self) -> nat {
        self.hop_samples as nat
    }

    /// The number of mel bins of a frame.
    pub closed spec fn bins(self) -> nat {
        self.mel_bins as nat
    }

    /// The number of frames that the encoder takes in one pass.
    pub closed spec fn capacity(self) -> nat {
        self.capacity_frames as nat
    }

    /// The number of frames that the encoder and projector fold into one
    /// embedding.
    pub closed spec fn fold(self) -> nat {
        self.frames_per_embedding as nat
    }

    /// The geometry with the given hop, number of mel bins, encoder capacity
    /// and frames per embedding.
    ///
    /// A value of zero, or a capacity whose length in samples cannot be
    /// held, is a configuration error.
    pub fn new(
        hop_samples: usize,
        mel_bins: usize,
        capacity_frames: usize,
        frames_per_embedding: usize,
    ) -> (r: Result<FeatureExtractor, PipelineError>)
        ensures
            r is Ok <==> hop_samples > 0 && mel_bins > 0 && capacity_frames > 0
                && frames_per_embedding > 0 && capacity_frames * hop_samples <= usize::MAX,
            r matches Err(e) ==> e == PipelineError::Config,
            r matches Ok(f) ==> f.hop() == hop_samples && f.bins() == mel_bins && f.capacity()
                == capacity_frames && f.fold() == frames_per_embedding,
    {
        if hop_samples == 0 || mel_bins == 0 || capacity_frames == 0 || frames_per_embedding == 0 {
            return Err(PipelineError::Config);
        }
        match capacity_frames.checked_mul(hop_samples) {
            Some(_) => Ok(
                FeatureExtractor { hop_samples, mel_bins, capacity_frames, frames_per_embedding },
            ),
            None => Err(PipelineError::Config),
        }
    }

    /// The number of mel bins of a frame.
    pub fn mel_bins(&self) -> (n: usize)
        ensures
            n == self.bins(),
            n > 0,
    {
        proof {
            use_type_invariant(self);
        }
        self.mel_bins
    }

    /// The number of frames that the encoder takes in one pass.
    pub fn capacity_frames(&self) -> (n: usize)
        ensures
            n == self.capacity(),
            n > 0,
    {
        proof {
            use_type_invariant(self);
        }
        self.capacity_frames
    }

    /// The longest window, in samples, whose frames the encoder can take.
    pub fn capacity_samples(&self) -> (n: usize)
        ensures
            n == self.capacity() * self.hop(),
            n > 0,
    {
        proof {
            use_type_invariant(self);
            assert(self.capacity_frames * self.hop_samples > 0) by (nonlinear_arith)
                requires
                    self.capacity_frames > 0,
                    self.hop_samples > 0,
            ;
        }
        self.capacity_frames * self.hop_samples
    }

    /// How the frames of a window of `window_samples` samples fill the
    /// encoder's capacity.
    ///
    /// The frames of the window are padded with zero-valued frames up to
    /// the capacity; a window with more frames than that is a shape error.
    pub fn plan(&self, window_samples: usize) -> (r: Result<FeaturePlan, PipelineError>)
        ensures
            r is Ok <==> spec_raw_frames(window_samples as nat, self.hop()) <= self.capacity(),
            r matches Err(e) ==> e == PipelineError::Shape,
            r matches Ok(p) ==> p.raw_frames == spec_raw_frames(window_samples as nat, self.hop())
                && p.raw_frames + p.pad_frames == self.capacity(),
    {
        proof {
            use_type_invariant(self);
        }
        let whole: usize = window_samples / self.hop_samples;
        let partial: bool = window_samples % self.hop_samples != 0;
        proof {
            let s = window_samples as nat;
            let h = self.hop_samples as nat;
            assert((s + h - 1) / (h as int) == whole + (if partial {
                1int
            } else {
                0int
            })) by (nonlinear_arith)
                requires
                    h > 0,
                    whole == s / h,
                    partial == (s % h != 0),
            ;
        }
        if whole > self.capacity_frames || (partial && whole == self.capacity_frames) {
            return Err(PipelineError::Shape);
        }
        let raw_frames: usize = if partial {
            whole + 1
        } else {
            whole
        };
        Ok(FeaturePlan { raw_frames, pad_frames: self.capacity_frames - raw_frames })
    }

    /// The number of embeddings that the encoder and projector emit for a
    /// window of `window_samples` samples, which is the number of
    /// placeholders that its prompt must reserve.
    ///
    /// The encoder sees the frames of the window padded to its capacity and
    /// folds them into embeddings; a window with more frames than the
    /// capacity is a shape error.
    pub fn placeholder_count(&self, window_samples: usize) -> (r: Result<usize, PipelineError>)
        ensures
            r is Ok <==> spec_raw_frames(window_samples as nat, self.hop()) <= self.capacity(),
            r matches Err(e) ==> e == PipelineError::Shape,
            r matches Ok(n) ==> n == self.capacity() / self.fold(),
    {
        proof {
            use_type_invariant(self);
        }
        match self.plan(window_samples) {
            Ok(p) => Ok((p.raw_frames + p.pad_frames) / self.frames_per_embedding),
            Err(e) => Err(e),
        }
    }

    /// Checks the dimensions of a feature tensor: three axes (batch, mel
    /// bins, frames), the second of which has the configured number of mel
    /// bins. Anything else is a shape error.
    pub fn check_dims(&self, dims: &Vec<usize>) -> (r: Result<(), PipelineError>)
        ensures
            r is Ok <==> dims@.len() == 3 && dims@[1] == self.bins(),
            r matches Err(e) ==> e == PipelineError::Shape,
    {
        if dims.len() == 3 && dims[1] == self.mel_bins {
            Ok(())
        } else {
            Err(PipelineError::Shape)
        }
    }

    /// Whether `dims` are the dimensions of the features of one window as
    /// the encoder takes them: a batch of one, the configured number of mel
    /// bins, and as many frames as the encoder's capacity.
    pub fn is_encoder_input(&self, dims: &Vec<usize>) -> (ok: bool)
        ensures
            ok == (dims@ == seq![1usize, self.bins() as usize, self.capacity() as usize]),
    {
        let ok: bool = dims.len() == 3 && dims[0] == 1 && dims[1] == self.mel_bins && dims[2]
            == self.capacity_frames;
        proof {
            if ok {
                assert(dims@ =~= seq![1usize, self.bins() as usize, self.capacity() as usize]);
            }
        }
        ok
    }

    /// Pads the rows of a feature matrix, one row per mel bin and one value
    /// per frame, with `zero` up to the encoder's capacity.
    ///
    /// What the rows hold stays where it is and everything behind it is
    /// `zero`. A matrix with another number of rows than there are mel
    /// bins, with rows of different lengths, or with more frames than the
    /// capacity is a shape error.
    pub fn pad<T: Copy>(&self, rows: &Vec<Vec<T>>, zero: T) -> (r: Result<
        Vec<Vec<T>>,
        PipelineError,
    >)
        ensures
            r is Ok <==> rows@.len() == self.bins() && rows@[0]@.len() <= self.capacity()
                && spec_rows_have_width(rows@, rows@[0]@.len()),
            r matches Err(e) ==> e == PipelineError::Shape,
            r matches Ok(out) ==> out@.len() == rows@.len() && forall|m: int|
                0 <= m < out@.len() ==> (#[trigger] out@[m])@ == spec_padded_row(
                    rows@[m]@,
                    self.capacity(),
                    zero,
                ),
    {
        proof {
            use_type_invariant(self);
        }
        if rows.len() != self.mel_bins {
            return Err(PipelineError::Shape);
        }
        let width: usize = rows[0].len();
        if width > self.capacity_frames {
            return Err(PipelineError::Shape);
        }
        let capacity: usize = self.capacity_frames;
        let mut out: Vec<Vec<T>> = Vec::new();
        let mut m: usize = 0;
        while m < rows.len()
            invariant
                m <= rows@.len(),
                width == rows@[0]@.len(),
                width <= capacity,
                capacity == self.capacity(),
                rows@.len() == self.bins(),
                out@.len() == m,
                forall|k: int| 0 <= k < m ==> (#[trigger] rows@[k])@.len() == width,
                forall|k: int|
                    0 <= k < m ==> (#[trigger] out@[k])@ == spec_padded_row(
                        rows@[k]@,
                        capacity as nat,
                        zero,
                    ),
            decreases rows@.len() - m,
        {
            let row = &rows[m];
            if row.len() != width {
                return Err(PipelineError::Shape);
            }
            let mut padded: Vec<T> = Vec::new();
            let mut t: usize = 0;
            while t < capacity
                invariant
                    t <= capacity,
                    row@.len() == width,
                    width <= capacity,
                    padded@ == spec_padded_row(row@, t as nat, zero),
                decreases capacity - t,
            {
                let value: T = if t < width {
                    row[t]
                } else {
                    zero
                };
                padded.push(value);
                t = t + 1;
                assert(padded@ =~= spec_padded_row(row@, t as nat, zero));
            }
            out.push(padded);
            m = m + 1;
        }
        assert(spec_rows_have_width(rows@, rows@[0]@.len()));
        Ok(out)
    }
}

/// Padding keeps what a row holds and appends nothing but `zero`.
pub proof fn lemma_padding_keeps_content<T>(row: Seq<T>, width: nat, zero: T, t: int)
    requires
        row.len() <= width,
        0 <= t < width,
    ensures
        spec_padded_row(row, width, zero).len() == width,
        t < row.len() ==> spec_padded_row(row, width, zero)[t] == row[t],
        t >= row.len() ==> spec_padded_row(row, width, zero)[t] == zero,
{
}

} // verus!
