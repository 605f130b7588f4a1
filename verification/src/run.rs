//! The run over the windows of one recording.
//!
//! A window is transcribed by the tensor engine, outside of this library.
//! The driver of a run alternates between the two: it asks the run which
//! window is next, has it transcribed, and hands the outcome back. The run
//! decides what a failure means, and keeps the transcript.

use vstd::prelude::*;
use crate::error::{PipelineError, WindowError};
use crate::schedule::AudioWindow;
use crate::stitch::{
    spec_concat, spec_joined, spec_texts, spec_token_lists, ChunkStitcher, TranscriptionResult,
};

verus! {

/// What the failure of a window means for the run.
#[derive(Clone, Copy, Debug, PartialEq, Eq, Structural)]
pub enum FailurePolicy {
    /// The run ends with the failure: a transcript with a hole that nobody
    /// sees is worse than none.
    Abort,
    /// The failure is noted and the run goes on with the next window.
    Continue,
}

impl Default for FailurePolicy {
    fn default() -> (policy: FailurePolicy)
        ensures
            policy == FailurePolicy::Abort,
    {
        FailurePolicy::Abort
    }
}

/// What the driver of a run has to do next.
#[derive(Clone, Copy, Debug, PartialEq, Eq, Structural)]
pub enum RunStep {
    /// Have window `index` of the recording transcribed.
    Transcribe { index: usize, window: AudioWindow },
    /// Nothing: every window was handled, and the transcript stands.
    Finish,
    /// Nothing: the run was ended by the failure of a window.
    Abort,
}

/// The state of a run as contracts see it.
pub struct RunView {
    /// The windows of the recording, in order.
    pub windows: Seq<AudioWindow>,
    pub policy: FailurePolicy,
    /// The index of the window that is handled next.
    pub next: nat,
    /// Whether the transcript of a window was taken up.
    pub started: bool,
    /// The text taken up so far.
    pub text: Seq<char>,
    /// The tokens taken up so far.
    pub tokens: Seq<u32>,
    /// The failures so far, each with the index of its window.
    pub failures: Seq<WindowError>,
    pub aborted: bool,
}

impl RunView {
    /// The run before any window was handled.
    pub open spec fn begun(windows: Seq<AudioWindow>, policy: FailurePolicy) -> RunView {
        RunView {
            windows,
            policy,
            next: 0,
            started: false,
            text: Seq::empty(),
            tokens: Seq::empty(),
            failures: Seq::empty(),
            aborted: false,
        }
    }

    /// Whether nothing is left to do.
    pub open spec fn is_over(self) -> bool {
        self.aborted || self.next >= self.windows.len()
    }

    /// What holds of every state that a run passes through.
    pub open spec fn wf(self) -> bool {
        &&& self.next <= self.windows.len()
        &&& !self.started ==> self.text.len() == 0 && self.tokens.len() == 0
        &&& self.aborted ==> self.failures.len() > 0
        &&& self.policy == FailurePolicy::Abort ==> (self.aborted <==> self.failures.len() > 0)
        &&& self.policy == FailurePolicy::Continue ==> !self.aborted
        &&& forall|i: int|
            0 <= i < self.failures.len() ==> (#[trigger] self.failures[i]).window_index
                < self.windows.len()
    }

    /// What the driver has to do in this state.
    pub open spec fn step(self) -> RunStep {
        if self.aborted {
            RunStep::Abort
        } else if self.next < self.windows.len() {
            RunStep::Transcribe { index: self.next as usize, window: self.windows[self.next as int] }
        } else {
            RunStep::Finish
        }
    }

    /// The state after the next window was transcribed: its text is joined
    /// to the text so far with one space, or taken as it is where it is the
    /// first, and its tokens follow the tokens so far.
    pub open spec fn on_success(self, result: TranscriptionResult) -> RunView {
        if self.is_over() {
            self
        } else {
            RunView {
                next: self.next + 1,
                started: true,
                text: if self.started {
                    self.text + seq![' '] + result.text@
                } else {
                    result.text@
                },
                tokens: self.tokens + result.tokens@,
                ..self
            }
        }
    }

    /// The state after the next window failed: the failure is noted under
    /// the index of the window, and the run is ended or goes on, as its
    /// policy says.
    pub open spec fn on_failure(self, error: PipelineError) -> RunView {
        if self.is_over() {
            self
        } else {
            let noted = self.failures.push(
                WindowError { window_index: self.next as usize, error },
            );
            match self.policy {
                FailurePolicy::Abort => RunView { failures: noted, aborted: true, ..self },
                FailurePolicy::Continue => RunView {
                    failures: noted,
                    next: self.next + 1,
                    ..self
                },
            }
        }
    }

    /// The state after the outcome of the next window. A run that is over
    /// stays as it is.
    pub open spec fn on_outcome(
        self,
        outcome: Result<TranscriptionResult, PipelineError>,
    ) -> RunView {
        match outcome {
            Ok(result) => self.on_success(result),
            Err(error) => self.on_failure(error),
        }
    }

    /// The state after the windows were transcribed to `results`, one after
    /// the other.
    pub open spec fn after_successes(self, results: Seq<TranscriptionResult>) -> RunView
        decreases results.len(),
    {
        if results.len() == 0 {
            self
        } else {
            self.after_successes(results.drop_last()).on_success(results.last())
        }
    }
}

/// A recording without windows is done before anything is transcribed, and
/// its transcript is empty.
pub proof fn lemma_run_without_windows(policy: FailurePolicy)
    ensures
        RunView::begun(Seq::empty(), policy).step() == RunStep::Finish,
        RunView::begun(Seq::empty(), policy).text == Seq::<char>::empty(),
        RunView::begun(Seq::empty(), policy).tokens == Seq::<u32>::empty(),
        RunView::begun(Seq::empty(), policy).wf(),
{
}

/// An outcome leads from a state of a run to a state of a run.
pub proof fn lemma_outcome_keeps_wf(
    run: RunView,
    outcome: Result<TranscriptionResult, PipelineError>,
)
    requires
        run.wf(),
    ensures
        run.on_outcome(outcome).wf(),
        run.on_outcome(outcome).windows == run.windows,
        run.on_outcome(outcome).policy == run.policy,
        run.is_over() ==> run.on_outcome(outcome) == run,
{
}

/// A run whose windows are all transcribed holds the transcripts joined in
/// window order: the texts with one space between two neighbours, and the
/// tokens end to end. After the last window it is finished.
pub proof fn lemma_run_stitches(
    windows: Seq<AudioWindow>,
    policy: FailurePolicy,
    results: Seq<TranscriptionResult>,
)
    requires
        results.len() <= windows.len(),
    ensures
        RunView::begun(windows, policy).after_successes(results).text == spec_joined(
            spec_texts(results),
        ),
        RunView::begun(windows, policy).after_successes(results).tokens == spec_concat(
            spec_token_lists(results),
        ),
        RunView::begun(windows, policy).after_successes(results).next == results.len(),
        RunView::begun(windows, policy).after_successes(results).windows == windows,
        RunView::begun(windows, policy).after_successes(results).started == (results.len() > 0),
        RunView::begun(windows, policy).after_successes(results).failures.len() == 0,
        !RunView::begun(windows, policy).after_successes(results).aborted,
        results.len() == windows.len() ==> RunView::begun(windows, policy).after_successes(
            results,
        ).step() == RunStep::Finish,
        results.len() == 1 ==> RunView::begun(windows, policy).after_successes(results).text
            == results[0].text@,
    decreases results.len(),
{
    let begun = RunView::begun(windows, policy);
    if results.len() > 0 {
        let before = results.drop_last();
        lemma_run_stitches(windows, policy, before);
        let prior = begun.after_successes(before);
        assert(begun.after_successes(results) == prior.on_success(results.last()));
        assert(!prior.is_over());
        assert(spec_texts(results).drop_last() =~= spec_texts(before));
        assert(spec_token_lists(results).drop_last() =~= spec_token_lists(before));
        assert(spec_texts(results).last() == results.last().text@);
        assert(spec_token_lists(results).last() == results.last().tokens@);
        if results.len() == 1 {
            assert(spec_concat(spec_token_lists(before)) =~= Seq::<u32>::empty());
            assert(RunView::begun(windows, policy).after_successes(results).tokens
                =~= results.last().tokens@);
        }
    } else {
        assert(spec_concat(spec_token_lists(results)) =~= Seq::<u32>::empty());
    }
}

/// Under the policy to abort, the first failure ends the run, and is noted
/// with the index of its window.
pub proof fn lemma_failure_aborts(run: RunView, error: PipelineError)
    requires
        run.wf(),
        !run.is_over(),
        run.policy == FailurePolicy::Abort,
    ensures
        run.on_failure(error).step() == RunStep::Abort,
        run.on_failure(error).failures == seq![
            WindowError { window_index: run.next as usize, error },
        ],
        run.on_failure(error).text == run.text,
        run.on_failure(error).tokens == run.tokens,
{
    assert(run.failures =~= Seq::<WindowError>::empty());
    assert(run.on_failure(error).failures =~= seq![
        WindowError { window_index: run.next as usize, error },
    ]);
}

/// The run over the windows of one recording.
pub struct TranscriptionRun {
    windows: Vec<AudioWindow>,
    policy: FailurePolicy,
    next: usize,
    stitcher: ChunkStitcher,
    failures: Vec<WindowError>,
    aborted: bool,
}

impl View for TranscriptionRun {
    type V = RunView;

    closed spec fn view(&self) -> RunView {
        RunView {
            windows: self.windows@,
            policy: self.policy,
            next: self.next as nat,
            started: self.stitcher.spec_started(),
            text: self.stitcher.spec_text(),
            tokens: self.stitcher.spec_tokens(),
            failures: self.failures@,
            aborted: self.aborted,
        }
    }
}

impl TranscriptionRun {
    #[verifier::type_invariant]
    spec fn inv(self) -> bool {
        self@.wf()
    }

    /// Begins the run over `windows`.
    pub fn new(windows: Vec<AudioWindow>, policy: FailurePolicy) -> (run: TranscriptionRun)
        ensures
            run@ == RunView::begun(windows@, policy),
            run@.wf(),
    {
        TranscriptionRun {
            windows,
            policy,
            next: 0,
            stitcher: ChunkStitcher::new(),
            failures: Vec::new(),
            aborted: false,
        }
    }

    /// What the driver has to do now.
    pub fn next_step(&self) -> (step: RunStep)
        ensures
            step == self@.step(),
            self@.wf(),
    {
        proof {
            use_type_invariant(self);
        }
        if self.aborted {
            RunStep::Abort
        } else if self.next < self.windows.len() {
            RunStep::Transcribe { index: self.next, window: self.windows[self.next] }
        } else {
            RunStep::Finish
        }
    }

    /// The run after the outcome of the window that was asked for, and what
    /// the driver has to do next.
    pub fn record(self, outcome: Result<TranscriptionResult, PipelineError>) -> (r: (
        TranscriptionRun,
        RunStep,
    ))
        ensures
            r.0@ == self@.on_outcome(outcome),
            r.1 == r.0@.step(),
            r.0@.wf(),
    {
        proof {
            use_type_invariant(&self);
        }
        if self.aborted || self.next >= self.windows.len() {
            let step = self.next_step();
            return (self, step);
        }
        let TranscriptionRun { windows, policy, next, mut stitcher, mut failures, aborted } = self;
        let after = match outcome {
            Ok(result) => {
                stitcher.add(&result);
                TranscriptionRun { windows, policy, next: next + 1, stitcher, failures, aborted }
            },
            Err(error) => {
                failures.push(WindowError { window_index: next, error });
                match policy {
                    FailurePolicy::Abort => TranscriptionRun {
                        windows,
                        policy,
                        next,
                        stitcher,
                        failures,
                        aborted: true,
                    },
                    FailurePolicy::Continue => TranscriptionRun {
                        windows,
                        policy,
                        next: next + 1,
                        stitcher,
                        failures,
                        aborted,
                    },
                }
            },
        };
        let step = after.next_step();
        (after, step)
    }

    /// Whether nothing is left to do.
    pub fn is_over(&self) -> (over: bool)
        ensures
            over == self@.is_over(),
    {
        self.aborted || self.next >= self.windows.len()
    }

    /// The failures so far, each with the index of its window.
    pub fn failures(&self) -> (failures: &Vec<WindowError>)
        ensures
            failures@ == self@.failures,
    {
        &self.failures
    }

    /// The result of the run: `None` as long as windows are left, the first
    /// failure where the run was aborted, and otherwise the transcript of
    /// the windows that were transcribed.
    pub fn finish(self) -> (r: Option<Result<TranscriptionResult, WindowError>>)
        ensures
            r is Some <==> self@.is_over(),
            self@.aborted ==> r == Some(
                Err::<TranscriptionResult, WindowError>(self@.failures[0]),
            ),
            self@.is_over() && !self@.aborted ==> (r matches Some(Ok(t)) && t.text@ == self@.text
                && t.tokens@ == self@.tokens),
    {
        proof {
            use_type_invariant(&self);
        }
        let TranscriptionRun { windows, policy, next, stitcher, mut failures, aborted } = self;
        if aborted {
            let first = failures.swap_remove(0);
            Some(Err(first))
        } else if next >= windows.len() {
            Some(Ok(stitcher.finish()))
        } else {
            None
        }
    }
}

} // verus!
