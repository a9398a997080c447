//! The stages of one frame and the order in which they run.
//!
//! Composing a frame is device work, done by the embedding program. What is
//! decided here is which stage comes next and when a frame has to be given
//! up: the driver carries out the pending step, reports how it went, and is
//! told the next one. A failed step ends the frame at once, so nothing is
//! submitted or presented after a failure.

use vstd::prelude::*;

verus! {

/// One stage of composing a frame.
#[derive(Clone, Copy, Debug, PartialEq, Eq, Structural)]
pub enum FrameStep {
    /// Take the next presentable image from the surface.
    AcquireImage,
    /// Build the pipeline that draws the bar.
    BuildPipeline,
    /// Clear the target and draw the bar, in the frame's one render pass.
    DrawBar,
    /// Copy the current text out of the shared buffer and queue it.
    QueueText,
    /// Draw the queued text into the same target.
    DrawText,
    /// Close the staging buffers written for this frame.
    FinishStaging,
    /// Hand the recorded commands to the device queue.
    Submit,
    /// Show the image.
    Present,
    /// Take back the staging buffers that were not used.
    RecallStaging,
}

/// How a step went.
#[derive(Clone, Copy, Debug, PartialEq, Eq, Structural)]
pub enum StepOutcome {
    Done,
    Failed,
}

/// Where a frame stands.
#[derive(Clone, Copy, Debug, PartialEq, Eq, Structural)]
pub enum FrameState {
    /// The step is to be carried out next.
    Running(FrameStep),
    /// Every step was carried out; the image is on screen.
    Complete,
    /// The step failed and the frame was given up.
    Aborted(FrameStep),
}

/// The number of steps of a frame.
pub const FRAME_STEP_COUNT: usize = 9;

/// The steps of a frame in the order in which they run. The bar is drawn
/// before any text, so text lies on top of it.
pub open spec fn frame_steps() -> Seq<FrameStep> {
    seq![
        FrameStep::AcquireImage,
        FrameStep::BuildPipeline,
        FrameStep::DrawBar,
        FrameStep::QueueText,
        FrameStep::DrawText,
        FrameStep::FinishStaging,
        FrameStep::Submit,
        FrameStep::Present,
        FrameStep::RecallStaging,
    ]
}

/// The place of a step in the order of a frame, counted from zero.
pub open spec fn position(step: FrameStep) -> int {
    match step {
        FrameStep::AcquireImage => 0,
        FrameStep::BuildPipeline => 1,
        FrameStep::DrawBar => 2,
        FrameStep::QueueText => 3,
        FrameStep::DrawText => 4,
        FrameStep::FinishStaging => 5,
        FrameStep::Submit => 6,
        FrameStep::Present => 7,
        FrameStep::RecallStaging => 8,
    }
}

/// The step that follows `step`, if it is not the last.
pub open spec fn following(step: FrameStep) -> Option<FrameStep> {
    if position(step) + 1 < frame_steps().len() {
        Some(frame_steps()[position(step) + 1])
    } else {
        None
    }
}

/// The state of a frame after the pending step went as `outcome` says. A
/// frame that is complete or given up stays as it is.
pub open spec fn advanced(state: FrameState, outcome: StepOutcome) -> FrameState {
    match state {
        FrameState::Running(step) => match outcome {
            StepOutcome::Failed => FrameState::Aborted(step),
            StepOutcome::Done => match following(step) {
                Some(next) => FrameState::Running(next),
                None => FrameState::Complete,
            },
        },
        _ => state,
    }
}

/// The state of a frame after a series of outcomes.
pub open spec fn run(state: FrameState, outcomes: Seq<StepOutcome>) -> FrameState
    decreases outcomes.len(),
{
    if outcomes.len() == 0 {
        state
    } else {
        run(advanced(state, outcomes[0]), outcomes.drop_first())
    }
}

/// The steps that the driver is told to carry out while it reports a series
/// of outcomes, the pending step at the end included.
pub open spec fn issued(state: FrameState, outcomes: Seq<StepOutcome>) -> Seq<FrameStep>
    decreases outcomes.len(),
{
    match state {
        FrameState::Running(step) => if outcomes.len() == 0 {
            seq![step]
        } else {
            seq![step] + issued(advanced(state, outcomes[0]), outcomes.drop_first())
        },
        _ => Seq::empty(),
    }
}

/// The number of outcomes at the start of a series that are `Done`.
pub open spec fn done_prefix(outcomes: Seq<StepOutcome>) -> nat
    decreases outcomes.len(),
{
    if outcomes.len() == 0 || outcomes[0] is Failed {
        0
    } else {
        1 + done_prefix(outcomes.drop_first())
    }
}

/// How often a step occurs in a series of steps.
pub open spec fn occurrences(steps: Seq<FrameStep>, step: FrameStep) -> nat
    decreases steps.len(),
{
    if steps.len() == 0 {
        0
    } else {
        occurrences(steps.drop_last(), step) + if steps.last() == step {
            1nat
        } else {
            0nat
        }
    }
}

impl FrameStep {
    /// The step that follows this one, if it is not the last.
    pub fn next(self) -> (next: Option<FrameStep>)
        ensures
            next == following(self),
    {
        match self {
            FrameStep::AcquireImage => Some(FrameStep::BuildPipeline),
            FrameStep::BuildPipeline => Some(FrameStep::DrawBar),
            FrameStep::DrawBar => Some(FrameStep::QueueText),
            FrameStep::QueueText => Some(FrameStep::DrawText),
            FrameStep::DrawText => Some(FrameStep::FinishStaging),
            FrameStep::FinishStaging => Some(FrameStep::Submit),
            FrameStep::Submit => Some(FrameStep::Present),
            FrameStep::Present => Some(FrameStep::RecallStaging),
            FrameStep::RecallStaging => None,
        }
    }
}

impl FrameState {
    /// A frame at its start: the image is to be acquired.
    pub fn begin() -> (state: FrameState)
        ensures
            state == FrameState::Running(FrameStep::AcquireImage),
            state == FrameState::Running(frame_steps()[0]),
    {
        FrameState::Running(FrameStep::AcquireImage)
    }

    /// The step to carry out next; none once the frame is complete or given
    /// up.
    pub fn pending(self) -> (step: Option<FrameStep>)
        ensures
            step == match self {
                FrameState::Running(step) => Some(step),
                _ => None,
            },
    {
        match self {
            FrameState::Running(step) => Some(step),
            _ => None,
        }
    }

    /// Takes the outcome of the pending step: on success the next step is
    /// pending, or the frame is complete after the last one; on failure the
    /// frame is given up at that step.
    pub fn advance(self, outcome: StepOutcome) -> (state: FrameState)
        ensures
            state == advanced(self, outcome),
    {
        match self {
            FrameState::Running(step) => match outcome {
                StepOutcome::Failed => FrameState::Aborted(step),
                StepOutcome::Done => match step.next() {
                    Some(next) => FrameState::Running(next),
                    None => FrameState::Complete,
                },
            },
            _ => self,
        }
    }
}

/// The smaller of two numbers.
pub open spec fn least(a: int, b: int) -> int {
    if a <= b {
        a
    } else {
        b
    }
}

proof fn lemma_from_step(k: int, outcomes: Seq<StepOutcome>)
    requires
        0 <= k < frame_steps().len(),
    ensures
        issued(FrameState::Running(frame_steps()[k]), outcomes) == frame_steps().subrange(
            k,
            least(k + done_prefix(outcomes) + 1, 9),
        ),
        run(FrameState::Running(frame_steps()[k]), outcomes) == if k + done_prefix(outcomes)
            >= 9 {
            FrameState::Complete
        } else if done_prefix(outcomes) < outcomes.len() {
            FrameState::Aborted(frame_steps()[k + done_prefix(outcomes)])
        } else {
            FrameState::Running(frame_steps()[k + done_prefix(outcomes)])
        },
    decreases outcomes.len(),
{
    let step = frame_steps()[k];
    let state = FrameState::Running(step);
    assert(position(step) == k);
    if outcomes.len() == 0 {
        assert(issued(state, outcomes) =~= frame_steps().subrange(k, k + 1));
    } else {
        let rest = outcomes.drop_first();
        let after = advanced(state, outcomes[0]);
        if outcomes[0] is Failed {
            assert(issued(after, rest) =~= Seq::<FrameStep>::empty());
            assert(issued(state, outcomes) =~= frame_steps().subrange(k, k + 1));
            lemma_settled(after, rest);
        } else if k + 1 < 9 {
            lemma_from_step(k + 1, rest);
            assert(issued(state, outcomes) =~= frame_steps().subrange(
                k,
                least(k + done_prefix(outcomes) + 1, 9),
            ));
        } else {
            assert(after == FrameState::Complete);
            assert(issued(after, rest) =~= Seq::<FrameStep>::empty());
            assert(issued(state, outcomes) =~= frame_steps().subrange(k, 9));
            lemma_settled(after, rest);
        }
    }
}

proof fn lemma_settled(state: FrameState, outcomes: Seq<StepOutcome>)
    requires
        !(state is Running),
    ensures
        run(state, outcomes) == state,
    decreases outcomes.len(),
{
    if outcomes.len() > 0 {
        lemma_settled(state, outcomes.drop_first());
    }
}

proof fn lemma_all_done(outcomes: Seq<StepOutcome>)
    requires
        forall|i: int| 0 <= i < outcomes.len() ==> outcomes[i] is Done,
    ensures
        done_prefix(outcomes) == outcomes.len(),
    decreases outcomes.len(),
{
    if outcomes.len() > 0 {
        let rest = outcomes.drop_first();
        assert forall|i: int| 0 <= i < rest.len() implies rest[i] is Done by {
            assert(rest[i] == outcomes[i + 1]);
        }
        lemma_all_done(rest);
    }
}

proof fn lemma_done_until(outcomes: Seq<StepOutcome>, i: int)
    requires
        0 <= i < outcomes.len(),
        outcomes[i] is Failed,
        forall|j: int| 0 <= j < i ==> outcomes[j] is Done,
    ensures
        done_prefix(outcomes) == i,
    decreases outcomes.len(),
{
    if i > 0 {
        let rest = outcomes.drop_first();
        assert(outcomes[0] is Done);
        assert(rest[i - 1] == outcomes[i]);
        assert forall|j: int| 0 <= j < i - 1 implies rest[j] is Done by {
            assert(rest[j] == outcomes[j + 1]);
        }
        lemma_done_until(rest, i - 1);
    }
}

proof fn lemma_occurrences_joined(first: Seq<FrameStep>, second: Seq<FrameStep>, step: FrameStep)
    ensures
        occurrences(first + second, step) == occurrences(first, step) + occurrences(second, step),
    decreases second.len(),
{
    if second.len() == 0 {
        assert(first + second =~= first);
    } else {
        assert((first + second).drop_last() =~= first + second.drop_last());
        assert((first + second).last() == second.last());
        lemma_occurrences_joined(first, second.drop_last(), step);
    }
}

/// Every step of a frame occurs once in the order of a frame.
pub proof fn lemma_each_step_once(step: FrameStep)
    ensures
        occurrences(frame_steps(), step) == 1,
        frame_steps()[position(step)] == step,
        frame_steps().len() == FRAME_STEP_COUNT,
{
    let s = frame_steps();
    let s8 = s.drop_last();
    let s7 = s8.drop_last();
    let s6 = s7.drop_last();
    let s5 = s6.drop_last();
    let s4 = s5.drop_last();
    let s3 = s4.drop_last();
    let s2 = s3.drop_last();
    let s1 = s2.drop_last();
    let s0 = s1.drop_last();
    assert(occurrences(s0, step) == 0);
    assert(occurrences(s1, step) == if step == FrameStep::AcquireImage { 1nat } else { 0nat });
    assert(occurrences(s2, step) == occurrences(s1, step) + if step
        == FrameStep::BuildPipeline { 1nat } else { 0nat });
    assert(occurrences(s3, step) == occurrences(s2, step) + if step == FrameStep::DrawBar {
        1nat
    } else {
        0nat
    });
    assert(occurrences(s4, step) == occurrences(s3, step) + if step == FrameStep::QueueText {
        1nat
    } else {
        0nat
    });
    assert(occurrences(s5, step) == occurrences(s4, step) + if step == FrameStep::DrawText {
        1nat
    } else {
        0nat
    });
    assert(occurrences(s6, step) == occurrences(s5, step) + if step
        == FrameStep::FinishStaging { 1nat } else { 0nat });
    assert(occurrences(s7, step) == occurrences(s6, step) + if step == FrameStep::Submit {
        1nat
    } else {
        0nat
    });
    assert(occurrences(s8, step) == occurrences(s7, step) + if step == FrameStep::Present {
        1nat
    } else {
        0nat
    });
    assert(occurrences(s, step) == occurrences(s8, step) + if step
        == FrameStep::RecallStaging { 1nat } else { 0nat });
}

/// Whatever the outcomes, the steps issued for a frame are the first steps
/// of a frame in their order: as many as there were successes at the start
/// and one more, nine at most. So the bar is drawn before text is queued,
/// and `Submit` and `Present` are issued only after every earlier step of
/// that frame succeeded.
pub proof fn lemma_frame_order(outcomes: Seq<StepOutcome>)
    ensures
        issued(FrameState::Running(FrameStep::AcquireImage), outcomes) == frame_steps().take(
            least(done_prefix(outcomes) as int + 1, 9),
        ),
        forall|step: FrameStep|
            issued(FrameState::Running(FrameStep::AcquireImage), outcomes).contains(step)
                <==> position(step) <= done_prefix(outcomes),
{
    lemma_from_step(0, outcomes);
    let steps = issued(FrameState::Running(FrameStep::AcquireImage), outcomes);
    let n = least(done_prefix(outcomes) as int + 1, 9);
    assert(frame_steps().subrange(0, n) =~= frame_steps().take(n));
    assert forall|step: FrameStep| steps.contains(step) <==> position(step) <= done_prefix(
        outcomes,
    ) by {
        if position(step) <= done_prefix(outcomes) {
            assert(steps[position(step)] == step);
        }
        if steps.contains(step) {
            let i = choose|i: int| 0 <= i < steps.len() && steps[i] == step;
            assert(frame_steps()[i] == step);
            assert(position(step) == i);
        }
    }
}

/// A frame whose nine steps all succeed is complete, and its steps were
/// issued once each, in order: one image acquired, one submission, one
/// image presented. What the text is plays no part in this, so it holds for
/// an empty text as for any other.
pub proof fn lemma_full_frame(outcomes: Seq<StepOutcome>)
    requires
        outcomes.len() == FRAME_STEP_COUNT,
        forall|i: int| 0 <= i < outcomes.len() ==> outcomes[i] is Done,
    ensures
        run(FrameState::Running(FrameStep::AcquireImage), outcomes) == FrameState::Complete,
        issued(FrameState::Running(FrameStep::AcquireImage), outcomes) == frame_steps(),
        forall|step: FrameStep|
            occurrences(
                issued(FrameState::Running(FrameStep::AcquireImage), outcomes),
                step,
            ) == 1,
{
    lemma_all_done(outcomes);
    lemma_from_step(0, outcomes);
    assert(frame_steps().subrange(0, 9) =~= frame_steps());
    assert forall|step: FrameStep|
        occurrences(issued(FrameState::Running(FrameStep::AcquireImage), outcomes), step)
            == 1 by {
        lemma_each_step_once(step);
    }
}

/// A frame ends at its first failed step: it is given up at that step, and
/// no later step of it is issued.
pub proof fn lemma_failed_step(outcomes: Seq<StepOutcome>, i: int)
    requires
        0 <= i < outcomes.len(),
        i < FRAME_STEP_COUNT,
        outcomes[i] is Failed,
        forall|j: int| 0 <= j < i ==> outcomes[j] is Done,
    ensures
        run(FrameState::Running(FrameStep::AcquireImage), outcomes) == FrameState::Aborted(
            frame_steps()[i],
        ),
        issued(FrameState::Running(FrameStep::AcquireImage), outcomes) == frame_steps().take(
            i + 1,
        ),
        forall|step: FrameStep|
            position(step) > i ==> !issued(
                FrameState::Running(FrameStep::AcquireImage),
                outcomes,
            ).contains(step),
{
    lemma_done_until(outcomes, i);
    lemma_from_step(0, outcomes);
    lemma_frame_order(outcomes);
    assert(frame_steps().subrange(0, i + 1) =~= frame_steps().take(i + 1));
}

/// Two frames in a row that both succeed acquire, submit and present one
/// image each: over both, every step was issued twice, and no frame was
/// left out or shown twice.
pub proof fn lemma_two_frames(first: Seq<StepOutcome>, second: Seq<StepOutcome>, step: FrameStep)
    requires
        first.len() == FRAME_STEP_COUNT,
        second.len() == FRAME_STEP_COUNT,
        forall|i: int| 0 <= i < first.len() ==> first[i] is Done,
        forall|i: int| 0 <= i < second.len() ==> second[i] is Done,
    ensures
        occurrences(issued(FrameState::Running(FrameStep::AcquireImage), first), step) == 1,
        occurrences(issued(FrameState::Running(FrameStep::AcquireImage), second), step) == 1,
        occurrences(
            issued(FrameState::Running(FrameStep::AcquireImage), first) + issued(
                FrameState::Running(FrameStep::AcquireImage),
                second,
            ),
            step,
        ) == 2,
{
    lemma_full_frame(first);
    lemma_full_frame(second);
    lemma_occurrences_joined(
        issued(FrameState::Running(FrameStep::AcquireImage), first),
        issued(FrameState::Running(FrameStep::AcquireImage), second),
        step,
    );
}

} // verus!
