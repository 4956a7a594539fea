use vstd::prelude::*;
use crate::clock::SimulationTime;

verus! {

/// The UI events observed during one frame: whether the play-forward
/// button was clicked, and whether the hover target was hovered.
#[derive(Clone, Copy)]
pub struct FrameInput {
    pub clicked: bool,
    pub hovered: bool,
}

/// How many ticks one frame's events are worth: exactly one when the
/// frame saw a qualifying event, whatever combination of click and hover,
/// and zero otherwise.
pub open spec fn frame_ticks(f: FrameInput) -> nat {
    if f.clicked || f.hovered {
        1
    } else {
        0
    }
}

/// Total ticks that a sequence of frames' events are worth.
pub open spec fn total_ticks(frames: Seq<FrameInput>) -> nat
    decreases frames.len(),
{
    if frames.len() == 0 {
        0
    } else {
        total_ticks(frames.drop_last()) + frame_ticks(frames.last())
    }
}

/// No frame is worth more than one tick, so a run of frames is worth at
/// most one tick per frame.
pub proof fn lemma_total_ticks_bound(frames: Seq<FrameInput>)
    ensures
        total_ticks(frames) <= frames.len(),
    decreases frames.len(),
{
    if frames.len() > 0 {
        lemma_total_ticks_bound(frames.drop_last());
    }
}

/// A click and a hover in the same frame advance the clock exactly as
/// either alone would: one tick per qualifying frame, never two.
pub proof fn lemma_one_tick_per_qualifying_frame(f: FrameInput)
    requires
        f.clicked || f.hovered,
    ensures
        frame_ticks(f) == 1,
{
}

/// A frame without qualifying events leaves the clock where it was.
pub proof fn lemma_idle_frame_is_free(f: FrameInput)
    requires
        !f.clicked,
        !f.hovered,
    ensures
        frame_ticks(f) == 0,
{
}

/// Run one frame of the timeline controller: the snapshot at the start of
/// the UI phase, then the phase's events, then the drain, which reports
/// how many physics steps the frame owes. Zero events owe zero steps.
pub fn run_frame(clock: &mut SimulationTime, input: FrameInput) -> (steps: u32)
    requires
        input.clicked || input.hovered ==> old(clock).current < u32::MAX,
    ensures
        steps == frame_ticks(input),
        final(clock).current == old(clock).current + frame_ticks(input),
        final(clock).previous == old(clock).current,
        final(clock).wf(),
{
    clock.snapshot();
    clock.record_ui_events(input.clicked, input.hovered);
    clock.pending_steps()
}

/// Run a whole sequence of frames, adding up the physics steps that the
/// drains report. The total equals the number of qualifying events: every
/// event is stepped exactly once, and no drain double-counts an earlier
/// frame's events.
pub fn run_frames(clock: &mut SimulationTime, frames: &Vec<FrameInput>) -> (total: u64)
    requires
        old(clock).current + frames@.len() <= u32::MAX,
    ensures
        total == total_ticks(frames@),
        final(clock).current == old(clock).current + total_ticks(frames@),
        frames@.len() == 0 ==> *final(clock) == *old(clock),
        frames@.len() > 0 ==> final(clock).previous == old(clock).current + total_ticks(
            frames@.drop_last(),
        ),
        frames@.len() > 0 ==> final(clock).wf(),
{
    let mut total: u64 = 0;
    let mut i: usize = 0;
    while i < frames.len()
        invariant
            i <= frames@.len(),
            old(clock).current + frames@.len() <= u32::MAX,
            total == total_ticks(frames@.take(i as int)),
            clock.current == old(clock).current + total_ticks(frames@.take(i as int)),
            i == 0 ==> *clock == *old(clock),
            i > 0 ==> clock.previous == old(clock).current + total_ticks(
                frames@.take(i - 1),
            ),
            i > 0 ==> clock.wf(),
        decreases frames@.len() - i,
    {
        proof {
            lemma_total_ticks_bound(frames@.take(i as int));
        }
        let steps: u32 = run_frame(clock, frames[i]);
        proof {
            let taken = frames@.take(i + 1);
            assert(taken.drop_last() =~= frames@.take(i as int));
            assert(taken.last() == frames@[i as int]);
        }
        total = total + steps as u64;
        i = i + 1;
    }
    proof {
        assert(frames@.take(frames@.len() as int) =~= frames@);
        if frames@.len() > 0 {
            assert(frames@.take(frames@.len() - 1) =~= frames@.drop_last());
        }
    }
    total
}

} // verus!
