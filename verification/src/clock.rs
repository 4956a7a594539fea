use vstd::prelude::*;

verus! {

/// The simulation clock: a discrete tick counter scrubbed forward by user
/// interaction, together with the value it held when the running frame began.
///
/// `current` only ever grows; `previous` is rewritten to `current` at the
/// start of each frame's UI phase, so that `current - previous` is the
/// number of physics steps the frame still owes.
pub struct SimulationTime {
    pub current: u32,
    pub previous: u32,
}

impl SimulationTime {
    /// The clock never owes a negative number of steps.
    pub open spec fn wf(self) -> bool {
        self.previous <= self.current
    }

    /// How many physics steps are owed since the frame began.
    pub open spec fn spec_pending(self) -> int {
        self.current - self.previous
    }

    /// A fresh clock, with no ticks taken and none owed.
    pub fn new() -> (clock: Self)
        ensures
            clock.current == 0,
            clock.previous == 0,
            clock.wf(),
    {
        SimulationTime { current: 0, previous: 0 }
    }

    /// Snapshot: at the start of a frame's UI phase, record the tick count,
    /// so that the drain later in the frame sees only this frame's events.
    pub fn snapshot(&mut self)
        ensures
            final(self).current == old(self).current,
            final(self).previous == old(self).current,
            final(self).wf(),
            final(self).spec_pending() == 0,
    {
        self.previous = self.current;
    }

    /// Tick advance: one qualifying UI event moves the clock forward by
    /// exactly one tick. There is no upper bound short of the counter's
    /// width, and no decrement exists.
    pub fn advance(&mut self)
        requires
            old(self).current < u32::MAX,
        ensures
            final(self).current == old(self).current + 1,
            final(self).previous == old(self).previous,
            old(self).wf() ==> final(self).wf(),
    {
        self.current = self.current + 1;
    }

    /// Record the UI events of one frame: a click of the play-forward
    /// control or a hover over the hover target advances the clock by
    /// exactly one tick — one tick, even when both happen; with neither,
    /// the clock stands still.
    pub fn record_ui_events(&mut self, clicked: bool, hovered: bool)
        requires
            clicked || hovered ==> old(self).current < u32::MAX,
        ensures
            final(self).previous == old(self).previous,
            clicked || hovered ==> final(self).current == old(self).current + 1,
            !(clicked || hovered) ==> final(self).current == old(self).current,
            old(self).wf() ==> final(self).wf(),
    {
        if clicked || hovered {
            self.advance();
        }
    }

    /// Drain: how many one-tick physics steps the caller must run for this
    /// frame. A zero delta is an ordinary no-op answer.
    pub fn pending_steps(&self) -> (steps: u32)
        requires
            self.wf(),
        ensures
            steps == self.spec_pending(),
    {
        self.current - self.previous
    }
}

impl Default for SimulationTime {
    /// The clock a run starts from: both counters at zero.
    fn default() -> (clock: Self)
        ensures
            clock.current == 0,
            clock.previous == 0,
            clock.wf(),
    {
        SimulationTime::new()
    }
}

} // verus!
