use vstd::prelude::*;

verus! {

/// Mathematical model of a repeat timer.
pub ghost struct RepeatView {
    pub time: nat,
    pub limit: nat,
}

impl RepeatView {
    /// One frame later: the frame count goes up (saturating at `u32::MAX`)
    /// and starts over from zero when an armed limit is reached.
    pub open spec fn ticked(self) -> RepeatView {
        let t = if self.time < u32::MAX { self.time + 1 } else { self.time };
        RepeatView { time: if self.limit != 0 && t >= self.limit { 0 } else { t }, ..self }
    }

    /// Whether ticking restarts the effect.
    pub open spec fn fires(self) -> bool {
        let t = if self.time < u32::MAX { self.time + 1 } else { self.time };
        self.limit != 0 && t >= self.limit
    }
}

/// Counts frames and restarts the effect every `limit` frames; a limit of
/// zero means the effect never repeats.
pub struct RepeatTimer {
    time: u32,
    limit: u32,
}

impl View for RepeatTimer {
    type V = RepeatView;

    closed spec fn view(&self) -> RepeatView {
        RepeatView { time: self.time as nat, limit: self.limit as nat }
    }
}

impl RepeatTimer {
    /// A timer that never fires.
    pub fn new() -> (r: RepeatTimer)
        ensures
            r@ == (RepeatView { time: 0, limit: 0 }),
    {
        RepeatTimer { time: 0, limit: 0 }
    }

    /// Restarts the count from zero with a new limit.
    pub fn reset(&mut self, limit: u32)
        ensures
            final(self)@ == (RepeatView { time: 0, limit: limit as nat }),
    {
        self.time = 0;
        self.limit = limit;
    }

    /// Counts one frame. Returns whether the effect restarts at this frame.
    pub fn tick(&mut self) -> (restart: bool)
        ensures
            final(self)@ == old(self)@.ticked(),
            restart == old(self)@.fires(),
    {
        if self.time < u32::MAX {
            self.time = self.time + 1;
        }
        if self.limit != 0 && self.time >= self.limit {
            self.time = 0;
            true
        } else {
            false
        }
    }
}

/// A timer whose limit is zero never restarts the effect, however many
/// frames pass.
pub proof fn lemma_unarmed_never_repeats(v: RepeatView)
    requires
        v.limit == 0,
    ensures
        !v.fires(),
        v.ticked().limit == 0,
{
}

} // verus!
