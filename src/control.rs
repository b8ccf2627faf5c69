use vstd::prelude::*;

use crate::envelope::{Envelope, EnvelopeStage, EnvelopeView};
use crate::oscillator::{floored_period, Oscillator, OscillatorView, MIN_PERIOD, NOISE_LEN};
use crate::repeat::{RepeatTimer, RepeatView};
use crate::wave::WaveType;

verus! {

/// The integer scalars of one sound effect, derived once from its parameters:
/// the waveform, the envelope stage lengths in frames, and the arpeggio and
/// repeat limits in frames, where a limit of zero means "never".
#[derive(PartialEq, Eq, Structural, Clone, Copy, Debug)]
pub struct Timing {
    pub wave_type: WaveType,
    pub attack: u32,
    pub sustain: u32,
    pub decay: u32,
    pub arp_limit: u32,
    pub rep_limit: u32,
}

/// What happened at the start of a frame.
#[derive(PartialEq, Eq, Structural, Clone, Copy, Debug)]
pub struct FrameEvents {
    /// The repeat timer fired: the oscillator's frequency state and the
    /// filters start over.
    pub restart: bool,
    /// The one-shot arpeggio step fired: the frequency period is scaled.
    pub arpeggio: bool,
}

/// Mathematical model of a frame control.
pub ghost struct ControlView {
    pub timing: Timing,
    pub oscillator: OscillatorView,
    pub envelope: EnvelopeView,
    pub repeat: RepeatView,
}

impl ControlView {
    /// The oscillator after a restart: the effect's waveform, arpeggio rearmed.
    pub open spec fn restarted(self) -> ControlView {
        ControlView {
            oscillator: OscillatorView {
                wave_type: self.timing.wave_type,
                arp_time: 0,
                arp_limit: self.timing.arp_limit as nat,
                ..self.oscillator
            },
            ..self
        }
    }

    /// A full reset to the start of the effect described by `timing`. The
    /// period is kept: every frame sets it before the phase is stepped.
    pub open spec fn reset_to(self, timing: Timing) -> ControlView {
        ControlView {
            timing,
            oscillator: OscillatorView {
                wave_type: timing.wave_type,
                phase: 0,
                arp_time: 0,
                arp_limit: timing.arp_limit as nat,
                ..self.oscillator
            },
            envelope: EnvelopeView::started(
                timing.attack as nat,
                timing.sustain as nat,
                timing.decay as nat,
            ),
            repeat: RepeatView { time: 0, limit: timing.rep_limit as nat },
        }
    }

    /// The start of a frame: the repeat timer counts (and may restart the
    /// effect), then the arpeggio countdown and the envelope each move on by
    /// one frame.
    pub open spec fn frame(self) -> (FrameEvents, ControlView) {
        let restart = self.repeat.fires();
        let v1 = ControlView { repeat: self.repeat.ticked(), ..self };
        let v2 = if restart { v1.restarted() } else { v1 };
        let arpeggio = v2.oscillator.arpeggio_fires();
        let v3 = ControlView {
            oscillator: v2.oscillator.arpeggio_advanced(),
            envelope: v2.envelope.advanced(),
            ..v2
        };
        (FrameEvents { restart, arpeggio }, v3)
    }

    pub open spec fn with_period(self, raw: nat) -> ControlView {
        ControlView {
            oscillator: OscillatorView { period: floored_period(raw), ..self.oscillator },
            ..self
        }
    }

    /// Equal in everything but the oscillator's period.
    pub open spec fn same_but_period(self, other: ControlView) -> bool {
        self == ControlView {
            oscillator: OscillatorView { period: self.oscillator.period, ..other.oscillator },
            ..other
        }
    }
}

/// Number of raw oscillator samples drawn per output frame.
pub const SUPERSAMPLES: usize = 8;

impl ControlView {
    pub open spec fn stepped(self) -> ControlView {
        ControlView { oscillator: self.oscillator.stepped(), ..self }
    }

    /// `n` raw samples later.
    pub open spec fn stepped_n(self, n: nat) -> ControlView
        decreases n,
    {
        if n == 0 {
            self
        } else {
            self.stepped().stepped_n((n - 1) as nat)
        }
    }

    /// One whole output frame: its start, the period computed for it, and
    /// the raw samples drawn.
    pub open spec fn full_frame(self, raw: u32) -> (FrameEvents, ControlView) {
        let (events, v) = self.frame();
        (events, v.with_period(raw as nat).stepped_n(SUPERSAMPLES as nat))
    }

    /// Frames run one after another, one raw period each: the events of each
    /// frame, in order, and the state reached.
    pub open spec fn run(self, raws: Seq<u32>) -> (Seq<FrameEvents>, ControlView)
        decreases raws.len(),
    {
        if raws.len() == 0 {
            (Seq::empty(), self)
        } else {
            let (events, v) = self.full_frame(raws[0]);
            let (rest, last) = v.run(raws.drop_first());
            (seq![events] + rest, last)
        }
    }
}

/// The control of a fresh generator for `timing`.
pub open spec fn fresh(timing: Timing) -> ControlView {
    ControlView {
        timing,
        oscillator: OscillatorView {
            wave_type: timing.wave_type,
            period: MIN_PERIOD as nat,
            phase: 0,
            arp_time: 0,
            arp_limit: timing.arp_limit as nat,
        },
        envelope: EnvelopeView::started(
            timing.attack as nat,
            timing.sustain as nat,
            timing.decay as nat,
        ),
        repeat: RepeatView { time: 0, limit: timing.rep_limit as nat },
    }
}

/// The integer state of a sound-effect generator, advanced frame by frame:
/// the repeat timer, the oscillator's counters and the volume envelope.
pub struct FrameControl {
    timing: Timing,
    oscillator: Oscillator,
    envelope: Envelope,
    repeat: RepeatTimer,
}

impl View for FrameControl {
    type V = ControlView;

    closed spec fn view(&self) -> ControlView {
        ControlView {
            timing: self.timing,
            oscillator: self.oscillator@,
            envelope: self.envelope@,
            repeat: self.repeat@,
        }
    }
}

impl FrameControl {
    /// The control at the start of the effect described by `timing`.
    pub fn new(timing: Timing) -> (r: FrameControl)
        ensures
            r@ == fresh(timing),
    {
        let mut r = FrameControl {
            timing,
            oscillator: Oscillator::new(timing.wave_type),
            envelope: Envelope::new(),
            repeat: RepeatTimer::new(),
        };
        r.reset(timing);
        r
    }

    /// Rewinds to the start of the effect described by `timing`.
    pub fn reset(&mut self, timing: Timing)
        ensures
            final(self)@ == old(self)@.reset_to(timing),
    {
        self.timing = timing;
        self.restart();
        self.envelope.reset(timing.attack, timing.sustain, timing.decay);
        self.oscillator.reset_phase();
        self.repeat.reset(timing.rep_limit);
    }

    /// Restarts the oscillator's waveform and arpeggio, keeping everything else.
    fn restart(&mut self)
        ensures
            final(self)@ == old(self)@.restarted(),
    {
        self.oscillator.reset(self.timing.wave_type, self.timing.arp_limit);
    }

    /// Starts a frame and reports what fired.
    pub fn begin_frame(&mut self) -> (r: FrameEvents)
        ensures
            (r, final(self)@) == old(self)@.frame(),
    {
        let restart = self.repeat.tick();
        if restart {
            self.restart();
        }
        let arpeggio = self.oscillator.advance_arpeggio();
        self.envelope.advance();
        FrameEvents { restart, arpeggio }
    }

    /// Sets the oscillator's period for this frame, at least `MIN_PERIOD`.
    pub fn set_period(&mut self, raw: u32)
        ensures
            final(self)@ == old(self)@.with_period(raw as nat),
    {
        self.oscillator.set_period(raw);
    }

    /// Steps the oscillator's phase by one raw sample; returns whether the
    /// noise table is to be refilled.
    pub fn step(&mut self) -> (refill: bool)
        ensures
            final(self)@ == old(self)@.stepped(),
            final(self)@.oscillator.phase < final(self)@.oscillator.period,
            refill == (old(self)@.oscillator.wraps() && old(self)@.oscillator.wave_type
                == WaveType::Noise),
    {
        self.oscillator.step()
    }

    /// Index into the noise table for the current phase.
    pub fn noise_index(&self) -> (r: usize)
        requires
            self@.oscillator.phase < self@.oscillator.period,
        ensures
            r as int == (self@.oscillator.phase * NOISE_LEN) as int / (
            self@.oscillator.period as int),
            r < NOISE_LEN,
    {
        self.oscillator.noise_index()
    }

    pub fn wave_type(&self) -> (r: WaveType)
        ensures
            r == self@.oscillator.wave_type,
    {
        self.oscillator.wave_type()
    }

    pub fn phase(&self) -> (r: u32)
        ensures
            r as nat == self@.oscillator.phase,
    {
        self.oscillator.phase()
    }

    pub fn period(&self) -> (r: u32)
        ensures
            r as nat == self@.oscillator.period,
            r >= MIN_PERIOD,
    {
        self.oscillator.period()
    }

    pub fn envelope_stage(&self) -> (r: EnvelopeStage)
        ensures
            r == self@.envelope.stage,
    {
        self.envelope.stage()
    }

    /// Frames left in the envelope's stage and the stage's length: `dt` is
    /// their ratio.
    pub fn envelope_progress(&self) -> (r: (u32, u32))
        ensures
            r.0 as nat == self@.envelope.left,
            r.1 as nat == self@.envelope.stage_length(),
    {
        (self.envelope.stage_left(), self.envelope.current_stage_length())
    }
}

/// A reset replays the effect from its start: right after `reset`, the
/// control agrees with a fresh one in everything but the period, the first
/// frame reports the same events for both, and once that frame has set the
/// period the two are equal, so every later call sees the same state.
pub proof fn lemma_reset_replays_fresh(v: ControlView, timing: Timing, raw: nat)
    ensures
        v.reset_to(timing).same_but_period(fresh(timing)),
        v.reset_to(timing).frame().0 == fresh(timing).frame().0,
        v.reset_to(timing).frame().1.with_period(raw) == fresh(timing).frame().1.with_period(raw),
{
    let a = v.reset_to(timing);
    let b = fresh(timing);
    assert(a.frame().1.with_period(raw) =~= b.frame().1.with_period(raw));
}

/// A run of frames does not depend on how it is split into calls: running
/// `first` and then `second` reports the events of both, in order, and ends
/// where running them together ends. So two controls in the same state,
/// driven through the same frames, report the same events and end in the
/// same state, however each caller chunks its buffers.
pub proof fn lemma_run_in_chunks(v: ControlView, first: Seq<u32>, second: Seq<u32>)
    ensures
        v.run(first + second) == ({
            let (a, mid) = v.run(first);
            let (b, last) = mid.run(second);
            (a + b, last)
        }),
    decreases first.len(),
{
    if first.len() == 0 {
        assert(first + second =~= second);
        let (b, last) = v.run(second);
        assert(Seq::<FrameEvents>::empty() + b =~= b);
    } else {
        let (events, w) = v.full_frame(first[0]);
        assert((first + second).drop_first() =~= first.drop_first() + second);
        lemma_run_in_chunks(w, first.drop_first(), second);
        let (a, mid) = w.run(first.drop_first());
        let (b, last) = mid.run(second);
        assert(seq![events] + (a + b) =~= (seq![events] + a) + b);
    }
}

/// Stepping the phase changes nothing but the phase.
proof fn lemma_steps_touch_only_phase(v: ControlView, n: nat)
    ensures
        v.stepped_n(n) == (ControlView {
            oscillator: OscillatorView { phase: v.stepped_n(n).oscillator.phase, ..v.oscillator },
            ..v
        }),
    decreases n,
{
    if n > 0 {
        lemma_steps_touch_only_phase(v.stepped(), (n - 1) as nat);
    }
}

/// A run reports one set of events per frame.
pub proof fn lemma_run_length(v: ControlView, raws: Seq<u32>)
    ensures
        v.run(raws).0.len() == raws.len(),
    decreases raws.len(),
{
    if raws.len() > 0 {
        lemma_run_length(v.full_frame(raws[0]).1, raws.drop_first());
    }
}

/// An effect whose repeat limit is zero never restarts, however many frames
/// are run.
pub proof fn lemma_never_repeats(v: ControlView, raws: Seq<u32>)
    requires
        v.repeat.limit == 0,
    ensures
        forall|i: int| 0 <= i < raws.len() ==> !(#[trigger] v.run(raws).0[i]).restart,
    decreases raws.len(),
{
    if raws.len() > 0 {
        let (events, w) = v.full_frame(raws[0]);
        let mid = v.frame().1.with_period(raws[0] as nat);
        lemma_steps_touch_only_phase(mid, SUPERSAMPLES as nat);
        lemma_never_repeats(w, raws.drop_first());
        let rest = w.run(raws.drop_first()).0;
        lemma_run_length(w, raws.drop_first());
        assert(v.run(raws).0 == seq![events] + rest);
        assert forall|i: int| 0 <= i < raws.len() implies !(#[trigger] v.run(raws).0[i]).restart by {
            if i > 0 {
                assert((seq![events] + rest)[i] == rest[i - 1]);
            }
        }
    }
}

/// An effect whose arpeggio limit is zero, and whose countdown is disarmed,
/// never takes the arpeggio's frequency step, however many frames are run and
/// however often it restarts.
pub proof fn lemma_never_arpeggiates(v: ControlView, raws: Seq<u32>)
    requires
        v.timing.arp_limit == 0,
        v.oscillator.arp_limit == 0,
    ensures
        forall|i: int| 0 <= i < raws.len() ==> !(#[trigger] v.run(raws).0[i]).arpeggio,
    decreases raws.len(),
{
    if raws.len() > 0 {
        let (events, w) = v.full_frame(raws[0]);
        let mid = v.frame().1.with_period(raws[0] as nat);
        lemma_steps_touch_only_phase(mid, SUPERSAMPLES as nat);
        lemma_never_arpeggiates(w, raws.drop_first());
        let rest = w.run(raws.drop_first()).0;
        lemma_run_length(w, raws.drop_first());
        assert(v.run(raws).0 == seq![events] + rest);
        assert forall|i: int| 0 <= i < raws.len() implies !(#[trigger] v.run(raws).0[i]).arpeggio by {
            if i > 0 {
                assert((seq![events] + rest)[i] == rest[i - 1]);
            }
        }
    }
}

} // verus!
