use vstd::prelude::*;

use crate::wave::WaveType;

verus! {

/// Shortest period, in raw samples, that the oscillator ever runs at.
pub const MIN_PERIOD: u32 = 8;

/// Number of entries of the noise lookup table that one period is spread over.
pub const NOISE_LEN: usize = 32;

/// Mathematical model of the oscillator's counters.
pub ghost struct OscillatorView {
    pub wave_type: WaveType,
    pub period: nat,
    pub phase: nat,
    pub arp_time: nat,
    pub arp_limit: nat,
}

impl OscillatorView {
    /// One raw sample later: the phase counts up and wraps once it reaches
    /// the period.
    pub open spec fn stepped(self) -> OscillatorView {
        let p = self.phase + 1;
        OscillatorView {
            phase: if p >= self.period { p % self.period } else { p },
            ..self
        }
    }

    /// Whether stepping wraps the phase around the end of the period.
    pub open spec fn wraps(self) -> bool {
        self.phase + 1 >= self.period
    }

    /// One frame later on the arpeggio countdown: the frame count goes up
    /// (saturating at `u32::MAX`) and, if the countdown is armed and reached,
    /// it is disarmed.
    pub open spec fn arpeggio_advanced(self) -> OscillatorView {
        let t = if self.arp_time < u32::MAX { self.arp_time + 1 } else { self.arp_time };
        OscillatorView {
            arp_time: t,
            arp_limit: if self.arp_limit != 0 && t >= self.arp_limit { 0 } else { self.arp_limit },
            ..self
        }
    }

    /// Whether advancing the arpeggio countdown fires the frequency step.
    pub open spec fn arpeggio_fires(self) -> bool {
        self.arp_limit != 0 && self.arpeggio_advanced().arp_time >= self.arp_limit
    }
}

/// The period to run at for a raw period: never below `MIN_PERIOD`.
pub open spec fn floored_period(raw: nat) -> nat {
    if raw < MIN_PERIOD { MIN_PERIOD as nat } else { raw }
}

/// The counters of an oscillator: its waveform, the current period and the
/// phase within it, and the one-shot arpeggio countdown.
pub struct Oscillator {
    wave_type: WaveType,
    period: u32,
    phase: u32,
    arp_time: u32,
    arp_limit: u32,
}

impl View for Oscillator {
    type V = OscillatorView;

    closed spec fn view(&self) -> OscillatorView {
        OscillatorView {
            wave_type: self.wave_type,
            period: self.period as nat,
            phase: self.phase as nat,
            arp_time: self.arp_time as nat,
            arp_limit: self.arp_limit as nat,
        }
    }
}

impl Oscillator {
    #[verifier::type_invariant]
    spec fn inv(self) -> bool {
        &&& self.period >= MIN_PERIOD
        &&& self.phase < u32::MAX
    }

    /// An oscillator of the given waveform at the shortest period, phase zero
    /// and with its arpeggio disarmed.
    pub fn new(wave_type: WaveType) -> (r: Oscillator)
        ensures
            r@ == (OscillatorView {
                wave_type,
                period: MIN_PERIOD as nat,
                phase: 0,
                arp_time: 0,
                arp_limit: 0,
            }),
            r@.period >= MIN_PERIOD,
    {
        Oscillator { wave_type, period: MIN_PERIOD, phase: 0, arp_time: 0, arp_limit: 0 }
    }

    /// Rewinds the phase to the start of a period.
    pub fn reset_phase(&mut self)
        ensures
            final(self)@.period >= MIN_PERIOD,
            final(self)@ == (OscillatorView { phase: 0, ..old(self)@ }),
    {
        proof {
            use_type_invariant(&*self);
        }
        self.phase = 0;
    }

    /// Sets the waveform and rearms the arpeggio countdown to fire after
    /// `arp_limit` frames; a limit of zero leaves it disarmed.
    pub fn reset(&mut self, wave_type: WaveType, arp_limit: u32)
        ensures
            final(self)@.period >= MIN_PERIOD,
            final(self)@ == (OscillatorView {
                wave_type,
                arp_time: 0,
                arp_limit: arp_limit as nat,
                ..old(self)@
            }),
    {
        proof {
            use_type_invariant(&*self);
        }
        self.wave_type = wave_type;
        self.arp_time = 0;
        self.arp_limit = arp_limit;
    }

    /// Counts one frame on the arpeggio countdown. Returns whether the one-shot
    /// frequency step fires now, in which case the countdown is disarmed.
    pub fn advance_arpeggio(&mut self) -> (fired: bool)
        ensures
            final(self)@.period >= MIN_PERIOD,
            final(self)@ == old(self)@.arpeggio_advanced(),
            fired == old(self)@.arpeggio_fires(),
    {
        proof {
            use_type_invariant(&*self);
        }
        if self.arp_time < u32::MAX {
            self.arp_time = self.arp_time + 1;
        }
        if self.arp_limit != 0 && self.arp_time >= self.arp_limit {
            self.arp_limit = 0;
            true
        } else {
            false
        }
    }

    /// Sets the period from a raw period, raising it to at least `MIN_PERIOD`.
    pub fn set_period(&mut self, raw: u32)
        ensures
            final(self)@.period >= MIN_PERIOD,
            final(self)@ == (OscillatorView {
                period: floored_period(raw as nat),
                ..old(self)@
            }),
    {
        proof {
            use_type_invariant(&*self);
        }
        self.period = if raw < MIN_PERIOD { MIN_PERIOD } else { raw };
    }

    /// Steps the phase by one raw sample. Returns whether the noise table is
    /// to be refilled: the phase wrapped and the waveform is noise.
    pub fn step(&mut self) -> (refill: bool)
        ensures
            final(self)@.period >= MIN_PERIOD,
            final(self)@ == old(self)@.stepped(),
            final(self)@.phase < final(self)@.period,
            refill == (old(self)@.wraps() && old(self)@.wave_type == WaveType::Noise),
    {
        proof {
            use_type_invariant(&*self);
        }
        let p: u32 = self.phase + 1;
        if p >= self.period {
            self.phase = p % self.period;
            self.wave_type == WaveType::Noise
        } else {
            self.phase = p;
            false
        }
    }

    /// Index into the noise table for the current phase: the fraction
    /// `phase / period` of the table's length, rounded down.
    pub fn noise_index(&self) -> (r: usize)
        requires
            self@.phase < self@.period,
        ensures
            r as int == (self@.phase * NOISE_LEN) as int / (self@.period as int),
            r < NOISE_LEN,
    {
        proof {
            use_type_invariant(self);
        }
        let scaled: u64 = self.phase as u64 * NOISE_LEN as u64;
        let r: u64 = scaled / self.period as u64;
        proof {
            assert(r < NOISE_LEN) by (nonlinear_arith)
                requires
                    scaled as int == self.phase as int * NOISE_LEN as int,
                    self.phase < self.period,
                    self.period > 0,
                    r as int == scaled as int / self.period as int,
            ;
        }
        r as usize
    }

    pub fn wave_type(&self) -> (r: WaveType)
        ensures
            r == self@.wave_type,
    {
        self.wave_type
    }

    pub fn period(&self) -> (r: u32)
        ensures
            r >= MIN_PERIOD,
            r as nat == self@.period,
    {
        proof {
            use_type_invariant(self);
        }
        self.period
    }

    pub fn phase(&self) -> (r: u32)
        ensures
            r as nat == self@.phase,
    {
        self.phase
    }
}

/// A disarmed arpeggio countdown never fires, however many frames pass.
pub proof fn lemma_disarmed_never_fires(v: OscillatorView)
    requires
        v.arp_limit == 0,
    ensures
        !v.arpeggio_fires(),
        v.arpeggio_advanced().arp_limit == 0,
{
}

} // verus!
