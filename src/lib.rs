//! Integer control logic for procedural sound-effect synthesis.
//!
//! A sound effect is driven frame by frame: a repeat timer may restart the
//! effect, a one-shot arpeggio counter steps the pitch once, the volume
//! envelope walks through its stages, the oscillator counts its phase within
//! the current period, and a phaser reads back from a circular delay line.
//! This crate holds those state machines with their contracts; the signal
//! arithmetic on samples is done by the caller around them.

pub mod wave;
pub mod envelope;
pub mod oscillator;
pub mod repeat;
pub mod delay;
pub mod random;
pub mod control;

pub use wave::WaveType;
pub use envelope::{Envelope, EnvelopeStage, EnvelopeView};
pub use oscillator::{Oscillator, OscillatorView};
pub use repeat::{RepeatTimer, RepeatView};
pub use delay::DelayLine;
pub use control::{FrameControl, FrameEvents, Timing};
