use vstd::prelude::*;

verus! {

/// Shape of the waveform an oscillator emits.
#[derive(PartialEq, Eq, Structural, Clone, Copy, Debug)]
pub enum WaveType {
    Square,
    Triangle,
    Sine,
    Noise,
}

} // verus!
