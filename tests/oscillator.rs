use sfxr::{Oscillator, WaveType};

#[test]
fn oscillator_period_never_below_eight() {
    let mut o = Oscillator::new(WaveType::Sine);
    assert_eq!(o.period(), 8);
    o.set_period(0);
    assert_eq!(o.period(), 8);
    o.set_period(7);
    assert_eq!(o.period(), 8);
    o.set_period(9);
    assert_eq!(o.period(), 9);
    o.set_period(100_000);
    assert_eq!(o.period(), 100_000);
}

#[test]
fn oscillator_phase_wraps_at_period() {
    let mut o = Oscillator::new(WaveType::Square);
    let mut phases = Vec::new();
    let mut refills = 0;
    for _ in 0..10 {
        if o.step() {
            refills += 1;
        }
        phases.push(o.phase());
    }
    assert_eq!(phases, vec![1, 2, 3, 4, 5, 6, 7, 0, 1, 2]);
    assert_eq!(refills, 0);
}

#[test]
fn oscillator_noise_refills_on_wrap() {
    let mut o = Oscillator::new(WaveType::Noise);
    let mut refills = Vec::new();
    for _ in 0..17 {
        refills.push(o.step());
    }
    let at: Vec<usize> = refills.iter().enumerate().filter(|(_, r)| **r).map(|(i, _)| i).collect();
    assert_eq!(at, vec![7, 15]);
}

#[test]
fn oscillator_shrinking_period_wraps_by_remainder() {
    let mut o = Oscillator::new(WaveType::Triangle);
    o.set_period(100);
    for _ in 0..50 {
        o.step();
    }
    assert_eq!(o.phase(), 50);
    o.set_period(20);
    assert!(!o.step());
    assert_eq!(o.phase(), 51 % 20);
    o.reset_phase();
    assert_eq!(o.phase(), 0);
}

#[test]
fn oscillator_noise_index_spreads_period_over_table() {
    let mut o = Oscillator::new(WaveType::Noise);
    o.set_period(64);
    let mut indices = Vec::new();
    for _ in 0..64 {
        o.step();
        indices.push(o.noise_index());
    }
    assert_eq!(indices[0], 0);
    assert_eq!(indices[1], 1);
    assert_eq!(indices[2], 1);
    assert_eq!(indices[62], 31);
    assert_eq!(indices[63], 0);
    o.set_period(150_000);
    for _ in 0..149_999 {
        o.step();
    }
    assert_eq!(o.phase(), 149_999);
    assert_eq!(o.noise_index(), 31);
}

#[test]
fn oscillator_arpeggio_fires_once() {
    let mut o = Oscillator::new(WaveType::Square);
    o.reset(WaveType::Sine, 3);
    assert_eq!(o.wave_type(), WaveType::Sine);
    let fired: Vec<bool> = (0..6).map(|_| o.advance_arpeggio()).collect();
    assert_eq!(fired, vec![false, false, true, false, false, false]);
    o.reset(WaveType::Sine, 1);
    assert!(o.advance_arpeggio());
}

#[test]
fn oscillator_disarmed_arpeggio_never_fires() {
    let mut o = Oscillator::new(WaveType::Square);
    o.reset(WaveType::Square, 0);
    for _ in 0..100_000 {
        assert!(!o.advance_arpeggio());
    }
}
