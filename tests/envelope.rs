use sfxr::{Envelope, EnvelopeStage, FrameControl, Timing, WaveType};

fn stage_and_left(e: &Envelope) -> (EnvelopeStage, u32) {
    (e.stage(), e.stage_left())
}

#[test]
fn envelope_new_is_empty_attack() {
    let e = Envelope::new();
    assert_eq!(stage_and_left(&e), (EnvelopeStage::Attack, 0));
    assert_eq!(e.current_stage_length(), 0);
}

#[test]
fn envelope_walks_stages_in_order() {
    let mut e = Envelope::new();
    e.reset(3, 2, 2);
    assert_eq!(stage_and_left(&e), (EnvelopeStage::Attack, 3));
    let expected = [
        (EnvelopeStage::Attack, 2),
        (EnvelopeStage::Attack, 1),
        (EnvelopeStage::Sustain, 2),
        (EnvelopeStage::Sustain, 1),
        (EnvelopeStage::Decay, 2),
        (EnvelopeStage::Decay, 1),
        (EnvelopeStage::End, 0),
        (EnvelopeStage::End, 0),
    ];
    for want in expected.iter() {
        e.advance();
        assert_eq!(stage_and_left(&e), *want);
    }
    assert_eq!(e.current_stage_length(), 0);
}

#[test]
fn envelope_zero_length_stages_are_skipped_in_one_frame_each() {
    let mut e = Envelope::new();
    e.reset(0, 0, 0);
    e.advance();
    assert_eq!(stage_and_left(&e), (EnvelopeStage::Sustain, 0));
    e.advance();
    assert_eq!(stage_and_left(&e), (EnvelopeStage::Decay, 0));
    e.advance();
    assert_eq!(stage_and_left(&e), (EnvelopeStage::End, 0));
}

#[test]
fn envelope_attack_meets_sustain_near_full_volume() {
    let attack: u32 = 10;
    let mut e = Envelope::new();
    e.reset(attack, 4, 4);
    let mut last_attack_left = u32::MAX;
    let mut previous = 0.0f64;
    loop {
        e.advance();
        if e.stage() != EnvelopeStage::Attack {
            break;
        }
        let volume = 1.0 - e.stage_left() as f64 / e.current_stage_length() as f64;
        assert!(volume > previous);
        previous = volume;
        last_attack_left = e.stage_left();
    }
    assert_eq!(last_attack_left, 1);
    assert!((previous - 0.9).abs() < 1e-12);
    assert_eq!(e.stage(), EnvelopeStage::Sustain);
    assert_eq!(e.stage_left(), e.current_stage_length());
}

#[test]
fn envelope_decay_falls_to_zero() {
    let mut e = Envelope::new();
    e.reset(1, 1, 5);
    e.advance();
    e.advance();
    assert_eq!(stage_and_left(&e), (EnvelopeStage::Decay, 5));
    let mut volumes = Vec::new();
    while e.stage() == EnvelopeStage::Decay {
        volumes.push(e.stage_left() as f64 / e.current_stage_length() as f64);
        e.advance();
    }
    assert_eq!(volumes, vec![1.0, 0.8, 0.6, 0.4, 0.2]);
    assert_eq!(e.stage(), EnvelopeStage::End);
}

fn default_timing() -> Timing {
    // env_attack 0.4, env_sustain 0.1, env_decay 0.5, each squared and scaled by 100000
    Timing {
        wave_type: WaveType::Square,
        attack: 16000,
        sustain: 1000,
        decay: 25000,
        arp_limit: 0,
        rep_limit: 0,
    }
}

#[test]
fn default_effect_starts_silent_and_ends_before_its_total_length() {
    let t = default_timing();
    let mut c = FrameControl::new(t);
    assert_eq!(c.envelope_stage(), EnvelopeStage::Attack);
    assert_eq!(c.envelope_progress(), (16000, 16000));
    let total = (t.attack + t.sustain + t.decay) as usize;
    let mut last_sounding = 0usize;
    for frame in 1..=44_100usize {
        c.begin_frame();
        if c.envelope_stage() != EnvelopeStage::End {
            last_sounding = frame;
        }
    }
    assert_eq!(last_sounding, total - 1);
    assert!(last_sounding < total);
}
