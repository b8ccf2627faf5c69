use vstd::prelude::*;

verus! {

/// The stages of the volume envelope, in the order they are walked.
#[derive(PartialEq, Eq, Structural, Clone, Copy, Debug)]
pub enum EnvelopeStage {
    Attack,
    Sustain,
    Decay,
    End,
}

/// The stage that follows `stage`; `End` is terminal.
pub open spec fn next_stage(stage: EnvelopeStage) -> EnvelopeStage {
    match stage {
        EnvelopeStage::Attack => EnvelopeStage::Sustain,
        EnvelopeStage::Sustain => EnvelopeStage::Decay,
        EnvelopeStage::Decay => EnvelopeStage::End,
        EnvelopeStage::End => EnvelopeStage::End,
    }
}

/// Mathematical model of an envelope: the current stage, the frames left in
/// it, and the length in frames of each timed stage.
pub ghost struct EnvelopeView {
    pub stage: EnvelopeStage,
    pub left: nat,
    pub attack: nat,
    pub sustain: nat,
    pub decay: nat,
}

impl EnvelopeView {
    /// Length in frames of `stage`; the terminal stage has length zero.
    pub open spec fn length_of(self, stage: EnvelopeStage) -> nat {
        match stage {
            EnvelopeStage::Attack => self.attack,
            EnvelopeStage::Sustain => self.sustain,
            EnvelopeStage::Decay => self.decay,
            EnvelopeStage::End => 0,
        }
    }

    pub open spec fn stage_length(self) -> nat {
        self.length_of(self.stage)
    }

    /// The envelope as `reset` leaves it: at the start of the attack.
    pub open spec fn started(attack: nat, sustain: nat, decay: nat) -> EnvelopeView {
        EnvelopeView { stage: EnvelopeStage::Attack, left: attack, attack, sustain, decay }
    }

    /// One frame later: count down within the stage, or move on to the next
    /// stage with its full length once at most one frame was left.
    pub open spec fn advanced(self) -> EnvelopeView {
        if self.left > 1 {
            EnvelopeView { left: (self.left - 1) as nat, ..self }
        } else {
            EnvelopeView {
                stage: next_stage(self.stage),
                left: self.length_of(next_stage(self.stage)),
                ..self
            }
        }
    }

}

/// The volume envelope: a countdown through attack, sustain and decay.
///
/// The volume multiplier at a frame is a function of the stage and of
/// `dt = left / stage_length`: `1 - dt` in attack, `1 + 2 * punch * dt` in
/// sustain, `dt` in decay and `0` at the end.
pub struct Envelope {
    stage: EnvelopeStage,
    stage_left: u32,
    attack: u32,
    sustain: u32,
    decay: u32,
}

impl View for Envelope {
    type V = EnvelopeView;

    closed spec fn view(&self) -> EnvelopeView {
        EnvelopeView {
            stage: self.stage,
            left: self.stage_left as nat,
            attack: self.attack as nat,
            sustain: self.sustain as nat,
            decay: self.decay as nat,
        }
    }
}

impl Envelope {
    /// An envelope with all stage lengths zero, at the attack stage.
    pub fn new() -> (r: Envelope)
        ensures
            r@ == EnvelopeView::started(0, 0, 0),
    {
        Envelope { stage: EnvelopeStage::Attack, stage_left: 0, attack: 0, sustain: 0, decay: 0 }
    }

    /// Sets the stage lengths, in frames, and rewinds to the start of the attack.
    pub fn reset(&mut self, attack: u32, sustain: u32, decay: u32)
        ensures
            final(self)@ == EnvelopeView::started(attack as nat, sustain as nat, decay as nat),
    {
        self.attack = attack;
        self.sustain = sustain;
        self.decay = decay;
        self.stage = EnvelopeStage::Attack;
        self.stage_left = self.current_stage_length();
    }

    /// Moves the envelope on by one frame.
    pub fn advance(&mut self)
        ensures
            final(self)@ == old(self)@.advanced(),
    {
        if self.stage_left > 1 {
            self.stage_left = self.stage_left - 1;
        } else {
            self.stage = match self.stage {
                EnvelopeStage::Attack => EnvelopeStage::Sustain,
                EnvelopeStage::Sustain => EnvelopeStage::Decay,
                EnvelopeStage::Decay => EnvelopeStage::End,
                EnvelopeStage::End => EnvelopeStage::End,
            };
            self.stage_left = self.current_stage_length();
        }
    }

    /// Length in frames of the current stage.
    pub fn current_stage_length(&self) -> (r: u32)
        ensures
            r as nat == self@.stage_length(),
    {
        match self.stage {
            EnvelopeStage::Attack => self.attack,
            EnvelopeStage::Sustain => self.sustain,
            EnvelopeStage::Decay => self.decay,
            EnvelopeStage::End => 0,
        }
    }

    pub fn stage(&self) -> (r: EnvelopeStage)
        ensures
            r == self@.stage,
    {
        self.stage
    }

    /// Frames left in the current stage: the numerator of `dt`.
    pub fn stage_left(&self) -> (r: u32)
        ensures
            r as nat == self@.left,
    {
        self.stage_left
    }
}

/// The volume is continuous across the attack-to-sustain boundary. Within the
/// attack `dt` falls by one frame per frame, so the volume `1 - dt` rises; the
/// attack is left only from `dt <= 1 / attack`, within one frame of volume 1;
/// the sustain is entered at `dt = 1` and then also falls by one frame per
/// frame, so its volume `1 + 2 * punch * dt` approaches 1.
pub proof fn lemma_attack_meets_sustain(v: EnvelopeView)
    requires
        v.stage == EnvelopeStage::Attack || v.stage == EnvelopeStage::Sustain,
    ensures
        v.advanced().stage == v.stage ==> v.advanced().left == v.left - 1,
        v.stage == EnvelopeStage::Attack && v.advanced().stage != v.stage ==> {
            &&& v.left <= 1
            &&& v.advanced().stage == EnvelopeStage::Sustain
            &&& v.advanced().left == v.sustain
        },
{
}

/// During the decay the volume `dt` falls monotonically from 1 to 0: the
/// decay is entered at `dt = 1`, `dt` falls by one frame per frame, and the
/// decay is left only from its last frame, into the end stage whose volume
/// is 0 and which is never left.
pub proof fn lemma_decay_falls(v: EnvelopeView)
    ensures
        v.stage == EnvelopeStage::Sustain && v.advanced().stage == EnvelopeStage::Decay
            ==> v.advanced().left == v.decay,
        v.stage == EnvelopeStage::Decay && v.advanced().stage == EnvelopeStage::Decay
            ==> v.advanced().left == v.left - 1,
        v.stage == EnvelopeStage::Decay && v.advanced().stage != EnvelopeStage::Decay ==> {
            &&& v.left <= 1
            &&& v.advanced().stage == EnvelopeStage::End
        },
        v.stage == EnvelopeStage::End ==> v.advanced().stage == EnvelopeStage::End,
{
}

} // verus!
