use vstd::prelude::*;

verus! {

/// Number of samples a delay line remembers.
pub const DELAY_LEN: usize = 1024;

/// A circular delay line of `DELAY_LEN` samples, the memory of a feed-forward
/// comb filter. Its view is the samples it remembers, oldest first.
pub struct DelayLine<T> {
    buffer: Vec<T>,
    pos: usize,
}

impl<T> View for DelayLine<T> {
    type V = Seq<T>;

    closed spec fn view(&self) -> Seq<T> {
        Seq::new(DELAY_LEN as nat, |k: int| self.buffer@[slot(self.pos as int, k)])
    }
}

/// The slot `k` places after `pos`, going round the end of the buffer.
pub open spec fn slot(pos: int, k: int) -> int {
    if pos + k < DELAY_LEN { pos + k } else { pos + k - DELAY_LEN }
}

/// The delay actually applied for a requested delay: at most `DELAY_LEN - 1`.
pub open spec fn clamped_delay(delay: nat) -> int {
    if delay < DELAY_LEN { delay as int } else { DELAY_LEN - 1 }
}

impl<T> DelayLine<T> {
    /// The buffer holds `DELAY_LEN` slots and the write position is one of them.
    pub closed spec fn wf(self) -> bool {
        &&& self.buffer.len() == DELAY_LEN
        &&& self.pos < DELAY_LEN
    }
}

impl<T: Copy> DelayLine<T> {
    /// A delay line that remembers `fill` in every slot.
    pub fn new(fill: T) -> (r: DelayLine<T>)
        ensures
            r.wf(),
            r@ == Seq::new(DELAY_LEN as nat, |k: int| fill),
    {
        let mut buffer: Vec<T> = Vec::new();
        while buffer.len() < DELAY_LEN
            invariant
                buffer.len() <= DELAY_LEN,
                forall|k: int| 0 <= k < buffer.len() ==> buffer@[k] == fill,
            decreases DELAY_LEN - buffer.len(),
        {
            buffer.push(fill);
        }
        let r = DelayLine { buffer, pos: 0 };
        assert(r@ =~= Seq::new(DELAY_LEN as nat, |k: int| fill));
        r
    }

    /// Writes `x` as the newest sample, forgetting the oldest, and returns the
    /// sample written `delay` writes before it (with `delay` capped at
    /// `DELAY_LEN - 1`); a delay of zero returns `x` itself.
    pub fn tap(&mut self, x: T, delay: u32) -> (r: T)
        requires
            old(self).wf(),
        ensures
            final(self).wf(),
            final(self)@ == old(self)@.drop_first().push(x),
            r == final(self)@[DELAY_LEN - 1 - clamped_delay(delay as nat)],
    {
        let ghost before = self@;
        let d: usize = if delay < DELAY_LEN as u32 { delay as usize } else { DELAY_LEN - 1 };
        let at: usize = self.pos;
        self.buffer.set(at, x);
        let read: usize = if at >= d { at - d } else { at + DELAY_LEN - d };
        let r = self.buffer[read];
        self.pos = if at + 1 < DELAY_LEN { at + 1 } else { 0 };
        proof {
            assert forall|k: int| 0 <= k < DELAY_LEN implies #[trigger] self@[k]
                == before.drop_first().push(x)[k] by {
                if k < DELAY_LEN - 1 {
                    assert(slot(self.pos as int, k) == slot(at as int, k + 1));
                }
            }
            assert(self@ =~= before.drop_first().push(x));
        }
        r
    }
}

} // verus!
