use vstd::prelude::*;

use rand::rngs::SmallRng;
use rand::Rng;

verus! {

#[verifier::external_type_specification]
#[verifier::external_body]
pub struct ExSmallRng(SmallRng);

/// Relies on rand's `Rng::gen::<u32>` on a `SmallRng`: it returns the next
/// `u32` of the generator's stream, which may be any value.
#[verifier::external_body]
fn draw_u32(rng: &mut SmallRng) -> u32 {
    rng.gen::<u32>()
}

/// Whether a draw lands among the first `chance_true` of
/// `chance_true + chance_false` equally likely outcomes.
pub open spec fn chance_spec(draw: u32, chance_true: u32, chance_false: u32) -> bool {
    (draw as int) % (chance_true as int + chance_false as int) < chance_true
}

/// Decides a `chance_true : chance_false` coin from a draw.
pub fn chance(draw: u32, chance_true: u32, chance_false: u32) -> (r: bool)
    requires
        0 < chance_true as int + chance_false as int <= u32::MAX,
    ensures
        r == chance_spec(draw, chance_true, chance_false),
{
    draw % (chance_true + chance_false) < chance_true
}

/// Draws a random `bool` with `chance_true : chance_false` odds of `true`.
pub fn rand_bool(rng: &mut SmallRng, chance_true: u32, chance_false: u32) -> (r: bool)
    requires
        0 < chance_true as int + chance_false as int <= u32::MAX,
    ensures
        exists|d: u32| r == #[trigger] chance_spec(d, chance_true, chance_false),
        chance_true == 0 ==> !r,
        chance_false == 0 ==> r,
{
    let draw = draw_u32(rng);
    let r = chance(draw, chance_true, chance_false);
    proof {
        assert(r == chance_spec(draw, chance_true, chance_false));
    }
    r
}

/// Picks the item that a draw selects: the draw taken modulo the length.
pub fn pick<T: Copy>(draw: u32, items: &[T]) -> (r: T)
    requires
        items@.len() > 0,
    ensures
        r == items@[(draw as int) % (items@.len() as int)],
{
    items[draw as usize % items.len()]
}

/// Picks a random item of a non-empty slice.
pub fn rand_element<T: Copy>(rng: &mut SmallRng, items: &[T]) -> (r: T)
    requires
        items@.len() > 0,
    ensures
        exists|d: u32| r == #[trigger] items@[(d as int) % (items@.len() as int)],
        items@.contains(r),
{
    let draw = draw_u32(rng);
    let r = pick(draw, items);
    proof {
        let i = (draw as int) % (items@.len() as int);
        assert(items@[i] == r);
    }
    r
}

} // verus!
