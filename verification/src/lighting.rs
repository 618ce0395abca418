//! Key presses feeding the Reactive palette effect.
use vstd::prelude::*;

use rmk_palettefx::effects::ReactiveState;

use crate::is31fl3731::{VoyagerLayout, LED_COUNT, LED_POS};

verus! {

/// Number of simultaneous key hits the Reactive effect remembers. Each hit
/// fades out over about 1.3 s at the default speed, so 16 covers sustained
/// typing at 8-10 keys per second.
pub const REACTIVE_HITS: usize = 16;

#[verifier::external_type_specification]
#[verifier::external_body]
pub struct ExReactiveState<const N: usize>(ReactiveState<N>);

/// The hit slots of a Reactive effect state as (x, y, spawn time in ms),
/// oldest first: the slot that the next recorded hit overwrites comes
/// first.
pub uninterp spec fn reactive_hits(state: ReactiveState<16>) -> Seq<(u8, u8, u32)>;

/// Calls `ReactiveState::record_hit`, which overwrites the oldest of the
/// 16 slots with a hit at (x, y) spawned at `timer_ms` and makes it the
/// newest.
#[verifier::external_body]
fn record_hit(state: &mut ReactiveState<16>, x: u8, y: u8, timer_ms: u32)
    ensures
        reactive_hits(*final(state)) == reactive_hits(*old(state)).drop_first().push((x, y, timer_ms)),
        reactive_hits(*final(state)).len() == REACTIVE_HITS,
{
    state.record_hit(x, y, timer_ms)
}

/// Queues a key press for the Reactive effect: the hit is recorded at the
/// position of LED `led_idx`. Returns whether it was recorded, i.e.
/// whether a fresh render is due; an index that is no LED records nothing.
pub fn record_key_hit(state: &mut ReactiveState<16>, led_idx: u8, timer_ms: u32) -> (recorded: bool)
    ensures
        recorded == (led_idx < LED_COUNT),
        recorded ==> reactive_hits(*final(state)) == reactive_hits(*old(state)).drop_first().push(
            (LED_POS@[led_idx as int].0, LED_POS@[led_idx as int].1, timer_ms),
        ),
        !recorded ==> *final(state) == *old(state),
{
    if (led_idx as usize) < LED_COUNT {
        let (x, y) = VoyagerLayout.position(led_idx as usize);
        record_hit(state, x, y, timer_ms);
        true
    } else {
        false
    }
}

} // verus!
