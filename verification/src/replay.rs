//! What a run shows, frame by frame, follows from its seed and its number
//! of frames alone: nothing is read from the host's clock, and nothing
//! depends on how long the host takes over a frame.

use crate::animation::orbit_time;
use crate::animation::WaveAngle;
use crate::capture::lemma_tick_plans;
use crate::capture::Schedule;
use crate::capture::TICK_MILLIS;
use crate::jitter::draws;
use crate::jitter::seeded;
use crate::scene::lemma_field_waves;
use crate::scene::seeded_field;
use crate::scene::DRAWS;
use vstd::prelude::*;

verus! {

/// A two-hundredth of a turn, as `WaveAngle::turn_numer` counts it: what a
/// quarter of a turn per second covers in one step of the clock.
pub const TURN_STEP: i128 = 33_554_432_000;

/// Frame number `tick` of a run of `frames` frames, counting from one, is
/// rendered at `20 * tick` milliseconds on the virtual clock. At that time
/// the orbit angle is `(20 * tick - 10 * frames) / 4000` radians, and a
/// sphere of the field laid out from `seed` is lifted by the sine of `tick /
/// 200` turns plus its own phase bias. So two runs with the same seed and
/// the same number of frames show the same thing in every frame.
pub proof fn lemma_frame_is_fixed(seed: u64, frames: u32, tick: nat, at: int)
    requires
        1 <= tick <= frames,
        0 <= at < seeded_field(seed).len(),
    ensures
        Schedule::start(frames).plan_of_tick(tick).frame_at == Some((TICK_MILLIS * tick) as u64),
        orbit_time(frames, (TICK_MILLIS * tick) as u64) == 20 * tick - 10 * frames,
        seeded_field(seed)[at].wave.angle_at((TICK_MILLIS * tick) as u64) == (WaveAngle {
            turn_numer: (tick * TURN_STEP) as i128,
            bias: seeded_field(seed)[at].wave.bias,
        }),
{
    lemma_tick_plans(frames, tick);
    lemma_field_waves(draws(seeded(seed), DRAWS as nat), at);
    assert((20 * tick) * 1_677_721_600 == tick * 33_554_432_000) by (nonlinear_arith);
}

} // verus!
