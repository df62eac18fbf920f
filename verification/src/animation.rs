//! Motion: the bobbing of the spheres and the orbit of the camera.
//!
//! Both follow a sine. This module works out, exactly, the angle whose sine
//! is wanted, and what becomes of an object once that sine is known; taking
//! the sine itself is left to the caller, who passes it in as a fixed-point
//! value between minus one and one.

use crate::scene::Sphere;
use crate::units::fixed_product;
use crate::units::lemma_fixed_product_bounded;
use crate::units::mul_fixed;
use crate::units::within_unit;
use crate::units::QUARTER;
use vstd::prelude::*;

verus! {

/// A point in space, each coordinate in counts.
#[derive(Clone, Copy, Debug, PartialEq, Eq)]
pub struct Point {
    pub x: i64,
    pub y: i64,
    pub z: i64,
}

/// How an object bobs: `speed` in turns per second, `ampli` and
/// `base_height` as heights, `bias` as an angle in radians, all in counts.
#[derive(Clone, Copy, Debug, PartialEq, Eq)]
pub struct WaveAble {
    pub speed: i64,
    pub ampli: i64,
    pub base_height: i64,
    pub bias: i64,
}

/// Marks the camera that the orbit drives.
#[derive(Clone, Copy, Debug, PartialEq, Eq)]
pub struct CameraMovement;

/// Where the camera stands and what it looks at.
#[derive(Clone, Copy, Debug, PartialEq, Eq)]
pub struct CameraState {
    pub position: Point,
    pub look_target: Point,
}

/// The angle of a bobbing object: `turn_numer / TURN_DENOM` full turns plus
/// `bias / UNITS` radians.
#[derive(Clone, Copy, Debug, PartialEq, Eq)]
pub struct WaveAngle {
    pub turn_numer: i128,
    pub bias: i64,
}

/// What `WaveAngle::turn_numer` counts: thousandths of a count of a turn.
pub const TURN_DENOM: i128 = 6_710_886_400_000;

/// The orbit angle is the orbit time in milliseconds over this many.
pub const ORBIT_MILLIS_PER_RADIAN: i128 = 4000;

/// The camera's orbit reaches this many wholes to either side along `x`.
pub const ORBIT_REACH_X: i64 = 12;

/// The camera's orbit reaches this many wholes to either side along `z`.
pub const ORBIT_REACH_Z: i64 = 10;

/// The largest size of `ampli` and `base_height` for which a height is sure
/// to fit: `2^61`.
pub const HEIGHT_LIMIT: i64 = 0x2000_0000_0000_0000;

/// The origin.
pub open spec fn origin() -> Point {
    Point { x: 0, y: 0, z: 0 }
}

impl WaveAble {
    /// Whether the heights that this motion reaches fit the coordinate type.
    pub open spec fn bounded(self) -> bool {
        &&& -HEIGHT_LIMIT <= self.ampli <= HEIGHT_LIMIT
        &&& -HEIGHT_LIMIT <= self.base_height <= HEIGHT_LIMIT
    }

    /// The angle `elapsed * speed * 2 pi + bias` after `elapsed_millis`
    /// milliseconds.
    pub open spec fn angle_at(self, elapsed_millis: u64) -> WaveAngle {
        WaveAngle { turn_numer: (elapsed_millis * self.speed) as i128, bias: self.bias }
    }

    /// The height `base_height + sine * ampli`, the product rounded towards
    /// zero.
    pub open spec fn height_for(self, sine: i64) -> int {
        self.base_height + fixed_product(sine as int, self.ampli as int)
    }
}

/// The angle of a bobbing object after `elapsed_millis` milliseconds.
pub fn wave_angle(wave: &WaveAble, elapsed_millis: u64) -> (angle: WaveAngle)
    ensures
        angle == wave.angle_at(elapsed_millis),
        angle.turn_numer == elapsed_millis * wave.speed,
{
    assert(-0x8000_0000_0000_0000_0000_0000_0000_0000 <= (elapsed_millis as int) * (
    wave.speed as int) <= 0x7fff_ffff_ffff_ffff_ffff_ffff_ffff_ffff) by (nonlinear_arith)
        requires
            0 <= (elapsed_millis as int) <= 0xffff_ffff_ffff_ffff,
            -0x8000_0000_0000_0000 <= (wave.speed as int) <= 0x7fff_ffff_ffff_ffff,
    ;
    WaveAngle { turn_numer: (elapsed_millis as i128) * (wave.speed as i128), bias: wave.bias }
}

/// The height of a bobbing object, given the sine of its angle.
pub fn wave_height(wave: &WaveAble, sine: i64) -> (height: i64)
    requires
        wave.bounded(),
        within_unit(sine),
    ensures
        height == wave.height_for(sine),
{
    proof {
        if wave.ampli >= 0 {
            lemma_fixed_product_bounded(sine as int, wave.ampli as int);
        } else {
            lemma_fixed_product_bounded(-(sine as int), -(wave.ampli as int));
            assert((-(sine as int)) * (-(wave.ampli as int)) == (sine as int) * (wave.ampli as int))
                by (nonlinear_arith);
        }
    }
    let swing: i128 = mul_fixed(sine, wave.ampli);
    wave.base_height + (swing as i64)
}

/// The angles of all spheres after `elapsed_millis` milliseconds, sphere by
/// sphere.
pub fn wave_angles(spheres: &Vec<Sphere>, elapsed_millis: u64) -> (angles: Vec<WaveAngle>)
    ensures
        angles.len() == spheres.len(),
        forall|k: int|
            0 <= k < spheres.len() ==> #[trigger] angles[k] == spheres[k].wave.angle_at(
                elapsed_millis,
            ),
{
    let mut angles: Vec<WaveAngle> = Vec::new();
    let mut k: usize = 0;
    while k < spheres.len()
        invariant
            k <= spheres.len(),
            angles.len() == k,
            forall|n: int|
                0 <= n < k ==> #[trigger] angles[n] == spheres[n].wave.angle_at(elapsed_millis),
        decreases spheres.len() - k,
    {
        let angle = wave_angle(&spheres[k].wave, elapsed_millis);
        angles.push(angle);
        k = k + 1;
    }
    angles
}

/// What a sphere becomes once the sine of its angle is known: lifted to the
/// height of its wave, and otherwise as it was.
pub open spec fn waved(sphere: Sphere, sine: i64) -> Sphere {
    Sphere {
        position: Point {
            x: sphere.position.x,
            y: sphere.wave.height_for(sine) as i64,
            z: sphere.position.z,
        },
        gradient: sphere.gradient,
        wave: sphere.wave,
    }
}

/// Moves every sphere to the height of its wave, given the sines of the
/// spheres' angles, sphere by sphere. Only the height changes.
pub fn wave_waveable(spheres: &mut Vec<Sphere>, sines: &Vec<i64>)
    requires
        sines.len() == old(spheres).len(),
        forall|k: int| 0 <= k < sines.len() ==> within_unit(#[trigger] sines[k]),
        forall|k: int| 0 <= k < old(spheres).len() ==> (#[trigger] old(spheres)[k]).wave.bounded(),
    ensures
        final(spheres).len() == old(spheres).len(),
        forall|k: int|
            0 <= k < old(spheres).len() ==> #[trigger] final(spheres)[k] == waved(
                old(spheres)[k],
                sines[k],
            ),
{
    let mut k: usize = 0;
    while k < spheres.len()
        invariant
            k <= spheres.len(),
            spheres.len() == old(spheres).len(),
            sines.len() == spheres.len(),
            forall|n: int| 0 <= n < sines.len() ==> within_unit(#[trigger] sines[n]),
            forall|n: int|
                0 <= n < old(spheres).len() ==> (#[trigger] old(spheres)[n]).wave.bounded(),
            forall|n: int| 0 <= n < k ==> #[trigger] spheres[n] == waved(old(spheres)[n], sines[n]),
            forall|n: int| k <= n < spheres.len() ==> #[trigger] spheres[n] == old(spheres)[n],
        decreases spheres.len() - k,
    {
        let sphere = spheres[k];
        assert(sphere == old(spheres)[k as int]);
        let height = wave_height(&sphere.wave, sines[k]);
        let lifted = Sphere {
            position: Point { x: sphere.position.x, y: height, z: sphere.position.z },
            gradient: sphere.gradient,
            wave: sphere.wave,
        };
        spheres.set(k, lifted);
        k = k + 1;
    }
}

/// The orbit time `elapsed - frames / 100` in milliseconds: the time on the
/// virtual clock, set back by ten milliseconds for every frame of the whole
/// run. The orbit angle is this time over `ORBIT_MILLIS_PER_RADIAN`.
pub open spec fn orbit_time(frames: u32, elapsed_millis: u64) -> int {
    elapsed_millis - 10 * frames
}

/// The orbit time after `elapsed_millis` milliseconds of a run of `frames`
/// frames.
pub fn orbit_millis(frames: u32, elapsed_millis: u64) -> (time: i128)
    ensures
        time == orbit_time(frames, elapsed_millis),
{
    (elapsed_millis as i128) - 10 * (frames as i128)
}

/// Where the camera stands on its orbit, given the sine and the cosine of
/// the orbit angle: twelve times the sine along `x`, ten times the cosine
/// along `z`, the height kept, looking at the origin.
pub open spec fn orbited(camera: CameraState, sine: i64, cosine: i64) -> CameraState {
    CameraState {
        position: Point {
            x: (ORBIT_REACH_X * sine) as i64,
            y: camera.position.y,
            z: (ORBIT_REACH_Z * cosine) as i64,
        },
        look_target: origin(),
    }
}

/// Moves the camera along its orbit, given the sine and the cosine of the
/// orbit angle, and turns it towards the origin.
pub fn move_camera(camera: &mut CameraState, sine: i64, cosine: i64)
    requires
        within_unit(sine),
        within_unit(cosine),
    ensures
        *final(camera) == orbited(*old(camera), sine, cosine),
{
    camera.position.x = ORBIT_REACH_X * sine;
    camera.position.z = ORBIT_REACH_Z * cosine;
    camera.look_target = Point { x: 0, y: 0, z: 0 };
}

/// A height stays within the amplitude of the base height, whatever the
/// sine.
pub proof fn lemma_wave_height_bounds(wave: WaveAble, sine: i64)
    requires
        0 <= wave.ampli,
        within_unit(sine),
    ensures
        wave.base_height - wave.ampli <= wave.height_for(sine) <= wave.base_height + wave.ampli,
{
    lemma_fixed_product_bounded(sine as int, wave.ampli as int);
}

/// At a quarter of a turn per second the bobbing repeats every four seconds:
/// four seconds on, the angle is one full turn further.
pub proof fn lemma_wave_period(wave: WaveAble, elapsed_millis: u64)
    requires
        wave.speed == QUARTER,
        elapsed_millis + 4000 <= u64::MAX,
    ensures
        wave.angle_at((elapsed_millis + 4000) as u64).turn_numer == wave.angle_at(
            elapsed_millis,
        ).turn_numer + TURN_DENOM,
        wave.angle_at((elapsed_millis + 4000) as u64).bias == wave.angle_at(elapsed_millis).bias,
{
    let t = elapsed_millis as int;
    assert((t + 4000) * 1_677_721_600 == t * 1_677_721_600 + 6_710_886_400_000)
        by (nonlinear_arith);
    assert(0 <= t * 1_677_721_600 <= 0xffff_ffff_ffff_ffff * 1_677_721_600) by (nonlinear_arith)
        requires
            0 <= t <= 0xffff_ffff_ffff_ffff,
    ;
}

/// The orbit is an ellipse with half-axes twelve and ten: `(x / 12)^2 +
/// (z / 10)^2` equals `sine^2 + cosine^2`, which is one for the sine and
/// cosine of an angle. The camera looks at the origin throughout.
pub proof fn lemma_orbit_is_ellipse(camera: CameraState, sine: i64, cosine: i64)
    requires
        within_unit(sine),
        within_unit(cosine),
    ensures
        ({
            let moved = orbited(camera, sine, cosine);
            &&& 100 * (moved.position.x * moved.position.x) + 144 * (moved.position.z
                * moved.position.z) == 14400 * (sine * sine + cosine * cosine)
            &&& moved.position.x == 12 * sine
            &&& moved.position.z == 10 * cosine
            &&& moved.position.y == camera.position.y
            &&& moved.look_target == origin()
        }),
{
    let s = sine as int;
    let c = cosine as int;
    assert(100 * ((12 * s) * (12 * s)) + 144 * ((10 * c) * (10 * c)) == 14400 * (s * s + c * c))
        by (nonlinear_arith);
}

/// The orbit time runs from minus half the run's length to plus half of it:
/// it is zero when half the frames' time has passed, and it grows by as much
/// as the clock does.
pub proof fn lemma_orbit_time_centred(frames: u32, elapsed_millis: u64, later_millis: u64)
    requires
        elapsed_millis <= later_millis,
    ensures
        orbit_time(frames, (10 * frames) as u64) == 0,
        orbit_time(frames, later_millis) - orbit_time(frames, elapsed_millis) == later_millis
            - elapsed_millis,
{
}

} // verus!
