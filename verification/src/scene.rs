//! The scene as it is laid out once, before the first frame: a disc of
//! spheres picked from a jittered grid, the text centred above it, the
//! ground, the light and the camera.

use crate::animation::origin;
use crate::animation::CameraMovement;
use crate::animation::CameraState;
use crate::animation::Point;
use crate::animation::WaveAble;
use crate::jitter::after;
use crate::jitter::draws;
use crate::jitter::jitter;
use crate::jitter::jitter_of;
use crate::jitter::lemma_draws_len;
use crate::jitter::next_raw;
use crate::jitter::seed_generator;
use crate::jitter::seeded;
use crate::numeric::floor_sqrt;
use crate::numeric::isqrt;
use crate::units::lemma_fixed_product_bounded;
use crate::units::within_unit;
use crate::units::HALF;
use crate::units::QUARTER;
use crate::units::UNITS;
use vstd::prelude::*;
use xorwowgen::xorwow64::WrapB;

verus! {

/// Cells along each side of the grid.
pub const GRID: u32 = 50;

/// Cells of the grid.
pub const CELLS: usize = 2500;

/// Draws that the layout takes from the generator: three for each cell.
pub const DRAWS: usize = 7500;

/// The distance between neighbouring cells: one fifth of a whole.
pub const GRID_STEP: i64 = 1_342_177_280;

/// The radius of the field: five wholes. The grid spans from minus this to
/// just under plus this along both axes.
pub const FIELD_RADIUS: i64 = 33_554_432_000;

/// The square of `FIELD_RADIUS`.
pub const FIELD_RADIUS_SQUARED: u128 = 1_125_899_906_842_624_000_000;

/// How far one grid column moves a sphere along the colour gradient: one
/// fiftieth of a whole.
pub const GRADIENT_STEP: i64 = 134_217_728;

/// The seed of the generator behind the layout.
pub const LAYOUT_SEED: u64 = 12345;

/// The height at which the text floats: one and a half wholes.
pub const TEXT_ELEVATION: i64 = 10_066_329_600;

/// The radius of a sphere: two twenty-fifths of a whole.
pub const SPHERE_RADIUS: i64 = 536_870_912;

/// The height of the ground: twenty-five wholes below the origin.
pub const GROUND_ELEVATION: i64 = -167_772_160_000;

/// The radius of the ground disc: five hundred wholes.
pub const GROUND_RADIUS: i64 = 3_355_443_200_000;

/// The height of the light: three and a half wholes.
pub const LIGHT_ELEVATION: i64 = 23_488_102_400;

/// How far the light stands in front of the scene: seven and a half wholes.
pub const LIGHT_DISTANCE: i64 = 50_331_648_000;

/// The height of the camera: five wholes.
pub const CAMERA_ELEVATION: i64 = 33_554_432_000;

/// A sphere of the field: where it stands, where on the colour gradient its
/// colour is taken, and how it bobs.
#[derive(Clone, Copy, Debug, PartialEq, Eq)]
pub struct Sphere {
    pub position: Point,
    pub gradient: i64,
    pub wave: WaveAble,
}

/// The ground: a flat disc that shows its texture as it is, on both faces
/// and blended by its opacity, and takes no part in lighting or shadows.
#[derive(Clone, Copy, Debug, PartialEq, Eq)]
pub struct Ground {
    /// The middle of the disc.
    pub position: Point,
    /// The radius of the disc.
    pub radius: i64,
    /// Whether the material ignores the light.
    pub unlit: bool,
    /// Whether both faces are drawn.
    pub two_sided: bool,
    /// Whether the texture's opacity blends the disc with what lies behind.
    pub alpha_blend: bool,
    /// Whether the disc casts shadows.
    pub casts_shadows: bool,
    /// Whether shadows fall on the disc.
    pub receives_shadows: bool,
}

/// The scene before the first frame.
#[derive(Debug, PartialEq, Eq)]
pub struct Scene {
    /// Where the text mesh is put, so that it is centred above the origin.
    pub text_position: Point,
    /// The field of spheres.
    pub spheres: Vec<Sphere>,
    /// The ground below the field.
    pub ground: Ground,
    /// The point light.
    pub light_position: Point,
    /// The camera, straight above the origin and looking down at it.
    pub camera: CameraState,
    /// The mark that has the camera driven along the orbit.
    pub movement: CameraMovement,
}

/// A grid coordinate: `index / 5 - 5` plus the jitter of one draw.
pub open spec fn grid_coordinate(index: int, raw: u32) -> int {
    index * GRID_STEP - FIELD_RADIUS + jitter_of(raw)
}

/// The square of a point's distance from the origin.
pub open spec fn distance_squared(point: Point) -> int {
    point.x * point.x + point.y * point.y + point.z * point.z
}

/// Where the sphere of cell `(i, j)` would stand: jittered along both grid
/// axes, and lifted to one half plus the height bias.
pub open spec fn cell_position(i: int, j: int, raw_x: u32, raw_z: u32, raw_height: u32) -> Point {
    Point {
        x: grid_coordinate(i, raw_x) as i64,
        y: (HALF + jitter_of(raw_height)) as i64,
        z: grid_coordinate(j, raw_z) as i64,
    }
}

/// The phase bias `distance * 1.5 + height_bias * 2.5`, rounded down to a
/// whole count.
pub open spec fn phase_bias(distance_sq: int, height_bias: int) -> int {
    floor_sqrt((9 * distance_sq / 4) as nat) + (5 * height_bias) / 2
}

/// Whether a point lies inside the field: strictly nearer to the origin than
/// `FIELD_RADIUS`.
pub open spec fn inside_field(point: Point) -> bool {
    distance_squared(point) < FIELD_RADIUS_SQUARED
}

/// The sphere of cell `(i, j)`, if the cell keeps one: it does exactly when
/// the jittered position lies inside the field.
pub open spec fn placed(i: int, j: int, raw_x: u32, raw_z: u32, raw_height: u32) -> Option<
    Sphere,
> {
    let position = cell_position(i, j, raw_x, raw_z, raw_height);
    if inside_field(position) {
        Some(
            Sphere {
                position,
                gradient: (i * GRADIENT_STEP + jitter_of(raw_height)) as i64,
                wave: WaveAble {
                    speed: QUARTER,
                    ampli: HALF,
                    base_height: HALF,
                    bias: phase_bias(distance_squared(position), jitter_of(raw_height)) as i64,
                },
            },
        )
    } else {
        None
    }
}

/// The square of a coordinate.
fn square(value: i64) -> (r: u128)
    ensures
        r == value * value,
        r <= 0x4000_0000_0000_0000_0000_0000_0000_0000,
{
    assert(0 <= (value as int) * (value as int) <= 0x4000_0000_0000_0000_0000_0000_0000_0000)
        by (nonlinear_arith)
        requires
            -0x8000_0000_0000_0000 <= (value as int) <= 0x7fff_ffff_ffff_ffff,
    ;
    let wide: i128 = (value as i128) * (value as i128);
    wide as u128
}

/// The square of a point's distance from the origin.
pub fn squared_distance(point: &Point) -> (r: u128)
    ensures
        r == distance_squared(*point),
{
    square(point.x) + square(point.y) + square(point.z)
}

/// Places the sphere of cell `(i, j)` from the cell's three draws, or leaves
/// the cell empty when the jittered position is at least `FIELD_RADIUS` from
/// the origin.
pub fn place_sphere(i: u32, j: u32, raw_x: u32, raw_z: u32, raw_height: u32) -> (sphere: Option<
    Sphere,
>)
    ensures
        sphere == placed(i as int, j as int, raw_x, raw_z, raw_height),
{
    let height_bias: i64 = jitter(raw_height);
    let x: i64 = (i as i64) * GRID_STEP - FIELD_RADIUS + jitter(raw_x);
    let z: i64 = (j as i64) * GRID_STEP - FIELD_RADIUS + jitter(raw_z);
    let position = Point { x, y: HALF + height_bias, z };
    let distance_sq: u128 = squared_distance(&position);
    if distance_sq < FIELD_RADIUS_SQUARED {
        let reach: u64 = isqrt(9 * distance_sq / 4);
        proof {
            assert(reach * reach <= 9 * distance_sq / 4);
            assert(reach < 0x10_0000_0000) by (nonlinear_arith)
                requires
                    reach * reach <= 2_533_274_790_395_904_000_000,
            ;
        }
        let bias: i64 = (reach as i64) + (5 * height_bias) / 2;
        Some(
            Sphere {
                position,
                gradient: (i as i64) * GRADIENT_STEP + height_bias,
                wave: WaveAble { speed: QUARTER, ampli: HALF, base_height: HALF, bias },
            },
        )
    } else {
        None
    }
}

/// The first `count` draws of the generator seeded with `seed`.
pub fn seeded_draws(seed: u64, count: usize) -> (raws: Vec<u32>)
    ensures
        raws@ == draws(seeded(seed), count as nat),
{
    let mut generator = seed_generator(seed);
    draw_many(&mut generator, count)
}

/// The sphere that `cell` keeps, if any, counting cells column by column
/// (`cell = 50 * i + j`) and taking the cell's three draws, for `x`, `z` and
/// the height bias, from `raws` in that order.
pub open spec fn placed_cell(raws: Seq<u32>, cell: int) -> Option<Sphere> {
    placed(cell / 50, cell % 50, raws[3 * cell], raws[3 * cell + 1], raws[3 * cell + 2])
}

/// The spheres that the first `cells` cells keep, in cell order.
pub open spec fn field_prefix(raws: Seq<u32>, cells: nat) -> Seq<Sphere>
    decreases cells,
{
    if cells == 0 {
        Seq::empty()
    } else {
        let before = field_prefix(raws, (cells - 1) as nat);
        match placed_cell(raws, cells - 1) {
            Some(sphere) => before.push(sphere),
            None => before,
        }
    }
}

/// The field: the spheres that the 2500 cells keep, in cell order.
pub open spec fn field(raws: Seq<u32>) -> Seq<Sphere> {
    field_prefix(raws, CELLS as nat)
}

/// What holds of every field, whatever the draws: it has no more spheres
/// than the grid has cells, every sphere stands inside the field, and every
/// sphere's heights fit.
pub open spec fn well_laid(spheres: Seq<Sphere>) -> bool {
    &&& spheres.len() <= CELLS
    &&& forall|at: int|
        0 <= at < spheres.len() ==> inside_field((#[trigger] spheres[at]).position)
            && spheres[at].wave.bounded()
}

/// Takes `count` draws from the generator.
pub fn draw_many(generator: &mut WrapB, count: usize) -> (raws: Vec<u32>)
    ensures
        raws@ == draws(*old(generator), count as nat),
        *final(generator) == after(*old(generator), count as nat),
{
    let ghost start = *generator;
    let mut raws: Vec<u32> = Vec::new();
    let mut taken: usize = 0;
    while taken < count
        invariant
            taken <= count,
            raws@ == draws(start, taken as nat),
            *generator == after(start, taken as nat),
        decreases count - taken,
    {
        let raw = next_raw(generator);
        raws.push(raw);
        taken = taken + 1;
    }
    raws
}

/// Lays the field out from the draws that its cells take, three a cell.
fn lay_out(raws: &Vec<u32>) -> (spheres: Vec<Sphere>)
    requires
        raws.len() == DRAWS,
    ensures
        spheres@ == field(raws@),
        well_laid(spheres@),
{
    proof {
        lemma_field_well_laid(raws@);
    }
    let mut spheres: Vec<Sphere> = Vec::new();
    let mut i: u32 = 0;
    while i < GRID
        invariant
            i <= GRID,
            raws.len() == DRAWS,
            spheres@ == field_prefix(raws@, (50 * i) as nat),
        decreases GRID - i,
    {
        let mut j: u32 = 0;
        while j < GRID
            invariant
                i < GRID,
                j <= GRID,
                raws.len() == DRAWS,
                spheres@ == field_prefix(raws@, (50 * i + j) as nat),
            decreases GRID - j,
        {
            let cell: usize = (i as usize) * 50 + (j as usize);
            let placed = place_sphere(i, j, raws[3 * cell], raws[3 * cell + 1], raws[3 * cell + 2]);
            assert(placed == placed_cell(raws@, cell as int));
            match placed {
                Some(sphere) => {
                    spheres.push(sphere);
                },
                None => {},
            }
            j = j + 1;
        }
        i = i + 1;
    }
    spheres
}

/// Lays the field out from the 7500 draws that its cells take, three a cell.
/// Any other number of draws is refused.
pub fn sphere_layout(raws: &Vec<u32>) -> (spheres: Option<Vec<Sphere>>)
    ensures
        raws.len() == DRAWS ==> spheres is Some && spheres->0@ == field(raws@),
        raws.len() != DRAWS ==> spheres is None,
        spheres is Some ==> well_laid(spheres->0@),
{
    if raws.len() == DRAWS {
        Some(lay_out(raws))
    } else {
        None
    }
}

/// Lays the field out with draws from `generator`, which is left 7500 draws
/// further on.
pub fn sphere_field(generator: &mut WrapB) -> (spheres: Vec<Sphere>)
    ensures
        spheres@ == field(draws(*old(generator), DRAWS as nat)),
        well_laid(spheres@),
        *final(generator) == after(*old(generator), DRAWS as nat),
{
    proof {
        lemma_draws_len(*generator, DRAWS as nat);
    }
    let raws = draw_many(generator, DRAWS);
    lay_out(&raws)
}

/// Filtering drops spheres and never adds one: the first `cells` cells keep
/// at most `cells` spheres.
pub proof fn lemma_field_prefix_len(raws: Seq<u32>, cells: nat)
    ensures
        field_prefix(raws, cells).len() <= cells,
    decreases cells,
{
    if cells > 0 {
        lemma_field_prefix_len(raws, (cells - 1) as nat);
    }
}

/// What an earlier cell keeps stays in the field as later cells are added.
proof fn lemma_field_prefix_keeps(raws: Seq<u32>, cell: int, cells: nat)
    requires
        0 <= cell < cells,
        placed_cell(raws, cell) is Some,
    ensures
        field_prefix(raws, cells).contains(placed_cell(raws, cell)->0),
    decreases cells,
{
    let before = field_prefix(raws, (cells - 1) as nat);
    let whole = field_prefix(raws, cells);
    let sphere = placed_cell(raws, cell)->0;
    if cell == cells - 1 {
        assert(whole == before.push(sphere));
        assert(whole[before.len() as int] == sphere);
    } else {
        lemma_field_prefix_keeps(raws, cell, (cells - 1) as nat);
        let at = choose|at: int| 0 <= at < before.len() && before[at] == sphere;
        assert(whole[at] == sphere);
    }
}

/// Every sphere among those of the first `cells` cells is the sphere of one
/// of these cells.
proof fn lemma_field_prefix_origin(raws: Seq<u32>, cells: nat, at: int) -> (cell: int)
    requires
        0 <= at < field_prefix(raws, cells).len(),
    ensures
        0 <= cell < cells,
        placed_cell(raws, cell) == Some(field_prefix(raws, cells)[at]),
    decreases cells,
{
    let before = field_prefix(raws, (cells - 1) as nat);
    if at < before.len() {
        lemma_field_prefix_origin(raws, (cells - 1) as nat, at)
    } else {
        cells - 1
    }
}

/// The radial filter, cell by cell: a cell keeps its sphere exactly when the
/// jittered position is strictly nearer to the origin than `FIELD_RADIUS`,
/// and a sphere that is kept is in the field.
pub proof fn lemma_radial_filter(raws: Seq<u32>, cell: int)
    requires
        0 <= cell < CELLS,
    ensures
        placed_cell(raws, cell) is Some <==> inside_field(
            cell_position(
                cell / 50,
                cell % 50,
                raws[3 * cell],
                raws[3 * cell + 1],
                raws[3 * cell + 2],
            ),
        ),
        placed_cell(raws, cell) is Some ==> field(raws).contains(placed_cell(raws, cell)->0),
{
    if placed_cell(raws, cell) is Some {
        lemma_field_prefix_keeps(raws, cell, CELLS as nat);
    }
}

/// The radial filter, sphere by sphere: every sphere of the field is the
/// sphere of a cell and stands strictly nearer to the origin than
/// `FIELD_RADIUS`; and the field holds at most as many spheres as the grid
/// has cells.
pub proof fn lemma_field_members(raws: Seq<u32>, at: int)
    requires
        0 <= at < field(raws).len(),
    ensures
        exists|cell: int| 0 <= cell < CELLS && placed_cell(raws, cell) == Some(field(raws)[at]),
        inside_field(field(raws)[at].position),
        field(raws).len() <= CELLS,
{
    let cell = lemma_field_prefix_origin(raws, CELLS as nat, at);
    assert(0 <= cell < CELLS && placed_cell(raws, cell) == Some(field(raws)[at]));
    lemma_field_prefix_len(raws, CELLS as nat);
}

/// Every field is well laid, whatever the draws.
pub proof fn lemma_field_well_laid(raws: Seq<u32>)
    ensures
        well_laid(field(raws)),
{
    lemma_field_prefix_len(raws, CELLS as nat);
    assert forall|at: int| 0 <= at < field(raws).len() implies inside_field(
        (#[trigger] field(raws)[at]).position,
    ) && field(raws)[at].wave.bounded() by {
        let cell = lemma_field_prefix_origin(raws, CELLS as nat, at);
    }
}

/// The cell in the middle of the grid, whose position before jitter is the
/// origin, keeps its sphere whatever the draws.
pub proof fn lemma_centre_cell_kept(raw_x: u32, raw_z: u32, raw_height: u32)
    ensures
        placed(25, 25, raw_x, raw_z, raw_height) is Some,
{
    let point = cell_position(25, 25, raw_x, raw_z, raw_height);
    let x = point.x as int;
    let y = point.y as int;
    let z = point.z as int;
    assert(x * x <= 83_886_080 * 83_886_080) by (nonlinear_arith)
        requires
            -83_886_080 <= x <= 83_886_080,
    ;
    assert(z * z <= 83_886_080 * 83_886_080) by (nonlinear_arith)
        requires
            -83_886_080 <= z <= 83_886_080,
    ;
    assert(y * y <= 3_439_329_280 * 3_439_329_280) by (nonlinear_arith)
        requires
            0 <= y <= 3_439_329_280,
    ;
}

/// The last cell of the grid, far out in a corner, keeps no sphere whatever
/// the draws.
pub proof fn lemma_corner_cell_dropped(raw_x: u32, raw_z: u32, raw_height: u32)
    ensures
        placed(49, 49, raw_x, raw_z, raw_height) is None,
{
    let point = cell_position(49, 49, raw_x, raw_z, raw_height);
    let x = point.x as int;
    let y = point.y as int;
    let z = point.z as int;
    assert(x * x >= 32_128_368_640 * 32_128_368_640) by (nonlinear_arith)
        requires
            x >= 32_128_368_640,
    ;
    assert(z * z >= 32_128_368_640 * 32_128_368_640) by (nonlinear_arith)
        requires
            z >= 32_128_368_640,
    ;
    assert(y * y >= 0) by (nonlinear_arith);
}

/// Half a width, turned backwards: the offset that centres something of
/// that width. The half is rounded towards zero.
pub open spec fn centring_offset(width: i64) -> int {
    if width >= 0 {
        -(width / 2)
    } else {
        (-width) / 2
    }
}

/// The ground of the scene.
pub open spec fn planned_ground() -> Ground {
    Ground {
        position: Point { x: 0, y: GROUND_ELEVATION, z: 0 },
        radius: GROUND_RADIUS,
        unlit: true,
        two_sided: true,
        alpha_blend: true,
        casts_shadows: false,
        receives_shadows: false,
    }
}

/// The field that the generator seeded with `seed` lays out.
pub open spec fn seeded_field(seed: u64) -> Seq<Sphere> {
    field(draws(seeded(seed), DRAWS as nat))
}

/// Composes the scene around a text mesh of the given width: the text
/// centred along `x` at its elevation, the field laid out from
/// `LAYOUT_SEED`, the ground below, the light above and in front, and the
/// camera straight above the origin.
pub fn setup(text_width: i64) -> (scene: Scene)
    ensures
        scene.text_position == (Point {
            x: centring_offset(text_width) as i64,
            y: TEXT_ELEVATION,
            z: 0,
        }),
        scene.spheres@ == seeded_field(LAYOUT_SEED),
        well_laid(scene.spheres@),
        scene.ground == planned_ground(),
        scene.light_position == (Point { x: 0, y: LIGHT_ELEVATION, z: LIGHT_DISTANCE }),
        scene.camera == (CameraState {
            position: Point { x: 0, y: CAMERA_ELEVATION, z: 0 },
            look_target: origin(),
        }),
{
    let mut generator = seed_generator(LAYOUT_SEED);
    let spheres = sphere_field(&mut generator);
    Scene {
        text_position: Point { x: -(text_width / 2), y: TEXT_ELEVATION, z: 0 },
        spheres,
        ground: Ground {
            position: Point { x: 0, y: GROUND_ELEVATION, z: 0 },
            radius: GROUND_RADIUS,
            unlit: true,
            two_sided: true,
            alpha_blend: true,
            casts_shadows: false,
            receives_shadows: false,
        },
        light_position: Point { x: 0, y: LIGHT_ELEVATION, z: LIGHT_DISTANCE },
        camera: CameraState {
            position: Point { x: 0, y: CAMERA_ELEVATION, z: 0 },
            look_target: Point { x: 0, y: 0, z: 0 },
        },
        movement: CameraMovement,
    }
}

/// Every sphere of the field bobs alike but for its phase: a quarter of a
/// turn per second, by half a whole to either side of half a whole.
pub proof fn lemma_field_waves(raws: Seq<u32>, at: int)
    requires
        0 <= at < field(raws).len(),
    ensures
        field(raws)[at].wave.speed == QUARTER,
        field(raws)[at].wave.ampli == HALF,
        field(raws)[at].wave.base_height == HALF,
        field(raws)[at].wave.bounded(),
{
    let cell = lemma_field_prefix_origin(raws, CELLS as nat, at);
}

/// The height of a sphere of the field stays between nothing and one whole,
/// whatever the sine of its angle.
pub proof fn lemma_field_heights(raws: Seq<u32>, at: int, sine: i64)
    requires
        0 <= at < field(raws).len(),
        within_unit(sine),
    ensures
        0 <= field(raws)[at].wave.height_for(sine) <= UNITS,
{
    lemma_field_waves(raws, at);
    lemma_fixed_product_bounded(sine as int, HALF as int);
}

/// The phase bias of a kept sphere is `distance * 1.5 + height_bias * 2.5`
/// rounded down: with the height's share taken off, it is the largest count
/// `b` with `b <= distance * 1.5`, that is with `4 b^2 <= 9 distance^2`.
pub proof fn lemma_phase_bias_rounds_down(distance_sq: int, height_bias: int)
    requires
        0 <= distance_sq,
        height_bias % 2 == 0,
    ensures
        ({
            let share = phase_bias(distance_sq, height_bias) - 5 * (height_bias / 2);
            &&& 0 <= share
            &&& 4 * (share * share) <= 9 * distance_sq
            &&& 9 * distance_sq < 4 * ((share + 1) * (share + 1))
        }),
{
    let scaled = (9 * distance_sq / 4) as nat;
    crate::numeric::lemma_floor_sqrt_is_root(scaled);
    let share = floor_sqrt(scaled) as int;
    assert(phase_bias(distance_sq, height_bias) - 5 * (height_bias / 2) == share);
    assert(4 * scaled <= 9 * distance_sq < 4 * scaled + 4);
    assert(4 * (share * share) <= 4 * scaled) by (nonlinear_arith)
        requires
            share * share <= scaled,
    ;
    assert(4 * ((share + 1) * (share + 1)) >= 4 * scaled + 4) by (nonlinear_arith)
        requires
            scaled < (share + 1) * (share + 1),
    ;
}

} // verus!
