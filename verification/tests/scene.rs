use rand::SeedableRng;
use textgenturbo::animation::CameraState;
use textgenturbo::animation::Point;
use textgenturbo::animation::WaveAble;
use textgenturbo::scene::place_sphere;
use textgenturbo::scene::seeded_draws;
use textgenturbo::scene::setup;
use textgenturbo::scene::sphere_field;
use textgenturbo::scene::sphere_layout;
use textgenturbo::scene::squared_distance;
use textgenturbo::scene::Ground;
use textgenturbo::scene::Sphere;
use textgenturbo::scene::SPHERE_RADIUS;
use textgenturbo::scene::CELLS;
use textgenturbo::scene::DRAWS;
use textgenturbo::scene::FIELD_RADIUS;
use textgenturbo::scene::FIELD_RADIUS_SQUARED;
use textgenturbo::scene::GRADIENT_STEP;
use textgenturbo::scene::GRID;
use textgenturbo::scene::GRID_STEP;
use textgenturbo::scene::LAYOUT_SEED;
use textgenturbo::units::HALF;
use textgenturbo::units::QUARTER;
use textgenturbo::units::UNITS;
use xorwowgen::xorwow64::WrapB;

const MIDDLE: u32 = 0x8000_0000;

#[test]
fn layout_constants_agree() {
    assert_eq!(GRID_STEP * 5, UNITS);
    assert_eq!(FIELD_RADIUS, 5 * UNITS);
    assert_eq!(FIELD_RADIUS_SQUARED, (FIELD_RADIUS as u128) * (FIELD_RADIUS as u128));
    assert_eq!(GRADIENT_STEP * 50, UNITS);
    assert_eq!(CELLS, (GRID * GRID) as usize);
    assert_eq!(DRAWS, 3 * CELLS);
    assert_eq!(LAYOUT_SEED, 12345);
}

#[test]
fn centre_cell_is_kept() {
    let sphere = place_sphere(25, 25, MIDDLE, MIDDLE, MIDDLE);
    assert_eq!(
        sphere,
        Some(Sphere {
            position: Point { x: 0, y: 3_355_443_200, z: 0 },
            gradient: 3_355_443_200,
            wave: WaveAble {
                speed: 1_677_721_600,
                ampli: 3_355_443_200,
                base_height: 3_355_443_200,
                bias: 5_033_164_800,
            },
        })
    );
    for raw in [0u32, 1, 255, 256, MIDDLE, u32::MAX - 256, u32::MAX] {
        assert!(place_sphere(25, 25, raw, raw, raw).is_some());
        assert!(place_sphere(25, 25, raw, !raw, MIDDLE).is_some());
    }
}

#[test]
fn corner_cell_is_dropped() {
    for raw in [0u32, 1, 255, 256, MIDDLE, u32::MAX - 256, u32::MAX] {
        assert_eq!(place_sphere(49, 49, raw, raw, raw), None);
        assert_eq!(place_sphere(49, 49, raw, !raw, MIDDLE), None);
        assert_eq!(place_sphere(0, 0, raw, raw, raw), None);
    }
}

#[test]
fn rim_cells_go_by_their_distance() {
    assert_eq!(place_sphere(0, 25, MIDDLE, MIDDLE, MIDDLE), None);
    assert_eq!(
        place_sphere(1, 25, MIDDLE, MIDDLE, MIDDLE),
        Some(Sphere {
            position: Point { x: -32_212_254_720, y: 3_355_443_200, z: 0 },
            gradient: 134_217_728,
            wave: WaveAble {
                speed: QUARTER,
                ampli: HALF,
                base_height: HALF,
                bias: 48_579_818_800,
            },
        })
    );
}

#[test]
fn jittered_cells_match_the_formula() {
    assert_eq!(place_sphere(3, 40, 123456789, 987654321, 555555555), None);
    assert_eq!(
        place_sphere(10, 12, 123456789, 987654321, 555555555),
        Some(Sphere {
            position: Point { x: -20_211_722_750, y: 3_293_258_500, z: -17_493_610_480 },
            gradient: 1_279_992_580,
            wave: WaveAble {
                speed: QUARTER,
                ampli: HALF,
                base_height: HALF,
                bias: 40_244_016_158,
            },
        })
    );
}

#[test]
fn cells_far_off_the_grid_are_dropped() {
    assert_eq!(place_sphere(u32::MAX, u32::MAX, u32::MAX, u32::MAX, u32::MAX), None);
    assert_eq!(place_sphere(u32::MAX, 25, 0, 0, 0), None);
    assert_eq!(place_sphere(50, 25, MIDDLE, MIDDLE, MIDDLE), None);
}

#[test]
fn squared_distance_adds_the_squares() {
    assert_eq!(squared_distance(&Point { x: 3, y: -4, z: 12 }), 169);
    assert_eq!(squared_distance(&Point { x: 0, y: 0, z: 0 }), 0);
    assert_eq!(
        squared_distance(&Point { x: i64::MIN, y: i64::MIN, z: i64::MIN }),
        3 * (1u128 << 126)
    );
}

#[test]
fn layout_needs_three_draws_a_cell() {
    assert_eq!(sphere_layout(&Vec::new()), None);
    assert_eq!(sphere_layout(&vec![0u32; 7499]), None);
    assert_eq!(sphere_layout(&vec![0u32; 7501]), None);
    assert!(sphere_layout(&vec![0u32; 7500]).is_some());
}

#[test]
fn layout_of_equal_draws() {
    let spheres = sphere_layout(&vec![0u32; 7500]).unwrap();
    assert_eq!(spheres.len(), 1939);
    assert_eq!(
        spheres[0],
        Sphere {
            position: Point { x: -32_296_140_800, y: 3_271_557_120, z: -8_136_949_760 },
            gradient: 50_331_648,
            wave: WaveAble {
                speed: QUARTER,
                ampli: HALF,
                base_height: HALF,
                bias: 49_988_849_848,
            },
        }
    );
    assert_eq!(
        spheres[1938],
        Sphere {
            position: Point { x: 32_128_368_640, y: 3_271_557_120, z: 7_969_177_600 },
            gradient: 6_492_782_592,
            wave: WaveAble {
                speed: QUARTER,
                ampli: HALF,
                base_height: HALF,
                bias: 49_685_140_601,
            },
        }
    );
}

#[test]
fn layout_keeps_exactly_the_cells_inside_the_radius() {
    let raws = seeded_draws(777, DRAWS);
    let spheres = sphere_layout(&raws).unwrap();
    assert!(spheres.len() <= CELLS);
    let mut expected: Vec<Sphere> = Vec::new();
    for i in 0..50u32 {
        for j in 0..50u32 {
            let cell = (i * 50 + j) as usize;
            let placed = place_sphere(i, j, raws[3 * cell], raws[3 * cell + 1], raws[3 * cell + 2]);
            let x = i as i128 * GRID_STEP as i128 - FIELD_RADIUS as i128
                + (10 * (raws[3 * cell] >> 8) as i128 - 83_886_080);
            let z = j as i128 * GRID_STEP as i128 - FIELD_RADIUS as i128
                + (10 * (raws[3 * cell + 1] >> 8) as i128 - 83_886_080);
            let y = HALF as i128 + (10 * (raws[3 * cell + 2] >> 8) as i128 - 83_886_080);
            let inside = x * x + y * y + z * z < (FIELD_RADIUS as i128) * (FIELD_RADIUS as i128);
            assert_eq!(placed.is_some(), inside);
            if let Some(sphere) = placed {
                assert_eq!(sphere.position, Point { x: x as i64, y: y as i64, z: z as i64 });
                expected.push(sphere);
            }
        }
    }
    assert_eq!(spheres, expected);
    for sphere in &spheres {
        assert!(squared_distance(&sphere.position) < FIELD_RADIUS_SQUARED);
    }
}

#[test]
fn setup_lays_out_the_seeded_field() {
    let scene = setup(0);
    assert_eq!(scene.spheres.len(), 1939);
    assert_eq!(
        scene.spheres[0],
        Sphere {
            position: Point { x: -32_216_645_690, y: 3_281_595_280, z: -8_126_908_490 },
            gradient: 60_369_808,
            wave: WaveAble {
                speed: QUARTER,
                ampli: HALF,
                base_height: HALF,
                bias: 49_896_688_884,
            },
        }
    );
    assert_eq!(
        scene.spheres[1938],
        Sphere {
            position: Point { x: 32_150_753_430, y: 3_364_082_550, z: 8_033_021_430 },
            gradient: 6_585_308_022,
            wave: WaveAble {
                speed: QUARTER,
                ampli: HALF,
                base_height: HALF,
                bias: 49_985_727_701,
            },
        }
    );
    assert_eq!(Some(scene.spheres), sphere_layout(&seeded_draws(LAYOUT_SEED, DRAWS)));
}

#[test]
fn setup_places_text_ground_light_and_camera() {
    let scene = setup(4 * UNITS);
    assert_eq!(scene.text_position, Point { x: -2 * UNITS, y: 10_066_329_600, z: 0 });
    assert_eq!(
        scene.ground,
        Ground {
            position: Point { x: 0, y: -25 * UNITS, z: 0 },
            radius: 500 * UNITS,
            unlit: true,
            two_sided: true,
            alpha_blend: true,
            casts_shadows: false,
            receives_shadows: false,
        }
    );
    assert_eq!(SPHERE_RADIUS * 25, 2 * UNITS);
    assert_eq!(scene.light_position, Point { x: 0, y: 23_488_102_400, z: 50_331_648_000 });
    assert_eq!(
        scene.camera,
        CameraState {
            position: Point { x: 0, y: 5 * UNITS, z: 0 },
            look_target: Point { x: 0, y: 0, z: 0 },
        }
    );
    assert_eq!(setup(7).text_position.x, -3);
    assert_eq!(setup(-7).text_position.x, 3);
    assert_eq!(setup(i64::MIN).text_position.x, 1i64 << 62);
    assert_eq!(setup(i64::MAX).text_position.x, -((1i64 << 62) - 1));
}

#[test]
fn setup_is_the_same_every_time() {
    assert_eq!(setup(123), setup(123));
}

#[test]
fn field_takes_its_draws_from_the_generator_given() {
    let mut generator = WrapB::seed_from_u64(2024);
    let spheres = sphere_field(&mut generator);
    assert_eq!(Some(spheres), sphere_layout(&seeded_draws(2024, DRAWS)));
    let mut resumed = WrapB::seed_from_u64(2024);
    let mut all = seeded_draws(2024, 2 * DRAWS);
    let later = all.split_off(DRAWS);
    sphere_field(&mut resumed);
    assert_eq!(Some(sphere_field(&mut resumed)), sphere_layout(&later));
    assert_eq!(resumed, generator_after(2024, 2 * DRAWS));
}

fn generator_after(seed: u64, count: usize) -> WrapB {
    let mut generator = WrapB::seed_from_u64(seed);
    textgenturbo::scene::draw_many(&mut generator, count);
    generator
}
