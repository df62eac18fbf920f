use textgenturbo::text2mesh::generate_text;
use textgenturbo::text2mesh::TextMesh;
use textgenturbo::texturegen::distance_converted;
use textgenturbo::texturegen::gen_normal_basic_multi;
use textgenturbo::texturegen::ALPHA_REACH;
use textgenturbo::texturegen::TEXTURE_SEED;
use textgenturbo::texturegen::TEXTURE_SIDE;

#[test]
fn texture_constants() {
    assert_eq!(ALPHA_REACH, 511);
    assert_eq!(TEXTURE_SEED, 123456);
    assert_eq!(TEXTURE_SIDE, 2048);
}

#[test]
fn opacity_is_full_near_the_middle() {
    let middle = (1024, 1024);
    assert_eq!(distance_converted((1024, 1024), middle), 255);
    assert_eq!(distance_converted((1024 + 255, 1024), middle), 255);
    assert_eq!(distance_converted((1024 + 256, 1024), middle), 255);
    assert_eq!(distance_converted((1024, 1024 - 256), middle), 255);
}

#[test]
fn opacity_falls_by_one_a_pixel() {
    let middle = (1024, 1024);
    assert_eq!(distance_converted((1024 + 257, 1024), middle), 254);
    assert_eq!(distance_converted((1024 + 300, 1024), middle), 211);
    assert_eq!(distance_converted((1024, 1024 + 300), middle), 211);
    assert_eq!(distance_converted((1024 - 300, 1024), middle), 211);
    assert_eq!(distance_converted((1024, 1024 - 510), middle), 1);
}

#[test]
fn opacity_is_nothing_from_the_reach_on() {
    let middle = (1024, 1024);
    assert_eq!(distance_converted((1024 + 511, 1024), middle), 0);
    assert_eq!(distance_converted((1024 + 512, 1024), middle), 0);
    assert_eq!(distance_converted((1024 + 600, 1024), middle), 0);
    assert_eq!(distance_converted((0, 0), middle), 0);
    assert_eq!(distance_converted((0, 0), (u32::MAX, u32::MAX)), 0);
    assert_eq!(distance_converted((u32::MAX, 0), (0, u32::MAX)), 0);
    assert_eq!(distance_converted((512, 0), (0, 0)), 0);
    assert_eq!(distance_converted((0, 512), (0, 0)), 0);
}

#[test]
fn opacity_rounds_the_distance_up() {
    assert_eq!(distance_converted((1324, 1324), (1024, 1024)), 86);
    assert_eq!(distance_converted((300, 400), (0, 0)), 11);
    assert_eq!(distance_converted((301, 400), (0, 0)), 10);
    assert_eq!(distance_converted((3, 4), (0, 0)), 255);
    assert_eq!(distance_converted((0, 0), (300, 400)), 11);
}

#[test]
fn opacity_never_grows_with_distance() {
    let middle = (1024u32, 1024u32);
    let mut pixels: Vec<(u64, u8)> = Vec::new();
    for x in (0..2048u32).step_by(37) {
        for y in (0..2048u32).step_by(41) {
            let dx = x as i64 - 1024;
            let dy = y as i64 - 1024;
            pixels.push(((dx * dx + dy * dy) as u64, distance_converted((x, y), middle)));
        }
    }
    pixels.sort();
    for pair in pixels.windows(2) {
        assert!(pair[0].1 >= pair[1].1);
    }
    assert_eq!(pixels.last().unwrap().1, 0);
    assert_eq!(pixels.first().unwrap().1, 255);
}

#[test]
fn texture_takes_shades_and_sets_opacity() {
    let shades: Vec<[u8; 4]> = (0..8u8).map(|n| [n, 10 + n, 20 + n, 99]).collect();
    let texture = gen_normal_basic_multi((4, 2), &shades).unwrap();
    assert_eq!(texture.dimensions(), (4, 2));
    let mut expected: Vec<u8> = Vec::new();
    for n in 0..8u8 {
        expected.extend([n, 10 + n, 20 + n, 255]);
    }
    assert_eq!(texture.into_bytes(), expected);
}

#[test]
fn texture_fades_towards_the_rim() {
    let width = 1200u32;
    let shades: Vec<[u8; 4]> = vec![[26, 26, 26, 255]; 2 * width as usize];
    let texture = gen_normal_basic_multi((width, 2), &shades).unwrap();
    assert_eq!(texture.dimensions(), (1200, 2));
    let bytes = texture.into_bytes();
    assert_eq!(bytes.len(), 9600);
    let alpha = |x: usize, y: usize| bytes[4 * (y * 1200 + x) + 3];
    assert_eq!(alpha(600, 1), 255);
    assert_eq!(alpha(600, 0), 255);
    assert_eq!(alpha(344, 1), 255);
    assert_eq!(alpha(343, 1), 254);
    assert_eq!(alpha(344, 0), 254);
    assert_eq!(alpha(100, 1), 11);
    assert_eq!(alpha(100, 0), 10);
    assert_eq!(alpha(90, 1), 1);
    assert_eq!(alpha(89, 1), 0);
    assert_eq!(alpha(0, 0), 0);
    assert_eq!(alpha(1199, 1), 0);
    assert_eq!(alpha(1110, 1), 1);
    for x in 0..1200 {
        for y in 0..2 {
            assert_eq!(&bytes[4 * (y * 1200 + x)..4 * (y * 1200 + x) + 3], &[26, 26, 26]);
        }
    }
}

#[test]
fn texture_needs_a_shade_for_each_pixel() {
    let shades: Vec<[u8; 4]> = vec![[1, 2, 3, 4]; 6];
    assert!(gen_normal_basic_multi((3, 2), &shades).is_some());
    assert!(gen_normal_basic_multi((2, 3), &shades).is_some());
    assert!(gen_normal_basic_multi((6, 1), &shades).is_some());
    assert!(gen_normal_basic_multi((3, 3), &shades).is_none());
    assert!(gen_normal_basic_multi((2, 2), &shades).is_none());
    assert!(gen_normal_basic_multi((0, 0), &shades).is_none());
    assert!(gen_normal_basic_multi((u32::MAX, u32::MAX), &shades).is_none());
}

#[test]
fn empty_texture() {
    let texture = gen_normal_basic_multi((0, 7), &Vec::new()).unwrap();
    assert_eq!(texture.dimensions(), (0, 7));
    assert_eq!(texture.into_bytes(), Vec::<u8>::new());
    assert!(gen_normal_basic_multi((7, 0), &Vec::new()).is_some());
}

#[test]
fn text_vertices_are_grouped_in_threes() {
    let flat: Vec<f32> = vec![0.0, 1.0, 2.0, 3.5, 4.5, 5.5, -1.0, -2.0, -3.0];
    let mesh = generate_text(&flat, 0.0f32).unwrap();
    assert_eq!(
        mesh,
        TextMesh {
            positions: vec![[0.0, 1.0, 2.0], [3.5, 4.5, 5.5], [-1.0, -2.0, -3.0]],
            uvs: vec![[0.0, 0.0]; 3],
        }
    );
}

#[test]
fn text_without_vertices() {
    let mesh = generate_text(&Vec::<f32>::new(), 0.0f32).unwrap();
    assert!(mesh.positions.is_empty());
    assert!(mesh.uvs.is_empty());
}

#[test]
fn ragged_vertex_list_is_refused() {
    assert_eq!(generate_text(&vec![1u8], 0), None);
    assert_eq!(generate_text(&vec![1u8, 2], 0), None);
    assert_eq!(generate_text(&vec![1u8, 2, 3, 4], 0), None);
    assert_eq!(
        generate_text(&vec![1u8, 2, 3], 9),
        Some(TextMesh { positions: vec![[1, 2, 3]], uvs: vec![[9, 9]] })
    );
}
