//! The ground texture: shades supplied pixel by pixel, and an opacity that
//! falls off with the distance from the middle of the image.

use crate::numeric::floor_sqrt;
use crate::numeric::isqrt;
use crate::numeric::lemma_floor_sqrt_is_root;
use crate::numeric::lemma_floor_sqrt_monotonic;
use image::ImageBuffer;
use image::Rgba;
use vstd::prelude::*;

verus! {

/// The distance, in pixels, at which the opacity has fallen to nothing.
pub const ALPHA_REACH: u32 = 511;

/// The seed of the noise behind the ground texture's shades.
pub const TEXTURE_SEED: u32 = 123456;

/// The width and the height of the ground texture in pixels.
pub const TEXTURE_SIDE: u32 = 2048;

/// The ground texture: an `image` buffer of four bytes a pixel (red, green,
/// blue, opacity), row by row from the top. Nothing is proved of the buffer
/// itself; the contracts speak of `texture_pixels` and `texture_dims`.
#[verifier::external_body]
pub struct GroundTexture {
    image: ImageBuffer<Rgba<u8>, Vec<u8>>,
}

/// The bytes that a texture's buffer holds.
pub uninterp spec fn texture_pixels(texture: GroundTexture) -> Seq<u8>;

/// The width and the height that a texture's buffer was made with.
pub uninterp spec fn texture_dims(texture: GroundTexture) -> (u32, u32);

/// Where the four bytes of pixel `(x, y)` start in an image `width` pixels
/// wide.
pub open spec fn pixel_offset(width: u32, x: u32, y: u32) -> int {
    4 * (y * width + x)
}

/// The bytes `held`, with the four bytes from `offset` on replaced by
/// `rgba`.
pub open spec fn with_pixel(held: Seq<u8>, offset: int, rgba: [u8; 4]) -> Seq<u8> {
    held.update(offset, rgba@[0]).update(offset + 1, rgba@[1]).update(offset + 2, rgba@[2]).update(
        offset + 3,
        rgba@[3],
    )
}

/// Calls `ImageBuffer::new`, which makes a buffer of `4 * width * height`
/// zero bytes and panics where a vector cannot hold that many; the bound
/// leaves those sizes out.
#[verifier::external_body]
fn blank_texture(width: u32, height: u32) -> (texture: GroundTexture)
    requires
        4 * (width * height) <= isize::MAX,
    ensures
        texture_dims(texture) == (width, height),
        texture_pixels(texture) == Seq::new((4 * (width * height)) as nat, |byte: int| 0u8),
{
    GroundTexture { image: ImageBuffer::new(width, height) }
}

/// Calls `ImageBuffer::put_pixel`, which overwrites the four bytes of pixel
/// `(x, y)`, leaves the others alone, and panics outside the image; the
/// bounds leave those pixels out.
#[verifier::external_body]
fn put_pixel(texture: &mut GroundTexture, x: u32, y: u32, rgba: [u8; 4])
    requires
        x < texture_dims(*old(texture)).0,
        y < texture_dims(*old(texture)).1,
    ensures
        texture_dims(*final(texture)) == texture_dims(*old(texture)),
        texture_pixels(*final(texture)) == with_pixel(
            texture_pixels(*old(texture)),
            pixel_offset(texture_dims(*old(texture)).0, x, y),
            rgba,
        ),
{
    texture.image.put_pixel(x, y, Rgba(rgba))
}

/// Calls `ImageBuffer::dimensions`, which gives the width and the height
/// that the buffer was made with.
#[verifier::external_body]
fn buffer_dimensions(texture: &GroundTexture) -> (dims: (u32, u32))
    ensures
        dims == texture_dims(*texture),
{
    texture.image.dimensions()
}

/// Calls `ImageBuffer::into_raw`, which hands out the vector that holds the
/// buffer's bytes.
#[verifier::external_body]
fn buffer_into_raw(texture: GroundTexture) -> (bytes: Vec<u8>)
    ensures
        bytes@ == texture_pixels(texture),
{
    texture.image.into_raw()
}

impl GroundTexture {
    /// The width and the height in pixels.
    pub fn dimensions(&self) -> (dims: (u32, u32))
        ensures
            dims == texture_dims(*self),
    {
        buffer_dimensions(self)
    }

    /// The bytes of the image, four a pixel, row by row from the top.
    pub fn into_bytes(self) -> (bytes: Vec<u8>)
        ensures
            bytes@ == texture_pixels(self),
    {
        buffer_into_raw(self)
    }
}

/// The square root of `n` rounded up.
pub open spec fn ceil_sqrt(n: nat) -> nat {
    if n == 0 {
        0
    } else {
        floor_sqrt((n - 1) as nat) + 1
    }
}

/// The opacity at a pixel whose distance from the middle has the square
/// `distance_sq`: `511 - distance`, cut down to a whole number, and clamped
/// to the range of a byte.
pub open spec fn falloff(distance_sq: nat) -> int {
    let faded = ALPHA_REACH - ceil_sqrt(distance_sq);
    if faded < 0 {
        0
    } else if faded > 255 {
        255
    } else {
        faded
    }
}

/// The square of the distance between two pixels.
pub open spec fn pixel_distance_squared(a: (u32, u32), b: (u32, u32)) -> nat {
    ((a.0 - b.0) * (a.0 - b.0) + (a.1 - b.1) * (a.1 - b.1)) as nat
}

/// The rounded-up root of a number is the least number whose square reaches
/// it.
pub proof fn lemma_ceil_sqrt_is_least(n: nat, other: nat)
    ensures
        n <= ceil_sqrt(n) * ceil_sqrt(n),
        n <= other * other ==> ceil_sqrt(n) <= other,
{
    if n == 0 {
        assert(0nat * 0nat == 0) by (nonlinear_arith);
    } else {
        lemma_floor_sqrt_is_root((n - 1) as nat);
        let below = floor_sqrt((n - 1) as nat);
        if other <= below {
            assert(other * other <= below * below) by (nonlinear_arith)
                requires
                    other <= below,
            ;
        }
    }
}

/// The rounded-up root of a larger number is no smaller.
pub proof fn lemma_ceil_sqrt_monotonic(a: nat, b: nat)
    requires
        a <= b,
    ensures
        ceil_sqrt(a) <= ceil_sqrt(b),
{
    if a > 0 {
        lemma_floor_sqrt_monotonic((a - 1) as nat, (b - 1) as nat);
    }
}

/// Opacity never grows with the distance from the middle.
pub proof fn lemma_falloff_monotonic(nearer_sq: nat, farther_sq: nat)
    requires
        nearer_sq <= farther_sq,
    ensures
        falloff(nearer_sq) >= falloff(farther_sq),
{
    lemma_ceil_sqrt_monotonic(nearer_sq, farther_sq);
}

/// Opacity is a byte: never negative, never above 255. It is nothing at a
/// distance of 511 pixels and beyond, and full up to 256 pixels.
pub proof fn lemma_falloff_range(distance_sq: nat)
    ensures
        0 <= falloff(distance_sq) <= 255,
        distance_sq >= 511 * 511 ==> falloff(distance_sq) == 0,
        distance_sq <= 256 * 256 ==> falloff(distance_sq) == 255,
{
    lemma_ceil_sqrt_is_least(distance_sq, 256);
    let root = ceil_sqrt(distance_sq);
    if distance_sq >= 511 * 511 {
        if root < 511 {
            assert(root * root <= 510 * 510) by (nonlinear_arith)
                requires
                    root <= 510,
            ;
        }
    }
}

/// Opacity is `511 - distance` cut down to a whole number wherever that
/// lies within a byte: it is the largest byte `a` with `a <= 511 -
/// distance`, that is with `distance^2 <= (511 - a)^2`.
pub proof fn lemma_falloff_is_largest(distance_sq: nat, byte: nat)
    requires
        byte <= 255,
    ensures
        byte <= falloff(distance_sq) <==> distance_sq <= (511 - byte) * (511 - byte) || byte == 0,
{
    let root = ceil_sqrt(distance_sq);
    let room = (511 - byte) as nat;
    lemma_ceil_sqrt_is_least(distance_sq, room);
    if byte > 0 {
        if distance_sq <= room * room {
            assert(root <= room);
        } else {
            if root <= room {
                assert(root * root <= room * room) by (nonlinear_arith)
                    requires
                        root <= room,
                ;
            }
        }
    }
}

/// The difference of two pixel coordinates, without its sign.
fn span(a: u32, b: u32) -> (r: u64)
    ensures
        r == if a >= b {
            a - b
        } else {
            b - a
        },
{
    if a >= b {
        (a - b) as u64
    } else {
        (b - a) as u64
    }
}

/// The opacity of pixel `a` in an image whose middle is `b`: full near the
/// middle, falling by one for each pixel of distance beyond 256, and nothing
/// from 511 pixels on.
pub fn distance_converted(a: (u32, u32), b: (u32, u32)) -> (alpha: u8)
    ensures
        alpha == falloff(pixel_distance_squared(a, b)),
{
    let across: u64 = span(a.0, b.0);
    let down: u64 = span(a.1, b.1);
    let ghost distance_sq = pixel_distance_squared(a, b);
    proof {
        assert(distance_sq == across * across + down * down) by (nonlinear_arith)
            requires
                distance_sq == ((a.0 - b.0) * (a.0 - b.0) + (a.1 - b.1) * (a.1 - b.1)) as nat,
                across == a.0 - b.0 || across == b.0 - a.0,
                down == a.1 - b.1 || down == b.1 - a.1,
        ;
    }
    if across > 511 || down > 511 {
        proof {
            assert(distance_sq >= 512 * 512) by (nonlinear_arith)
                requires
                    distance_sq == across * across + down * down,
                    across >= 512 || down >= 512,
                    across >= 0,
                    down >= 0,
            ;
            lemma_falloff_range(distance_sq);
        }
        return 0;
    }
    assert(across * across <= 511 * 511) by (nonlinear_arith)
        requires
            0 <= across <= 511,
    ;
    assert(down * down <= 511 * 511) by (nonlinear_arith)
        requires
            0 <= down <= 511,
    ;
    let square: u64 = across * across + down * down;
    let root: u64 = if square == 0 {
        0
    } else {
        let below = isqrt((square - 1) as u128);
        proof {
            assert(below < 1024) by (nonlinear_arith)
                requires
                    below * below <= 522_242,
            ;
        }
        below + 1
    };
    assert(root == ceil_sqrt(distance_sq));
    if root >= 511 {
        0
    } else if root <= 256 {
        255
    } else {
        (511 - root) as u8
    }
}

/// The four bytes of pixel number `index`, counting row by row: the red,
/// green and blue of the pixel's shade, and the opacity that the pixel's
/// distance from the middle of the image gives.
pub open spec fn texel(dims: (u32, u32), shades: Seq<[u8; 4]>, index: int) -> Seq<u8> {
    let at = ((index % (dims.0 as int)) as u32, (index / (dims.0 as int)) as u32);
    let middle = (dims.0 / 2, dims.1 / 2);
    seq![
        shades[index]@[0],
        shades[index]@[1],
        shades[index]@[2],
        falloff(pixel_distance_squared(at, middle)) as u8,
    ]
}

/// The bytes of an image whose first `count` pixels are done and whose
/// other pixels are still blank.
pub open spec fn texture_prefix(dims: (u32, u32), shades: Seq<[u8; 4]>, count: nat) -> Seq<u8> {
    Seq::new(
        (4 * (dims.0 * dims.1)) as nat,
        |byte: int|
            if byte / 4 < count {
                texel(dims, shades, byte / 4)[byte % 4]
            } else {
                0u8
            },
    )
}

/// The bytes of the whole image.
pub open spec fn texture_bytes(dims: (u32, u32), shades: Seq<[u8; 4]>) -> Seq<u8> {
    texture_prefix(dims, shades, (dims.0 * dims.1) as nat)
}

/// Whether an image of these dimensions can be made from these shades:
/// there is one shade for each pixel, and a vector can hold the image's
/// bytes.
pub open spec fn can_synthesize(dims: (u32, u32), shades: Seq<[u8; 4]>) -> bool {
    shades.len() == dims.0 * dims.1 && 4 * (dims.0 * dims.1) <= isize::MAX
}

/// Makes the ground texture of `dims.0` by `dims.1` pixels. `shades` holds
/// the colour of each pixel, row by row from the top; the fourth byte of a
/// shade is ignored, and the opacity that falls off from the middle of the
/// image takes its place.
pub fn gen_normal_basic_multi(dims: (u32, u32), shades: &Vec<[u8; 4]>) -> (texture: Option<
    GroundTexture,
>)
    ensures
        can_synthesize(dims, shades@) ==> texture is Some && texture_dims(texture->0) == dims
            && texture_pixels(texture->0) == texture_bytes(dims, shades@),
        !can_synthesize(dims, shades@) ==> texture is None,
{
    let width: u32 = dims.0;
    let height: u32 = dims.1;
    assert(0 <= (width as int) * (height as int) <= 0xffff_ffff * 0xffff_ffff) by (nonlinear_arith)
        requires
            0 <= (width as int) <= 0xffff_ffff,
            0 <= (height as int) <= 0xffff_ffff,
    ;
    let count: u64 = (width as u64) * (height as u64);
    if shades.len() as u64 != count || count > (isize::MAX / 4) as u64 {
        return None;
    }
    let middle: (u32, u32) = (width / 2, height / 2);
    let mut texture = blank_texture(width, height);
    assert(texture_pixels(texture) =~= texture_prefix(dims, shades@, 0));
    let mut y: u32 = 0;
    while y < height
        invariant
            y <= height,
            width == dims.0,
            height == dims.1,
            middle == (dims.0 / 2, dims.1 / 2),
            shades.len() == width * height,
            4 * (width * height) <= isize::MAX,
            texture_dims(texture) == dims,
            texture_pixels(texture) == texture_prefix(dims, shades@, (width * y) as nat),
        decreases height - y,
    {
        let mut x: u32 = 0;
        while x < width
            invariant
                y < height,
                x <= width,
                width == dims.0,
                height == dims.1,
                middle == (dims.0 / 2, dims.1 / 2),
                shades.len() == width * height,
                4 * (width * height) <= isize::MAX,
                texture_dims(texture) == dims,
                texture_pixels(texture) == texture_prefix(dims, shades@, (width * y + x) as nat),
            decreases width - x,
        {
            assert(width * y + x < width * height) by (nonlinear_arith)
                requires
                    0 <= x < width,
                    0 <= y < height,
            ;
            assert(width * y >= 0) by (nonlinear_arith)
                requires
                    0 <= y,
                    0 <= width,
            ;
            assert(y * width == width * y) by (nonlinear_arith);
            let index: usize = (width as usize) * (y as usize) + (x as usize);
            proof {
                assert((index as int) % (width as int) == x && (index as int) / (width as int)
                    == y) by (nonlinear_arith)
                    requires
                        index == width * y + x,
                        0 <= x < width,
                        0 <= y,
                ;
            }
            let shade = shades[index];
            let alpha = distance_converted((x, y), middle);
            let ghost before = texture_pixels(texture);
            put_pixel(&mut texture, x, y, [shade[0], shade[1], shade[2], alpha]);
            proof {
                let grown = texture_prefix(dims, shades@, (width * y + x + 1) as nat);
                let held = texture_pixels(texture);
                assert(held.len() == grown.len());
                assert forall|byte: int| 0 <= byte < grown.len() implies held[byte]
                    == grown[byte] by {
                    if byte / 4 != index {
                        assert(held[byte] == before[byte]);
                    }
                }
                assert(held =~= grown);
            }
            x = x + 1;
        }
        proof {
            assert(width * y + width == width * (y + 1)) by (nonlinear_arith);
        }
        y = y + 1;
    }
    Some(texture)
}

/// In the finished image the opacity byte of pixel `(x, y)` is the falloff
/// of the pixel's distance from the middle, whatever the shades.
pub proof fn lemma_texture_alpha(dims: (u32, u32), shades: Seq<[u8; 4]>, x: u32, y: u32)
    requires
        x < dims.0,
        y < dims.1,
    ensures
        0 <= pixel_offset(dims.0, x, y) + 3 < texture_bytes(dims, shades).len(),
        texture_bytes(dims, shades)[pixel_offset(dims.0, x, y) + 3] == falloff(
            pixel_distance_squared((x, y), (dims.0 / 2, dims.1 / 2)),
        ),
{
    let width = dims.0 as int;
    let index = y * width + x;
    assert(0 <= index < width * dims.1) by (nonlinear_arith)
        requires
            index == y * width + x,
            0 <= x < width,
            0 <= y < dims.1,
    ;
    assert(index % width == x && index / width == y) by (nonlinear_arith)
        requires
            index == y * width + x,
            0 <= x < width,
            0 <= y,
    ;
    lemma_falloff_range(pixel_distance_squared((x, y), (dims.0 / 2, dims.1 / 2)));
}

/// In the finished image, of two pixels the one nearer to the middle is at
/// least as opaque as the other.
pub proof fn lemma_texture_alpha_monotonic(
    dims: (u32, u32),
    shades: Seq<[u8; 4]>,
    nearer: (u32, u32),
    farther: (u32, u32),
)
    requires
        nearer.0 < dims.0,
        nearer.1 < dims.1,
        farther.0 < dims.0,
        farther.1 < dims.1,
        pixel_distance_squared(nearer, (dims.0 / 2, dims.1 / 2)) <= pixel_distance_squared(
            farther,
            (dims.0 / 2, dims.1 / 2),
        ),
    ensures
        texture_bytes(dims, shades)[pixel_offset(dims.0, nearer.0, nearer.1) + 3] >= texture_bytes(
            dims,
            shades,
        )[pixel_offset(dims.0, farther.0, farther.1) + 3],
{
    lemma_texture_alpha(dims, shades, nearer.0, nearer.1);
    lemma_texture_alpha(dims, shades, farther.0, farther.1);
    lemma_falloff_monotonic(
        pixel_distance_squared(nearer, (dims.0 / 2, dims.1 / 2)),
        pixel_distance_squared(farther, (dims.0 / 2, dims.1 / 2)),
    );
}

} // verus!
