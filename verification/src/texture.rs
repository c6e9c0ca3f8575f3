//! Procedural pixel-art texture synthesizer.
//!
//! Each texture is a square RGBA raster: pixels outside the inscribed circle
//! of radius `size/2 - 1` are fully transparent black, pixels inside are
//! fully opaque and colored by the pattern of the organelle kind.
//!
//! The per-pixel geometry is exact integer arithmetic: a pixel's offset from
//! the image center `size/2` is carried doubled (`2*x - size`), so every
//! circle test compares integer squares with no rounding at all. The one
//! transcendental pattern, the ER/Golgi sine banding, runs in Q10 fixed
//! point (1/1024 units) through the `trig` module. Color channels are the
//! pattern's base fractions times 255, truncated.

use vstd::prelude::*;
use crate::layout::OrganelleType;
use crate::trig::{atan2_q, sin_q, isqrt, atan2_fixed, sin_fixed, TWO_PI_Q};

verus! {

/// Largest accepted texture edge, so the RGBA byte buffer length
/// `4 * size * size` stays within a 32-bit address space.
pub const MAX_TEXTURE_SIZE: u32 = 4096;

/// The pixel-art resolution of the membrane sprite.
pub const MEMBRANE_TEXTURE_SIZE: u32 = 128;
/// The pixel-art resolution of the nucleus sprite.
pub const NUCLEUS_TEXTURE_SIZE: u32 = 64;
/// The pixel-art resolution of the ER/Golgi sprite.
pub const ER_GOLGI_TEXTURE_SIZE: u32 = 56;
/// The pixel-art resolution of the mitochondria sprite.
pub const MITOCHONDRIA_TEXTURE_SIZE: u32 = 48;

/// One RGBA pixel, 8 bits per channel.
#[derive(Debug, Clone, Copy, PartialEq, Eq, Structural)]
pub struct Rgba {
    pub r: u8,
    pub g: u8,
    pub b: u8,
    pub a: u8,
}

/// Fully transparent black, the color of every pixel outside the circle.
pub open spec fn transparent() -> Rgba {
    Rgba { r: 0, g: 0, b: 0, a: 0 }
}

/// The four circle patterns the synthesizer can paint.
#[derive(Debug, Clone, Copy, PartialEq, Eq, Structural)]
pub enum TexturePattern {
    Membrane,
    Nucleus,
    ErGolgi,
    Mitochondria,
}

/// The pattern that paints each organelle kind.
pub open spec fn pattern_of(kind: OrganelleType) -> TexturePattern {
    match kind {
        OrganelleType::Nucleus => TexturePattern::Nucleus,
        OrganelleType::ErGolgi => TexturePattern::ErGolgi,
        OrganelleType::Mitochondria => TexturePattern::Mitochondria,
    }
}

/// Twice a pixel coordinate's offset from the image center `size/2`.
/// Doubling keeps the half-unit center exact in integers.
pub open spec fn off2(size: int, p: int) -> int {
    2 * p - size
}

/// Four times the squared distance of pixel `(x, y)` from the image center.
pub open spec fn dist2_quad(size: int, x: int, y: int) -> int {
    off2(size, x) * off2(size, x) + off2(size, y) * off2(size, y)
}

/// Whether pixel `(x, y)` lies within the inscribed circle of radius
/// `size/2 - 1`: comparing `4*dist^2` with `(size-2)^2` is that test with
/// no rounding (for `size` 1 the radius is negative and no pixel passes).
pub open spec fn in_circle(size: int, x: int, y: int) -> bool {
    dist2_quad(size, x, y) <= (size - 2) * (size - 2)
}

/// Whether a membrane pixel lies on the darker border ring, within 2 units
/// of the circle edge: distance greater than `size/2 - 3`, squared exactly
/// (a radius of 6 or less is border everywhere).
pub open spec fn on_membrane_border(size: int, x: int, y: int) -> bool {
    size < 6 || dist2_quad(size, x, y) > (size - 6) * (size - 6)
}

/// The hashed 3x3-cell grid bucket of pixel `(x, y)`, one of five.
pub open spec fn dot_hash(x: int, y: int) -> int {
    ((x / 3) * 7 + (y / 3) * 11) % 5
}

/// Whether `(x, y)` lies strictly within `frac_num/frac_den` of `size` from
/// the center: `dist < (frac_num/frac_den) * size`, squared exactly.
pub open spec fn within_frac(size: int, x: int, y: int, frac_num: int, frac_den: int) -> bool {
    (frac_den * frac_den) * dist2_quad(size, x, y) < (4 * frac_num * frac_num) * (size * size)
}

/// The membrane pattern: a blue disc with a slightly darker border ring.
pub open spec fn membrane_pixel(size: int, x: int, y: int) -> Rgba {
    if on_membrane_border(size, x, y) {
        Rgba { r: 38, g: 89, b: 178, a: 255 }
    } else {
        Rgba { r: 51, g: 102, b: 204, a: 255 }
    }
}

/// The nucleus pattern: base purple; hash bucket zero darkens within
/// 0.3*size of the center (chromatin), bucket one lightens within 0.2*size
/// (nucleolus).
pub open spec fn nucleus_pixel(size: int, x: int, y: int) -> Rgba {
    if dot_hash(x, y) == 0 && within_frac(size, x, y, 3, 10) {
        Rgba { r: 76, g: 38, b: 127, a: 255 }
    } else if dot_hash(x, y) == 1 && within_frac(size, x, y, 1, 5) {
        Rgba { r: 127, g: 63, b: 178, a: 255 }
    } else {
        Rgba { r: 102, g: 51, b: 153, a: 255 }
    }
}

/// The Q10 distance of pixel `(x, y)` from the image center: the square
/// root of `4*dist^2` scaled by `512 = 1024/2`.
pub open spec fn pixel_dist_q(size: int, x: int, y: int) -> int {
    crate::trig::floor_sqrt(dist2_quad(size, x, y) * 262144)
}

/// The Q10 banding fold of the ER/Golgi pattern: the sine of three times
/// the pixel's angle from the center plus half its distance.
pub open spec fn er_fold_q(size: int, x: int, y: int) -> int {
    let angle = atan2_q(off2(size, y), off2(size, x));
    let arg = 3 * angle + pixel_dist_q(size, x, y) / 2;
    sin_q((arg + 2 * (TWO_PI_Q as int)) % (TWO_PI_Q as int))
}

/// The ER/Golgi pattern: base gold; a fold value over 0.3 darkens, under
/// -0.3 lightens (cisternae folds).
pub open spec fn er_golgi_pixel(size: int, x: int, y: int) -> Rgba {
    if er_fold_q(size, x, y) > 307 {
        Rgba { r: 204, g: 153, b: 38, a: 255 }
    } else if er_fold_q(size, x, y) < -307 {
        Rgba { r: 242, g: 191, b: 63, a: 255 }
    } else {
        Rgba { r: 229, g: 178, b: 51, a: 255 }
    }
}

/// The mitochondria pattern: base red; every third scanline darkens within
/// 0.4*size of the center (cristae ridges).
pub open spec fn mitochondria_pixel(size: int, x: int, y: int) -> Rgba {
    if y % 3 == 0 && within_frac(size, x, y, 2, 5) {
        Rgba { r: 178, g: 63, b: 38, a: 255 }
    } else {
        Rgba { r: 204, g: 76, b: 51, a: 255 }
    }
}

/// The in-circle color of pixel `(x, y)` under each pattern.
pub open spec fn pattern_pixel(pattern: TexturePattern, size: int, x: int, y: int) -> Rgba {
    match pattern {
        TexturePattern::Membrane => membrane_pixel(size, x, y),
        TexturePattern::Nucleus => nucleus_pixel(size, x, y),
        TexturePattern::ErGolgi => er_golgi_pixel(size, x, y),
        TexturePattern::Mitochondria => mitochondria_pixel(size, x, y),
    }
}

/// The color the synthesizer owes pixel `(x, y)`: transparent black outside
/// the inscribed circle, the pattern's opaque color inside.
pub open spec fn texel(pattern: TexturePattern, size: int, x: int, y: int) -> Rgba {
    if in_circle(size, x, y) {
        pattern_pixel(pattern, size, x, y)
    } else {
        transparent()
    }
}

/// A square RGBA raster image, row-major, four bytes per pixel.
pub struct RasterImage {
    pub size: u32,
    pub data: Vec<u8>,
}

/// The four data bytes at pixel index `4*(y*size + x)` spell the color `c`.
pub open spec fn pixel_bytes_match(d: Seq<u8>, size: int, x: int, y: int, c: Rgba) -> bool {
    let i = 4 * (y * size + x);
    &&& d[i] == c.r
    &&& d[i + 1] == c.g
    &&& d[i + 2] == c.b
    &&& d[i + 3] == c.a
}

impl RasterImage {
    /// The buffer holds exactly `size * size` four-byte pixels.
    pub open spec fn wf(self) -> bool {
        self.data@.len() == 4 * ((self.size as int) * (self.size as int))
    }

    /// The color stored at pixel `(x, y)`.
    pub open spec fn pixel(self, x: int, y: int) -> Rgba {
        Rgba {
            r: self.data@[4 * (y * self.size + x)],
            g: self.data@[4 * (y * self.size + x) + 1],
            b: self.data@[4 * (y * self.size + x) + 2],
            a: self.data@[4 * (y * self.size + x) + 3],
        }
    }

    /// Every pixel of `self` is the color the pattern owes it.
    pub open spec fn matches_pattern(self, pattern: TexturePattern) -> bool {
        &&& self.wf()
        &&& forall|x: int, y: int| 0 <= x < self.size && 0 <= y < self.size
            ==> self.pixel(x, y) == texel(pattern, self.size as int, x, y)
    }
}

/// Compute the color of one pixel.
fn pixel_color(pattern: TexturePattern, size: u32, x: u32, y: u32) -> (c: Rgba)
    requires
        1 <= size <= MAX_TEXTURE_SIZE,
        x < size,
        y < size,
    ensures
        c == texel(pattern, size as int, x as int, y as int),
{
    let s: i64 = size as i64;
    let ox: i64 = 2 * (x as i64) - s;
    let oy: i64 = 2 * (y as i64) - s;
    proof {
        assert(ox * ox + oy * oy <= 2 * 4096 * 4096 && ox * ox >= 0 && oy * oy >= 0)
            by (nonlinear_arith)
            requires -4096 <= ox <= 4096, -4096 <= oy <= 4096;
        assert((s - 2) * (s - 2) <= 4096 * 4096 && (s - 6) * (s - 6) <= 4096 * 4096)
            by (nonlinear_arith)
            requires 1 <= s <= 4096;
    }
    let d2q: i64 = ox * ox + oy * oy;
    proof {
        assert(0 <= s * s <= 16777216) by (nonlinear_arith)
            requires 1 <= s <= 4096;
    }
    let s2: i64 = s * s;
    if d2q > (s - 2) * (s - 2) {
        return Rgba { r: 0, g: 0, b: 0, a: 0 };
    }
    match pattern {
        TexturePattern::Membrane => {
            if s < 6 || d2q > (s - 6) * (s - 6) {
                Rgba { r: 38, g: 89, b: 178, a: 255 }
            } else {
                Rgba { r: 51, g: 102, b: 204, a: 255 }
            }
        },
        TexturePattern::Nucleus => {
            let h: u32 = ((x / 3) * 7 + (y / 3) * 11) % 5;
            if h == 0 && 100 * d2q < 36 * s2 {
                Rgba { r: 76, g: 38, b: 127, a: 255 }
            } else if h == 1 && 25 * d2q < 4 * s2 {
                Rgba { r: 127, g: 63, b: 178, a: 255 }
            } else {
                Rgba { r: 102, g: 51, b: 153, a: 255 }
            }
        },
        TexturePattern::ErGolgi => {
            let dist_q: i64 = isqrt_i64(d2q * 262144);
            let angle: i64 = atan2_fixed(oy, ox);
            let arg: i64 = 3 * angle + dist_q / 2;
            proof {
                vstd::arithmetic::div_mod::lemma_div_pos_is_pos(dist_q as int, 2);
                vstd::arithmetic::div_mod::lemma_mod_bound(
                    arg + 2 * (TWO_PI_Q as int), TWO_PI_Q as int);
            }
            let m: i64 = (arg + 2 * TWO_PI_Q) % TWO_PI_Q;
            let fold: i64 = sin_fixed(m);
            if fold > 307 {
                Rgba { r: 204, g: 153, b: 38, a: 255 }
            } else if fold < -307 {
                Rgba { r: 242, g: 191, b: 63, a: 255 }
            } else {
                Rgba { r: 229, g: 178, b: 51, a: 255 }
            }
        },
        TexturePattern::Mitochondria => {
            if y % 3 == 0 && 25 * d2q < 16 * s2 {
                Rgba { r: 178, g: 63, b: 38, a: 255 }
            } else {
                Rgba { r: 204, g: 76, b: 51, a: 255 }
            }
        },
    }
}

/// The integer square root of a nonnegative `i64`, as an `i64`.
fn isqrt_i64(n: i64) -> (r: i64)
    requires
        n >= 0,
    ensures
        r == crate::trig::floor_sqrt(n as int),
        0 <= r <= 0xffff_ffff,
{
    let r: u64 = isqrt(n as u64);
    proof {
        crate::trig::lemma_floor_sqrt(n as int);
        crate::trig::lemma_isqrt_unique(n as int, r as int, crate::trig::floor_sqrt(n as int));
    }
    r as i64
}

/// Paint a `size` by `size` circle texture with the given pattern: pixels
/// outside the inscribed circle transparent black, pixels inside the
/// pattern's opaque color.
pub fn create_pixel_art_circle_texture(size: u32, pattern: TexturePattern) -> (img: RasterImage)
    requires
        1 <= size <= MAX_TEXTURE_SIZE,
    ensures
        img.size == size,
        img.matches_pattern(pattern),
{
    let mut data: Vec<u8> = Vec::new();
    let mut y: u32 = 0;
    while y < size
        invariant
            1 <= size <= MAX_TEXTURE_SIZE,
            y <= size,
            data@.len() == 4 * (y * size),
            forall|px: int, py: int| 0 <= px < size && 0 <= py < y
                ==> pixel_bytes_match(data@, size as int, px, py,
                        texel(pattern, size as int, px, py)),
        decreases size - y,
    {
        let mut x: u32 = 0;
        while x < size
            invariant
                1 <= size <= MAX_TEXTURE_SIZE,
                y < size,
                x <= size,
                data@.len() == 4 * (y * size) + 4 * x,
                forall|px: int, py: int| 0 <= px < size && 0 <= py < y
                    ==> pixel_bytes_match(data@, size as int, px, py,
                            texel(pattern, size as int, px, py)),
                forall|px: int| 0 <= px < x
                    ==> pixel_bytes_match(data@, size as int, px, y as int,
                            texel(pattern, size as int, px, y as int)),
            decreases size - x,
        {
            let c: Rgba = pixel_color(pattern, size, x, y);
            let ghost pre = data@;
            data.push(c.r);
            data.push(c.g);
            data.push(c.b);
            data.push(c.a);
            proof {
                assert(data@.len() == pre.len() + 4);
                assert forall|px: int, py: int| 0 <= px < size && 0 <= py < y
                    implies pixel_bytes_match(data@, size as int, px, py,
                        texel(pattern, size as int, px, py)) by {
                    assert(pixel_bytes_match(pre, size as int, px, py,
                        texel(pattern, size as int, px, py)));
                    assert(4 * (py * (size as int) + px) + 3 < 4 * ((y as int) * (size as int)))
                        by (nonlinear_arith)
                        requires
                            0 <= px < size as int,
                            0 <= py < y as int;
                }
                assert forall|px: int| 0 <= px < x + 1
                    implies pixel_bytes_match(data@, size as int, px, y as int,
                        texel(pattern, size as int, px, y as int)) by {
                    if px < x {
                        assert(pixel_bytes_match(pre, size as int, px, y as int,
                            texel(pattern, size as int, px, y as int)));
                        assert(4 * ((y as int) * (size as int) + px) + 3 < pre.len());
                    } else {
                        assert(4 * ((y as int) * (size as int) + px) == pre.len() as int);
                    }
                }
            }
            x = x + 1;
        }
        proof {
            assert(4 * ((y as int) * size) + 4 * size == 4 * ((y + 1) * (size as int)))
                by (nonlinear_arith);
            assert forall|px: int, py: int| 0 <= px < size && 0 <= py < y + 1
                implies pixel_bytes_match(data@, size as int, px, py,
                    texel(pattern, size as int, px, py)) by {
                if py < y {
                    assert(pixel_bytes_match(data@, size as int, px, py,
                        texel(pattern, size as int, px, py)));
                } else {
                    assert(pixel_bytes_match(data@, size as int, px, y as int,
                        texel(pattern, size as int, px, y as int)));
                }
            }
        }
        y = y + 1;
    }
    let img = RasterImage { size, data };
    proof {
        assert forall|px: int, py: int| 0 <= px < size && 0 <= py < size
            implies img.pixel(px, py) == texel(pattern, size as int, px, py) by {
            assert(pixel_bytes_match(img.data@, size as int, px, py,
                texel(pattern, size as int, px, py)));
        }
    }
    img
}

/// Paint the cell membrane texture: a blue disc with a darker border ring.
pub fn create_membrane_texture(size: u32) -> (img: RasterImage)
    requires
        1 <= size <= MAX_TEXTURE_SIZE,
    ensures
        img.size == size,
        img.matches_pattern(TexturePattern::Membrane),
{
    create_pixel_art_circle_texture(size, TexturePattern::Membrane)
}

/// Paint the nucleus texture: purple with hashed chromatin dots and a
/// lighter nucleolus bucket.
pub fn create_nucleus_texture(size: u32) -> (img: RasterImage)
    requires
        1 <= size <= MAX_TEXTURE_SIZE,
    ensures
        img.size == size,
        img.matches_pattern(TexturePattern::Nucleus),
{
    create_pixel_art_circle_texture(size, TexturePattern::Nucleus)
}

/// Paint the ER/Golgi texture: gold with sinusoidal cisternae banding.
pub fn create_er_golgi_texture(size: u32) -> (img: RasterImage)
    requires
        1 <= size <= MAX_TEXTURE_SIZE,
    ensures
        img.size == size,
        img.matches_pattern(TexturePattern::ErGolgi),
{
    create_pixel_art_circle_texture(size, TexturePattern::ErGolgi)
}

/// Paint the mitochondria texture: red with horizontal cristae scanlines.
pub fn create_mitochondria_texture(size: u32) -> (img: RasterImage)
    requires
        1 <= size <= MAX_TEXTURE_SIZE,
    ensures
        img.size == size,
        img.matches_pattern(TexturePattern::Mitochondria),
{
    create_pixel_art_circle_texture(size, TexturePattern::Mitochondria)
}

/// Synthesize the texture of an organelle kind.
pub fn synthesize(kind: OrganelleType, size: u32) -> (img: RasterImage)
    requires
        1 <= size <= MAX_TEXTURE_SIZE,
    ensures
        img.size == size,
        img.matches_pattern(pattern_of(kind)),
{
    match kind {
        OrganelleType::Nucleus => create_nucleus_texture(size),
        OrganelleType::ErGolgi => create_er_golgi_texture(size),
        OrganelleType::Mitochondria => create_mitochondria_texture(size),
    }
}

/// Every pixel outside the inscribed circle is fully transparent black.
pub proof fn lemma_outside_transparent(pattern: TexturePattern, size: int, x: int, y: int)
    requires
        !in_circle(size, x, y),
    ensures
        texel(pattern, size, x, y) == transparent(),
        texel(pattern, size, x, y).a == 0,
        texel(pattern, size, x, y).r == 0,
        texel(pattern, size, x, y).g == 0,
        texel(pattern, size, x, y).b == 0,
{
}

/// Every pixel inside the inscribed circle is fully opaque, whatever the
/// pattern paints it.
pub proof fn lemma_inside_opaque(pattern: TexturePattern, size: int, x: int, y: int)
    requires
        in_circle(size, x, y),
    ensures
        texel(pattern, size, x, y).a == 255,
{
}

} // verus!
