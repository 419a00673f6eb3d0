//! Pixel-grid rendering and plain-text pixel-map serialization.
//!
//! Pixels are walked in row-major order, x fastest; each channel becomes the
//! truncation of `channel * 255`, saturated into `[0, 255]`; the document is
//! `P3 <width> <height> 255`, a newline, one ` r g b` triplet per pixel, and
//! a closing blank line.

use vstd::prelude::*;
use crate::fx::{SCALE, fdiv, fmul, fsub, spec_div, spec_mul, spec_sub};
use crate::scene::{Camera, Light, Plane, Scene, Screen, Sphere};
use crate::shade::{render_pixel, spec_render_pixel};
use crate::vec2::Vec2;

verus! {

/// A pixel count as a fixed-point scalar.
pub open spec fn spec_fx_of_u32(n: int) -> int {
    n * SCALE
}

fn fx_of_u32(n: u32) -> (r: i64)
    ensures
        r as int == spec_fx_of_u32(n as int),
{
    (n as i64) * SCALE
}

/// Normalized device coordinate of pixel index `i` out of `n`: `i/n * 2 - 1`.
pub open spec fn spec_pixel_coord(i: int, n: int) -> int {
    spec_sub(spec_mul(spec_div(spec_fx_of_u32(i), spec_fx_of_u32(n)), 2_000_000), SCALE as int)
}

fn pixel_coord(i: u32, n: u32) -> (r: i64)
    ensures
        r as int == spec_pixel_coord(i as int, n as int),
{
    fsub(fmul(fdiv(fx_of_u32(i), fx_of_u32(n)), 2_000_000), SCALE)
}

/// A color channel as an output byte: truncate `channel * 255` and saturate
/// into `[0, 255]`.
pub open spec fn spec_channel_byte(c: int) -> int {
    let q = spec_mul(c, 255);
    if q < 0 {
        0
    } else if q > 255 {
        255
    } else {
        q
    }
}

pub fn channel_byte(c: i64) -> (b: u8)
    ensures
        b as int == spec_channel_byte(c as int),
{
    let q = fmul(c, 255);
    if q < 0 {
        0
    } else if q > 255 {
        255
    } else {
        q as u8
    }
}

/// Decimal digits of `n`, most significant first, as ASCII bytes.
pub open spec fn spec_dec_bytes(n: nat) -> Seq<u8>
    decreases n,
{
    if n < 10 {
        seq![(48 + n) as u8]
    } else {
        spec_dec_bytes(n / 10).push((48 + n % 10) as u8)
    }
}

/// Append the decimal digits of `n`.
pub fn push_decimal(out: &mut Vec<u8>, n: u64)
    ensures
        final(out)@ == old(out)@ + spec_dec_bytes(n as nat),
    decreases n,
{
    if n >= 10 {
        push_decimal(out, n / 10);
    }
    out.push((n % 10) as u8 + 48);
    proof {
        assert(out@ =~= old(out)@ + spec_dec_bytes(n as nat));
    }
}

/// The ` r g b` text of the pixel at `(x, y)` on a `w`-by-`h` grid.
pub open spec fn spec_pixel_bytes(
    camera: Camera,
    lights: Seq<Light>,
    spheres: Seq<Sphere>,
    planes: Seq<Plane>,
    w: int,
    h: int,
    x: int,
    y: int,
) -> Seq<u8> {
    let px = Vec2 {
        x: spec_pixel_coord(x, w) as i64,
        y: spec_pixel_coord(y, h) as i64,
    };
    let col = spec_render_pixel(camera, px, lights, spheres, planes);
    seq![32u8] + spec_dec_bytes(spec_channel_byte(col.x) as nat) + seq![32u8] + spec_dec_bytes(
        spec_channel_byte(col.y) as nat,
    ) + seq![32u8] + spec_dec_bytes(spec_channel_byte(col.z) as nat)
}

/// The first `upto` pixels of row `y`, concatenated.
pub open spec fn spec_row_bytes(
    camera: Camera,
    lights: Seq<Light>,
    spheres: Seq<Sphere>,
    planes: Seq<Plane>,
    w: int,
    h: int,
    y: int,
    upto: nat,
) -> Seq<u8>
    decreases upto,
{
    if upto == 0 {
        Seq::empty()
    } else {
        spec_row_bytes(camera, lights, spheres, planes, w, h, y, (upto - 1) as nat)
            + spec_pixel_bytes(camera, lights, spheres, planes, w, h, upto - 1, y)
    }
}

/// The first `upto` rows, concatenated.
pub open spec fn spec_rows_bytes(
    camera: Camera,
    lights: Seq<Light>,
    spheres: Seq<Sphere>,
    planes: Seq<Plane>,
    w: int,
    h: int,
    upto: nat,
) -> Seq<u8>
    decreases upto,
{
    if upto == 0 {
        Seq::empty()
    } else {
        spec_rows_bytes(camera, lights, spheres, planes, w, h, (upto - 1) as nat)
            + spec_row_bytes(camera, lights, spheres, planes, w, h, upto - 1, w as nat)
    }
}

/// The whole pixel text of a screen, row-major, x fastest.
pub open spec fn spec_render_pixels(
    camera: Camera,
    lights: Seq<Light>,
    spheres: Seq<Sphere>,
    planes: Seq<Plane>,
    screen: Screen,
) -> Seq<u8> {
    spec_rows_bytes(
        camera,
        lights,
        spheres,
        planes,
        screen.width as int,
        screen.height as int,
        screen.height as nat,
    )
}

/// Render every pixel of the screen to its ` r g b` text, row-major.
#[verifier::loop_isolation(false)]
#[verifier::rlimit(100)]
pub fn render_pixels(camera: &Camera, scene: &Scene, screen: &Screen) -> (out: Vec<u8>)
    ensures
        out@ == spec_render_pixels(*camera, scene.lights@, scene.spheres@, scene.planes@, *screen),
{
    let ghost lights = scene.lights@;
    let ghost spheres = scene.spheres@;
    let ghost planes = scene.planes@;
    let ghost w = screen.width as int;
    let ghost h = screen.height as int;

    let mut out: Vec<u8> = Vec::new();
    let mut y: u32 = 0;
    while y < screen.height
        invariant
            y <= screen.height,
            out@ == spec_rows_bytes(*camera, lights, spheres, planes, w, h, y as nat),
        decreases screen.height - y,
    {
        let mut x: u32 = 0;
        while x < screen.width
            invariant
                x <= screen.width,
                y < screen.height,
                out@ == spec_rows_bytes(*camera, lights, spheres, planes, w, h, y as nat)
                    + spec_row_bytes(*camera, lights, spheres, planes, w, h, y as int, x as nat),
            decreases screen.width - x,
        {
            let ghost pre = out@;
            let px = Vec2::new(pixel_coord(x, screen.width), pixel_coord(y, screen.height));
            proof {
                assert(px == (Vec2 {
                    x: spec_pixel_coord(x as int, w) as i64,
                    y: spec_pixel_coord(y as int, h) as i64,
                }));
            }
            let color = render_pixel(px, camera, scene);
            out.push(32);
            push_decimal(&mut out, channel_byte(color.r) as u64);
            out.push(32);
            push_decimal(&mut out, channel_byte(color.g) as u64);
            out.push(32);
            push_decimal(&mut out, channel_byte(color.b) as u64);
            proof {
                assert(out@ =~= pre + spec_pixel_bytes(
                    *camera,
                    lights,
                    spheres,
                    planes,
                    w,
                    h,
                    x as int,
                    y as int,
                ));
                assert(out@ =~= spec_rows_bytes(*camera, lights, spheres, planes, w, h, y as nat)
                    + spec_row_bytes(
                    *camera,
                    lights,
                    spheres,
                    planes,
                    w,
                    h,
                    y as int,
                    (x + 1) as nat,
                ));
            }
            x = x + 1;
        }
        proof {
            assert(out@ =~= spec_rows_bytes(
                *camera,
                lights,
                spheres,
                planes,
                w,
                h,
                (y + 1) as nat,
            ));
        }
        y = y + 1;
    }
    out
}

/// The full document: `P3 <width> <height> 255`, a newline, the pixel text,
/// and a closing blank line.
pub open spec fn spec_ppm_document(pixels: Seq<u8>, screen: Screen) -> Seq<u8> {
    seq![80u8, 51u8, 32u8] + spec_dec_bytes(screen.width as nat) + seq![32u8] + spec_dec_bytes(
        screen.height as nat,
    ) + seq![32u8, 50u8, 53u8, 53u8, 10u8] + pixels + seq![10u8, 10u8]
}

/// Frame rendered pixel text into the complete plain-text pixel map.
pub fn ppm_document(pixels: &Vec<u8>, screen: &Screen) -> (out: Vec<u8>)
    ensures
        out@ == spec_ppm_document(pixels@, *screen),
{
    let mut out: Vec<u8> = Vec::new();
    out.push(80);
    out.push(51);
    out.push(32);
    push_decimal(&mut out, screen.width as u64);
    out.push(32);
    push_decimal(&mut out, screen.height as u64);
    out.push(32);
    out.push(50);
    out.push(53);
    out.push(53);
    out.push(10);
    let mut i: usize = 0;
    while i < pixels.len()
        invariant
            i <= pixels.len(),
            out@ == seq![80u8, 51u8, 32u8] + spec_dec_bytes(screen.width as nat) + seq![32u8]
                + spec_dec_bytes(screen.height as nat) + seq![32u8, 50u8, 53u8, 53u8, 10u8]
                + pixels@.take(i as int),
        decreases pixels.len() - i,
    {
        out.push(pixels[i]);
        proof {
            assert(pixels@.take(i as int).push(pixels@[i as int]) =~= pixels@.take(i as int + 1));
        }
        i = i + 1;
    }
    out.push(10);
    out.push(10);
    proof {
        assert(pixels@.take(pixels@.len() as int) =~= pixels@);
        assert(out@ =~= spec_ppm_document(pixels@, *screen));
    }
    out
}

} // verus!
