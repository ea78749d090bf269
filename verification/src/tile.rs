//! The tile generator: maps every pixel of a square tile to its point of the
//! complex plane and produces the flat, row-major array of per-pixel
//! escape-time values that a tiled renderer consumes positionally.

use vstd::prelude::*;
use crate::consts::F64_BASE_OFFSET;
use crate::escape::escape_time;
use crate::escape::spec_escape_value;
use crate::ieee::add_bits;
use crate::ieee::div_bits;
use crate::ieee::f32_of_f64;
use crate::ieee::f64_add;
use crate::ieee::f64_div;
use crate::ieee::f64_mul;
use crate::ieee::f64_of_u64;
use crate::ieee::from_u64_bits;
use crate::ieee::mul_bits;
use crate::ieee::to_f32_bits;
use crate::interior::is_interior;
use crate::interior::spec_is_interior;
use crate::transcend::scale_of_zoom;
use crate::transcend::spec_scale_of_zoom;

verus! {

/// A tile-space offset: the tile coordinate times the tile's scale, shifted
/// by the base offset of -8.
pub open spec fn spec_tile_offset(tile_coord: u64, scale: u64) -> u64 {
    f64_add(f64_mul(tile_coord, scale), F64_BASE_OFFSET)
}

/// The complex-plane coordinate of pixel `p` along one axis: the pixel
/// index, scaled to the tile's span and divided by the edge length, plus
/// the axis's offset.
pub open spec fn spec_pixel_coord(p: u64, scale: u64, size_f: u64, offset: u64) -> u64 {
    f64_add(f64_div(f64_mul(f64_of_u64(p), scale), size_f), offset)
}

/// The escape-time value of one pixel: the 32-bit pattern of 0.0 when the
/// closed-form interior test already places its point inside the set, and
/// otherwise the escape-time iteration's value narrowed to single
/// precision.
pub open spec fn spec_pixel_value(cx: u64, cy: u64, budget: u64) -> u32 {
    if spec_is_interior(cx, cy) {
        0u32
    } else {
        f32_of_f64(spec_escape_value(cx, cy, budget))
    }
}

/// The value of the pixel `(px, py)` of the requested tile: the tile's
/// scale follows from the zoom, the offsets from the tile coordinates, and
/// the pixel's complex coordinates from its indices.
pub open spec fn spec_tile_value(
    zoom: u64,
    tile_x: u64,
    tile_y: u64,
    size: u64,
    budget: u64,
    px: u64,
    py: u64,
) -> u32 {
    let scale = spec_scale_of_zoom(zoom);
    let size_f = f64_of_u64(size);
    let cx = spec_pixel_coord(px, scale, size_f, spec_tile_offset(tile_x, scale));
    let cy = spec_pixel_coord(py, scale, size_f, spec_tile_offset(tile_y, scale));
    spec_pixel_value(cx, cy, budget)
}

/// The tile contract is deterministic: the length clause and the per-pixel
/// clause of [`get_mandelbrot_tile`] pin every element of the output, so any
/// two results that satisfy them for one and the same request are equal —
/// repeated calls with identical inputs return identical tiles.
pub proof fn lemma_tile_deterministic(
    zoom: u64,
    tile_x: u64,
    tile_y: u64,
    size: usize,
    budget: u64,
    r1: Seq<u32>,
    r2: Seq<u32>,
)
    requires
        r1.len() == size * size,
        r2.len() == size * size,
        forall|px: u64, py: u64|
            px < size && py < size ==> r1[py * size + px] == #[trigger] spec_tile_value(
                zoom,
                tile_x,
                tile_y,
                size as u64,
                budget,
                px,
                py,
            ),
        forall|px: u64, py: u64|
            px < size && py < size ==> r2[py * size + px] == #[trigger] spec_tile_value(
                zoom,
                tile_x,
                tile_y,
                size as u64,
                budget,
                px,
                py,
            ),
    ensures
        r1 == r2,
{
    assert forall|i: int| 0 <= i < r1.len() implies r1[i] == r2[i] by {
        let s = size as int;
        assert(s > 0) by (nonlinear_arith)
            requires
                s == size as int,
                0 <= i < size * size,
        ;
        vstd::arithmetic::div_mod::lemma_fundamental_div_mod(i, s);
        vstd::arithmetic::div_mod::lemma_mod_division_less_than_divisor(i, s);
        vstd::arithmetic::div_mod::lemma_multiply_divide_lt(i, s, s);
        let py = i / s;
        let px = i % s;
        assert(i == py * s + px);
        assert(px < s && py < s);
        assert(r1[(py as u64) * size + (px as u64)] == spec_tile_value(
            zoom,
            tile_x,
            tile_y,
            size as u64,
            budget,
            px as u64,
            py as u64,
        ));
        assert(r2[(py as u64) * size + (px as u64)] == spec_tile_value(
            zoom,
            tile_x,
            tile_y,
            size as u64,
            budget,
            px as u64,
            py as u64,
        ));
    }
    assert(r1 =~= r2);
}

/// A row-major index lies below the start of the next row: for a pixel
/// column `qx` of a row `qy` among the first `rows` rows, the flat index
/// `qy * size + qx` lies in `[0, rows * size)`.
proof fn lemma_row_index_bound(qx: int, qy: int, rows: int, size: int)
    requires
        0 <= qx < size,
        0 <= qy < rows,
    ensures
        0 <= qy * size + qx,
        qy * size + qx < rows * size,
{
    assert(0 <= qy * size + qx && qy * size + qx < rows * size) by (nonlinear_arith)
        requires
            0 <= qx < size,
            0 <= qy < rows,
    ;
}

/// Escape-time values for one tile.
///
/// `zoom`, `tile_x` and `tile_y` are double bit patterns; `size` is the
/// tile's edge length in pixels and `max_iterations` the per-pixel step
/// budget. The result holds one single-precision bit pattern per pixel, in
/// row-major order (`py * size + px`), each the value [`spec_tile_value`]
/// assigns to its pixel: the length and every element are functions of the
/// five arguments alone, so two calls with equal arguments return equal
/// tiles. The margin of twenty below `u64::MAX` keeps the iteration's step
/// counter from overflowing.
pub fn get_mandelbrot_tile(
    zoom: u64,
    tile_x: u64,
    tile_y: u64,
    size: usize,
    max_iterations: u64,
) -> (r: Vec<u32>)
    requires
        max_iterations <= u64::MAX - 20,
    ensures
        r@.len() == size * size,
        forall|px: u64, py: u64|
            px < size && py < size ==> r@[py * size + px] == #[trigger] spec_tile_value(
                zoom,
                tile_x,
                tile_y,
                size as u64,
                max_iterations,
                px,
                py,
            ),
{
    let scale = scale_of_zoom(zoom);
    let offset_x = add_bits(mul_bits(tile_x, scale), F64_BASE_OFFSET);
    let offset_y = add_bits(mul_bits(tile_y, scale), F64_BASE_OFFSET);
    let size_f = from_u64_bits(size as u64);
    let mut tile: Vec<u32> = Vec::new();
    let mut py: usize = 0;
    while py < size
        invariant
            max_iterations <= u64::MAX - 20,
            py <= size,
            scale == spec_scale_of_zoom(zoom),
            offset_x == spec_tile_offset(tile_x, scale),
            offset_y == spec_tile_offset(tile_y, scale),
            size_f == f64_of_u64(size as u64),
            tile@.len() == py * size,
            forall|qx: u64, qy: u64|
                qx < size && qy < py ==> tile@[qy * size + qx] == #[trigger] spec_tile_value(
                    zoom,
                    tile_x,
                    tile_y,
                    size as u64,
                    max_iterations,
                    qx,
                    qy,
                ),
        decreases size - py,
    {
        let cy = add_bits(div_bits(mul_bits(from_u64_bits(py as u64), scale), size_f), offset_y);
        let mut px: usize = 0;
        while px < size
            invariant
                max_iterations <= u64::MAX - 20,
                py < size,
                px <= size,
                scale == spec_scale_of_zoom(zoom),
                offset_x == spec_tile_offset(tile_x, scale),
                offset_y == spec_tile_offset(tile_y, scale),
                size_f == f64_of_u64(size as u64),
                cy == spec_pixel_coord(py as u64, scale, size_f, offset_y),
                tile@.len() == py * size + px,
                forall|qx: u64, qy: u64|
                    qx < size && qy < py ==> tile@[qy * size + qx] == #[trigger] spec_tile_value(
                        zoom,
                        tile_x,
                        tile_y,
                        size as u64,
                        max_iterations,
                        qx,
                        qy,
                    ),
                forall|qx: u64|
                    qx < px ==> tile@[py * size + qx] == #[trigger] spec_tile_value(
                        zoom,
                        tile_x,
                        tile_y,
                        size as u64,
                        max_iterations,
                        qx,
                        py as u64,
                    ),
            decreases size - px,
        {
            let cx = add_bits(
                div_bits(mul_bits(from_u64_bits(px as u64), scale), size_f),
                offset_x,
            );
            let value: u32 = if is_interior(cx, cy) {
                0u32
            } else {
                to_f32_bits(escape_time(cx, cy, max_iterations))
            };
            tile.push(value);
            px = px + 1;
            proof {
                assert forall|qx: u64, qy: u64| qx < size && qy < py implies tile@[qy * size + qx]
                    == #[trigger] spec_tile_value(
                    zoom,
                    tile_x,
                    tile_y,
                    size as u64,
                    max_iterations,
                    qx,
                    qy,
                ) by {
                    lemma_row_index_bound(qx as int, qy as int, py as int, size as int);
                }
            }
        }
        py = py + 1;
        proof {
            assert((py - 1) * size + size == py * size) by (nonlinear_arith);
            assert forall|qx: u64, qy: u64| qx < size && qy < py implies tile@[qy * size + qx]
                == #[trigger] spec_tile_value(
                zoom,
                tile_x,
                tile_y,
                size as u64,
                max_iterations,
                qx,
                qy,
            ) by {
                lemma_row_index_bound(qx as int, qy as int, py as int, size as int);
            }
        }
    }
    tile
}

} // verus!
