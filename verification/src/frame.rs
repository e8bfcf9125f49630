//! Per-frame logic: mapping raw screen coordinates into canvas space and the
//! trail work one frame performs.
//!
//! The surrounding application polls the pointer, measures the frame time and
//! issues the draw calls; everything it decides with those values lives here.

use vstd::prelude::*;
use crate::units::{FP_ONE, decay_amount};
use crate::trail::{Trail, TrailPoint, DrawCmd, updated};

verus! {

/// The canvas shows the screen at one over `SCALE`.
pub const SCALE: u32 = 2;

/// Default canvas width in pixels, before the configured resolution is known.
pub const WINDOW_WIDTH: u32 = 1920 / SCALE;

/// Default canvas height in pixels.
pub const WINDOW_HEIGHT: u32 = 1920 / SCALE;

/// The canvas coordinate, in fixed-point ticks, of a raw screen coordinate:
/// `raw * canvas / screen` at tick precision, truncated toward zero.
pub open spec fn scaled_coord(raw: int, canvas: int, screen: int) -> int
    recommends
        screen > 0,
{
    if raw >= 0 {
        (raw * canvas * (FP_ONE as int)) / screen
    } else {
        -(((-raw) * canvas * (FP_ONE as int)) / screen)
    }
}

/// One side of the visualization window: the configured screen side shrunk by
/// the fixed divisor `SCALE`.
pub fn window_side(v: i32) -> (r: u32)
    requires
        v >= 0,
    ensures
        r == (v as int) / (SCALE as int),
{
    (v as u32) / SCALE
}

/// Maps one raw screen coordinate into fixed-point canvas space.
pub fn scale_coord(raw: i32, canvas: u32, screen: i32) -> (r: i64)
    requires
        screen > 0,
        -0x7fff_ffff_ffff_ffff <= scaled_coord(raw as int, canvas as int, screen as int)
            <= 0x7fff_ffff_ffff_ffff,
    ensures
        r == scaled_coord(raw as int, canvas as int, screen as int),
{
    let c: u128 = (canvas as u128) * 1_000_000;
    let s: u128 = screen as u128;
    if raw >= 0 {
        let n: u128 = raw as u128;
        proof {
            assert((n as int) * (c as int) == (raw as int) * (canvas as int) * 1_000_000)
                by (nonlinear_arith)
                requires
                    n as int == raw as int,
                    c as int == (canvas as int) * 1_000_000,
            ;
            assert((n as int) * (c as int) <= 0x8000_0000 * 0x10_0000_0000_0000)
                by (nonlinear_arith)
                requires
                    0 <= n as int <= 0x8000_0000,
                    0 <= c as int <= 0x10_0000_0000_0000,
            ;
            assert(FP_ONE as int == 1_000_000);
        }
        let q: u128 = (n * c) / s;
        proof {
            assert(q == scaled_coord(raw as int, canvas as int, screen as int));
        }
        q as i64
    } else {
        let m: i64 = -(raw as i64);
        let n: u128 = m as u128;
        proof {
            assert((n as int) * (c as int) == (-(raw as int)) * (canvas as int) * 1_000_000)
                by (nonlinear_arith)
                requires
                    n as int == -(raw as int),
                    c as int == (canvas as int) * 1_000_000,
            ;
            assert((n as int) * (c as int) <= 0x8000_0000 * 0x10_0000_0000_0000)
                by (nonlinear_arith)
                requires
                    0 <= n as int <= 0x8000_0000,
                    0 <= c as int <= 0x10_0000_0000_0000,
            ;
            assert(FP_ONE as int == 1_000_000);
        }
        let q: u128 = (n * c) / s;
        proof {
            assert(q == -scaled_coord(raw as int, canvas as int, screen as int));
        }
        -(q as i64)
    }
}

/// Maps the raw cursor position into canvas space, with independent
/// horizontal and vertical scale factors.
pub fn scale_point(raw_x: i32, raw_y: i32, canvas_w: u32, canvas_h: u32, screen_w: i32, screen_h: i32) -> (p: (
    i64,
    i64,
))
    requires
        screen_w > 0,
        screen_h > 0,
        -0x7fff_ffff_ffff_ffff <= scaled_coord(raw_x as int, canvas_w as int, screen_w as int)
            <= 0x7fff_ffff_ffff_ffff,
        -0x7fff_ffff_ffff_ffff <= scaled_coord(raw_y as int, canvas_h as int, screen_h as int)
            <= 0x7fff_ffff_ffff_ffff,
    ensures
        p.0 == scaled_coord(raw_x as int, canvas_w as int, screen_w as int),
        p.1 == scaled_coord(raw_y as int, canvas_h as int, screen_h as int),
{
    (scale_coord(raw_x, canvas_w, screen_w), scale_coord(raw_y, canvas_h, screen_h))
}

/// One frame's trail work: when the trail is enabled, record the cursor
/// position, age and prune every point, and return the trail's paint plan;
/// when it is disabled, leave the trail untouched and paint nothing.
pub fn frame_update(trail: &mut Trail, enabled: bool, x: i64, y: i64, dt: u64) -> (cmds: Vec<
    DrawCmd,
>)
    requires
        old(trail).wf(),
    ensures
        final(trail).wf(),
        enabled ==> final(trail).points@ == updated(
            old(trail).points@.push(TrailPoint { age: FP_ONE, x, y }),
            decay_amount(old(trail).decay_rate, dt),
        ) && cmds@ == final(trail).rendered(),
        !enabled ==> *final(trail) == *old(trail) && cmds@ == Seq::<DrawCmd>::empty(),
        final(trail).decay_rate == old(trail).decay_rate,
        final(trail).color == old(trail).color,
        final(trail).size == old(trail).size,
        final(trail).is_image == old(trail).is_image,
        final(trail).tex == old(trail).tex,
{
    if enabled {
        trail.add_new(x, y);
        trail.update(dt);
        trail.draw()
    } else {
        Vec::new()
    }
}

} // verus!
