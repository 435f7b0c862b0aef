//! The per-tick state machines of the stateful gestures: the aim geometry
//! and records of cast spells, the direction pad, observation, and the
//! aim-and-fire pair. Each step function turns one input event and the
//! gesture's current state into the next state and the exact plan of
//! control messages the runtime emits for it.

use vstd::prelude::*;

use crate::constant::MotionEventAction;
use crate::effect::{
    effects_view, spec_touch_view, touch_msg, Effect, EffectView, Position, Size,
};
use crate::mapping_config::{CanvasSize, MappingDirectionPad, MappingFire, MappingFps, MappingMouseCastSpell, MappingObservation, MappingPadCastSpell, MouseCastReleaseMode};
use crate::mapping_engine::{isqrt, spec_isqrt, spec_mul_div_trunc};

verus! {

/// The frame-model ranges the gesture geometry works in: canvases fit the
/// wire's 16-bit sizes, and authored points lie inside their canvas.
pub open spec fn spec_canvas_wf(c: CanvasSize) -> bool {
    1 <= c.width <= 0xFFFF && 1 <= c.height <= 0xFFFF
}

/// Whether a point lies inside the given canvas.
pub open spec fn spec_pos_in_canvas(p: Position, c: CanvasSize) -> bool {
    0 <= p.x <= c.width && 0 <= p.y <= c.height
}

/// A point of the authored frame carried into the mask frame, each axis
/// scaled by the ratio of the two sizes and truncated toward zero.
pub open spec fn spec_to_mask(p: Position, original: CanvasSize, mask: Size) -> Position {
    Position {
        x: spec_mul_div_trunc(p.x as int, mask.width as int, original.width as int) as i64,
        y: spec_mul_div_trunc(p.y as int, mask.height as int, original.height as int) as i64,
    }
}

/// A length of the authored frame carried into the mask frame, scaled along
/// the vertical axis as the aim geometry does for its radii.
pub open spec fn spec_mask_len(len: u32, original: CanvasSize, mask: Size) -> int {
    (len as int) * (mask.height as int) / (original.height as int)
}

/// A product scaled down by a positive divisor, truncated toward zero.
fn mul_div_i64(d: i64, m: i64, n: i64) -> (r: i64)
    requires
        -0x100000 <= d <= 0x100000,
        0 <= m <= 0x40000,
        1 <= n,
    ensures
        r == spec_mul_div_trunc(d as int, m as int, n as int),
        -0x4000000000 <= r <= 0x4000000000,
        d >= 0 ==> 0 <= r,
        d < 0 ==> r <= 0,
{
    proof {
        assert((d as int) >= 0 ==> 0 <= (d as int) * (m as int) <= 0x4000000000) by (nonlinear_arith)
            requires
                -0x100000 <= d as int <= 0x100000,
                0 <= m as int <= 0x40000,
        ;
        assert((d as int) < 0 ==> 0 <= (-(d as int)) * (m as int) <= 0x4000000000)
            by (nonlinear_arith)
            requires
                -0x100000 <= d as int <= 0x100000,
                0 <= m as int <= 0x40000,
        ;
        assert((d as int) >= 0 ==> 0 <= (d as int) * (m as int) / (n as int) <= (d as int) * (
        m as int)) by (nonlinear_arith)
            requires
                1 <= n as int,
                (d as int) >= 0 ==> 0 <= (d as int) * (m as int),
        ;
        assert((d as int) < 0 ==> 0 <= (-(d as int)) * (m as int) / (n as int) <= (-(d as int)) * (
        m as int)) by (nonlinear_arith)
            requires
                1 <= n as int,
                (d as int) < 0 ==> 0 <= (-(d as int)) * (m as int),
        ;
    }
    if d >= 0 {
        d * m / n
    } else {
        -((-d) * m / n)
    }
}

/// The truncated product stays within `m` whenever `|d|` stays within `n`.
proof fn lemma_mul_div_trunc_le(d: int, m: int, n: int)
    requires
        1 <= n,
        0 <= m,
        -n <= d <= n,
    ensures
        -m <= spec_mul_div_trunc(d, m, n) <= m,
{
    if d >= 0 {
        assert(0 <= d * m / n <= m) by (nonlinear_arith)
            requires
                1 <= n,
                0 <= m,
                0 <= d <= n,
        ;
    } else {
        assert(0 <= (-d) * m / n <= m) by (nonlinear_arith)
            requires
                1 <= n,
                0 <= m,
                0 <= -d <= n,
        ;
    }
}

/// Carries a point of the authored frame into the mask frame.
pub fn mask_point(p: Position, original: CanvasSize, mask: Size) -> (r: Position)
    requires
        spec_canvas_wf(original),
        spec_pos_in_canvas(p, original),
    ensures
        r == spec_to_mask(p, original, mask),
        0 <= r.x <= mask.width,
        0 <= r.y <= mask.height,
{
    proof {
        lemma_mul_div_trunc_le(p.x as int, mask.width as int, original.width as int);
        lemma_mul_div_trunc_le(p.y as int, mask.height as int, original.height as int);
    }
    let x = mul_div_i64(p.x, mask.width as i64, original.width as i64);
    let y = mul_div_i64(p.y, mask.height as i64, original.height as i64);
    Position { x, y }
}

/// Carries a radius of the authored frame into the mask frame.
fn mask_len(len: u32, original: CanvasSize, mask: Size) -> (r: u32)
    requires
        spec_canvas_wf(original),
        len <= original.height,
    ensures
        r == spec_mask_len(len, original, mask),
        r <= mask.height,
{
    proof {
        assert((len as int) * (mask.height as int) <= (original.height as int) * (
        mask.height as int) && 0 <= (len as int) * (mask.height as int)
            <= 0x100000000) by (nonlinear_arith)
            requires
                0 <= len as int <= original.height as int,
                0 <= original.height as int <= 0xFFFF,
                0 <= mask.height as int <= 0xFFFF,
        ;
        assert((len as int) * (mask.height as int) / (original.height as int)
            <= mask.height as int) by (nonlinear_arith)
            requires
                1 <= original.height as int,
                (len as int) * (mask.height as int) <= (original.height as int) * (
                mask.height as int),
                0 <= (len as int) * (mask.height as int),
        ;
    }
    (((len as u64) * (mask.height as u64)) / (original.height as u64)) as u32
}

/// The least `r` with `r * r >= n`.
pub open spec fn spec_is_ceil_sqrt(n: int, r: int) -> bool {
    0 <= r && r * r >= n && (r == 0 || (r - 1) * (r - 1) < n)
}

/// The integer square root rounded up.
pub fn ceil_sqrt(n: u64) -> (r: u64)
    ensures
        spec_is_ceil_sqrt(n as int, r as int),
        r <= 0x100000000,
{
    let f = isqrt(n);
    proof {
        assert(0 <= f as int && (f as int) * (f as int) <= n as int);
        assert((f as int) <= 0xFFFFFFFF) by (nonlinear_arith)
            requires
                0 <= f as int,
                (f as int) * (f as int) <= n as int,
                n as int <= 0xFFFFFFFFFFFFFFFF,
        ;
    }
    if f * f == n {
        proof {
            if f > 0 {
                assert(((f as int) - 1) * ((f as int) - 1) < (f as int) * (f as int))
                    by (nonlinear_arith)
                    requires
                        (f as int) >= 1,
                ;
            }
        }
        f
    } else {
        proof {
            assert((f as int) * (f as int) < n as int);
        }
        f + 1
    }
}

/// The aim delta after anisotropy: the axis with the larger scale factor is
/// shrunk by the ratio of the two factors, and the cast radius with it, so
/// the smaller factor becomes the unit.
pub open spec fn spec_cast_aniso(dx: int, dy: int, cast_m: int, h: int, v: int) -> (int, int, int) {
    if h > v {
        (dx, spec_mul_div_trunc(dy, v, h), spec_mul_div_trunc(cast_m, v, h))
    } else {
        (spec_mul_div_trunc(dx, h, v), dy, spec_mul_div_trunc(cast_m, h, v))
    }
}

/// The aim delta clamped to the drag circle: outside the cast circle the
/// delta is normalized (by the rounded-up length `s`) onto the drag radius;
/// inside it is scaled from the cast radius down to the drag radius.
pub open spec fn spec_cast_delta(dx: int, dy: int, cast_m: int, drag_m: int, s: int) -> (
    int,
    int,
) {
    if dx * dx + dy * dy > cast_m * cast_m {
        (spec_mul_div_trunc(dx, drag_m, s), spec_mul_div_trunc(dy, drag_m, s))
    } else if cast_m == 0 {
        (0, 0)
    } else {
        (spec_mul_div_trunc(dx, drag_m, cast_m), spec_mul_div_trunc(dy, drag_m, cast_m))
    }
}

/// The squared length of the raw aim delta, after anisotropy.
pub open spec fn spec_cast_sq(
    cursor: Position,
    center: Position,
    cast_radius: u32,
    mask: Size,
    original: CanvasSize,
    h: int,
    v: int,
) -> int {
    let cm = spec_to_mask(center, original, mask);
    let a = spec_cast_aniso(
        cursor.x - cm.x,
        cursor.y - cm.y,
        spec_mask_len(cast_radius, original, mask),
        h,
        v,
    );
    a.0 * a.0 + a.1 * a.1
}

/// The live aim point of a mouse-driven cast, in the mask frame: the cursor
/// offset from the cast center, after anisotropy, clamped to the drag
/// circle around the cast anchor. `s` is the rounded-up length of the
/// offset, which `spec_is_ceil_sqrt` pins uniquely.
pub open spec fn spec_cast_spell_current_pos(
    cursor: Position,
    center: Position,
    cast_pos: Position,
    cast_radius: u32,
    drag_radius: u32,
    mask: Size,
    original: CanvasSize,
    h: int,
    v: int,
    s: int,
) -> Position {
    let cm = spec_to_mask(center, original, mask);
    let pm = spec_to_mask(cast_pos, original, mask);
    let a = spec_cast_aniso(
        cursor.x - cm.x,
        cursor.y - cm.y,
        spec_mask_len(cast_radius, original, mask),
        h,
        v,
    );
    let d = spec_cast_delta(a.0, a.1, a.2, spec_mask_len(drag_radius, original, mask), s);
    Position { x: (pm.x + d.0) as i64, y: (pm.y + d.1) as i64 }
}

/// The squared distance between two points.
pub open spec fn spec_dist2(a: Position, b: Position) -> int {
    (a.x - b.x) * (a.x - b.x) + (a.y - b.y) * (a.y - b.y)
}

/// The clamped aim delta never leaves the drag circle.
proof fn lemma_cast_delta_in_radius(dx: int, dy: int, cast_m: int, drag_m: int, s: int)
    requires
        spec_is_ceil_sqrt(dx * dx + dy * dy, s),
        0 <= cast_m,
        0 <= drag_m,
    ensures
        ({
            let d = spec_cast_delta(dx, dy, cast_m, drag_m, s);
            d.0 * d.0 + d.1 * d.1 <= drag_m * drag_m
        }),
{
    let sq = dx * dx + dy * dy;
    assert(0 <= dx * dx && 0 <= dy * dy) by (nonlinear_arith);
    if sq > cast_m * cast_m {
        assert(0 <= cast_m * cast_m) by (nonlinear_arith)
            requires
                0 <= cast_m,
        ;
        assert(s >= 1);
        let qx = spec_mul_div_trunc(dx, drag_m, s);
        let qy = spec_mul_div_trunc(dy, drag_m, s);
        lemma_scaled_sq_le(dx, dy, drag_m, s);
        assert(qx * qx + qy * qy <= drag_m * drag_m);
    } else if cast_m == 0 {
        assert(0 * 0 + 0 * 0 <= drag_m * drag_m) by (nonlinear_arith)
            requires
                0 <= drag_m,
        ;
    } else {
        let qx = spec_mul_div_trunc(dx, drag_m, cast_m);
        let qy = spec_mul_div_trunc(dy, drag_m, cast_m);
        assert(dx * dx <= cast_m * cast_m && dy * dy <= cast_m * cast_m) by (nonlinear_arith)
            requires
                dx * dx + dy * dy <= cast_m * cast_m,
                0 <= dx * dx,
                0 <= dy * dy,
        ;
        assert(-cast_m <= dx <= cast_m && -cast_m <= dy <= cast_m) by (nonlinear_arith)
            requires
                dx * dx <= cast_m * cast_m,
                dy * dy <= cast_m * cast_m,
                1 <= cast_m,
        ;
        lemma_scaled_sq_le(dx, dy, drag_m, cast_m);
        assert(qx * qx + qy * qy <= drag_m * drag_m);
    }
}

/// Scaling a vector no longer than `s` by `m / s` leaves it no longer than
/// `m`, componentwise truncation included.
proof fn lemma_scaled_sq_le(dx: int, dy: int, m: int, s: int)
    requires
        1 <= s,
        0 <= m,
        dx * dx + dy * dy <= s * s,
    ensures
        ({
            let qx = spec_mul_div_trunc(dx, m, s);
            let qy = spec_mul_div_trunc(dy, m, s);
            qx * qx + qy * qy <= m * m
        }),
{
    let qx = spec_mul_div_trunc(dx, m, s);
    let qy = spec_mul_div_trunc(dy, m, s);
    lemma_trunc_sq_bound(dx, m, s);
    lemma_trunc_sq_bound(dy, m, s);
    assert((qx * qx) * (s * s) + (qy * qy) * (s * s) <= (dx * dx + dy * dy) * (m * m))
        by (nonlinear_arith)
        requires
            (qx * qx) * (s * s) <= (dx * dx) * (m * m),
            (qy * qy) * (s * s) <= (dy * dy) * (m * m),
    ;
    assert((dx * dx + dy * dy) * (m * m) <= (s * s) * (m * m)) by (nonlinear_arith)
        requires
            dx * dx + dy * dy <= s * s,
            0 <= m * m,
    ;
    assert(qx * qx + qy * qy <= m * m) by (nonlinear_arith)
        requires
            (qx * qx) * (s * s) + (qy * qy) * (s * s) <= (s * s) * (m * m),
            1 <= s,
    ;
}

/// The square of the truncated scaled component, against the square of the
/// exact product.
proof fn lemma_trunc_sq_bound(d: int, m: int, s: int)
    requires
        1 <= s,
        0 <= m,
    ensures
        ({
            let q = spec_mul_div_trunc(d, m, s);
            (q * q) * (s * s) <= (d * d) * (m * m)
        }),
{
    if d >= 0 {
        let q = d * m / s;
        assert(0 <= q && q * s <= d * m) by (nonlinear_arith)
            requires
                1 <= s,
                0 <= d * m,
                q == d * m / s,
        ;
        assert(0 <= d * m) by (nonlinear_arith)
            requires
                0 <= d,
                0 <= m,
        ;
        assert((q * q) * (s * s) <= (d * m) * (d * m)) by (nonlinear_arith)
            requires
                0 <= q,
                0 <= q * s <= d * m,
        ;
        assert((d * m) * (d * m) == (d * d) * (m * m)) by (nonlinear_arith);
    } else {
        let q0 = (-d) * m / s;
        assert(0 <= (-d) * m) by (nonlinear_arith)
            requires
                d < 0,
                0 <= m,
        ;
        assert(0 <= q0 && q0 * s <= (-d) * m) by (nonlinear_arith)
            requires
                1 <= s,
                0 <= (-d) * m,
                q0 == (-d) * m / s,
        ;
        assert((q0 * q0) * (s * s) <= ((-d) * m) * ((-d) * m)) by (nonlinear_arith)
            requires
                0 <= q0,
                0 <= q0 * s <= (-d) * m,
        ;
        assert(((-d) * m) * ((-d) * m) == (d * d) * (m * m)) by (nonlinear_arith);
        assert((-q0) * (-q0) == q0 * q0) by (nonlinear_arith);
    }
}

/// Computes the live aim point of a mouse-driven cast. The result stays
/// within the drag radius (carried into the mask frame) of the cast anchor,
/// whatever the cursor does.
pub fn cast_spell_current_pos(
    cursor: Position,
    center: Position,
    cast_pos: Position,
    cast_radius: u32,
    drag_radius: u32,
    mask: Size,
    original: CanvasSize,
    h_scale_mil: u32,
    v_scale_mil: u32,
) -> (r: Position)
    requires
        spec_canvas_wf(original),
        spec_pos_in_canvas(center, original),
        spec_pos_in_canvas(cast_pos, original),
        cast_radius <= original.height,
        drag_radius <= original.height,
        1 <= h_scale_mil <= 100000,
        1 <= v_scale_mil <= 100000,
        -0x20000 <= cursor.x <= 0x20000,
        -0x20000 <= cursor.y <= 0x20000,
    ensures
        exists|s: int|
            #[trigger] spec_is_ceil_sqrt(
                spec_cast_sq(
                    cursor,
                    center,
                    cast_radius,
                    mask,
                    original,
                    h_scale_mil as int,
                    v_scale_mil as int,
                ),
                s,
            ) && r == spec_cast_spell_current_pos(
                cursor,
                center,
                cast_pos,
                cast_radius,
                drag_radius,
                mask,
                original,
                h_scale_mil as int,
                v_scale_mil as int,
                s,
            ),
        spec_dist2(r, spec_to_mask(cast_pos, original, mask)) <= spec_mask_len(
            drag_radius,
            original,
            mask,
        ) * spec_mask_len(drag_radius, original, mask),
        -0x20000 <= r.x <= 0x20000,
        -0x20000 <= r.y <= 0x20000,
{
    let cm = mask_point(center, original, mask);
    let pm = mask_point(cast_pos, original, mask);
    let cast_m0 = mask_len(cast_radius, original, mask);
    let drag_m = mask_len(drag_radius, original, mask);
    let dx0 = cursor.x - cm.x;
    let dy0 = cursor.y - cm.y;
    let (dx, dy, cast_m) = if h_scale_mil > v_scale_mil {
        let dy1 = mul_div_i64(dy0, v_scale_mil as i64, h_scale_mil as i64);
        let c1 = mul_div_i64(cast_m0 as i64, v_scale_mil as i64, h_scale_mil as i64);
        proof {
            lemma_mul_div_trunc_within(dy0 as int, v_scale_mil as int, h_scale_mil as int);
            lemma_mul_div_trunc_within(cast_m0 as int, v_scale_mil as int, h_scale_mil as int);
        }
        (dx0, dy1, c1)
    } else {
        let dx1 = mul_div_i64(dx0, h_scale_mil as i64, v_scale_mil as i64);
        let c1 = mul_div_i64(cast_m0 as i64, h_scale_mil as i64, v_scale_mil as i64);
        proof {
            lemma_mul_div_trunc_within(dx0 as int, h_scale_mil as int, v_scale_mil as int);
            lemma_mul_div_trunc_within(cast_m0 as int, h_scale_mil as int, v_scale_mil as int);
        }
        (dx1, dy0, c1)
    };
    proof {
        assert(-0x30000 <= dx <= 0x30000 && -0x30000 <= dy <= 0x30000);
        assert(0 <= cast_m <= 0xFFFF);
        assert((dx as int) * (dx as int) + (dy as int) * (dy as int) <= 0x1200000000
            && 0 <= (dx as int) * (dx as int) && 0 <= (dy as int) * (dy as int))
            by (nonlinear_arith)
            requires
                -0x30000 <= dx as int <= 0x30000,
                -0x30000 <= dy as int <= 0x30000,
        ;
    }
    let sq: u64 = ((dx * dx) + (dy * dy)) as u64;
    let s = ceil_sqrt(sq);
    proof {
        assert(0 <= (cast_m as int) * (cast_m as int) <= 0xFFFF * 0xFFFF) by (nonlinear_arith)
            requires
                0 <= cast_m as int <= 0xFFFF,
        ;
        lemma_cast_delta_in_radius(dx as int, dy as int, cast_m as int, drag_m as int, s as int);
    }
    let (ex, ey): (i64, i64) = if (sq as i64) > (cast_m as i64) * (cast_m as i64) {
        proof {
            assert(s >= 1);
            assert(-(s as int) <= dx as int <= s as int && -(s as int) <= dy as int
                <= s as int) by (nonlinear_arith)
                requires
                    (dx as int) * (dx as int) <= (s as int) * (s as int),
                    (dy as int) * (dy as int) <= (s as int) * (s as int),
                    1 <= s as int,
                    (dx as int) * (dx as int) + (dy as int) * (dy as int) <= (s as int) * (
                    s as int),
                    0 <= (dx as int) * (dx as int),
                    0 <= (dy as int) * (dy as int),
        ;
        }
        let ex = mul_div_i64(dx, drag_m as i64, s as i64);
        let ey = mul_div_i64(dy, drag_m as i64, s as i64);
        (ex, ey)
    } else if cast_m == 0 {
        (0i64, 0i64)
    } else {
        proof {
            assert(-(cast_m as int) <= dx as int <= cast_m as int && -(cast_m as int) <= dy as int
                <= cast_m as int) by (nonlinear_arith)
                requires
                    (dx as int) * (dx as int) + (dy as int) * (dy as int) <= (cast_m as int) * (
                    cast_m as int),
                    0 <= (dx as int) * (dx as int),
                    0 <= (dy as int) * (dy as int),
                    1 <= cast_m as int,
            ;
        }
        let ex = mul_div_i64(dx, drag_m as i64, cast_m as i64);
        let ey = mul_div_i64(dy, drag_m as i64, cast_m as i64);
        (ex, ey)
    };
    proof {
        let dd = spec_cast_delta(dx as int, dy as int, cast_m as int, drag_m as int, s as int);
        assert((ex as int, ey as int) == dd);
        assert(ex * ex + ey * ey <= (drag_m as int) * (drag_m as int));
        assert(0 <= (ex as int) * (ex as int) && 0 <= (ey as int) * (ey as int))
            by (nonlinear_arith);
        assert(-(drag_m as int) <= ex as int <= drag_m as int && -(drag_m as int) <= ey as int
            <= drag_m as int) by (nonlinear_arith)
            requires
                (ex as int) * (ex as int) + (ey as int) * (ey as int) <= (drag_m as int) * (
                drag_m as int),
                0 <= (ex as int) * (ex as int),
                0 <= (ey as int) * (ey as int),
                0 <= drag_m as int,
        ;
    }
    let r = Position { x: pm.x + ex, y: pm.y + ey };
    proof {
        assert(spec_is_ceil_sqrt(
            spec_cast_sq(
                cursor,
                center,
                cast_radius,
                mask,
                original,
                h_scale_mil as int,
                v_scale_mil as int,
            ),
            s as int,
        ));
        assert(r == spec_cast_spell_current_pos(
            cursor,
            center,
            cast_pos,
            cast_radius,
            drag_radius,
            mask,
            original,
            h_scale_mil as int,
            v_scale_mil as int,
            s as int,
        ));
        assert(spec_dist2(r, spec_to_mask(cast_pos, original, mask)) == (ex as int) * (ex as int)
            + (ey as int) * (ey as int));
    }
    r
}

/// The truncated scale by a factor in thousandths (at most a hundredfold)
/// keeps 21-bit inputs within 38 bits; a ratio of at most one keeps them
/// within their own range.
proof fn lemma_mul_div_trunc_within(d: int, m: int, n: int)
    requires
        1 <= n,
        0 <= m <= n,
        -0x100000 <= d <= 0x100000,
    ensures
        -0x100000 <= spec_mul_div_trunc(d, m, n) <= 0x100000,
        d >= 0 ==> spec_mul_div_trunc(d, m, n) <= d,
        d < 0 ==> spec_mul_div_trunc(d, m, n) >= d,
{
    if d >= 0 {
        assert(0 <= d * m / n <= d) by (nonlinear_arith)
            requires
                1 <= n,
                0 <= m <= n,
                0 <= d,
        ;
    } else {
        assert(0 <= (-d) * m / n <= -d) by (nonlinear_arith)
            requires
                1 <= n,
                0 <= m <= n,
                0 <= -d,
        ;
    }
}


/// One live press of a direction pad: when its eased approach finishes and
/// the offset it last moved to.
#[derive(Debug, Clone, Copy, PartialEq, Eq, Structural)]
pub struct PadItem {
    pub enable_at: u64,
    pub last_x: i64,
    pub last_y: i64,
}

/// The sum of a point and an offset.
pub open spec fn spec_offset(p: Position, dx: int, dy: int) -> Position {
    Position { x: (p.x + dx) as i64, y: (p.y + dy) as i64 }
}

/// Appends the eased stroke from `a` to `b`: at each step `k` of `steps`,
/// a move to the eased point then a `dur`-millisecond pause.
fn push_segment_moves(
    pointer_id: u64,
    size: Size,
    a: Position,
    b: Position,
    steps: u64,
    dur: u64,
    out: &mut Vec<Effect>,
)
    requires
        0 < steps <= 0x1000000000000000,
        -0x80000000 <= a.x <= 0x7FFFFFFF,
        -0x80000000 <= a.y <= 0x7FFFFFFF,
        -0x80000000 <= b.x <= 0x7FFFFFFF,
        -0x80000000 <= b.y <= 0x7FFFFFFF,
    ensures
        effects_view(final(out)@) == effects_view(old(out)@) + crate::effect::spec_segment_moves(
            pointer_id,
            size,
            a,
            b,
            steps as int,
            dur,
            1,
        ),
{
    let ghost seg = crate::effect::spec_segment_moves(
        pointer_id,
        size,
        a,
        b,
        steps as int,
        dur,
        1,
    );
    let ghost seg_base = effects_view(out@);
    proof {
        assert(effects_view(out@) =~= seg_base + seg.take(0int));
    }
    let mut k: u64 = 1;
    let ghost done: int = 0;
    while k <= steps
        invariant
            1 <= k,
            k as int <= steps as int + 1,
            0 < steps <= 0x1000000000000000,
            done == 2 * (k as int - 1),
            -0x80000000 <= a.x <= 0x7FFFFFFF,
            -0x80000000 <= a.y <= 0x7FFFFFFF,
            -0x80000000 <= b.x <= 0x7FFFFFFF,
            -0x80000000 <= b.y <= 0x7FFFFFFF,
            seg == crate::effect::spec_segment_moves(
                pointer_id,
                size,
                a,
                b,
                steps as int,
                dur,
                1,
            ),
            0 <= done <= seg.len(),
            seg == seg.take(done) + crate::effect::spec_segment_moves(
                pointer_id,
                size,
                a,
                b,
                steps as int,
                dur,
                k as int,
            ),
            effects_view(out@) == seg_base + seg.take(done),
        decreases steps as int + 1 - k as int,
    {
        let p = crate::effect::interp(a, b, k, steps);
        out.push(Effect::Send(touch_msg(MotionEventAction::Move, pointer_id, size, p)));
        out.push(Effect::Wait(dur));
        proof {
            let rest = crate::effect::spec_segment_moves(
                pointer_id,
                size,
                a,
                b,
                steps as int,
                dur,
                k as int,
            );
            let rest2 = crate::effect::spec_segment_moves(
                pointer_id,
                size,
                a,
                b,
                steps as int,
                dur,
                k as int + 1,
            );
            assert(rest == seq![
                EffectView::Send(
                    spec_touch_view(
                        MotionEventAction::Move,
                        pointer_id,
                        size,
                        crate::effect::spec_interp(a, b, k as int, steps as int),
                    ),
                ),
                EffectView::Wait(dur),
            ] + rest2);
            assert(seg =~= seg.take(done + 2) + rest2);
            assert(seg.take(done + 2) =~= seg.take(done) + seq![rest[0], rest[1]]);
            assert(effects_view(out@) =~= (seg_base + seg.take(done)) + seq![rest[0], rest[1]]);
            assert(effects_view(out@) =~= seg_base + seg.take(done + 2));
            done = done + 2;
        }
        k = k + 1;
    }
    proof {
        assert(crate::effect::spec_segment_moves(
            pointer_id,
            size,
            a,
            b,
            steps as int,
            dur,
            k as int,
        ) =~= Seq::<EffectView>::empty());
        assert(seg =~= seg.take(done));
        assert(effects_view(out@) =~= seg_base + seg);
    }
}

/// The eased approach of a fresh pad press: one move every
/// `MIN_MOVE_STEP_INTERVAL` milliseconds toward `center + d2d`, over the
/// pad\'s initial duration.
pub open spec fn spec_pad_approach(
    m: MappingDirectionPad,
    dx: int,
    dy: int,
    size: Size,
) -> Seq<EffectView> {
    let steps = if m.initial_duration / 25 > 1 {
        m.initial_duration / 25
    } else {
        1u64
    };
    crate::effect::spec_segment_moves(
        m.pointer_id,
        size,
        m.position,
        spec_offset(m.position, dx, dy),
        steps as int,
        25,
        1,
    )
}

/// One tick of a direction pad, as a function of its state and the scaled
/// input offset `(dx, dy)`. While the latch blocks pads nothing happens; a
/// settling press waits out its approach; a zero input releases at the
/// last moved offset and clears the press; a changed input moves to the
/// new offset and records it; a fresh nonzero input presses at the center,
/// approaches the offset with eased moves, and settles until the approach
/// is over.
pub open spec fn spec_direction_pad_step(
    m: MappingDirectionPad,
    item: Option<PadItem>,
    blocked: bool,
    now_ms: u64,
    dx: int,
    dy: int,
    size: Size,
) -> (Option<PadItem>, Seq<EffectView>) {
    if blocked {
        (item, Seq::<EffectView>::empty())
    } else {
        match item {
            Some(it) => {
                if now_ms < it.enable_at {
                    (item, Seq::<EffectView>::empty())
                } else if dx == 0 && dy == 0 {
                    (
                        None,
                        seq![
                            EffectView::Send(
                                spec_touch_view(
                                    MotionEventAction::Up,
                                    m.pointer_id,
                                    size,
                                    spec_offset(m.position, it.last_x as int, it.last_y as int),
                                ),
                            ),
                        ],
                    )
                } else if dx != it.last_x || dy != it.last_y {
                    (
                        Some(PadItem { enable_at: it.enable_at, last_x: dx as i64, last_y: dy as i64 }),
                        seq![
                            EffectView::Send(
                                spec_touch_view(
                                    MotionEventAction::Move,
                                    m.pointer_id,
                                    size,
                                    spec_offset(m.position, dx, dy),
                                ),
                            ),
                        ],
                    )
                } else {
                    (item, Seq::<EffectView>::empty())
                }
            },
            None => {
                if dx != 0 || dy != 0 {
                    (
                        Some(
                            PadItem {
                                enable_at: (now_ms + m.initial_duration + 25) as u64,
                                last_x: dx as i64,
                                last_y: dy as i64,
                            },
                        ),
                        seq![
                            EffectView::Send(
                                spec_touch_view(
                                    MotionEventAction::Down,
                                    m.pointer_id,
                                    size,
                                    m.position,
                                ),
                            ),
                        ] + spec_pad_approach(m, dx, dy, size),
                    )
                } else {
                    (None, Seq::<EffectView>::empty())
                }
            },
        }
    }
}

/// Steps one direction pad instance by one tick. `(dx, dy)` is the input
/// state already scaled onto the pad ellipse by `scale_direction`.
pub fn direction_pad_step(
    m: &MappingDirectionPad,
    item: Option<PadItem>,
    blocked: bool,
    now_ms: u64,
    dx: i64,
    dy: i64,
    size: Size,
) -> (r: (Option<PadItem>, Vec<Effect>))
    requires
        -0x40000000 <= m.position.x <= 0x40000000,
        -0x40000000 <= m.position.y <= 0x40000000,
        -0x10000000 <= dx <= 0x10000000,
        -0x10000000 <= dy <= 0x10000000,
        item matches Some(it) ==> -0x10000000 <= it.last_x <= 0x10000000 && -0x10000000
            <= it.last_y <= 0x10000000,
        now_ms <= 0x100000000000000,
        m.initial_duration <= 0x100000000,
    ensures
        r.0 == spec_direction_pad_step(*m, item, blocked, now_ms, dx as int, dy as int, size).0,
        effects_view(r.1@) == spec_direction_pad_step(
            *m,
            item,
            blocked,
            now_ms,
            dx as int,
            dy as int,
            size,
        ).1,
{
    let mut out: Vec<Effect> = Vec::new();
    if blocked {
        proof {
            assert(effects_view(out@) =~= spec_direction_pad_step(
                *m,
                item,
                blocked,
                now_ms,
                dx as int,
                dy as int,
                size,
            ).1);
        }
        return (item, out);
    }
    match item {
        Some(it) => {
            if now_ms < it.enable_at {
                proof {
                    assert(effects_view(out@) =~= Seq::<EffectView>::empty());
                }
                (item, out)
            } else if dx == 0 && dy == 0 {
                let at = Position { x: m.position.x + it.last_x, y: m.position.y + it.last_y };
                out.push(Effect::Send(touch_msg(MotionEventAction::Up, m.pointer_id, size, at)));
                proof {
                    assert(effects_view(out@) =~= spec_direction_pad_step(
                        *m,
                        item,
                        blocked,
                        now_ms,
                        dx as int,
                        dy as int,
                        size,
                    ).1);
                }
                (None, out)
            } else if dx != it.last_x || dy != it.last_y {
                let at = Position { x: m.position.x + dx, y: m.position.y + dy };
                out.push(Effect::Send(touch_msg(MotionEventAction::Move, m.pointer_id, size, at)));
                proof {
                    assert(effects_view(out@) =~= spec_direction_pad_step(
                        *m,
                        item,
                        blocked,
                        now_ms,
                        dx as int,
                        dy as int,
                        size,
                    ).1);
                }
                (Some(PadItem { enable_at: it.enable_at, last_x: dx, last_y: dy }), out)
            } else {
                proof {
                    assert(effects_view(out@) =~= Seq::<EffectView>::empty());
                }
                (item, out)
            }
        },
        None => {
            if dx != 0 || dy != 0 {
                out.push(
                    Effect::Send(touch_msg(MotionEventAction::Down, m.pointer_id, size, m.position)),
                );
                let steps = if m.initial_duration / 25 > 1 {
                    m.initial_duration / 25
                } else {
                    1u64
                };
                let to = Position { x: m.position.x + dx, y: m.position.y + dy };
                push_segment_moves(m.pointer_id, size, m.position, to, steps, 25, &mut out);
                proof {
                    assert(effects_view(out@) =~= spec_direction_pad_step(
                        *m,
                        item,
                        blocked,
                        now_ms,
                        dx as int,
                        dy as int,
                        size,
                    ).1);
                }
                (
                    Some(PadItem { enable_at: now_ms + m.initial_duration + 25, last_x: dx, last_y: dy }),
                    out,
                )
            } else {
                proof {
                    assert(effects_view(out@) =~= Seq::<EffectView>::empty());
                }
                (None, out)
            }
        },
    }
}

/// Releases one live pad press at the offset it last moved to; the pad-cast
/// latch uses this to lift every pad before its own press.
pub fn direction_pad_drain(m: &MappingDirectionPad, item: &PadItem, size: Size) -> (r: Vec<
    Effect,
>)
    requires
        -0x40000000 <= m.position.x <= 0x40000000,
        -0x40000000 <= m.position.y <= 0x40000000,
        -0x10000000 <= item.last_x <= 0x10000000,
        -0x10000000 <= item.last_y <= 0x10000000,
    ensures
        effects_view(r@) == seq![
            EffectView::Send(
                spec_touch_view(
                    MotionEventAction::Up,
                    m.pointer_id,
                    size,
                    spec_offset(m.position, item.last_x as int, item.last_y as int),
                ),
            ),
        ],
{
    let mut out: Vec<Effect> = Vec::new();
    let at = Position { x: m.position.x + item.last_x, y: m.position.y + item.last_y };
    out.push(Effect::Send(touch_msg(MotionEventAction::Up, m.pointer_id, size, at)));
    proof {
        assert(effects_view(out@) =~= seq![
            EffectView::Send(
                spec_touch_view(
                    MotionEventAction::Up,
                    m.pointer_id,
                    size,
                    spec_offset(m.position, item.last_x as int, item.last_y as int),
                ),
            ),
        ]);
    }
    out
}


/// A sensitivity in thousandths applied to a motion delta, truncated
/// toward zero.
pub open spec fn spec_sens(d: int, sens_mil: int) -> int {
    spec_mul_div_trunc(d, sens_mil, 1000)
}

fn sens_apply(d: i64, sens_mil: u32) -> (r: i64)
    requires
        -0x100000 <= d <= 0x100000,
        sens_mil <= 100000,
    ensures
        r == spec_sens(d as int, sens_mil as int),
        -0x100000000 <= r <= 0x100000000,
{
    let r = mul_div_i64(d, sens_mil as i64, 1000);
    proof {
        if d >= 0 {
            assert(0 <= (d as int) * (sens_mil as int) / 1000 <= 0x100000000) by (nonlinear_arith)
                requires
                    0 <= d as int <= 0x100000,
                    0 <= sens_mil as int <= 100000,
            ;
        } else {
            assert(0 <= (-(d as int)) * (sens_mil as int) / 1000 <= 0x100000000)
                by (nonlinear_arith)
                requires
                    -0x100000 <= d as int <= -1,
                    0 <= sens_mil as int <= 100000,
            ;
        }
    }
    r
}

/// One held observation: where the pointer went down in the mask frame,
/// the cursor it started from, and its drag sensitivities.
#[derive(Debug, Clone, Copy, PartialEq, Eq, Structural)]
pub struct ObservationItem {
    pub pointer_id: u64,
    pub start_cursor: Position,
    pub mask_pos: Position,
    pub sensitivity_x: u32,
    pub sensitivity_y: u32,
}

/// Where an observation drag stands for a given live cursor: its press
/// point shifted by the cursor travel, scaled by the sensitivities.
pub open spec fn spec_observation_point(item: ObservationItem, cursor: Position) -> Position {
    spec_offset(
        item.mask_pos,
        spec_sens(cursor.x - item.start_cursor.x, item.sensitivity_x as int),
        spec_sens(cursor.y - item.start_cursor.y, item.sensitivity_y as int),
    )
}

/// The ranges an observation item lives in: its press point inside the
/// mask, its start cursor in cursor range, its sensitivities in
/// thousandths.
pub open spec fn spec_observation_wf(item: ObservationItem) -> bool {
    &&& 0 <= item.mask_pos.x <= 0xFFFF
    &&& 0 <= item.mask_pos.y <= 0xFFFF
    &&& -0x20000 <= item.start_cursor.x <= 0x20000
    &&& -0x20000 <= item.start_cursor.y <= 0x20000
    &&& item.sensitivity_x <= 100000
    &&& item.sensitivity_y <= 100000
}

/// Starts an observation: the pointer goes down at the mapping\'s position
/// carried into the mask frame, and the item records the cursor it must
/// measure travel from.
pub fn observation_press(
    m: &MappingObservation,
    original: CanvasSize,
    mask: Size,
    cursor: Position,
) -> (r: (ObservationItem, Vec<Effect>))
    requires
        spec_canvas_wf(original),
        spec_pos_in_canvas(m.position, original),
        -0x20000 <= cursor.x <= 0x20000,
        -0x20000 <= cursor.y <= 0x20000,
        m.sensitivity_x <= 100000,
        m.sensitivity_y <= 100000,
    ensures
        r.0 == (ObservationItem {
            pointer_id: m.pointer_id,
            start_cursor: cursor,
            mask_pos: spec_to_mask(m.position, original, mask),
            sensitivity_x: m.sensitivity_x,
            sensitivity_y: m.sensitivity_y,
        }),
        effects_view(r.1@) == seq![
            EffectView::Send(
                spec_touch_view(
                    MotionEventAction::Down,
                    m.pointer_id,
                    mask,
                    spec_to_mask(m.position, original, mask),
                ),
            ),
        ],
        spec_observation_wf(r.0),
{
    let mask_pos = mask_point(m.position, original, mask);
    let mut out: Vec<Effect> = Vec::new();
    out.push(Effect::Send(touch_msg(MotionEventAction::Down, m.pointer_id, mask, mask_pos)));
    proof {
        assert(effects_view(out@) =~= seq![
            EffectView::Send(
                spec_touch_view(
                    MotionEventAction::Down,
                    m.pointer_id,
                    mask,
                    spec_to_mask(m.position, original, mask),
                ),
            ),
        ]);
    }
    (
        ObservationItem {
            pointer_id: m.pointer_id,
            start_cursor: cursor,
            mask_pos,
            sensitivity_x: m.sensitivity_x,
            sensitivity_y: m.sensitivity_y,
        },
        out,
    )
}

fn observation_point(item: &ObservationItem, cursor: Position) -> (r: Position)
    requires
        spec_observation_wf(*item),
        -0x20000 <= cursor.x <= 0x20000,
        -0x20000 <= cursor.y <= 0x20000,
    ensures
        r == spec_observation_point(*item, cursor),
{
    let dx = sens_apply(cursor.x - item.start_cursor.x, item.sensitivity_x);
    let dy = sens_apply(cursor.y - item.start_cursor.y, item.sensitivity_y);
    Position { x: item.mask_pos.x + dx, y: item.mask_pos.y + dy }
}

/// One tick of a held observation: a move to the point the cursor travel
/// has dragged the pointer to.
pub fn observation_move(item: &ObservationItem, mask: Size, cursor: Position) -> (r: Vec<Effect>)
    requires
        spec_observation_wf(*item),
        -0x20000 <= cursor.x <= 0x20000,
        -0x20000 <= cursor.y <= 0x20000,
    ensures
        effects_view(r@) == seq![
            EffectView::Send(
                spec_touch_view(
                    MotionEventAction::Move,
                    item.pointer_id,
                    mask,
                    spec_observation_point(*item, cursor),
                ),
            ),
        ],
{
    let p = observation_point(item, cursor);
    let mut out: Vec<Effect> = Vec::new();
    out.push(Effect::Send(touch_msg(MotionEventAction::Move, item.pointer_id, mask, p)));
    proof {
        assert(effects_view(out@) =~= seq![
            EffectView::Send(
                spec_touch_view(
                    MotionEventAction::Move,
                    item.pointer_id,
                    mask,
                    spec_observation_point(*item, cursor),
                ),
            ),
        ]);
    }
    out
}

/// Ends an observation: the pointer lifts at the same computed point a
/// move of this tick would go to.
pub fn observation_release(item: &ObservationItem, mask: Size, cursor: Position) -> (r: Vec<
    Effect,
>)
    requires
        spec_observation_wf(*item),
        -0x20000 <= cursor.x <= 0x20000,
        -0x20000 <= cursor.y <= 0x20000,
    ensures
        effects_view(r@) == seq![
            EffectView::Send(
                spec_touch_view(
                    MotionEventAction::Up,
                    item.pointer_id,
                    mask,
                    spec_observation_point(*item, cursor),
                ),
            ),
        ],
{
    let p = observation_point(item, cursor);
    let mut out: Vec<Effect> = Vec::new();
    out.push(Effect::Send(touch_msg(MotionEventAction::Up, item.pointer_id, mask, p)));
    proof {
        assert(effects_view(out@) =~= seq![
            EffectView::Send(
                spec_touch_view(
                    MotionEventAction::Up,
                    item.pointer_id,
                    mask,
                    spec_observation_point(*item, cursor),
                ),
            ),
        ]);
    }
    out
}


/// The live aim-mode configuration: whose pointer drives the aim, where
/// its center sits in the authored frame, and whether motion is suspended
/// while a fire mapping holds the pointer pair.
#[derive(Debug, Clone, Copy, PartialEq, Eq, Structural)]
pub struct FpsAimState {
    pub pointer_id: u64,
    pub original_pos: Position,
    pub original_size: CanvasSize,
    pub sensitivity_x: u32,
    pub sensitivity_y: u32,
    pub ignore_fps_motion: bool,
}

/// The ranges an aim state lives in.
pub open spec fn spec_fps_wf(f: FpsAimState) -> bool {
    &&& spec_canvas_wf(f.original_size)
    &&& spec_pos_in_canvas(f.original_pos, f.original_size)
    &&& f.sensitivity_x <= 100000
    &&& f.sensitivity_y <= 100000
}

/// The authored frame of a canvas as a wire-sized frame.
pub fn canvas_frame(c: CanvasSize) -> (r: Size)
    requires
        spec_canvas_wf(c),
    ensures
        r.width == c.width,
        r.height == c.height,
{
    Size { width: c.width as u16, height: c.height as u16 }
}

/// Enters aim mode: records the mapping as the live aim state, presses at
/// the aim center in the authored frame, and teleports the cursor to the
/// center carried into the mask frame.
pub fn fps_enter_step(m: &MappingFps, original: CanvasSize, mask: Size) -> (r: (
    FpsAimState,
    Position,
    Vec<Effect>,
))
    requires
        spec_canvas_wf(original),
        spec_pos_in_canvas(m.position, original),
        m.sensitivity_x <= 100000,
        m.sensitivity_y <= 100000,
    ensures
        r.0 == (FpsAimState {
            pointer_id: m.pointer_id,
            original_pos: m.position,
            original_size: original,
            sensitivity_x: m.sensitivity_x,
            sensitivity_y: m.sensitivity_y,
            ignore_fps_motion: false,
        }),
        r.1 == spec_to_mask(m.position, original, mask),
        effects_view(r.2@) == seq![
            EffectView::Send(
                spec_touch_view(
                    MotionEventAction::Down,
                    m.pointer_id,
                    Size { width: original.width as u16, height: original.height as u16 },
                    m.position,
                ),
            ),
        ],
        spec_fps_wf(r.0),
{
    let frame = canvas_frame(original);
    let center = mask_point(m.position, original, mask);
    let mut out: Vec<Effect> = Vec::new();
    out.push(Effect::Send(touch_msg(MotionEventAction::Down, m.pointer_id, frame, m.position)));
    proof {
        assert(effects_view(out@) =~= seq![
            EffectView::Send(
                spec_touch_view(
                    MotionEventAction::Down,
                    m.pointer_id,
                    Size { width: original.width as u16, height: original.height as u16 },
                    m.position,
                ),
            ),
        ]);
    }
    (
        FpsAimState {
            pointer_id: m.pointer_id,
            original_pos: m.position,
            original_size: original,
            sensitivity_x: m.sensitivity_x,
            sensitivity_y: m.sensitivity_y,
            ignore_fps_motion: false,
        },
        center,
        out,
    )
}

/// Exits aim mode: the held pointer lifts at the live cursor, in the mask
/// frame, under the neutral pointer id the runtime uses for plain clicks.
pub fn fps_exit_plan(mask: Size, cursor: Position) -> (r: Vec<Effect>)
    ensures
        effects_view(r@) == seq![
            EffectView::Send(spec_touch_view(MotionEventAction::Up, 0u64, mask, cursor)),
        ],
{
    let mut out: Vec<Effect> = Vec::new();
    out.push(Effect::Send(touch_msg(MotionEventAction::Up, 0, mask, cursor)));
    proof {
        assert(effects_view(out@) =~= seq![
            EffectView::Send(spec_touch_view(MotionEventAction::Up, 0u64, mask, cursor)),
        ]);
    }
    out
}

/// A value clamped into a closed range.
pub open spec fn spec_clamp(v: int, lo: int, hi: int) -> int {
    if v < lo {
        lo
    } else if v > hi {
        hi
    } else {
        v
    }
}

fn clamp_i64(v: i64, lo: i64, hi: i64) -> (r: i64)
    requires
        lo <= hi,
    ensures
        r == spec_clamp(v as int, lo as int, hi as int),
{
    if v < lo {
        lo
    } else if v > hi {
        hi
    } else {
        v
    }
}

/// Whether a point leaves the mask rectangle shrunk by the aim margin on
/// every side.
pub open spec fn spec_fps_out_of_bounds(p: Position, mask: Size) -> bool {
    p.x < 25 || p.x > mask.width - 25 || p.y < 25 || p.y > mask.height - 25
}

/// The point clamped onto the margin-shrunk mask rectangle.
pub open spec fn spec_fps_edge(p: Position, mask: Size) -> Position {
    Position {
        x: spec_clamp(p.x as int, 25, mask.width - 25) as i64,
        y: spec_clamp(p.y as int, 25, mask.height - 25) as i64,
    }
}

/// The move-up-down re-center stroke at an edge point.
pub open spec fn spec_fps_recenter(
    pointer_id: u64,
    mask: Size,
    edge: Position,
    center: Position,
) -> Seq<EffectView> {
    seq![
        EffectView::Send(spec_touch_view(MotionEventAction::Move, pointer_id, mask, edge)),
        EffectView::Send(spec_touch_view(MotionEventAction::Up, pointer_id, mask, edge)),
        EffectView::Send(spec_touch_view(MotionEventAction::Down, pointer_id, mask, center)),
    ]
}

/// One motion tick of aim mode: where the cursor ends up and what is sent.
/// In-margin motion is one move. Motion that would leave the margin moves
/// to the edge, lifts, presses again at the center and applies the
/// remainder from there; a remainder that is still out of the margin ends
/// with a second re-center stroke at its own edge point.
pub open spec fn spec_fps_motion_step(
    fps: FpsAimState,
    mask: Size,
    cursor: Position,
    dx: int,
    dy: int,
) -> (Position, Seq<EffectView>) {
    if fps.ignore_fps_motion || (dx == 0 && dy == 0) {
        (cursor, Seq::<EffectView>::empty())
    } else {
        let np = spec_offset(
            cursor,
            spec_sens(dx, fps.sensitivity_x as int),
            spec_sens(dy, fps.sensitivity_y as int),
        );
        if spec_fps_out_of_bounds(np, mask) {
            let center = spec_to_mask(fps.original_pos, fps.original_size, mask);
            let edge = spec_fps_edge(np, mask);
            let cand = spec_offset(center, np.x - edge.x, np.y - edge.y);
            let head = spec_fps_recenter(fps.pointer_id, mask, edge, center);
            if spec_fps_out_of_bounds(cand, mask) {
                let edge2 = spec_fps_edge(cand, mask);
                (edge2, head + spec_fps_recenter(fps.pointer_id, mask, edge2, center))
            } else {
                (
                    cand,
                    head + seq![
                        EffectView::Send(
                            spec_touch_view(MotionEventAction::Move, fps.pointer_id, mask, cand),
                        ),
                    ],
                )
            }
        } else {
            (
                np,
                seq![
                    EffectView::Send(
                        spec_touch_view(MotionEventAction::Move, fps.pointer_id, mask, np),
                    ),
                ],
            )
        }
    }
}

/// Steps the aim cursor by one motion delta, re-centering at the margin so
/// the virtual aim can drift indefinitely. Returns the new cursor and the
/// exact messages of this tick.
pub fn fps_motion_step(fps: &FpsAimState, mask: Size, cursor: Position, dx: i64, dy: i64) -> (r: (
    Position,
    Vec<Effect>,
))
    requires
        spec_fps_wf(*fps),
        mask.width >= 50,
        mask.height >= 50,
        -0x20000 <= cursor.x <= 0x20000,
        -0x20000 <= cursor.y <= 0x20000,
        -0x100000 <= dx <= 0x100000,
        -0x100000 <= dy <= 0x100000,
    ensures
        r.0 == spec_fps_motion_step(*fps, mask, cursor, dx as int, dy as int).0,
        effects_view(r.1@) == spec_fps_motion_step(*fps, mask, cursor, dx as int, dy as int).1,
{
    let mut out: Vec<Effect> = Vec::new();
    if fps.ignore_fps_motion || (dx == 0 && dy == 0) {
        proof {
            assert(effects_view(out@) =~= Seq::<EffectView>::empty());
        }
        return (cursor, out);
    }
    let sx = sens_apply(dx, fps.sensitivity_x);
    let sy = sens_apply(dy, fps.sensitivity_y);
    let np = Position { x: cursor.x + sx, y: cursor.y + sy };
    let out_of_bounds = np.x < 25 || np.x > (mask.width as i64) - 25 || np.y < 25 || np.y > (
    mask.height as i64) - 25;
    if out_of_bounds {
        let center = mask_point(fps.original_pos, fps.original_size, mask);
        let edge = Position {
            x: clamp_i64(np.x, 25, (mask.width as i64) - 25),
            y: clamp_i64(np.y, 25, (mask.height as i64) - 25),
        };
        out.push(Effect::Send(touch_msg(MotionEventAction::Move, fps.pointer_id, mask, edge)));
        out.push(Effect::Send(touch_msg(MotionEventAction::Up, fps.pointer_id, mask, edge)));
        out.push(Effect::Send(touch_msg(MotionEventAction::Down, fps.pointer_id, mask, center)));
        let cand = Position { x: center.x + (np.x - edge.x), y: center.y + (np.y - edge.y) };
        let cand_out = cand.x < 25 || cand.x > (mask.width as i64) - 25 || cand.y < 25 || cand.y
            > (mask.height as i64) - 25;
        if cand_out {
            let edge2 = Position {
                x: clamp_i64(cand.x, 25, (mask.width as i64) - 25),
                y: clamp_i64(cand.y, 25, (mask.height as i64) - 25),
            };
            out.push(
                Effect::Send(touch_msg(MotionEventAction::Move, fps.pointer_id, mask, edge2)),
            );
            out.push(Effect::Send(touch_msg(MotionEventAction::Up, fps.pointer_id, mask, edge2)));
            out.push(
                Effect::Send(touch_msg(MotionEventAction::Down, fps.pointer_id, mask, center)),
            );
            proof {
                assert(effects_view(out@) =~= spec_fps_motion_step(
                    *fps,
                    mask,
                    cursor,
                    dx as int,
                    dy as int,
                ).1);
            }
            (edge2, out)
        } else {
            out.push(Effect::Send(touch_msg(MotionEventAction::Move, fps.pointer_id, mask, cand)));
            proof {
                assert(effects_view(out@) =~= spec_fps_motion_step(
                    *fps,
                    mask,
                    cursor,
                    dx as int,
                    dy as int,
                ).1);
            }
            (cand, out)
        }
    } else {
        out.push(Effect::Send(touch_msg(MotionEventAction::Move, fps.pointer_id, mask, np)));
        proof {
            assert(effects_view(out@) =~= spec_fps_motion_step(
                *fps,
                mask,
                cursor,
                dx as int,
                dy as int,
            ).1);
        }
        (np, out)
    }
}

/// One held fire mapping: its pointer, its own tracked touch point in the
/// mask frame, and its drag sensitivities.
#[derive(Debug, Clone, Copy, PartialEq, Eq, Structural)]
pub struct FireItem {
    pub pointer_id: u64,
    pub current_pos: Position,
    pub sensitivity_x: u32,
    pub sensitivity_y: u32,
}

/// The ranges a fire item lives in.
pub open spec fn spec_fire_wf(item: FireItem) -> bool {
    &&& -0x20000 <= item.current_pos.x <= 0x20000
    &&& -0x20000 <= item.current_pos.y <= 0x20000
    &&& item.sensitivity_x <= 100000
    &&& item.sensitivity_y <= 100000
}

/// A fire press while aim mode is active: aim motion is suspended, the aim
/// pointer lifts at the live cursor, the fire pointer presses at its own
/// position in the authored frame, and a fire item starts tracking from
/// that position carried into the mask frame.
pub fn fire_press_step(
    m: &MappingFire,
    fps: &FpsAimState,
    mask: Size,
    cursor: Position,
    original: CanvasSize,
) -> (r: (FpsAimState, FireItem, Vec<Effect>))
    requires
        spec_canvas_wf(original),
        spec_pos_in_canvas(m.position, original),
        m.sensitivity_x <= 100000,
        m.sensitivity_y <= 100000,
    ensures
        r.0 == (FpsAimState { ignore_fps_motion: true, ..*fps }),
        r.1 == (FireItem {
            pointer_id: m.pointer_id,
            current_pos: spec_to_mask(m.position, original, mask),
            sensitivity_x: m.sensitivity_x,
            sensitivity_y: m.sensitivity_y,
        }),
        effects_view(r.2@) == seq![
            EffectView::Send(
                spec_touch_view(MotionEventAction::Up, fps.pointer_id, mask, cursor),
            ),
            EffectView::Send(
                spec_touch_view(
                    MotionEventAction::Down,
                    m.pointer_id,
                    Size { width: original.width as u16, height: original.height as u16 },
                    m.position,
                ),
            ),
        ],
        spec_fire_wf(r.1),
{
    let frame = canvas_frame(original);
    let current_pos = mask_point(m.position, original, mask);
    let mut out: Vec<Effect> = Vec::new();
    out.push(Effect::Send(touch_msg(MotionEventAction::Up, fps.pointer_id, mask, cursor)));
    out.push(Effect::Send(touch_msg(MotionEventAction::Down, m.pointer_id, frame, m.position)));
    proof {
        assert(effects_view(out@) =~= seq![
            EffectView::Send(
                spec_touch_view(MotionEventAction::Up, fps.pointer_id, mask, cursor),
            ),
            EffectView::Send(
                spec_touch_view(
                    MotionEventAction::Down,
                    m.pointer_id,
                    Size { width: original.width as u16, height: original.height as u16 },
                    m.position,
                ),
            ),
        ]);
    }
    (
        FpsAimState { ignore_fps_motion: true, ..*fps },
        FireItem {
            pointer_id: m.pointer_id,
            current_pos,
            sensitivity_x: m.sensitivity_x,
            sensitivity_y: m.sensitivity_y,
        },
        out,
    )
}

/// Where a fire item\'s touch point goes after one motion delta.
pub open spec fn spec_fire_point(item: FireItem, dx: int, dy: int) -> Position {
    spec_offset(
        item.current_pos,
        spec_sens(dx, item.sensitivity_x as int),
        spec_sens(dy, item.sensitivity_y as int),
    )
}

/// One motion tick of a held fire mapping: the item\'s touch point drifts
/// by the scaled delta and a move is sent there.
pub fn fire_motion_step(item: &FireItem, mask: Size, dx: i64, dy: i64) -> (r: (
    FireItem,
    Vec<Effect>,
))
    requires
        spec_fire_wf(*item),
        -0x100000 <= dx <= 0x100000,
        -0x100000 <= dy <= 0x100000,
    ensures
        r.0 == (FireItem { current_pos: spec_fire_point(*item, dx as int, dy as int), ..*item }),
        effects_view(r.1@) == seq![
            EffectView::Send(
                spec_touch_view(
                    MotionEventAction::Move,
                    item.pointer_id,
                    mask,
                    spec_fire_point(*item, dx as int, dy as int),
                ),
            ),
        ],
{
    let sx = sens_apply(dx, item.sensitivity_x);
    let sy = sens_apply(dy, item.sensitivity_y);
    let p = Position { x: item.current_pos.x + sx, y: item.current_pos.y + sy };
    let mut out: Vec<Effect> = Vec::new();
    out.push(Effect::Send(touch_msg(MotionEventAction::Move, item.pointer_id, mask, p)));
    proof {
        assert(effects_view(out@) =~= seq![
            EffectView::Send(
                spec_touch_view(
                    MotionEventAction::Move,
                    item.pointer_id,
                    mask,
                    spec_fire_point(*item, dx as int, dy as int),
                ),
            ),
        ]);
    }
    (FireItem { current_pos: p, ..*item }, out)
}

/// The mirror switch back when the fire mapping is released: the fire
/// pointer lifts at its tracked point, the aim pointer presses again at
/// the aim center in the authored frame, the cursor resets to the center
/// carried into the mask frame, and aim motion resumes.
pub fn fire_release_step(item: &FireItem, fps: &FpsAimState, mask: Size) -> (r: (
    FpsAimState,
    Position,
    Vec<Effect>,
))
    requires
        spec_fps_wf(*fps),
    ensures
        r.0 == (FpsAimState { ignore_fps_motion: false, ..*fps }),
        r.1 == spec_to_mask(fps.original_pos, fps.original_size, mask),
        effects_view(r.2@) == seq![
            EffectView::Send(
                spec_touch_view(MotionEventAction::Up, item.pointer_id, mask, item.current_pos),
            ),
            EffectView::Send(
                spec_touch_view(
                    MotionEventAction::Down,
                    fps.pointer_id,
                    Size {
                        width: fps.original_size.width as u16,
                        height: fps.original_size.height as u16,
                    },
                    fps.original_pos,
                ),
            ),
        ],
{
    let frame = canvas_frame(fps.original_size);
    let center = mask_point(fps.original_pos, fps.original_size, mask);
    let mut out: Vec<Effect> = Vec::new();
    out.push(Effect::Send(touch_msg(MotionEventAction::Up, item.pointer_id, mask, item.current_pos)));
    out.push(Effect::Send(touch_msg(MotionEventAction::Down, fps.pointer_id, frame, fps.original_pos)));
    proof {
        assert(effects_view(out@) =~= seq![
            EffectView::Send(
                spec_touch_view(MotionEventAction::Up, item.pointer_id, mask, item.current_pos),
            ),
            EffectView::Send(
                spec_touch_view(
                    MotionEventAction::Down,
                    fps.pointer_id,
                    Size {
                        width: fps.original_size.width as u16,
                        height: fps.original_size.height as u16,
                    },
                    fps.original_pos,
                ),
            ),
        ]);
    }
    (FpsAimState { ignore_fps_motion: false, ..*fps }, center, out)
}


/// The record of the one active cast: which mapping owns it, where its
/// pointer currently rests, and the geometry its per-tick aim needs. A
/// mouse cast aims from the cursor; a pad cast aims from a direction
/// binding and remembers the offset it last moved to.
#[derive(Debug, Clone, Copy, PartialEq, Eq, Structural)]
pub struct ActiveCast {
    pub key: u64,
    pub mouse_flag: bool,
    pub pointer_id: u64,
    pub current_pos: Position,
    pub original_size: CanvasSize,
    pub cast_pos: Position,
    pub drag_radius: u32,
    pub enable_at: u64,
    pub center_pos: Position,
    pub cast_radius: u32,
    pub horizontal_scale_factor: u32,
    pub vertical_scale_factor: u32,
    pub cast_no_direction: bool,
    pub last_x: i64,
    pub last_y: i64,
    pub block_direction_pad: bool,
}

/// The ranges an active cast lives in.
pub open spec fn spec_cast_wf(c: ActiveCast) -> bool {
    &&& spec_canvas_wf(c.original_size)
    &&& spec_pos_in_canvas(c.cast_pos, c.original_size)
    &&& spec_pos_in_canvas(c.center_pos, c.original_size)
    &&& c.cast_radius <= c.original_size.height
    &&& c.drag_radius <= c.original_size.height
    &&& 1 <= c.horizontal_scale_factor <= 100000
    &&& 1 <= c.vertical_scale_factor <= 100000
    &&& -0x20000 <= c.current_pos.x <= 0x20000
    &&& -0x20000 <= c.current_pos.y <= 0x20000
    &&& -0x10000000 <= c.last_x <= 0x10000000
    &&& -0x10000000 <= c.last_y <= 0x10000000
}

/// The short settle of a fresh cast press from step `k` on: five one-pixel
/// diagonal moves around the press point; a mouse cast pauses ten
/// milliseconds after each, a pad cast does not.
pub open spec fn spec_cast_settle(
    pointer_id: u64,
    mask: Size,
    current: Position,
    with_waits: bool,
    k: int,
) -> Seq<EffectView>
    decreases 5 - k,
{
    if k < 0 || k >= 5 {
        Seq::<EffectView>::empty()
    } else {
        seq![
            EffectView::Send(
                spec_touch_view(
                    MotionEventAction::Move,
                    pointer_id,
                    mask,
                    spec_offset(current, k, -k),
                ),
            ),
        ] + (if with_waits {
            seq![EffectView::Wait(10u64)]
        } else {
            Seq::<EffectView>::empty()
        }) + spec_cast_settle(pointer_id, mask, current, with_waits, k + 1)
    }
}

fn push_cast_settle(
    pointer_id: u64,
    mask: Size,
    current: Position,
    with_waits: bool,
    out: &mut Vec<Effect>,
)
    requires
        -0x20000 <= current.x <= 0x20000,
        -0x20000 <= current.y <= 0x20000,
    ensures
        effects_view(final(out)@) == effects_view(old(out)@) + spec_cast_settle(
            pointer_id,
            mask,
            current,
            with_waits,
            0,
        ),
{
    let ghost whole = spec_cast_settle(pointer_id, mask, current, with_waits, 0);
    let ghost base = effects_view(out@);
    let ghost done: int = 0;
    proof {
        assert(effects_view(out@) =~= base + whole.take(0int));
    }
    let mut k: u64 = 0;
    while k < 5
        invariant
            0 <= k <= 5,
            -0x20000 <= current.x <= 0x20000,
            -0x20000 <= current.y <= 0x20000,
            whole == spec_cast_settle(pointer_id, mask, current, with_waits, 0),
            done == (if with_waits {
                2 * k as int
            } else {
                k as int
            }),
            0 <= done <= whole.len(),
            whole == whole.take(done) + spec_cast_settle(
                pointer_id,
                mask,
                current,
                with_waits,
                k as int,
            ),
            effects_view(out@) == base + whole.take(done),
        decreases 5 - k,
    {
        let p = Position { x: current.x + (k as i64), y: current.y - (k as i64) };
        out.push(Effect::Send(touch_msg(MotionEventAction::Move, pointer_id, mask, p)));
        if with_waits {
            out.push(Effect::Wait(10));
        }
        proof {
            let rest = spec_cast_settle(pointer_id, mask, current, with_waits, k as int);
            let rest2 = spec_cast_settle(pointer_id, mask, current, with_waits, k as int + 1);
            let step: int = if with_waits {
                2int
            } else {
                1int
            };
            if with_waits {
                assert(rest == seq![
                    EffectView::Send(
                        spec_touch_view(
                            MotionEventAction::Move,
                            pointer_id,
                            mask,
                            spec_offset(current, k as int, -(k as int)),
                        ),
                    ),
                    EffectView::Wait(10u64),
                ] + rest2);
                assert(whole =~= whole.take(done + 2) + rest2);
                assert(whole.take(done + 2) =~= whole.take(done) + seq![rest[0], rest[1]]);
                assert(effects_view(out@) =~= (base + whole.take(done)) + seq![
                    rest[0],
                    rest[1],
                ]);
                assert(effects_view(out@) =~= base + whole.take(done + 2));
            } else {
                assert(rest == seq![
                    EffectView::Send(
                        spec_touch_view(
                            MotionEventAction::Move,
                            pointer_id,
                            mask,
                            spec_offset(current, k as int, -(k as int)),
                        ),
                    ),
                ] + rest2);
                assert(whole =~= whole.take(done + 1) + rest2);
                assert(whole.take(done + 1) =~= whole.take(done) + seq![rest[0]]);
                assert(effects_view(out@) =~= (base + whole.take(done)) + seq![rest[0]]);
                assert(effects_view(out@) =~= base + whole.take(done + 1));
            }
            done = done + step;
        }
        k = k + 1;
    }
    proof {
        assert(spec_cast_settle(pointer_id, mask, current, with_waits, k as int)
            =~= Seq::<EffectView>::empty());
        assert(whole =~= whole.take(done));
        assert(effects_view(out@) =~= base + whole);
    }
}

/// The linear point `k / steps` of the way from `a` to `b` for wide
/// coordinate ranges.
fn lerp_wide(a: Position, b: Position, k: u64, steps: u64) -> (r: Position)
    requires
        1 <= k <= steps,
        steps <= 0x100000,
        -0x100000 <= a.x <= 0x100000,
        -0x100000 <= a.y <= 0x100000,
        -0x100000 <= b.x <= 0x100000,
        -0x100000 <= b.y <= 0x100000,
    ensures
        r == crate::mapping_engine::spec_lerp(a, b, k as int, steps as int),
{
    let ghost kk = k as int;
    let ghost ss = steps as int;
    proof {
        let dxg = b.x - a.x;
        let dyg = b.y - a.y;
        assert((-0x20000000000 <= dxg * kk <= 0x20000000000) && (dxg >= 0 ==> 0 <= dxg * kk / ss
            <= dxg) && (dxg < 0 ==> 0 <= (-dxg) * kk / ss <= -dxg)) by (nonlinear_arith)
            requires
                -0x200000 <= dxg <= 0x200000,
                1 <= kk <= ss,
                ss <= 0x100000,
        ;
        assert((-0x20000000000 <= dyg * kk <= 0x20000000000) && (dyg >= 0 ==> 0 <= dyg * kk / ss
            <= dyg) && (dyg < 0 ==> 0 <= (-dyg) * kk / ss <= -dyg)) by (nonlinear_arith)
            requires
                -0x200000 <= dyg <= 0x200000,
                1 <= kk <= ss,
                ss <= 0x100000,
        ;
        assert((-0x20000000000 <= (-dxg) * kk <= 0x20000000000) && (-0x20000000000 <= (-dyg) * kk
            <= 0x20000000000)) by (nonlinear_arith)
            requires
                -0x200000 <= dxg <= 0x200000,
                -0x200000 <= dyg <= 0x200000,
                1 <= kk <= ss,
                ss <= 0x100000,
        ;
    }
    let dx = b.x - a.x;
    let dy = b.y - a.y;
    let sx = if dx >= 0 {
        dx * (k as i64) / (steps as i64)
    } else {
        -((-dx) * (k as i64) / (steps as i64))
    };
    let sy = if dy >= 0 {
        dy * (k as i64) / (steps as i64)
    } else {
        -((-dy) * (k as i64) / (steps as i64))
    };
    Position { x: a.x + sx, y: a.y + sy }
}

fn push_approach_moves(
    pointer_id: u64,
    mask: Size,
    a: Position,
    b: Position,
    steps: u64,
    out: &mut Vec<Effect>,
)
    requires
        1 <= steps <= 0x100000,
        -0x100000 <= a.x <= 0x100000,
        -0x100000 <= a.y <= 0x100000,
        -0x100000 <= b.x <= 0x100000,
        -0x100000 <= b.y <= 0x100000,
    ensures
        effects_view(final(out)@) == effects_view(old(out)@)
            + crate::mapping_engine::spec_segment_moves_linear(
            pointer_id,
            mask,
            a,
            b,
            steps as int,
            1,
        ),
{
    let ghost seg = crate::mapping_engine::spec_segment_moves_linear(
        pointer_id,
        mask,
        a,
        b,
        steps as int,
        1,
    );
    let ghost base = effects_view(out@);
    let ghost done: int = 0;
    proof {
        assert(effects_view(out@) =~= base + seg.take(0int));
    }
    let mut k: u64 = 1;
    while k <= steps
        invariant
            1 <= k,
            k as int <= steps as int + 1,
            1 <= steps <= 0x100000,
            -0x100000 <= a.x <= 0x100000,
            -0x100000 <= a.y <= 0x100000,
            -0x100000 <= b.x <= 0x100000,
            -0x100000 <= b.y <= 0x100000,
            seg == crate::mapping_engine::spec_segment_moves_linear(
                pointer_id,
                mask,
                a,
                b,
                steps as int,
                1,
            ),
            done == k as int - 1,
            0 <= done <= seg.len(),
            seg == seg.take(done) + crate::mapping_engine::spec_segment_moves_linear(
                pointer_id,
                mask,
                a,
                b,
                steps as int,
                k as int,
            ),
            effects_view(out@) == base + seg.take(done),
        decreases steps as int + 1 - k as int,
    {
        let p = lerp_wide(a, b, k, steps);
        out.push(Effect::Send(touch_msg(MotionEventAction::Move, pointer_id, mask, p)));
        proof {
            let rest = crate::mapping_engine::spec_segment_moves_linear(
                pointer_id,
                mask,
                a,
                b,
                steps as int,
                k as int,
            );
            let rest2 = crate::mapping_engine::spec_segment_moves_linear(
                pointer_id,
                mask,
                a,
                b,
                steps as int,
                k as int + 1,
            );
            assert(rest == seq![
                EffectView::Send(
                    spec_touch_view(
                        MotionEventAction::Move,
                        pointer_id,
                        mask,
                        crate::mapping_engine::spec_lerp(a, b, k as int, steps as int),
                    ),
                ),
            ] + rest2);
            assert(seg =~= seg.take(done + 1) + rest2);
            assert(seg.take(done + 1) =~= seg.take(done) + seq![rest[0]]);
            assert(effects_view(out@) =~= (base + seg.take(done)) + seq![rest[0]]);
            assert(effects_view(out@) =~= base + seg.take(done + 1));
            done = done + 1;
        }
        k = k + 1;
    }
    proof {
        assert(crate::mapping_engine::spec_segment_moves_linear(
            pointer_id,
            mask,
            a,
            b,
            steps as int,
            k as int,
        ) =~= Seq::<EffectView>::empty());
        assert(seg =~= seg.take(done));
        assert(effects_view(out@) =~= base + seg);
    }
}

/// How many interpolation steps a cast approach takes: the rounded-up
/// stroke length over `MIN_MOVE_STEP_LENGTH`, and at least two.
pub open spec fn spec_approach_steps(s_len: int) -> int {
    if (s_len + 24) / 25 > 2 {
        (s_len + 24) / 25
    } else {
        2
    }
}

/// The aim point a fresh mouse cast records and approaches: the live aim
/// for a directed cast, the press point itself for an undirected one.
pub open spec fn spec_mouse_cast_target(
    m: MappingMouseCastSpell,
    cursor: Position,
    mask: Size,
    original: CanvasSize,
    s_aim: int,
) -> Position {
    if !m.cast_no_direction {
        spec_cast_spell_current_pos(
            cursor,
            m.center,
            m.position,
            m.cast_radius,
            m.drag_radius,
            mask,
            original,
            m.horizontal_scale_factor as int,
            m.vertical_scale_factor as int,
            s_aim,
        )
    } else {
        spec_to_mask(m.position, original, mask)
    }
}

/// The release of whatever cast is active: one lift at its live pointer
/// position, in the mask frame, and the pad latch lifted with it if the
/// cast held it.
pub open spec fn spec_cast_up(c: ActiveCast, mask: Size) -> Seq<EffectView> {
    seq![
        EffectView::Send(
            spec_touch_view(MotionEventAction::Up, c.pointer_id, mask, c.current_pos),
        ),
    ]
}

/// A mouse cast press, as a function of the previous active cast and the
/// cursor. Any previous cast is lifted first (a second press of the same
/// mapping stops there); then the new cast presses at its position, makes
/// the five settle moves, approaches the aim point for a directed cast,
/// and for a press-release cast lifts after a pause instead of installing
/// a record.
pub open spec fn spec_mouse_cast_press(
    m: MappingMouseCastSpell,
    key: u64,
    active: Option<ActiveCast>,
    latch: bool,
    cursor: Position,
    mask: Size,
    original: CanvasSize,
    now_ms: u64,
    s_aim: int,
    s_len: int,
) -> (Option<ActiveCast>, bool, Seq<EffectView>) {
    let prev_part = match active {
        Some(p) => spec_cast_up(p, mask),
        None => Seq::<EffectView>::empty(),
    };
    let latch1 = match active {
        Some(p) => if p.block_direction_pad {
            false
        } else {
            latch
        },
        None => latch,
    };
    if active matches Some(p) && p.key == key {
        (None, latch1, prev_part)
    } else {
        let current = spec_to_mask(m.position, original, mask);
        let target = spec_mouse_cast_target(m, cursor, mask, original, s_aim);
        let steps = spec_approach_steps(s_len);
        let rec = if !(m.release_mode is OnPress) {
            Some(
                ActiveCast {
                    key,
                    mouse_flag: true,
                    pointer_id: m.pointer_id,
                    current_pos: target,
                    original_size: original,
                    cast_pos: m.position,
                    drag_radius: m.drag_radius,
                    enable_at: (now_ms + 100) as u64,
                    center_pos: m.center,
                    cast_radius: m.cast_radius,
                    horizontal_scale_factor: m.horizontal_scale_factor,
                    vertical_scale_factor: m.vertical_scale_factor,
                    cast_no_direction: m.cast_no_direction,
                    last_x: 0,
                    last_y: 0,
                    block_direction_pad: false,
                },
            )
        } else {
            None
        };
        let approach = if !m.cast_no_direction {
            crate::mapping_engine::spec_segment_moves_linear(
                m.pointer_id,
                mask,
                current,
                target,
                steps,
                1,
            )
        } else {
            Seq::<EffectView>::empty()
        };
        let tail = if m.release_mode is OnPress {
            seq![
                EffectView::Wait(50u64),
                EffectView::Send(
                    spec_touch_view(MotionEventAction::Up, m.pointer_id, mask, target),
                ),
            ]
        } else {
            Seq::<EffectView>::empty()
        };
        (
            rec,
            latch1,
            prev_part + seq![
                EffectView::Send(
                    spec_touch_view(MotionEventAction::Down, m.pointer_id, mask, current),
                ),
            ] + spec_cast_settle(m.pointer_id, mask, current, true, 0) + approach + tail,
        )
    }
}


/// Presses a mouse cast. `key` names the mapping instance; `latch` is the
/// pad-block latch as the runtime holds it.
pub fn mouse_cast_press(
    m: &MappingMouseCastSpell,
    key: u64,
    active: Option<ActiveCast>,
    latch: bool,
    cursor: Position,
    mask: Size,
    original: CanvasSize,
    now_ms: u64,
) -> (r: (Option<ActiveCast>, bool, Vec<Effect>))
    requires
        spec_canvas_wf(original),
        spec_pos_in_canvas(m.position, original),
        spec_pos_in_canvas(m.center, original),
        m.cast_radius <= original.height,
        m.drag_radius <= original.height,
        1 <= m.horizontal_scale_factor <= 100000,
        1 <= m.vertical_scale_factor <= 100000,
        -0x20000 <= cursor.x <= 0x20000,
        -0x20000 <= cursor.y <= 0x20000,
        now_ms <= 0x1000000000000000,
    ensures
        ((active matches Some(p) && p.key == key) || m.cast_no_direction) ==> ({
            let sp = spec_mouse_cast_press(
                *m,
                key,
                active,
                latch,
                cursor,
                mask,
                original,
                now_ms,
                0,
                0,
            );
            r.0 == sp.0 && r.1 == sp.1 && effects_view(r.2@) == sp.2
        }),
        !(active matches Some(p) && p.key == key) && !m.cast_no_direction ==> exists|s_aim: int, s_len: int|
            #[trigger] spec_is_ceil_sqrt(
                spec_cast_sq(
                    cursor,
                    m.center,
                    m.cast_radius,
                    mask,
                    original,
                    m.horizontal_scale_factor as int,
                    m.vertical_scale_factor as int,
                ),
                s_aim,
            ) && #[trigger] spec_is_ceil_sqrt(
                spec_dist2(
                    spec_mouse_cast_target(*m, cursor, mask, original, s_aim),
                    spec_to_mask(m.position, original, mask),
                ),
                s_len,
            ) && ({
                let sp = spec_mouse_cast_press(
                    *m,
                    key,
                    active,
                    latch,
                    cursor,
                    mask,
                    original,
                    now_ms,
                    s_aim,
                    s_len,
                );
                r.0 == sp.0 && r.1 == sp.1 && effects_view(r.2@) == sp.2
            }),
        r.0 matches Some(c) ==> spec_cast_wf(c) && c.key == key,
{
    let mut out: Vec<Effect> = Vec::new();
    let mut new_latch = latch;
    let ghost prev_part = match active {
        Some(p) => spec_cast_up(p, mask),
        None => Seq::<EffectView>::empty(),
    };
    if let Some(p) = active {
        out.push(
            Effect::Send(touch_msg(MotionEventAction::Up, p.pointer_id, mask, p.current_pos)),
        );
        if p.block_direction_pad {
            new_latch = false;
        }
        if p.key == key {
            proof {
                let sp = spec_mouse_cast_press(
                    *m,
                    key,
                    active,
                    latch,
                    cursor,
                    mask,
                    original,
                    now_ms,
                    0,
                    0,
                );
                assert(effects_view(out@) =~= sp.2);
                assert(new_latch == sp.1);
            }
            return (None, new_latch, out);
        }
    }
    proof {
        assert(effects_view(out@) =~= prev_part);
    }
    let current = mask_point(m.position, original, mask);
    let target = if !m.cast_no_direction {
        cast_spell_current_pos(
            cursor,
            m.center,
            m.position,
            m.cast_radius,
            m.drag_radius,
            mask,
            original,
            m.horizontal_scale_factor,
            m.vertical_scale_factor,
        )
    } else {
        current
    };
    let ghost s_aim: int = if !m.cast_no_direction {
        choose|sv: int|
            spec_is_ceil_sqrt(
                spec_cast_sq(
                    cursor,
                    m.center,
                    m.cast_radius,
                    mask,
                    original,
                    m.horizontal_scale_factor as int,
                    m.vertical_scale_factor as int,
                ),
                sv,
            ) && target == spec_cast_spell_current_pos(
                cursor,
                m.center,
                m.position,
                m.cast_radius,
                m.drag_radius,
                mask,
                original,
                m.horizontal_scale_factor as int,
                m.vertical_scale_factor as int,
                sv,
            )
    } else {
        0
    };
    proof {
        if !m.cast_no_direction {
            assert(spec_dist2(target, spec_to_mask(m.position, original, mask)) <= spec_mask_len(
                m.drag_radius,
                original,
                mask,
            ) * spec_mask_len(m.drag_radius, original, mask));
            assert(0 <= spec_mask_len(m.drag_radius, original, mask) <= 0xFFFF) by {
                assert(0 <= (m.drag_radius as int) * (mask.height as int)
                    <= (original.height as int) * (mask.height as int)) by (nonlinear_arith)
                    requires
                        0 <= m.drag_radius as int <= original.height as int,
                        0 <= mask.height as int,
                ;
                assert((m.drag_radius as int) * (mask.height as int) / (original.height as int)
                    <= mask.height as int) by (nonlinear_arith)
                    requires
                        1 <= original.height as int,
                        (m.drag_radius as int) * (mask.height as int) <= (
                        original.height as int) * (mask.height as int),
                        0 <= (m.drag_radius as int) * (mask.height as int),
                ;
            }
        }
        assert(target == spec_mouse_cast_target(*m, cursor, mask, original, s_aim));
        assert(-0x20000 <= target.x <= 0x20000 && -0x20000 <= target.y <= 0x20000) by {
            if !m.cast_no_direction {
                let pm = spec_to_mask(m.position, original, mask);
                let ddx = target.x - pm.x;
                let ddy = target.y - pm.y;
                let dm = spec_mask_len(m.drag_radius, original, mask);
                assert(ddx * ddx + ddy * ddy <= dm * dm);
                assert(0 <= ddx * ddx && 0 <= ddy * ddy) by (nonlinear_arith);
                assert(-dm <= ddx <= dm && -dm <= ddy <= dm) by (nonlinear_arith)
                    requires
                        ddx * ddx + ddy * ddy <= dm * dm,
                        0 <= ddx * ddx,
                        0 <= ddy * ddy,
                        0 <= dm,
                ;
            }
        }
    }
    let rec: Option<ActiveCast> = if !(m.release_mode == MouseCastReleaseMode::OnPress) {
        Some(
            ActiveCast {
                key,
                mouse_flag: true,
                pointer_id: m.pointer_id,
                current_pos: target,
                original_size: original,
                cast_pos: m.position,
                drag_radius: m.drag_radius,
                enable_at: now_ms + 100,
                center_pos: m.center,
                cast_radius: m.cast_radius,
                horizontal_scale_factor: m.horizontal_scale_factor,
                vertical_scale_factor: m.vertical_scale_factor,
                cast_no_direction: m.cast_no_direction,
                last_x: 0,
                last_y: 0,
                block_direction_pad: false,
            },
        )
    } else {
        None
    };
    out.push(Effect::Send(touch_msg(MotionEventAction::Down, m.pointer_id, mask, current)));
    push_cast_settle(m.pointer_id, mask, current, true, &mut out);
    let ghost settle = spec_cast_settle(m.pointer_id, mask, current, true, 0);
    let ghost down_one = seq![
        EffectView::Send(spec_touch_view(MotionEventAction::Down, m.pointer_id, mask, current)),
    ];
    proof {
        assert(effects_view(out@) =~= prev_part + down_one + settle);
    }
    let ghost mut s_len: int = 0;
    if !m.cast_no_direction {
        let ddx = target.x - current.x;
        let ddy = target.y - current.y;
        proof {
            assert(0 <= (ddx as int) * (ddx as int) <= 0x4000000000 && 0 <= (ddy as int) * (
            ddy as int) <= 0x4000000000 && (ddx as int) * (ddx as int) + (ddy as int) * (
            ddy as int) <= 0x4000000000) by (nonlinear_arith)
                requires
                    -0x40000 <= ddx as int <= 0x40000,
                    -0x40000 <= ddy as int <= 0x40000,
            ;
        }
        let sq = ((ddx * ddx) + (ddy * ddy)) as u64;
        let sl = ceil_sqrt(sq);
        proof {
            s_len = sl as int;
            assert(sq as int == spec_dist2(target, current));
            assert(sl as int <= 0x100000) by (nonlinear_arith)
                requires
                    spec_is_ceil_sqrt(sq as int, sl as int),
                    sq as int <= 0x4000000000,
            ;
        }
        let st0 = (sl + 24) / 25;
        let steps = if st0 > 2 {
            st0
        } else {
            2u64
        };
        proof {
            assert(steps as int == spec_approach_steps(s_len));
            assert(steps <= 0x100000);
        }
        push_approach_moves(m.pointer_id, mask, current, target, steps, &mut out);
        proof {
            assert(effects_view(out@) =~= prev_part + down_one + settle
                + crate::mapping_engine::spec_segment_moves_linear(
                m.pointer_id,
                mask,
                current,
                target,
                steps as int,
                1,
            ));
        }
    }
    if m.release_mode == MouseCastReleaseMode::OnPress {
        out.push(Effect::Wait(50));
        out.push(Effect::Send(touch_msg(MotionEventAction::Up, m.pointer_id, mask, target)));
    }
    proof {
        let sp = spec_mouse_cast_press(
            *m,
            key,
            active,
            latch,
            cursor,
            mask,
            original,
            now_ms,
            s_aim,
            s_len,
        );
        assert(effects_view(out@) =~= sp.2);
        assert(rec == sp.0);
        assert(new_latch == sp.1);
        if m.cast_no_direction {
            let sp0 = spec_mouse_cast_press(
                *m,
                key,
                active,
                latch,
                cursor,
                mask,
                original,
                now_ms,
                0,
                0,
            );
            assert(effects_view(out@) =~= sp0.2);
            assert(rec == sp0.0);
            assert(new_latch == sp0.1);
        } else {
            assert(spec_is_ceil_sqrt(
                spec_dist2(
                    spec_mouse_cast_target(*m, cursor, mask, original, s_aim),
                    spec_to_mask(m.position, original, mask),
                ),
                s_len,
            ));
        }
    }
    (rec, new_latch, out)
}

/// One aim tick of an active mouse cast: where the live aim point goes,
/// the pointer moves, and the cast records it; the aim point never leaves
/// the drag circle around the cast anchor. An undirected, pad-driven or
/// still-settling cast does nothing.
pub open spec fn spec_mouse_cast_tick(
    c: ActiveCast,
    cursor: Position,
    mask: Size,
    now_ms: u64,
    s_aim: int,
) -> (ActiveCast, Seq<EffectView>) {
    if c.cast_no_direction || !c.mouse_flag || now_ms < c.enable_at {
        (c, Seq::<EffectView>::empty())
    } else {
        let np = spec_cast_spell_current_pos(
            cursor,
            c.center_pos,
            c.cast_pos,
            c.cast_radius,
            c.drag_radius,
            mask,
            c.original_size,
            c.horizontal_scale_factor as int,
            c.vertical_scale_factor as int,
            s_aim,
        );
        (
            ActiveCast { current_pos: np, ..c },
            seq![
                EffectView::Send(
                    spec_touch_view(MotionEventAction::Move, c.pointer_id, mask, np),
                ),
            ],
        )
    }
}

/// Ticks an active mouse cast against the live cursor.
pub fn mouse_cast_tick(c: &ActiveCast, cursor: Position, mask: Size, now_ms: u64) -> (r: (
    ActiveCast,
    Vec<Effect>,
))
    requires
        spec_cast_wf(*c),
        -0x20000 <= cursor.x <= 0x20000,
        -0x20000 <= cursor.y <= 0x20000,
    ensures
        (c.cast_no_direction || !c.mouse_flag || now_ms < c.enable_at) ==> r.0 == *c
            && effects_view(r.1@) == Seq::<EffectView>::empty(),
        !(c.cast_no_direction || !c.mouse_flag || now_ms < c.enable_at) ==> exists|s_aim: int|
            #[trigger] spec_is_ceil_sqrt(
                spec_cast_sq(
                    cursor,
                    c.center_pos,
                    c.cast_radius,
                    mask,
                    c.original_size,
                    c.horizontal_scale_factor as int,
                    c.vertical_scale_factor as int,
                ),
                s_aim,
            ) && r.0 == spec_mouse_cast_tick(*c, cursor, mask, now_ms, s_aim).0
                && effects_view(r.1@) == spec_mouse_cast_tick(*c, cursor, mask, now_ms, s_aim).1,
        spec_dist2(r.0.current_pos, spec_to_mask(c.cast_pos, c.original_size, mask))
            <= spec_mask_len(c.drag_radius, c.original_size, mask) * spec_mask_len(
            c.drag_radius,
            c.original_size,
            mask,
        ) || r.0.current_pos == c.current_pos,
        spec_cast_wf(r.0),
{
    let mut out: Vec<Effect> = Vec::new();
    if c.cast_no_direction || !c.mouse_flag || now_ms < c.enable_at {
        proof {
            assert(effects_view(out@) =~= Seq::<EffectView>::empty());
        }
        return (*c, out);
    }
    let np = cast_spell_current_pos(
        cursor,
        c.center_pos,
        c.cast_pos,
        c.cast_radius,
        c.drag_radius,
        mask,
        c.original_size,
        c.horizontal_scale_factor,
        c.vertical_scale_factor,
    );
    proof {
        let pm = spec_to_mask(c.cast_pos, c.original_size, mask);
        let dm = spec_mask_len(c.drag_radius, c.original_size, mask);
        let ddx = np.x - pm.x;
        let ddy = np.y - pm.y;
        assert(0 <= ddx * ddx && 0 <= ddy * ddy) by (nonlinear_arith);
        assert(0 <= dm) by {
            assert(0 <= (c.drag_radius as int) * (mask.height as int)) by (nonlinear_arith)
                requires
                    0 <= c.drag_radius as int,
                    0 <= mask.height as int,
            ;
            assert(0 <= (c.drag_radius as int) * (mask.height as int) / (
            c.original_size.height as int)) by (nonlinear_arith)
                requires
                    1 <= c.original_size.height as int,
                    0 <= (c.drag_radius as int) * (mask.height as int),
            ;
        }
        assert(-dm <= ddx <= dm && -dm <= ddy <= dm) by (nonlinear_arith)
            requires
                ddx * ddx + ddy * ddy <= dm * dm,
                0 <= ddx * ddx,
                0 <= ddy * ddy,
                0 <= dm,
        ;
        assert(dm <= 0xFFFF) by {
            assert((c.drag_radius as int) * (mask.height as int) <= (
            c.original_size.height as int) * (mask.height as int)) by (nonlinear_arith)
                requires
                    0 <= c.drag_radius as int <= c.original_size.height as int,
                    0 <= mask.height as int,
            ;
            assert((c.drag_radius as int) * (mask.height as int) / (c.original_size.height as int)
                <= mask.height as int) by (nonlinear_arith)
                requires
                    1 <= c.original_size.height as int,
                    (c.drag_radius as int) * (mask.height as int) <= (
                    c.original_size.height as int) * (mask.height as int),
                    0 <= (c.drag_radius as int) * (mask.height as int),
            ;
        }
    }
    out.push(Effect::Send(touch_msg(MotionEventAction::Move, c.pointer_id, mask, np)));
    let next = ActiveCast { current_pos: np, ..*c };
    proof {
        let s_aim = choose|sv: int|
            spec_is_ceil_sqrt(
                spec_cast_sq(
                    cursor,
                    c.center_pos,
                    c.cast_radius,
                    mask,
                    c.original_size,
                    c.horizontal_scale_factor as int,
                    c.vertical_scale_factor as int,
                ),
                sv,
            ) && np == spec_cast_spell_current_pos(
                cursor,
                c.center_pos,
                c.cast_pos,
                c.cast_radius,
                c.drag_radius,
                mask,
                c.original_size,
                c.horizontal_scale_factor as int,
                c.vertical_scale_factor as int,
                sv,
            );
        assert(effects_view(out@) =~= spec_mouse_cast_tick(*c, cursor, mask, now_ms, s_aim).1);
        assert(next == spec_mouse_cast_tick(*c, cursor, mask, now_ms, s_aim).0);
    }
    (next, out)
}

/// The release of an active cast when its owner lets go: the cast owned by
/// `key` lifts at its live pointer position and clears, releasing the pad
/// latch if it held it; any other state is left alone.
pub open spec fn spec_cast_release(
    active: Option<ActiveCast>,
    key: u64,
    latch: bool,
    mask: Size,
) -> (Option<ActiveCast>, bool, Seq<EffectView>) {
    match active {
        Some(c) => if c.key == key {
            (
                None,
                if c.block_direction_pad {
                    false
                } else {
                    latch
                },
                spec_cast_up(c, mask),
            )
        } else {
            (active, latch, Seq::<EffectView>::empty())
        },
        None => (active, latch, Seq::<EffectView>::empty()),
    }
}

/// Releases the active cast owned by `key`, if any.
pub fn cast_release_step(active: Option<ActiveCast>, key: u64, latch: bool, mask: Size) -> (r: (
    Option<ActiveCast>,
    bool,
    Vec<Effect>,
))
    ensures
        r.0 == spec_cast_release(active, key, latch, mask).0,
        r.1 == spec_cast_release(active, key, latch, mask).1,
        effects_view(r.2@) == spec_cast_release(active, key, latch, mask).2,
{
    let mut out: Vec<Effect> = Vec::new();
    match active {
        Some(c) => {
            if c.key == key {
                out.push(
                    Effect::Send(
                        touch_msg(MotionEventAction::Up, c.pointer_id, mask, c.current_pos),
                    ),
                );
                let new_latch = if c.block_direction_pad {
                    false
                } else {
                    latch
                };
                proof {
                    assert(effects_view(out@) =~= spec_cast_release(active, key, latch, mask).2);
                }
                (None, new_latch, out)
            } else {
                proof {
                    assert(effects_view(out@) =~= Seq::<EffectView>::empty());
                }
                (active, latch, out)
            }
        },
        None => {
            proof {
                assert(effects_view(out@) =~= Seq::<EffectView>::empty());
            }
            (active, latch, out)
        },
    }
}

/// A pad cast press: any previous cast is lifted first (a second press of
/// the same mapping stops there); a latch-owning mapping raises the pad
/// latch; then the new cast presses at its position and makes the five
/// settle moves without pauses, and its record settles for the cast delay.
pub open spec fn spec_pad_cast_press(
    m: MappingPadCastSpell,
    key: u64,
    active: Option<ActiveCast>,
    latch: bool,
    mask: Size,
    original: CanvasSize,
    now_ms: u64,
) -> (Option<ActiveCast>, bool, Seq<EffectView>) {
    let prev_part = match active {
        Some(p) => spec_cast_up(p, mask),
        None => Seq::<EffectView>::empty(),
    };
    let latch1 = match active {
        Some(p) => if p.block_direction_pad {
            false
        } else {
            latch
        },
        None => latch,
    };
    if active matches Some(p) && p.key == key {
        (None, latch1, prev_part)
    } else {
        let latch2 = if m.block_direction_pad {
            true
        } else {
            latch1
        };
        let current = spec_to_mask(m.position, original, mask);
        (
            Some(
                ActiveCast {
                    key,
                    mouse_flag: false,
                    pointer_id: m.pointer_id,
                    current_pos: current,
                    original_size: original,
                    cast_pos: m.position,
                    drag_radius: m.drag_radius,
                    enable_at: (now_ms + 50) as u64,
                    center_pos: Position { x: 0, y: 0 },
                    cast_radius: 0,
                    horizontal_scale_factor: 1,
                    vertical_scale_factor: 1,
                    cast_no_direction: false,
                    last_x: 0,
                    last_y: 0,
                    block_direction_pad: m.block_direction_pad,
                },
            ),
            latch2,
            prev_part + seq![
                EffectView::Send(
                    spec_touch_view(MotionEventAction::Down, m.pointer_id, mask, current),
                ),
            ] + spec_cast_settle(m.pointer_id, mask, current, false, 0),
        )
    }
}

/// Presses a pad cast. The caller lifts any live direction-pad presses
/// with `direction_pad_drain` when the latch rises.
pub fn pad_cast_press(
    m: &MappingPadCastSpell,
    key: u64,
    active: Option<ActiveCast>,
    latch: bool,
    mask: Size,
    original: CanvasSize,
    now_ms: u64,
) -> (r: (Option<ActiveCast>, bool, Vec<Effect>))
    requires
        spec_canvas_wf(original),
        spec_pos_in_canvas(m.position, original),
        m.drag_radius <= original.height,
        now_ms <= 0x1000000000000000,
    ensures
        r.0 == spec_pad_cast_press(*m, key, active, latch, mask, original, now_ms).0,
        r.1 == spec_pad_cast_press(*m, key, active, latch, mask, original, now_ms).1,
        effects_view(r.2@) == spec_pad_cast_press(*m, key, active, latch, mask, original, now_ms).2,
        r.0 matches Some(c) ==> spec_cast_wf(c) && c.key == key,
{
    let mut out: Vec<Effect> = Vec::new();
    let mut new_latch = latch;
    let ghost prev_part = match active {
        Some(p) => spec_cast_up(p, mask),
        None => Seq::<EffectView>::empty(),
    };
    if let Some(p) = active {
        out.push(
            Effect::Send(touch_msg(MotionEventAction::Up, p.pointer_id, mask, p.current_pos)),
        );
        if p.block_direction_pad {
            new_latch = false;
        }
        if p.key == key {
            proof {
                assert(effects_view(out@) =~= prev_part);
            }
            return (None, new_latch, out);
        }
    }
    if m.block_direction_pad {
        new_latch = true;
    }
    let current = mask_point(m.position, original, mask);
    out.push(Effect::Send(touch_msg(MotionEventAction::Down, m.pointer_id, mask, current)));
    push_cast_settle(m.pointer_id, mask, current, false, &mut out);
    let rec = ActiveCast {
        key,
        mouse_flag: false,
        pointer_id: m.pointer_id,
        current_pos: current,
        original_size: original,
        cast_pos: m.position,
        drag_radius: m.drag_radius,
        enable_at: now_ms + 50,
        center_pos: Position { x: 0, y: 0 },
        cast_radius: 0,
        horizontal_scale_factor: 1,
        vertical_scale_factor: 1,
        cast_no_direction: false,
        last_x: 0,
        last_y: 0,
        block_direction_pad: m.block_direction_pad,
    };
    proof {
        assert(effects_view(out@) =~= spec_pad_cast_press(
            *m,
            key,
            active,
            latch,
            mask,
            original,
            now_ms,
        ).2);
    }
    (Some(rec), new_latch, out)
}

/// One aim tick of an active pad cast: the raw pad state (thousandths of
/// the unit square) is clamped onto the drag circle; when the clamped
/// offset changes, the pointer moves to the cast anchor plus the offset,
/// in the authored frame, and the cast records it.
pub open spec fn spec_pad_cast_tick(
    c: ActiveCast,
    dx_mil: int,
    dy_mil: int,
    now_ms: u64,
    norm: int,
) -> (ActiveCast, Seq<EffectView>) {
    if c.mouse_flag || now_ms < c.enable_at {
        (c, Seq::<EffectView>::empty())
    } else {
        let st = crate::mapping_engine::spec_scale_direction(
            dx_mil,
            dy_mil,
            c.drag_radius as int,
            c.drag_radius as int,
            norm,
        );
        if st.0 != c.last_x || st.1 != c.last_y {
            (
                ActiveCast { last_x: st.0 as i64, last_y: st.1 as i64, ..c },
                seq![
                    EffectView::Send(
                        spec_touch_view(
                            MotionEventAction::Move,
                            c.pointer_id,
                            Size {
                                width: c.original_size.width as u16,
                                height: c.original_size.height as u16,
                            },
                            spec_offset(c.cast_pos, st.0, st.1),
                        ),
                    ),
                ],
            )
        } else {
            (c, Seq::<EffectView>::empty())
        }
    }
}

/// Ticks an active pad cast against the live pad state.
pub fn pad_cast_tick(c: &ActiveCast, dx_mil: i32, dy_mil: i32, now_ms: u64) -> (r: (
    ActiveCast,
    Vec<Effect>,
))
    requires
        spec_cast_wf(*c),
        -1000 <= dx_mil <= 1000,
        -1000 <= dy_mil <= 1000,
    ensures
        (c.mouse_flag || now_ms < c.enable_at) ==> r.0 == *c && effects_view(r.1@) == Seq::<
            EffectView,
        >::empty(),
        !(c.mouse_flag || now_ms < c.enable_at) ==> exists|norm: int|
            #[trigger] spec_isqrt(
                (dx_mil as int) * (dx_mil as int) + (dy_mil as int) * (dy_mil as int),
                norm,
            ) && r.0 == spec_pad_cast_tick(*c, dx_mil as int, dy_mil as int, now_ms, norm).0
                && effects_view(r.1@) == spec_pad_cast_tick(
                *c,
                dx_mil as int,
                dy_mil as int,
                now_ms,
                norm,
            ).1,
        spec_cast_wf(r.0),
{
    let mut out: Vec<Effect> = Vec::new();
    if c.mouse_flag || now_ms < c.enable_at {
        proof {
            assert(effects_view(out@) =~= Seq::<EffectView>::empty());
        }
        return (*c, out);
    }
    let st = crate::mapping_engine::scale_direction(dx_mil, dy_mil, c.drag_radius, c.drag_radius);
    let ghost norm = choose|nv: int|
        spec_isqrt((dx_mil as int) * (dx_mil as int) + (dy_mil as int) * (dy_mil as int), nv) && (
        st.0 as int,
        st.1 as int,
        ) == crate::mapping_engine::spec_scale_direction(
            dx_mil as int,
            dy_mil as int,
            c.drag_radius as int,
            c.drag_radius as int,
            nv,
        );
    if st.0 != c.last_x || st.1 != c.last_y {
        let frame = canvas_frame(c.original_size);
        let at = Position { x: c.cast_pos.x + st.0, y: c.cast_pos.y + st.1 };
        out.push(Effect::Send(touch_msg(MotionEventAction::Move, c.pointer_id, frame, at)));
        let next = ActiveCast { last_x: st.0, last_y: st.1, ..*c };
        proof {
            assert(effects_view(out@) =~= spec_pad_cast_tick(
                *c,
                dx_mil as int,
                dy_mil as int,
                now_ms,
                norm,
            ).1);
            assert(next == spec_pad_cast_tick(*c, dx_mil as int, dy_mil as int, now_ms, norm).0);
        }
        (next, out)
    } else {
        proof {
            assert(effects_view(out@) =~= spec_pad_cast_tick(
                *c,
                dx_mil as int,
                dy_mil as int,
                now_ms,
                norm,
            ).1);
        }
        (*c, out)
    }
}

} // verus!
