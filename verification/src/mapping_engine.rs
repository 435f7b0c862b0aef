//! The per-gesture planners of the mapping runtime. Each planner turns one
//! input event of a mapping instance into the exact timed plan of control
//! messages the runtime emits for it; the caller performs the plan, sending
//! each message and sleeping through each wait.

use vstd::prelude::*;

use crate::constant::MotionEventAction;
use crate::effect::{
    effects_view, push_swipe_effects, spec_swipe_effects, spec_touch_view, touch_msg, Effect,
    EffectView, Position, Size, spec_points_in_range,
};
use crate::mapping_config::{
    MappingFire, MappingMultipleTapItem, MappingRepeatTap, MappingSingleTap, MappingSwipe,
};

verus! {

/// The plan of a single-tap activation: a press, and for a timed tap a held
/// pause then a release.
pub open spec fn spec_single_tap_press(m: MappingSingleTap, size: Size) -> Seq<EffectView> {
    if m.sync {
        seq![
            EffectView::Send(
                spec_touch_view(MotionEventAction::Down, m.pointer_id, size, m.position),
            ),
        ]
    } else {
        seq![
            EffectView::Send(
                spec_touch_view(MotionEventAction::Down, m.pointer_id, size, m.position),
            ),
            EffectView::Wait(m.duration),
            EffectView::Send(
                spec_touch_view(MotionEventAction::Up, m.pointer_id, size, m.position),
            ),
        ]
    }
}

/// Plans a single-tap activation. A synchronized tap only presses; its
/// release comes from `single_tap_release`. A timed tap presses, holds for
/// `duration` milliseconds and releases.
pub fn single_tap_press(m: &MappingSingleTap, size: Size) -> (r: Vec<Effect>)
    ensures
        effects_view(r@) == spec_single_tap_press(*m, size),
{
    let mut out: Vec<Effect> = Vec::new();
    out.push(Effect::Send(touch_msg(MotionEventAction::Down, m.pointer_id, size, m.position)));
    if !m.sync {
        out.push(Effect::Wait(m.duration));
        out.push(Effect::Send(touch_msg(MotionEventAction::Up, m.pointer_id, size, m.position)));
    }
    proof {
        assert(effects_view(out@) =~= spec_single_tap_press(*m, size));
    }
    out
}

/// Plans the release of a synchronized single tap: exactly one release at
/// the tap's position, and nothing else.
pub fn single_tap_release(m: &MappingSingleTap, size: Size) -> (r: Vec<Effect>)
    ensures
        effects_view(r@) == seq![
            EffectView::Send(
                spec_touch_view(MotionEventAction::Up, m.pointer_id, size, m.position),
            ),
        ],
{
    let mut out: Vec<Effect> = Vec::new();
    out.push(Effect::Send(touch_msg(MotionEventAction::Up, m.pointer_id, size, m.position)));
    proof {
        assert(effects_view(out@) =~= seq![
            EffectView::Send(
                spec_touch_view(MotionEventAction::Up, m.pointer_id, size, m.position),
            ),
        ]);
    }
    out
}

/// Plans one tick of a repeat tap: press, hold for `duration`, release.
pub fn repeat_tap_tick(m: &MappingRepeatTap, size: Size) -> (r: Vec<Effect>)
    ensures
        effects_view(r@) == seq![
            EffectView::Send(
                spec_touch_view(MotionEventAction::Down, m.pointer_id, size, m.position),
            ),
            EffectView::Wait(m.duration),
            EffectView::Send(
                spec_touch_view(MotionEventAction::Up, m.pointer_id, size, m.position),
            ),
        ],
{
    let mut out: Vec<Effect> = Vec::new();
    out.push(Effect::Send(touch_msg(MotionEventAction::Down, m.pointer_id, size, m.position)));
    out.push(Effect::Wait(m.duration));
    out.push(Effect::Send(touch_msg(MotionEventAction::Up, m.pointer_id, size, m.position)));
    proof {
        assert(effects_view(out@) =~= seq![
            EffectView::Send(
                spec_touch_view(MotionEventAction::Down, m.pointer_id, size, m.position),
            ),
            EffectView::Wait(m.duration),
            EffectView::Send(
                spec_touch_view(MotionEventAction::Up, m.pointer_id, size, m.position),
            ),
        ]);
    }
    out
}

/// The plan of the items of a multiple tap from index `i` on: for each item
/// in order, wait, press, hold, release.
pub open spec fn spec_multiple_tap_items(
    items: Seq<MappingMultipleTapItem>,
    pointer_id: u64,
    size: Size,
    i: int,
) -> Seq<EffectView>
    decreases items.len() - i + 1,
{
    if i < 0 || i >= items.len() {
        Seq::<EffectView>::empty()
    } else {
        seq![
            EffectView::Wait(items[i].wait),
            EffectView::Send(
                spec_touch_view(MotionEventAction::Down, pointer_id, size, items[i].position),
            ),
            EffectView::Wait(items[i].duration),
            EffectView::Send(
                spec_touch_view(MotionEventAction::Up, pointer_id, size, items[i].position),
            ),
        ] + spec_multiple_tap_items(items, pointer_id, size, i + 1)
    }
}

/// Plans a whole multiple tap: its items in order, each a wait, a press, a
/// held pause and a release at the item's position.
pub fn multiple_tap_plan(
    items: &Vec<MappingMultipleTapItem>,
    pointer_id: u64,
    size: Size,
) -> (r: Vec<Effect>)
    ensures
        effects_view(r@) == spec_multiple_tap_items(items@, pointer_id, size, 0),
{
    let n = items.len();
    let mut out: Vec<Effect> = Vec::new();
    let mut i: usize = 0;
    let ghost whole = spec_multiple_tap_items(items@, pointer_id, size, 0);
    proof {
        assert(whole.take(0int) =~= Seq::<EffectView>::empty());
        assert(whole =~= whole.take(0int) + spec_multiple_tap_items(items@, pointer_id, size, 0));
    }
    let ghost done: int = 0;
    while i < n
        invariant
            i <= n,
            n == items@.len(),
            whole == spec_multiple_tap_items(items@, pointer_id, size, 0),
            0 <= done <= whole.len(),
            whole == whole.take(done) + spec_multiple_tap_items(
                items@,
                pointer_id,
                size,
                i as int,
            ),
            effects_view(out@) == whole.take(done),
        decreases n - i,
    {
        let item = items[i];
        out.push(Effect::Wait(item.wait));
        out.push(
            Effect::Send(touch_msg(MotionEventAction::Down, pointer_id, size, item.position)),
        );
        out.push(Effect::Wait(item.duration));
        out.push(Effect::Send(touch_msg(MotionEventAction::Up, pointer_id, size, item.position)));
        proof {
            let rest = spec_multiple_tap_items(items@, pointer_id, size, i as int);
            let rest2 = spec_multiple_tap_items(items@, pointer_id, size, i as int + 1);
            assert(rest == seq![
                EffectView::Wait(items@[i as int].wait),
                EffectView::Send(
                    spec_touch_view(
                        MotionEventAction::Down,
                        pointer_id,
                        size,
                        items@[i as int].position,
                    ),
                ),
                EffectView::Wait(items@[i as int].duration),
                EffectView::Send(
                    spec_touch_view(
                        MotionEventAction::Up,
                        pointer_id,
                        size,
                        items@[i as int].position,
                    ),
                ),
            ] + rest2);
            assert(whole =~= whole.take(done + 4) + rest2);
            assert(whole.take(done + 4) =~= whole.take(done) + seq![
                rest[0],
                rest[1],
                rest[2],
                rest[3],
            ]);
            assert(effects_view(out@) =~= whole.take(done + 4));
            done = done + 4;
        }
        i = i + 1;
    }
    proof {
        assert(spec_multiple_tap_items(items@, pointer_id, size, n as int)
            =~= Seq::<EffectView>::empty());
        assert(whole =~= whole.take(done));
        assert(effects_view(out@) =~= whole);
    }
    out
}

/// Plans a swipe mapping pulse: press at the first position, eased moves
/// along every segment, release at the last. This is the very plan the
/// script built-in `swipe` emits for the same points and interval.
pub fn swipe_plan(m: &MappingSwipe, size: Size) -> (r: Vec<Effect>)
    requires
        m.positions@.len() > 0,
        spec_points_in_range(m.positions@),
    ensures
        effects_view(r@) == spec_swipe_effects(m.pointer_id, size, m.positions@, m.interval),
{
    let mut out: Vec<Effect> = Vec::new();
    push_swipe_effects(m.pointer_id, size, &m.positions, m.interval, &mut out);
    out
}

/// The largest `r` with `r * r <= n`.
pub open spec fn spec_isqrt(n: int, r: int) -> bool {
    0 <= r && r * r <= n && (r + 1) * (r + 1) > n
}

/// The integer square root, by binary search over the root.
pub fn isqrt(n: u64) -> (r: u64)
    ensures
        spec_isqrt(n as int, r as int),
{
    if n == 0 {
        return 0;
    }
    let mut lo: u64 = 0;
    let mut hi: u64 = 0x100000000;
    while lo + 1 < hi
        invariant
            lo < hi <= 0x100000000,
            (lo as int) * (lo as int) <= n as int,
            hi == 0x100000000 || (hi as int) * (hi as int) > n as int,
            n < 0x10000000000000000,
        decreases hi - lo,
    {
        let mid = lo + (hi - lo) / 2;
        proof {
            assert((mid as int) * (mid as int) < 0x10000000000000000) by (nonlinear_arith)
                requires
                    0 <= mid as int && (mid as int) <= 0xFFFFFFFF,
            ;
        }
        if mid * mid <= n {
            lo = mid;
        } else {
            hi = mid;
        }
    }
    proof {
        if hi == 0x100000000 {
            assert((hi as int) * (hi as int) > n as int) by (nonlinear_arith)
                requires
                    hi as int == 0x100000000,
                    (n as int) < 0x10000000000000000,
            ;
        }
    }
    lo
}

/// A product scaled down by a positive divisor, truncated toward zero.
pub open spec fn spec_mul_div_trunc(d: int, m: int, n: int) -> int {
    if d >= 0 {
        d * m / n
    } else {
        -((-d) * m / n)
    }
}

/// The direction-pad state scaled onto the pad ellipse. The raw state is in
/// thousandths of the unit square; the result is the pixel offset from the
/// pad center, clamped to the ellipse boundary along the input ray.
pub open spec fn spec_scale_direction(
    dx: int,
    dy: int,
    max_x: int,
    max_y: int,
    norm: int,
) -> (int, int) {
    if dx == 0 && dy == 0 {
        (0, 0)
    } else if dx * dx + dy * dy > 1000 * 1000 {
        (spec_mul_div_trunc(dx, max_x, norm), spec_mul_div_trunc(dy, max_y, norm))
    } else {
        (spec_mul_div_trunc(dx, max_x, 1000), spec_mul_div_trunc(dy, max_y, 1000))
    }
}

fn mul_div_trunc(d: i32, m: u32, n: i64) -> (r: i64)
    requires
        -1000 <= d <= 1000,
        m <= 100000,
        1 <= n <= 100000,
    ensures
        r == spec_mul_div_trunc(d as int, m as int, n as int),
        -100000000 <= r <= 100000000,
{
    proof {
        assert(((d as int) >= 0 ==> 0 <= (d as int) * (m as int) <= 100000000) && ((d as int) < 0
            ==> 0 <= (-(d as int)) * (m as int) <= 100000000)) by (nonlinear_arith)
            requires
                -1000 <= d as int <= 1000,
                0 <= m as int <= 100000,
        ;
        assert((d as int) >= 0 ==> 0 <= (d as int) * (m as int) / (n as int) <= (d as int) * (
        m as int)) by (nonlinear_arith)
            requires
                1 <= n as int,
                (d as int) >= 0 ==> 0 <= (d as int) * (m as int),
        ;
        assert((d as int) < 0 ==> 0 <= (-(d as int)) * (m as int) / (n as int) <= (-(d as int)) * (
        m as int)) by (nonlinear_arith)
            requires
                1 <= n as int,
                (d as int) < 0 ==> 0 <= (-(d as int)) * (m as int),
        ;
    }
    if d >= 0 {
        (d as i64) * (m as i64) / n
    } else {
        -((-(d as i64)) * (m as i64) / n)
    }
}

/// Scales a pad input state (thousandths of the unit square, each axis in
/// -1000 to 1000) to the pixel offset on the pad ellipse with the given
/// semi-axes. `norm` in the result relation is the integer square root of
/// the squared input length, which `spec_isqrt` pins uniquely.
pub fn scale_direction(dx: i32, dy: i32, max_x: u32, max_y: u32) -> (r: (i64, i64))
    requires
        -1000 <= dx <= 1000,
        -1000 <= dy <= 1000,
        max_x <= 100000,
        max_y <= 100000,
    ensures
        exists|norm: int|
            #[trigger] spec_isqrt((dx as int) * (dx as int) + (dy as int) * (dy as int), norm) && (
            r.0 as int, r.1 as int) == spec_scale_direction(
                dx as int,
                dy as int,
                max_x as int,
                max_y as int,
                norm,
            ),
        -100000000 <= r.0 <= 100000000,
        -100000000 <= r.1 <= 100000000,
{
    proof {
        assert((dx as int) * (dx as int) + (dy as int) * (dy as int) <= 2000000 && (dx as int) * (
        dx as int) >= 0 && (dy as int) * (dy as int) >= 0) by (nonlinear_arith)
            requires
                -1000 <= dx as int <= 1000,
                -1000 <= dy as int <= 1000,
        ;
    }
    let sq: u64 = ((dx as i64) * (dx as i64) + (dy as i64) * (dy as i64)) as u64;
    let norm = isqrt(sq);
    if dx == 0 && dy == 0 {
        proof {
            assert(spec_isqrt((dx as int) * (dx as int) + (dy as int) * (dy as int),
                norm as int));
        }
        return (0, 0);
    }
    proof {
        assert(sq >= 1) by (nonlinear_arith)
            requires
                sq as int == (dx as int) * (dx as int) + (dy as int) * (dy as int),
                dx != 0 || dy != 0,
                -1000 <= dx as int <= 1000,
                -1000 <= dy as int <= 1000,
        ;
        assert(norm >= 1) by (nonlinear_arith)
            requires
                (norm as int) * (norm as int) <= sq as int && ((norm as int) + 1) * ((norm as int)
                    + 1) > sq as int && norm as int >= 0,
                sq >= 1,
        ;
        assert(norm <= 2000) by (nonlinear_arith)
            requires
                (norm as int) * (norm as int) <= sq as int,
                sq as int <= 2000000,
                norm as int >= 0,
        ;
    }
    if sq > 1000000 {
        let rx = mul_div_trunc(dx, max_x, norm as i64);
        let ry = mul_div_trunc(dy, max_y, norm as i64);
        (rx, ry)
    } else {
        let rx = mul_div_trunc(dx, max_x, 1000);
        let ry = mul_div_trunc(dy, max_y, 1000);
        (rx, ry)
    }
}


/// The switchover plan when a fire mapping is pressed while aim mode is
/// active: the aim pointer releases at the live cursor, then the fire
/// pointer presses at its own position, within the same tick.
pub fn fire_press_plan(
    m: &MappingFire,
    fps_pointer_id: u64,
    mask_size: Size,
    cursor: Position,
    size: Size,
) -> (r: Vec<Effect>)
    ensures
        effects_view(r@) == seq![
            EffectView::Send(
                spec_touch_view(MotionEventAction::Up, fps_pointer_id, mask_size, cursor),
            ),
            EffectView::Send(
                spec_touch_view(MotionEventAction::Down, m.pointer_id, size, m.position),
            ),
        ],
{
    let mut out: Vec<Effect> = Vec::new();
    out.push(Effect::Send(touch_msg(MotionEventAction::Up, fps_pointer_id, mask_size, cursor)));
    out.push(Effect::Send(touch_msg(MotionEventAction::Down, m.pointer_id, size, m.position)));
    proof {
        assert(effects_view(out@) =~= seq![
            EffectView::Send(
                spec_touch_view(MotionEventAction::Up, fps_pointer_id, mask_size, cursor),
            ),
            EffectView::Send(
                spec_touch_view(MotionEventAction::Down, m.pointer_id, size, m.position),
            ),
        ]);
    }
    out
}

/// The mirror switchover when the fire mapping is released: the fire pointer
/// releases at its tracked position, then the aim pointer presses again at
/// the aim center, so the cursor resumes from the center.
pub fn fire_release_plan(
    fire_pointer_id: u64,
    fire_pos: Position,
    mask_size: Size,
    fps_pointer_id: u64,
    fps_center: Position,
    fps_size: Size,
) -> (r: Vec<Effect>)
    ensures
        effects_view(r@) == seq![
            EffectView::Send(
                spec_touch_view(MotionEventAction::Up, fire_pointer_id, mask_size, fire_pos),
            ),
            EffectView::Send(
                spec_touch_view(MotionEventAction::Down, fps_pointer_id, fps_size, fps_center),
            ),
        ],
{
    let mut out: Vec<Effect> = Vec::new();
    out.push(Effect::Send(touch_msg(MotionEventAction::Up, fire_pointer_id, mask_size, fire_pos)));
    out.push(
        Effect::Send(touch_msg(MotionEventAction::Down, fps_pointer_id, fps_size, fps_center)),
    );
    proof {
        assert(effects_view(out@) =~= seq![
            EffectView::Send(
                spec_touch_view(MotionEventAction::Up, fire_pointer_id, mask_size, fire_pos),
            ),
            EffectView::Send(
                spec_touch_view(MotionEventAction::Down, fps_pointer_id, fps_size, fps_center),
            ),
        ]);
    }
    out
}

/// The jitter moves that settle a cancelled cast: ten short moves stepping
/// five pixels right of `from`, each followed by a five millisecond pause,
/// from step `k` on.
pub open spec fn spec_cancel_jitter(
    pointer_id: u64,
    size: Size,
    from: Position,
    k: int,
) -> Seq<EffectView>
    decreases 10 - k + 1,
{
    if k < 1 || k > 10 {
        Seq::<EffectView>::empty()
    } else {
        seq![
            EffectView::Send(
                spec_touch_view(
                    MotionEventAction::Move,
                    pointer_id,
                    size,
                    Position { x: (from.x + 5 * k) as i64, y: from.y },
                ),
            ),
            EffectView::Wait(5),
        ] + spec_cancel_jitter(pointer_id, size, from, k + 1)
    }
}

/// Plans the cancellation of an active cast: at most five interpolation
/// moves from the cast's live position toward the cancel position, ten
/// short jitter moves, and exactly one release at the cancel position.
pub fn cancel_cast_plan(
    pointer_id: u64,
    size: Size,
    current: Position,
    cancel: Position,
    steps: u64,
) -> (r: Vec<Effect>)
    requires
        1 <= steps <= 5,
        -0x80000000 <= current.x <= 0x7FFFFFF0,
        -0x80000000 <= current.y <= 0x7FFFFFFF,
        -0x80000000 <= cancel.x <= 0x7FFFFFF0,
        -0x80000000 <= cancel.y <= 0x7FFFFFFF,
    ensures
        effects_view(r@) == spec_segment_moves_linear(pointer_id, size, current, cancel, steps as int, 1)
            + spec_cancel_jitter(pointer_id, size, cancel, 1) + seq![
            EffectView::Send(spec_touch_view(MotionEventAction::Up, pointer_id, size, cancel)),
        ],
{
    let mut out: Vec<Effect> = Vec::new();
    let ghost seg = spec_segment_moves_linear(pointer_id, size, current, cancel, steps as int, 1);
    let ghost done: int = 0;
    proof {
        assert(effects_view(out@) =~= seg.take(0int));
        assert(seg =~= seg.take(0int) + spec_segment_moves_linear(
            pointer_id,
            size,
            current,
            cancel,
            steps as int,
            1,
        ));
    }
    let mut k: u64 = 1;
    while k <= steps
        invariant
            1 <= k,
            k as int <= steps as int + 1,
            1 <= steps <= 5,
            -0x80000000 <= current.x <= 0x7FFFFFF0,
            -0x80000000 <= current.y <= 0x7FFFFFFF,
            -0x80000000 <= cancel.x <= 0x7FFFFFF0,
            -0x80000000 <= cancel.y <= 0x7FFFFFFF,
            seg == spec_segment_moves_linear(pointer_id, size, current, cancel, steps as int, 1),
            done == 1 * (k as int - 1),
            0 <= done <= seg.len(),
            seg == seg.take(done) + spec_segment_moves_linear(
                pointer_id,
                size,
                current,
                cancel,
                steps as int,
                k as int,
            ),
            effects_view(out@) == seg.take(done),
        decreases steps as int + 1 - k as int,
    {
        let p = lerp(current, cancel, k, steps);
        out.push(Effect::Send(touch_msg(MotionEventAction::Move, pointer_id, size, p)));
        proof {
            let rest = spec_segment_moves_linear(
                pointer_id,
                size,
                current,
                cancel,
                steps as int,
                k as int,
            );
            let rest2 = spec_segment_moves_linear(
                pointer_id,
                size,
                current,
                cancel,
                steps as int,
                k as int + 1,
            );
            assert(rest == seq![
                EffectView::Send(
                    spec_touch_view(
                        MotionEventAction::Move,
                        pointer_id,
                        size,
                        spec_lerp(current, cancel, k as int, steps as int),
                    ),
                ),
            ] + rest2);
            assert(seg =~= seg.take(done + 1) + rest2);
            assert(seg.take(done + 1) =~= seg.take(done) + seq![rest[0]]);
            assert(effects_view(out@) =~= seg.take(done + 1));
            done = done + 1;
        }
        k = k + 1;
    }
    proof {
        assert(spec_segment_moves_linear(pointer_id, size, current, cancel, steps as int, k as int)
            =~= Seq::<EffectView>::empty());
        assert(seg =~= seg.take(done));
        assert(effects_view(out@) =~= seg);
    }
    let ghost jitter = spec_cancel_jitter(pointer_id, size, cancel, 1);
    let ghost jdone: int = 0;
    proof {
        assert(effects_view(out@) =~= seg + jitter.take(0int));
        assert(jitter =~= jitter.take(0int) + spec_cancel_jitter(pointer_id, size, cancel, 1));
    }
    let mut j: u64 = 1;
    while j <= 10
        invariant
            1 <= j <= 11,
            -0x80000000 <= cancel.x <= 0x7FFFFFF0,
            -0x80000000 <= cancel.y <= 0x7FFFFFFF,
            jitter == spec_cancel_jitter(pointer_id, size, cancel, 1),
            seg == spec_segment_moves_linear(pointer_id, size, current, cancel, steps as int, 1),
            jdone == 2 * (j as int - 1),
            0 <= jdone <= jitter.len(),
            jitter == jitter.take(jdone) + spec_cancel_jitter(pointer_id, size, cancel, j as int),
            effects_view(out@) == seg + jitter.take(jdone),
        decreases 11 - j,
    {
        let p = Position { x: cancel.x + 5 * (j as i64), y: cancel.y };
        out.push(Effect::Send(touch_msg(MotionEventAction::Move, pointer_id, size, p)));
        out.push(Effect::Wait(5));
        proof {
            let rest = spec_cancel_jitter(pointer_id, size, cancel, j as int);
            let rest2 = spec_cancel_jitter(pointer_id, size, cancel, j as int + 1);
            assert(rest == seq![
                EffectView::Send(
                    spec_touch_view(
                        MotionEventAction::Move,
                        pointer_id,
                        size,
                        Position { x: (cancel.x + 5 * (j as int)) as i64, y: cancel.y },
                    ),
                ),
                EffectView::Wait(5),
            ] + rest2);
            assert(rest.len() == 2 + rest2.len());
            assert(jitter.len() == jdone + rest.len());
            assert(jitter =~= jitter.take(jdone + 2) + rest2);
            assert(jitter.take(jdone + 2) =~= jitter.take(jdone) + seq![rest[0], rest[1]]);
            assert(effects_view(out@) =~= (seg + jitter.take(jdone)) + seq![rest[0], rest[1]]);
            assert(effects_view(out@) =~= seg + jitter.take(jdone + 2));
            jdone = jdone + 2;
        }
        j = j + 1;
    }
    proof {
        assert(spec_cancel_jitter(pointer_id, size, cancel, j as int)
            =~= Seq::<EffectView>::empty());
        assert(jitter =~= jitter.take(jdone));
        assert(effects_view(out@) =~= seg + jitter);
    }
    out.push(Effect::Send(touch_msg(MotionEventAction::Up, pointer_id, size, cancel)));
    proof {
        assert(effects_view(out@) =~= seg + jitter + seq![
            EffectView::Send(spec_touch_view(MotionEventAction::Up, pointer_id, size, cancel)),
        ]);
    }
    out
}

/// The point `k / steps` of the way from `a` to `b`, linearly, truncated
/// toward zero.
pub open spec fn spec_lerp(a: Position, b: Position, k: int, steps: int) -> Position {
    Position {
        x: (a.x + spec_mul_div_trunc(b.x - a.x, k, steps)) as i64,
        y: (a.y + spec_mul_div_trunc(b.y - a.y, k, steps)) as i64,
    }
}

/// The linear moves from `a` toward `b`, one per step from `k` through
/// `steps`.
pub open spec fn spec_segment_moves_linear(
    pointer_id: u64,
    size: Size,
    a: Position,
    b: Position,
    steps: int,
    k: int,
) -> Seq<EffectView>
    decreases steps - k + 1,
{
    if k < 1 || k > steps {
        Seq::<EffectView>::empty()
    } else {
        seq![
            EffectView::Send(
                spec_touch_view(
                    MotionEventAction::Move,
                    pointer_id,
                    size,
                    spec_lerp(a, b, k, steps),
                ),
            ),
        ] + spec_segment_moves_linear(pointer_id, size, a, b, steps, k + 1)
    }
}

fn lerp(a: Position, b: Position, k: u64, steps: u64) -> (r: Position)
    requires
        1 <= k <= steps <= 5,
        -0x80000000 <= a.x <= 0x7FFFFFFF,
        -0x80000000 <= a.y <= 0x7FFFFFFF,
        -0x80000000 <= b.x <= 0x7FFFFFFF,
        -0x80000000 <= b.y <= 0x7FFFFFFF,
    ensures
        r == spec_lerp(a, b, k as int, steps as int),
{
    let ghost kk = k as int;
    let ghost ss = steps as int;
    proof {
        let dxg = b.x - a.x;
        let dyg = b.y - a.y;
        assert((-0x500000000 <= dxg * kk <= 0x500000000) && (dxg >= 0 ==> 0 <= dxg * kk / ss
            <= dxg) && (dxg < 0 ==> dxg <= dxg * kk / ss <= 0)) by (nonlinear_arith)
            requires
                -0x100000000 <= dxg <= 0x100000000,
                1 <= kk <= ss,
                ss <= 5,
        ;
        assert((-0x500000000 <= dyg * kk <= 0x500000000) && (dyg >= 0 ==> 0 <= dyg * kk / ss
            <= dyg) && (dyg < 0 ==> dyg <= dyg * kk / ss <= 0)) by (nonlinear_arith)
            requires
                -0x100000000 <= dyg <= 0x100000000,
                1 <= kk <= ss,
                ss <= 5,
        ;
        assert((-0x500000000 <= (-dxg) * kk <= 0x500000000) && ((-dxg) >= 0 ==> 0 <= (-dxg) * kk
            / ss <= (-dxg))) by (nonlinear_arith)
            requires
                -0x100000000 <= dxg <= 0x100000000,
                1 <= kk <= ss,
                ss <= 5,
        ;
        assert((-0x500000000 <= (-dyg) * kk <= 0x500000000) && ((-dyg) >= 0 ==> 0 <= (-dyg) * kk
            / ss <= (-dyg))) by (nonlinear_arith)
            requires
                -0x100000000 <= dyg <= 0x100000000,
                1 <= kk <= ss,
                ss <= 5,
        ;
    }
    let dx = b.x - a.x;
    let dy = b.y - a.y;
    let sx = if dx >= 0 {
        dx * (k as i64) / (steps as i64)
    } else {
        -((-dx) * (k as i64) / (steps as i64))
    };
    let sy = if dy >= 0 {
        dy * (k as i64) / (steps as i64)
    } else {
        -((-dy) * (k as i64) / (steps as i64))
    };
    Position { x: a.x + sx, y: a.y + sy }
}

} // verus!
