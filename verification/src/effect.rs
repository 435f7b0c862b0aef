//! The control-message plans that gestures and scripts emit: a timed list
//! of messages, waits and log lines, together with the fixed-point easing
//! curve used for interpolated strokes.

use vstd::prelude::*;

use crate::constant::{MotionEventAction, BUTTON_PRIMARY, PRESSURE_FULL};
use crate::control_msg::{ControlMsgView, ScrcpyControlMsg};

verus! {

/// One step of a plan: send a message, pause, write a log line, or set the
/// device clipboard (whose wire sequence number is drawn at send time).
#[derive(Debug, Clone)]
pub enum Effect {
    Send(ScrcpyControlMsg),
    Wait(u64),
    Log(Vec<u8>),
    Paste(Vec<u8>),
}

/// The mathematical shape of a plan step.
pub enum EffectView {
    Send(ControlMsgView),
    Wait(u64),
    Log(Seq<u8>),
    Paste(Seq<u8>),
}

impl View for Effect {
    type V = EffectView;

    open spec fn view(&self) -> EffectView {
        match self {
            Effect::Send(m) => EffectView::Send(m@),
            Effect::Wait(ms) => EffectView::Wait(*ms),
            Effect::Log(line) => EffectView::Log(line@),
            Effect::Paste(text) => EffectView::Paste(text@),
        }
    }
}

/// The views of a list of plan steps.
pub open spec fn effects_view(s: Seq<Effect>) -> Seq<EffectView> {
    Seq::new(s.len(), |i: int| s[i]@)
}

/// A point in the authored coordinate frame.
#[derive(Debug, Clone, Copy, PartialEq, Eq, Structural)]
pub struct Position {
    pub x: i64,
    pub y: i64,
}

/// The frame a touch plan is authored in.
#[derive(Debug, Clone, Copy, PartialEq, Eq, Structural)]
pub struct Size {
    pub width: u16,
    pub height: u16,
}

/// The touch message a plan sends: full pressure, primary button, with the
/// coordinates truncated into 32 bits.
pub open spec fn spec_touch_view(
    action: MotionEventAction,
    pointer_id: u64,
    size: Size,
    pos: Position,
) -> ControlMsgView {
    ControlMsgView::InjectTouchEvent {
        action,
        pointer_id,
        x: pos.x as i32,
        y: pos.y as i32,
        w: size.width,
        h: size.height,
        pressure: PRESSURE_FULL,
        action_button: BUTTON_PRIMARY,
        buttons: BUTTON_PRIMARY,
    }
}

/// Builds the touch message of one plan step.
pub fn touch_msg(action: MotionEventAction, pointer_id: u64, size: Size, pos: Position) -> (r:
    ScrcpyControlMsg)
    ensures
        r@ == spec_touch_view(action, pointer_id, size, pos),
{
    ScrcpyControlMsg::InjectTouchEvent {
        action,
        pointer_id,
        x: pos.x as i32,
        y: pos.y as i32,
        w: size.width,
        h: size.height,
        pressure: PRESSURE_FULL,
        action_button: BUTTON_PRIMARY,
        buttons: BUTTON_PRIMARY,
    }
}

/// One sample of the sigmoid-like easing curve at `k / 32`, in units of
/// `1 / 65536`. The curve is `1 / (1 + exp(-12 (t - 1/2)))` sampled at 33
/// points; between samples the curve is interpolated linearly.
pub open spec fn spec_ease_sample(k: int) -> int {
    if k < 0 {
        162
    } else if k == 0 {
        162
    } else if k == 1 {
        236
    } else if k == 2 {
        342
    } else if k == 3 {
        497
    } else if k == 4 {
        720
    } else if k == 5 {
        1042
    } else if k == 6 {
        1506
    } else if k == 7 {
        2168
    } else if k == 8 {
        3108
    } else if k == 9 {
        4427
    } else if k == 10 {
        6249
    } else if k == 11 {
        8714
    } else if k == 12 {
        11955
    } else if k == 13 {
        16062
    } else if k == 14 {
        21025
    } else if k == 15 {
        26695
    } else if k == 16 {
        32768
    } else if k == 17 {
        38841
    } else if k == 18 {
        44511
    } else if k == 19 {
        49474
    } else if k == 20 {
        53581
    } else if k == 21 {
        56822
    } else if k == 22 {
        59287
    } else if k == 23 {
        61109
    } else if k == 24 {
        62428
    } else if k == 25 {
        63368
    } else if k == 26 {
        64030
    } else if k == 27 {
        64494
    } else if k == 28 {
        64816
    } else if k == 29 {
        65039
    } else if k == 30 {
        65194
    } else if k == 31 {
        65300
    } else {
        65374
    }
}

fn ease_sample(k: u64) -> (r: u64)
    requires
        k <= 32,
    ensures
        r == spec_ease_sample(k as int),
        r <= 65536,
{
    match k {
        0 => 162,
        1 => 236,
        2 => 342,
        3 => 497,
        4 => 720,
        5 => 1042,
        6 => 1506,
        7 => 2168,
        8 => 3108,
        9 => 4427,
        10 => 6249,
        11 => 8714,
        12 => 11955,
        13 => 16062,
        14 => 21025,
        15 => 26695,
        16 => 32768,
        17 => 38841,
        18 => 44511,
        19 => 49474,
        20 => 53581,
        21 => 56822,
        22 => 59287,
        23 => 61109,
        24 => 62428,
        25 => 63368,
        26 => 64030,
        27 => 64494,
        28 => 64816,
        29 => 65039,
        30 => 65194,
        31 => 65300,
        _ => 65374,
    }
}

/// The eased fraction of the way through a stroke, in units of `1 / 65536`,
/// at step `num` of `den`.
pub open spec fn spec_ease(num: int, den: int) -> int
    recommends
        0 < den,
        0 <= num <= den,
{
    let pos = 32 * num;
    let idx = pos / den;
    let frac = pos % den;
    if idx >= 32 {
        spec_ease_sample(32)
    } else {
        spec_ease_sample(idx) + (spec_ease_sample(idx + 1) - spec_ease_sample(idx)) * frac / den
    }
}

proof fn lemma_ease_bounds(num: int, den: int)
    requires
        0 < den,
        0 <= num <= den,
    ensures
        0 <= spec_ease(num, den) <= 65536,
{
    let pos = 32 * num;
    let idx = pos / den;
    let frac = pos % den;
    assert(0 <= pos <= 32 * den) by (nonlinear_arith)
        requires
            0 < den,
            0 <= num <= den,
            pos == 32 * num,
    ;
    assert(0 <= idx <= 32) by (nonlinear_arith)
        requires
            0 < den,
            0 <= pos <= 32 * den,
            idx == pos / den,
    ;
    assert(0 <= frac < den) by (nonlinear_arith)
        requires
            0 < den,
            frac == pos % den,
            0 <= pos,
    ;
    if idx < 32 {
        let d = spec_ease_sample(idx + 1) - spec_ease_sample(idx);
        assert(0 <= d <= 65536);
        assert(0 <= d * frac / den <= d) by (nonlinear_arith)
            requires
                0 <= d,
                0 <= frac < den,
                0 < den,
        ;
    }
}

/// Evaluates the easing curve at `num / den`.
pub fn ease(num: u64, den: u64) -> (r: u64)
    requires
        0 < den,
        num <= den,
    ensures
        r == spec_ease(num as int, den as int),
        r <= 65536,
{
    proof {
        lemma_ease_bounds(num as int, den as int);
    }
    if den > 0xFFFFFFFFFFFFFFFF / 32 {
        // With more steps than any realistic stroke, fall back to the exact
        // same arithmetic carried out in 128 bits.
        let pos = 32u128 * (num as u128);
        let idx = (pos / (den as u128)) as u64;
        proof {
            assert(32 * (num as int) / (den as int) <= 32) by (nonlinear_arith)
                requires
                    0 < (den as int),
                    0 <= num as int && (num as int) <= (den as int),
            ;
        }
        let fr = pos % (den as u128);
        if idx >= 32 {
            ease_sample(32)
        } else {
            let a = ease_sample(idx);
            let b = ease_sample(idx + 1);
            proof {
                assert(spec_ease_sample(idx as int) <= spec_ease_sample(idx as int + 1));
                assert(((b - a) as int) * (fr as int) < 0x100000000000000000000000000000000)
                    by (nonlinear_arith)
                    requires
                        0 <= (b - a) as int && ((b - a) as int) <= 65536,
                        0 <= fr as int && (fr as int) < 0x10000000000000000,
                ;
            }
            let step = ((b - a) as u128) * fr / (den as u128);
            proof {
                assert(((b - a) as int) * (fr as int) / (den as int) <= (b - a) as int)
                    by (nonlinear_arith)
                    requires
                        0 <= (b - a) as int,
                        0 <= fr as int && (fr as int) < (den as int),
                        0 < (den as int),
                ;
            }
            a + step as u64
        }
    } else {
        proof {
            assert(32 * (num as int) <= 32 * (den as int) && 32 * (den as int)
                < 0x10000000000000000) by (nonlinear_arith)
                requires
                    0 <= num as int && (num as int) <= (den as int),
                    (den as int) <= 0x07FFFFFFFFFFFFFF,
            ;
        }
        let pos = 32 * num;
        let idx = pos / den;
        let fr = pos % den;
        if idx >= 32 {
            ease_sample(32)
        } else {
            let a = ease_sample(idx);
            let b = ease_sample(idx + 1);
            proof {
                assert(spec_ease_sample(idx as int) <= spec_ease_sample(idx as int + 1));
                assert(((b - a) as int) * (fr as int) < 0x100000000000000000000000000000000)
                    by (nonlinear_arith)
                    requires
                        0 <= (b - a) as int && ((b - a) as int) <= 65536,
                        0 <= fr as int && (fr as int) < 0x10000000000000000000000000000000,
                ;
            }
            let step = ((b - a) as u128) * (fr as u128) / (den as u128);
            proof {
                assert(((b - a) as int) * (fr as int) / (den as int) <= (b - a) as int)
                    by (nonlinear_arith)
                    requires
                        0 <= (b - a) as int,
                        0 <= fr as int && (fr as int) < (den as int),
                        0 < (den as int),
                ;
            }
            a + step as u64
        }
    }
}

/// A signed delta scaled by an eased fraction in units of `1 / 65536`,
/// truncated toward zero.
pub open spec fn spec_ease_delta(d: int, e: int) -> int {
    if d >= 0 {
        d * e / 65536
    } else {
        -((-d) * e / 65536)
    }
}

/// The point `ease(k / steps)` of the way from `a` to `b`, component-wise.
pub open spec fn spec_interp(a: Position, b: Position, k: int, steps: int) -> Position {
    let e = spec_ease(k, steps);
    Position {
        x: (a.x + spec_ease_delta(b.x - a.x, e)) as i64,
        y: (a.y + spec_ease_delta(b.y - a.y, e)) as i64,
    }
}

fn ease_delta(d: i64, e: u64) -> (r: i64)
    requires
        -0x100000000 <= d <= 0x100000000,
        e <= 65536,
    ensures
        r == spec_ease_delta(d as int, e as int),
        d >= 0 ==> 0 <= r <= d,
        d < 0 ==> d <= r <= 0,
{
    if d >= 0 {
        proof {
            assert(0 <= (d as int) * (e as int) <= 0x1000000000000 && (d as int) * (e as int)
                / 65536 <= d as int) by (nonlinear_arith)
                requires
                    0 <= d as int && (d as int) <= 0x100000000,
                    0 <= e as int && (e as int) <= 65536,
            ;
        }
        d * (e as i64) / 65536
    } else {
        proof {
            assert(0 <= (-(d as int)) * (e as int) <= 0x1000000000000 && (-(d as int)) * (e as int)
                / 65536 <= -(d as int)) by (nonlinear_arith)
                requires
                    0 <= -(d as int) && (-(d as int)) <= 0x100000000,
                    0 <= e as int && (e as int) <= 65536,
            ;
        }
        -((-d) * (e as i64) / 65536)
    }
}

/// Interpolates between two points with the easing curve.
pub fn interp(a: Position, b: Position, k: u64, steps: u64) -> (r: Position)
    requires
        0 < steps,
        k <= steps,
        -0x80000000 <= a.x <= 0x7FFFFFFF,
        -0x80000000 <= a.y <= 0x7FFFFFFF,
        -0x80000000 <= b.x <= 0x7FFFFFFF,
        -0x80000000 <= b.y <= 0x7FFFFFFF,
    ensures
        r == spec_interp(a, b, k as int, steps as int),
{
    let e = ease(k, steps);
    let dx = ease_delta(b.x - a.x, e);
    let dy = ease_delta(b.y - a.y, e);
    Position { x: a.x + dx, y: a.y + dy }
}


/// The moves of one swipe segment from `a` to `b`: an eased move then a
/// pause, at each step `k` through `steps`.
pub open spec fn spec_segment_moves(
    pointer_id: u64,
    size: Size,
    a: Position,
    b: Position,
    steps: int,
    dur: u64,
    k: int,
) -> Seq<EffectView>
    decreases steps - k + 1,
{
    if k > steps || k < 1 {
        Seq::<EffectView>::empty()
    } else {
        seq![
            EffectView::Send(
                spec_touch_view(
                    MotionEventAction::Move,
                    pointer_id,
                    size,
                    spec_interp(a, b, k, steps),
                ),
            ),
            EffectView::Wait(dur),
        ] + spec_segment_moves(pointer_id, size, a, b, steps, dur, k + 1)
    }
}

/// The moves of the segments from `points[i - 1]` onward.
pub open spec fn spec_swipe_segments(
    pointer_id: u64,
    size: Size,
    points: Seq<Position>,
    interval: u64,
    i: int,
) -> Seq<EffectView>
    decreases points.len() - i + 1,
{
    if i < 1 || i >= points.len() {
        Seq::<EffectView>::empty()
    } else {
        let steps = if interval / crate::MIN_MOVE_STEP_INTERVAL > 1 {
            interval / crate::MIN_MOVE_STEP_INTERVAL
        } else {
            1
        };
        let dur = interval / steps;
        spec_segment_moves(pointer_id, size, points[i - 1], points[i], steps as int, dur, 1)
            + spec_swipe_segments(pointer_id, size, points, interval, i + 1)
    }
}

/// The whole plan of a swipe along `points`: a press at the first point,
/// eased moves with pauses along every segment, and a release at the last
/// point.
pub open spec fn spec_swipe_effects(
    pointer_id: u64,
    size: Size,
    points: Seq<Position>,
    interval: u64,
) -> Seq<EffectView>
    recommends
        points.len() > 0,
{
    seq![
        EffectView::Send(
            spec_touch_view(MotionEventAction::Down, pointer_id, size, points[0]),
        ),
    ] + spec_swipe_segments(pointer_id, size, points, interval, 1) + seq![
        EffectView::Send(
            spec_touch_view(
                MotionEventAction::Up,
                pointer_id,
                size,
                points[points.len() - 1],
            ),
        ),
    ]
}

/// Whether every coordinate of the path fits 32 bits, so interpolation
/// stays exact.
pub open spec fn spec_points_in_range(points: Seq<Position>) -> bool {
    forall|i: int|
        0 <= i < points.len() ==> -0x80000000 <= (#[trigger] points[i]).x <= 0x7FFFFFFF
            && -0x80000000 <= points[i].y <= 0x7FFFFFFF
}

/// Appends the swipe plan along `points` to `out`: press, eased moves every
/// `interval / steps` milliseconds, release.
pub fn push_swipe_effects(
    pointer_id: u64,
    size: Size,
    points: &Vec<Position>,
    interval: u64,
    out: &mut Vec<Effect>,
)
    requires
        points@.len() > 0,
        spec_points_in_range(points@),
    ensures
        effects_view(final(out)@) == effects_view(old(out)@) + spec_swipe_effects(
            pointer_id,
            size,
            points@,
            interval,
        ),
{
    let ghost all_segs = spec_swipe_segments(pointer_id, size, points@, interval, 1);
    let n = points.len();
    out.push(Effect::Send(touch_msg(MotionEventAction::Down, pointer_id, size, points[0])));
    let ghost base = effects_view(out@);
    proof {
        assert(base =~= effects_view(old(out)@) + seq![
            EffectView::Send(
                spec_touch_view(MotionEventAction::Down, pointer_id, size, points@[0]),
            ),
        ]);
        assert(all_segs.take(0int) =~= Seq::<EffectView>::empty());
        assert(effects_view(out@) =~= base + all_segs.take(0int));
    }
    let mut i: usize = 1;
    let ghost prefix_len: int = 0;
    while i < n
        invariant
            1 <= i <= n,
            n == points@.len(),
            spec_points_in_range(points@),
            all_segs == spec_swipe_segments(pointer_id, size, points@, interval, 1),
            0 <= prefix_len <= all_segs.len(),
            all_segs == all_segs.take(prefix_len) + spec_swipe_segments(
                pointer_id,
                size,
                points@,
                interval,
                i as int,
            ),
            effects_view(out@) == base + all_segs.take(prefix_len),
        decreases n - i,
    {
        let a = points[i - 1];
        let b = points[i];
        let steps = if interval / crate::MIN_MOVE_STEP_INTERVAL > 1 {
            interval / crate::MIN_MOVE_STEP_INTERVAL
        } else {
            1u64
        };
        proof {
            assert(steps <= 0xFFFFFFFFFFFFFFFFu64 / 25 || steps == 1);
        }
        let dur = interval / steps;
        let ghost seg = spec_segment_moves(pointer_id, size, a, b, steps as int, dur, 1);
        let ghost seg_base = effects_view(out@);
        let mut k: u64 = 1;
        let ghost done: int = 0;
        while k <= steps
            invariant
                1 <= k,
                k as int <= steps as int + 1,
                0 < steps,
                steps <= 0xFFFFFFFFFFFFFFFFu64 / 25 || steps == 1,
                done == 2 * (k as int - 1),
                dur == interval / steps,
                -0x80000000 <= a.x <= 0x7FFFFFFF,
                -0x80000000 <= a.y <= 0x7FFFFFFF,
                -0x80000000 <= b.x <= 0x7FFFFFFF,
                -0x80000000 <= b.y <= 0x7FFFFFFF,
                seg == spec_segment_moves(pointer_id, size, a, b, steps as int, dur, 1),
                0 <= done <= seg.len(),
                seg == seg.take(done) + spec_segment_moves(
                    pointer_id,
                    size,
                    a,
                    b,
                    steps as int,
                    dur,
                    k as int,
                ),
                effects_view(out@) == seg_base + seg.take(done),
            decreases steps as int + 1 - k as int,
        {
            let p = interp(a, b, k, steps);
            out.push(Effect::Send(touch_msg(MotionEventAction::Move, pointer_id, size, p)));
            out.push(Effect::Wait(dur));
            proof {
                let rest = spec_segment_moves(pointer_id, size, a, b, steps as int, dur, k as int);
                let rest2 = spec_segment_moves(
                    pointer_id,
                    size,
                    a,
                    b,
                    steps as int,
                    dur,
                    k as int + 1,
                );
                assert(rest == seq![
                    EffectView::Send(
                        spec_touch_view(
                            MotionEventAction::Move,
                            pointer_id,
                            size,
                            spec_interp(a, b, k as int, steps as int),
                        ),
                    ),
                    EffectView::Wait(dur),
                ] + rest2);
                assert(seg =~= seg.take(done + 2) + rest2);
                assert(seg.take(done + 2) =~= seg.take(done) + seq![rest[0], rest[1]]);
                assert(effects_view(out@) =~= (seg_base + seg.take(done)) + seq![
                    rest[0],
                    rest[1],
                ]);
                assert(effects_view(out@) =~= seg_base + seg.take(done + 2));
                done = done + 2;
            }
            k = k + 1;
        }
        proof {
            assert(spec_segment_moves(pointer_id, size, a, b, steps as int, dur, k as int)
                =~= Seq::<EffectView>::empty());
            assert(seg =~= seg.take(done));
            assert(seg.take(done) =~= seg);
            assert(effects_view(out@) =~= seg_base + seg);
            let rest_i = spec_swipe_segments(pointer_id, size, points@, interval, i as int);
            let rest_i1 = spec_swipe_segments(pointer_id, size, points@, interval, i as int + 1);
            assert(rest_i == seg + rest_i1);
            assert(all_segs =~= all_segs.take(prefix_len + seg.len()) + rest_i1);
            assert(all_segs.take(prefix_len + seg.len()) =~= all_segs.take(prefix_len) + seg);
            assert(effects_view(out@) =~= base + all_segs.take(prefix_len + seg.len()));
            prefix_len = prefix_len + seg.len();
        }
        i = i + 1;
    }
    proof {
        assert(spec_swipe_segments(pointer_id, size, points@, interval, n as int)
            =~= Seq::<EffectView>::empty());
        assert(all_segs =~= all_segs.take(prefix_len));
        assert(effects_view(out@) =~= base + all_segs);
    }
    out.push(Effect::Send(touch_msg(MotionEventAction::Up, pointer_id, size, points[n - 1])));
    proof {
        assert(effects_view(out@) =~= (base + all_segs) + seq![
            EffectView::Send(
                spec_touch_view(
                    MotionEventAction::Up,
                    pointer_id,
                    size,
                    points@[n as int - 1],
                ),
            ),
        ]);
        assert(effects_view(out@) =~= effects_view(old(out)@) + spec_swipe_effects(
            pointer_id,
            size,
            points@,
            interval,
        ));
    }
}


/// Builders for the control messages the runtime publishes.
pub struct ControlMsgHelper;

impl ControlMsgHelper {
    /// The touch message of one plan step: full pressure, primary button.
    pub fn send_touch(action: MotionEventAction, pointer_id: u64, size: Size, pos: Position) -> (r:
        ScrcpyControlMsg)
        ensures
            r@ == spec_touch_view(action, pointer_id, size, pos),
    {
        touch_msg(action, pointer_id, size, pos)
    }

    /// A key press or release with the given repeat count and meta state.
    pub fn send_keycode(keycode: u32, metastate: u32, down: bool, repeat: u32) -> (r:
        ScrcpyControlMsg)
        ensures
            r@ == (ControlMsgView::InjectKeycode {
                action: if down {
                    crate::constant::KeyEventAction::Down
                } else {
                    crate::constant::KeyEventAction::Up
                },
                keycode,
                repeat,
                metastate,
            }),
    {
        ScrcpyControlMsg::InjectKeycode {
            action: if down {
                crate::constant::KeyEventAction::Down
            } else {
                crate::constant::KeyEventAction::Up
            },
            keycode,
            repeat,
            metastate,
        }
    }

    /// A clipboard write; when no sequence number is supplied one is drawn
    /// at random, so acknowledgements can be told apart.
    pub fn set_clipboard(sequence: Option<u64>, text: String, paste: bool) -> (r: ScrcpyControlMsg)
        ensures
            ({
                let v = r@;
                &&& v is SetClipboard
                &&& v->SetClipboard_text == crate::control_msg::spec_str_bytes(text@)
                &&& v->SetClipboard_paste == paste
                &&& (sequence is Some ==> v->SetClipboard_sequence == sequence->0)
            }),
    {
        let sequence = match sequence {
            Some(s) => s,
            None => rand::random::<u64>(),
        };
        ScrcpyControlMsg::SetClipboard { sequence, paste, text }
    }
}

} // verus!
