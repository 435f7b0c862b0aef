//! The script evaluator. Evaluation is metered by an explicit step budget
//! (`fuel`): each recursive step of the evaluator spends one unit, so a
//! script that loops forever reports an error instead of stalling the
//! runtime. The exact meaning of every construct is given by the spec-level
//! evaluator `spec_eval_stmt` / `spec_eval_expr`, which the executable
//! evaluator provably follows, effect for effect.

use vstd::prelude::*;
use vstd::string::StringSliceAdditionalSpecFns;

use crate::constant::{KeyEventAction, MotionEventAction};
use crate::control_msg::{ControlMsgView, ScrcpyControlMsg};
use crate::effect::{
    effects_view, spec_swipe_effects, spec_touch_view, push_swipe_effects, touch_msg, Effect,
    EffectView, Position, Size, spec_points_in_range,
};
use crate::keymap::{metastate_from_name, spec_metastate_from_name, Keycode};
use crate::script_helper::{
    i64_dec, spec_i64_dec, BinOp, Expr, ScriptAST, ScriptError, SourceSpan, Stmt, UnaryOp,
};

verus! {

/// A script value.
#[derive(Debug)]
pub enum Value {
    Int(i64),
    Bool(bool),
    Str(Vec<u8>),
}

/// The mathematical shape of a script value.
pub enum ValueView {
    Int(i64),
    Bool(bool),
    Str(Seq<u8>),
}

impl View for Value {
    type V = ValueView;

    open spec fn view(&self) -> ValueView {
        match self {
            Value::Int(n) => ValueView::Int(*n),
            Value::Bool(b) => ValueView::Bool(*b),
            Value::Str(s) => ValueView::Str(s@),
        }
    }
}

fn clone_bytes(b: &Vec<u8>) -> (r: Vec<u8>)
    ensures
        r@ == b@,
{
    let mut out: Vec<u8> = Vec::new();
    let n = b.len();
    let mut i: usize = 0;
    while i < n
        invariant
            i <= n,
            n == b@.len(),
            out@ == b@.take(i as int),
        decreases n - i,
    {
        out.push(b[i]);
        proof {
            assert(out@ =~= b@.take(i as int + 1));
        }
        i = i + 1;
    }
    proof {
        assert(b@.take(n as int) =~= b@);
    }
    out
}

fn clone_value(v: &Value) -> (r: Value)
    ensures
        r@ == v@,
{
    match v {
        Value::Int(n) => Value::Int(*n),
        Value::Bool(b) => Value::Bool(*b),
        Value::Str(s) => Value::Str(clone_bytes(s)),
    }
}

fn bytes_eq(a: &Vec<u8>, b: &Vec<u8>) -> (r: bool)
    ensures
        r == (a@ == b@),
{
    if a.len() != b.len() {
        proof {
            assert(a@ != b@);
        }
        return false;
    }
    let n = a.len();
    let mut i: usize = 0;
    while i < n
        invariant
            i <= n,
            n == a@.len() == b@.len(),
            forall|k: int| 0 <= k < i ==> a@[k] == b@[k],
        decreases n - i,
    {
        if a[i] != b[i] {
            return false;
        }
        i = i + 1;
    }
    proof {
        assert(a@ =~= b@);
    }
    true
}

/// Whether `a` comes strictly before `b` in byte-wise lexicographic order,
/// which on UTF-8 text matches code-point order.
pub open spec fn spec_bytes_lt(a: Seq<u8>, b: Seq<u8>) -> bool
    decreases a.len(),
{
    if b.len() == 0 {
        false
    } else if a.len() == 0 {
        true
    } else if a[0] < b[0] {
        true
    } else if a[0] > b[0] {
        false
    } else {
        spec_bytes_lt(a.skip(1), b.skip(1))
    }
}

fn bytes_lt_at(a: &Vec<u8>, b: &Vec<u8>, start: usize) -> (r: bool)
    requires
        start <= a@.len(),
        start <= b@.len(),
    ensures
        r == spec_bytes_lt(a@.skip(start as int), b@.skip(start as int)),
    decreases a@.len() - start,
{
    let na = a.len();
    let nb = b.len();
    if start >= nb {
        proof {
            assert(b@.skip(start as int).len() == 0);
        }
        false
    } else if start >= na {
        proof {
            assert(a@.skip(start as int).len() == 0);
            assert(b@.skip(start as int).len() > 0);
        }
        true
    } else {
        proof {
            assert(a@.skip(start as int)[0] == a@[start as int]);
            assert(b@.skip(start as int)[0] == b@[start as int]);
            assert(a@.skip(start as int).skip(1) =~= a@.skip(start as int + 1));
            assert(b@.skip(start as int).skip(1) =~= b@.skip(start as int + 1));
        }
        if a[start] < b[start] {
            true
        } else if a[start] > b[start] {
            false
        } else {
            bytes_lt_at(a, b, start + 1)
        }
    }
}

fn bytes_lt(a: &Vec<u8>, b: &Vec<u8>) -> (r: bool)
    ensures
        r == spec_bytes_lt(a@, b@),
{
    proof {
        assert(a@.skip(0int) =~= a@);
        assert(b@.skip(0int) =~= b@);
    }
    bytes_lt_at(a, b, 0)
}

/// One binding of the environment.
#[derive(Debug)]
pub struct EnvEntry {
    pub name: Vec<u8>,
    pub value: Value,
}

/// The variable environment of a running script. An assignment pushes a new
/// binding; lookups take the newest.
#[derive(Debug)]
pub struct Env {
    entries: Vec<EnvEntry>,
}

/// The bindings as a map from name to newest value.
pub open spec fn spec_env_map(s: Seq<EnvEntry>) -> Map<Seq<u8>, ValueView>
    decreases s.len(),
{
    if s.len() == 0 {
        Map::<Seq<u8>, ValueView>::empty()
    } else {
        spec_env_map(s.drop_last()).insert(s.last().name@, s.last().value@)
    }
}

impl View for Env {
    type V = Map<Seq<u8>, ValueView>;

    closed spec fn view(&self) -> Map<Seq<u8>, ValueView> {
        spec_env_map(self.entries@)
    }
}

impl Env {
    /// An empty environment.
    pub fn new() -> (r: Env)
        ensures
            r@ == Map::<Seq<u8>, ValueView>::empty(),
    {
        let r = Env { entries: Vec::new() };
        r
    }

    /// Binds or rebinds a name.
    pub fn set(&mut self, name: Vec<u8>, value: Value)
        ensures
            final(self)@ == old(self)@.insert(name@, value@),
    {
        self.entries.push(EnvEntry { name, value });
        proof {
            assert(self.entries@.drop_last() =~= old(self).entries@);
        }
    }

    /// The newest value bound to a name.
    pub fn get(&self, name: &Vec<u8>) -> (r: Option<&Value>)
        ensures
            match r {
                Some(v) => self@.contains_key(name@) && self@[name@] == v@,
                None => !self@.contains_key(name@),
            },
    {
        let n = self.entries.len();
        proof {
            assert(self.entries@.take(n as int) =~= self.entries@);
        }
        let mut i: usize = n;
        while i > 0
            invariant
                i <= n,
                n == self.entries@.len(),
                spec_env_map(self.entries@).contains_key(name@) == spec_env_map(
                    self.entries@.take(i as int),
                ).contains_key(name@),
                spec_env_map(self.entries@).contains_key(name@) ==> spec_env_map(
                    self.entries@,
                )[name@] == spec_env_map(self.entries@.take(i as int))[name@],
            decreases i,
        {
            proof {
                assert(self.entries@.take(i as int).drop_last() =~= self.entries@.take(
                    i as int - 1,
                ));
                assert(self.entries@.take(i as int).last() == self.entries@[i as int - 1]);
            }
            if bytes_eq(&self.entries[i - 1].name, name) {
                return Some(&self.entries[i - 1].value);
            }
            i = i - 1;
        }
        proof {
            assert(self.entries@.take(0int) =~= Seq::<EnvEntry>::empty());
        }
        None
    }
}

/// The plain inputs a script runs with: the authored canvas and the live
/// cursor position, which seed the preset variables and the frame of every
/// touch the script sends.
#[derive(Debug, Clone, Copy, PartialEq, Eq, Structural)]
pub struct ScriptCtx {
    pub original_size: Size,
    pub cursor_x: i64,
    pub cursor_y: i64,
}

/// Why evaluation stopped early.
#[derive(Debug)]
pub enum EvalStop {
    /// A runtime error, annotated with its source region.
    Error(ScriptError),
    /// The step budget ran out.
    OutOfFuel,
}

/// The spec-level outcome of evaluating an expression.
pub enum ExprOutcome {
    Done(ValueView),
    Fail(SourceSpan),
    Stop,
}

/// The spec-level outcome of an expression together with its effects.
pub struct ExprEval {
    pub outcome: ExprOutcome,
    pub effects: Seq<EffectView>,
}

/// The spec-level outcome of a statement: the environment after it and its
/// effects.
pub struct StmtEval {
    pub outcome: ExprOutcome,
    pub env: Map<Seq<u8>, ValueView>,
    pub effects: Seq<EffectView>,
}

/// Truthiness: a number is true when nonzero, a string when nonempty.
pub open spec fn spec_truthy(v: ValueView) -> bool {
    match v {
        ValueView::Int(n) => n != 0,
        ValueView::Bool(b) => b,
        ValueView::Str(s) => s.len() > 0,
    }
}

/// The numeric reading of a value; a boolean counts as 0 or 1.
pub open spec fn spec_to_int(v: ValueView) -> i64 {
    match v {
        ValueView::Int(n) => n,
        ValueView::Bool(b) => if b {
            1
        } else {
            0
        },
        ValueView::Str(_) => 0,
    }
}

/// Whether a value is numeric: an integer or a boolean.
pub open spec fn spec_numeric(v: ValueView) -> bool {
    v is Int || v is Bool
}

/// Whether two values can be ordered or compared: two strings, or two
/// numerics.
pub open spec fn spec_comparable(l: ValueView, r: ValueView) -> bool {
    (l is Str && r is Str) || (spec_numeric(l) && spec_numeric(r))
}

/// Two's-complement wrapping negation.
pub open spec fn spec_wrap_neg(a: i64) -> i64 {
    if a == i64::MIN {
        i64::MIN
    } else {
        (-a) as i64
    }
}

/// Truncating division of the magnitudes, signed like Rust's `/`, with the
/// single overflowing case wrapping back to the minimum.
pub open spec fn spec_div_trunc(a: i64, b: i64) -> i64
    recommends
        b != 0,
{
    if a == i64::MIN && b == -1 {
        i64::MIN
    } else {
        let m = (if a >= 0 {
            a as int
        } else {
            -(a as int)
        }) / (if b >= 0 {
            b as int
        } else {
            -(b as int)
        });
        if (a >= 0) == (b >= 0) {
            m as i64
        } else {
            (-m) as i64
        }
    }
}

/// Truncating remainder, signed like Rust's `%`.
pub open spec fn spec_rem_trunc(a: i64, b: i64) -> i64
    recommends
        b != 0,
{
    if a == i64::MIN && b == -1 {
        0
    } else {
        let m = (if a >= 0 {
            a as int
        } else {
            -(a as int)
        }) % (if b >= 0 {
            b as int
        } else {
            -(b as int)
        });
        if a >= 0 {
            m as i64
        } else {
            (-m) as i64
        }
    }
}

fn wrap_neg(a: i64) -> (r: i64)
    ensures
        r == spec_wrap_neg(a),
{
    if a == i64::MIN {
        i64::MIN
    } else {
        -a
    }
}

fn div_trunc(a: i64, b: i64) -> (r: i64)
    requires
        b != 0,
    ensures
        r == spec_div_trunc(a, b),
{
    if a == i64::MIN && b == -1 {
        i64::MIN
    } else {
        let ma: u64 = if a >= 0 {
            a as u64
        } else if a == i64::MIN {
            0x8000000000000000u64
        } else {
            (-a) as u64
        };
        let mb: u64 = if b >= 0 {
            b as u64
        } else if b == i64::MIN {
            0x8000000000000000u64
        } else {
            (-b) as u64
        };
        let m = ma / mb;
        if (a >= 0) == (b >= 0) {
            proof {
                assert(ma < 0x8000000000000000u64 || mb >= 2);
                assert((m as int) < 0x8000000000000000) by (nonlinear_arith)
                    requires
                        m as int == (ma as int) / (mb as int),
                        1 <= mb as int,
                        (ma as int) < 0x8000000000000000 || (mb as int) >= 2,
                        0 <= ma as int <= 0x8000000000000000,
                ;
            }
            if m >= 0x8000000000000000u64 {
                i64::MIN
            } else {
                m as i64
            }
        } else {
            proof {
                assert((m as int) <= (ma as int)) by (nonlinear_arith)
                    requires
                        m as int == (ma as int) / (mb as int),
                        1 <= mb as int,
                        0 <= ma as int,
                ;
            }
            if m >= 0x8000000000000000u64 {
                i64::MIN
            } else {
                -(m as i64)
            }
        }
    }
}

fn rem_trunc(a: i64, b: i64) -> (r: i64)
    requires
        b != 0,
    ensures
        r == spec_rem_trunc(a, b),
{
    if a == i64::MIN && b == -1 {
        0
    } else {
        let ma: u64 = if a >= 0 {
            a as u64
        } else if a == i64::MIN {
            0x8000000000000000u64
        } else {
            (-a) as u64
        };
        let mb: u64 = if b >= 0 {
            b as u64
        } else if b == i64::MIN {
            0x8000000000000000u64
        } else {
            (-b) as u64
        };
        let m = ma % mb;
        if a >= 0 {
            m as i64
        } else {
            proof {
                assert((m as int) <= (ma as int)) by (nonlinear_arith)
                    requires
                        m as int == (ma as int) % (mb as int),
                        1 <= mb as int,
                        0 <= ma as int,
                ;
            }
            if m == 0x8000000000000000u64 {
                i64::MIN
            } else {
                -(m as i64)
            }
        }
    }
}

/// The value of a binary operator on two already-evaluated operands, or the
/// span to report when the operands do not fit the operator.
#[verifier::opaque]
pub open spec fn spec_binop(op: BinOp, l: ValueView, r: ValueView, span: SourceSpan) -> ExprOutcome {
    match op {
        BinOp::Add => if l is Str && r is Str {
            ExprOutcome::Done(ValueView::Str(l->Str_0 + r->Str_0))
        } else if spec_numeric(l) && spec_numeric(r) {
            ExprOutcome::Done(
                ValueView::Int(
                    vstd::wrapping::i64_specs::wrapping_add(spec_to_int(l), spec_to_int(r)),
                ),
            )
        } else {
            ExprOutcome::Fail(span)
        },
        BinOp::Sub => if spec_numeric(l) && spec_numeric(r) {
            ExprOutcome::Done(
                ValueView::Int(
                    vstd::wrapping::i64_specs::wrapping_sub(spec_to_int(l), spec_to_int(r)),
                ),
            )
        } else {
            ExprOutcome::Fail(span)
        },
        BinOp::Mul => if spec_numeric(l) && spec_numeric(r) {
            ExprOutcome::Done(
                ValueView::Int(
                    vstd::wrapping::i64_specs::wrapping_mul(spec_to_int(l), spec_to_int(r)),
                ),
            )
        } else {
            ExprOutcome::Fail(span)
        },
        BinOp::Div => if spec_numeric(l) && spec_numeric(r) {
            if spec_to_int(r) == 0 {
                ExprOutcome::Fail(span)
            } else {
                ExprOutcome::Done(ValueView::Int(spec_div_trunc(spec_to_int(l), spec_to_int(r))))
            }
        } else {
            ExprOutcome::Fail(span)
        },
        BinOp::Mod => if spec_numeric(l) && spec_numeric(r) {
            if spec_to_int(r) == 0 {
                ExprOutcome::Fail(span)
            } else {
                ExprOutcome::Done(ValueView::Int(spec_rem_trunc(spec_to_int(l), spec_to_int(r))))
            }
        } else {
            ExprOutcome::Fail(span)
        },
        BinOp::And => ExprOutcome::Done(ValueView::Bool(spec_truthy(l) && spec_truthy(r))),
        BinOp::Or => ExprOutcome::Done(ValueView::Bool(spec_truthy(l) || spec_truthy(r))),
        BinOp::Eq => if l is Str && r is Str {
            ExprOutcome::Done(ValueView::Bool(l->Str_0 == r->Str_0))
        } else if spec_numeric(l) && spec_numeric(r) {
            ExprOutcome::Done(ValueView::Bool(spec_to_int(l) == spec_to_int(r)))
        } else {
            ExprOutcome::Done(ValueView::Bool(false))
        },
        BinOp::Neq => if l is Str && r is Str {
            ExprOutcome::Done(ValueView::Bool(l->Str_0 != r->Str_0))
        } else if spec_numeric(l) && spec_numeric(r) {
            ExprOutcome::Done(ValueView::Bool(spec_to_int(l) != spec_to_int(r)))
        } else {
            ExprOutcome::Done(ValueView::Bool(true))
        },
        BinOp::Lt => if l is Str && r is Str {
            ExprOutcome::Done(ValueView::Bool(spec_bytes_lt(l->Str_0, r->Str_0)))
        } else if spec_numeric(l) && spec_numeric(r) {
            ExprOutcome::Done(ValueView::Bool(spec_to_int(l) < spec_to_int(r)))
        } else {
            ExprOutcome::Fail(span)
        },
        BinOp::Le => if l is Str && r is Str {
            ExprOutcome::Done(ValueView::Bool(!spec_bytes_lt(r->Str_0, l->Str_0)))
        } else if spec_numeric(l) && spec_numeric(r) {
            ExprOutcome::Done(ValueView::Bool(spec_to_int(l) <= spec_to_int(r)))
        } else {
            ExprOutcome::Fail(span)
        },
        BinOp::Gt => if l is Str && r is Str {
            ExprOutcome::Done(ValueView::Bool(spec_bytes_lt(r->Str_0, l->Str_0)))
        } else if spec_numeric(l) && spec_numeric(r) {
            ExprOutcome::Done(ValueView::Bool(spec_to_int(l) > spec_to_int(r)))
        } else {
            ExprOutcome::Fail(span)
        },
        BinOp::Ge => if l is Str && r is Str {
            ExprOutcome::Done(ValueView::Bool(!spec_bytes_lt(l->Str_0, r->Str_0)))
        } else if spec_numeric(l) && spec_numeric(r) {
            ExprOutcome::Done(ValueView::Bool(spec_to_int(l) >= spec_to_int(r)))
        } else {
            ExprOutcome::Fail(span)
        },
    }
}

/// The log line `print` writes for its arguments: their renderings joined
/// with single spaces.
pub open spec fn spec_print_line(args: Seq<ValueView>) -> Seq<u8>
    decreases args.len(),
{
    if args.len() == 0 {
        Seq::<u8>::empty()
    } else if args.len() == 1 {
        spec_value_text(args[0])
    } else {
        spec_print_line(args.drop_last()) + seq![0x20u8] + spec_value_text(args.last())
    }
}

/// The text of one value: decimal for numbers, `true` / `false` for
/// booleans, the bytes themselves for strings.
pub open spec fn spec_value_text(v: ValueView) -> Seq<u8> {
    match v {
        ValueView::Int(n) => spec_i64_dec(n as int),
        ValueView::Bool(b) => if b {
            "true".spec_bytes()
        } else {
            "false".spec_bytes()
        },
        ValueView::Str(s) => s,
    }
}

/// The touch coordinates of a `tap` or `swipe` argument must fit 32 bits.
pub open spec fn spec_coord_ok(n: i64) -> bool {
    -0x80000000 <= n <= 0x7FFFFFFF
}

/// The spec-level outcome of one built-in call.
pub enum CallOutcome {
    COk(ValueView, Seq<EffectView>),
    CFail,
    CUnknown,
}

/// The points named by the tail of a `swipe` argument list; meaningful when
/// the list is even and all-integers.
pub open spec fn spec_swipe_points(args: Seq<ValueView>) -> Seq<Position>
    decreases args.len(),
{
    if args.len() < 2 {
        Seq::<Position>::empty()
    } else {
        seq![
            Position { x: spec_to_int(args[0]) as i64, y: spec_to_int(args[1]) as i64 },
        ] + spec_swipe_points(args.skip(2))
    }
}

/// Whether the tail of a `swipe` argument list is a well-formed point list:
/// pairs of integers, each within 32 bits.
pub open spec fn spec_swipe_points_ok(args: Seq<ValueView>) -> bool
    decreases args.len(),
{
    if args.len() == 0 {
        true
    } else if args.len() == 1 {
        false
    } else {
        args[0] is Int && args[1] is Int && spec_coord_ok(args[0]->Int_0) && spec_coord_ok(
            args[1]->Int_0,
        ) && spec_swipe_points_ok(args.skip(2))
    }
}

/// What one built-in call evaluates to: its value and the effects it emits,
/// a failure, or "not a built-in".
#[verifier::opaque]
pub open spec fn spec_call(
    name: Seq<u8>,
    args: Seq<ValueView>,
    ctx: ScriptCtx,
) -> CallOutcome {
    if name == "print".spec_bytes() {
        CallOutcome::COk(ValueView::Int(0), seq![EffectView::Log(spec_print_line(args))])
    } else if name == "wait".spec_bytes() {
        if args.len() == 1 && args[0] is Int {
            CallOutcome::COk(
                ValueView::Int(0),
                seq![EffectView::Wait(args[0]->Int_0 as u64)],
            )
        } else {
            CallOutcome::CFail
        }
    } else if name == "tap".spec_bytes() {
        spec_tap_call(args, ctx)
    } else if name == "swipe".spec_bytes() {
        spec_swipe_call(args, ctx)
    } else if name == "send_key".spec_bytes() {
        spec_send_key_call(args)
    } else if name == "paste_text".spec_bytes() {
        if args.len() == 1 && args[0] is Str {
            CallOutcome::COk(ValueView::Int(0), seq![EffectView::Paste(args[0]->Str_0)])
        } else {
            CallOutcome::CFail
        }
    } else {
        CallOutcome::CUnknown
    }
}

/// The `tap` built-in: a press (and for the default action a 30 ms pause
/// and a release) at the given point of the authored canvas.
#[verifier::opaque]
pub open spec fn spec_tap_call(args: Seq<ValueView>, ctx: ScriptCtx) -> CallOutcome {
    if !(args.len() == 3 || args.len() == 4) {
        CallOutcome::CFail
    } else if !(args[0] is Int && args[1] is Int && args[2] is Int) {
        CallOutcome::CFail
    } else if args.len() == 4 && !(args[3] is Str) {
        CallOutcome::CFail
    } else {
        let p = args[0]->Int_0;
        let x = args[1]->Int_0;
        let y = args[2]->Int_0;
        let action = if args.len() == 4 {
            args[3]->Str_0
        } else {
            "default".spec_bytes()
        };
        if p < 0 || !spec_coord_ok(x) || !spec_coord_ok(y) {
            CallOutcome::CFail
        } else {
            let pos = Position { x: x as i64, y: y as i64 };
            if action == "default".spec_bytes() {
                CallOutcome::COk(
                    ValueView::Int(0),
                    seq![
                        EffectView::Send(
                            spec_touch_view(
                                MotionEventAction::Down,
                                p as u64,
                                ctx.original_size,
                                pos,
                            ),
                        ),
                        EffectView::Wait(30),
                        EffectView::Send(
                            spec_touch_view(
                                MotionEventAction::Up,
                                p as u64,
                                ctx.original_size,
                                pos,
                            ),
                        ),
                    ],
                )
            } else if action == "down".spec_bytes() {
                CallOutcome::COk(
                    ValueView::Int(0),
                    seq![
                        EffectView::Send(
                            spec_touch_view(
                                MotionEventAction::Down,
                                p as u64,
                                ctx.original_size,
                                pos,
                            ),
                        ),
                    ],
                )
            } else if action == "up".spec_bytes() {
                CallOutcome::COk(
                    ValueView::Int(0),
                    seq![
                        EffectView::Send(
                            spec_touch_view(
                                MotionEventAction::Up,
                                p as u64,
                                ctx.original_size,
                                pos,
                            ),
                        ),
                    ],
                )
            } else if action == "move".spec_bytes() {
                CallOutcome::COk(
                    ValueView::Int(0),
                    seq![
                        EffectView::Send(
                            spec_touch_view(
                                MotionEventAction::Move,
                                p as u64,
                                ctx.original_size,
                                pos,
                            ),
                        ),
                    ],
                )
            } else {
                CallOutcome::CFail
            }
        }
    }
}

/// The `swipe` built-in: the same plan as a swipe mapping along the given
/// points, with the same easing and timing.
#[verifier::opaque]
pub open spec fn spec_swipe_call(args: Seq<ValueView>, ctx: ScriptCtx) -> CallOutcome {
    if args.len() < 6 || args.len() % 2 != 0 {
        CallOutcome::CFail
    } else if !(args[0] is Int && args[1] is Int) {
        CallOutcome::CFail
    } else if args[0]->Int_0 < 0 || args[1]->Int_0 < 0 {
        CallOutcome::CFail
    } else if !spec_swipe_points_ok(args.skip(2)) {
        CallOutcome::CFail
    } else {
        CallOutcome::COk(
            ValueView::Int(0),
            spec_swipe_effects(
                args[0]->Int_0 as u64,
                ctx.original_size,
                spec_swipe_points(args.skip(2)),
                args[1]->Int_0 as u64,
            ),
        )
    }
}

/// The key event messages of `send_key`: both presses for the default
/// action, one otherwise; the key and the meta state are looked up by name.
#[verifier::opaque]
pub open spec fn spec_send_key_call(args: Seq<ValueView>) -> CallOutcome {
    if args.len() < 1 || args.len() > 3 {
        CallOutcome::CFail
    } else if !(args[0] is Str) {
        CallOutcome::CFail
    } else if args.len() >= 2 && !(args[1] is Str) {
        CallOutcome::CFail
    } else if args.len() >= 3 && !(args[2] is Str) {
        CallOutcome::CFail
    } else {
        let action = if args.len() >= 2 {
            args[1]->Str_0
        } else {
            "default".spec_bytes()
        };
        let meta_name = if args.len() >= 3 {
            args[2]->Str_0
        } else {
            "NONE".spec_bytes()
        };
        if !(action == "default".spec_bytes() || action == "down".spec_bytes() || action
            == "up".spec_bytes()) {
            CallOutcome::CFail
        } else {
            match Keycode::spec_from_name(args[0]->Str_0) {
                Option::None => CallOutcome::CFail,
                Option::Some(kc) => match spec_metastate_from_name(meta_name) {
                    Option::None => CallOutcome::CFail,
                    Option::Some(meta) => {
                        let down = ControlMsgView::InjectKeycode {
                            action: KeyEventAction::Down,
                            keycode: kc.spec_value(),
                            repeat: 0,
                            metastate: meta,
                        };
                        let up = ControlMsgView::InjectKeycode {
                            action: KeyEventAction::Up,
                            keycode: kc.spec_value(),
                            repeat: 0,
                            metastate: meta,
                        };
                        if action == "default".spec_bytes() {
                            CallOutcome::COk(
                                ValueView::Int(0),
                                seq![EffectView::Send(down), EffectView::Send(up)],
                            )
                        } else if action == "down".spec_bytes() {
                            CallOutcome::COk(ValueView::Int(0), seq![EffectView::Send(down)])
                        } else {
                            CallOutcome::COk(ValueView::Int(0), seq![EffectView::Send(up)])
                        }
                    },
                },
            }
        }
    }
}


/// The spec-level outcome of evaluating an argument list.
pub enum ArgsOutcome {
    Done(Seq<ValueView>),
    Fail(SourceSpan),
    Stop,
}

/// The spec-level outcome of an argument list with its effects.
pub struct ArgsEval {
    pub outcome: ArgsOutcome,
    pub effects: Seq<EffectView>,
}

/// The meaning of an expression: its value and the effects its calls emit,
/// or the span of the failure, or exhaustion of the step budget. Expressions
/// never change the environment.
pub open spec fn spec_eval_expr(
    fuel: nat,
    e: Expr,
    env: Map<Seq<u8>, ValueView>,
    ctx: ScriptCtx,
) -> ExprEval
    decreases fuel,
{
    if fuel == 0 {
        ExprEval { outcome: ExprOutcome::Stop, effects: Seq::<EffectView>::empty() }
    } else {
        match e {
            Expr::Number { value, .. } => ExprEval {
                outcome: ExprOutcome::Done(ValueView::Int(value)),
                effects: Seq::<EffectView>::empty(),
            },
            Expr::Str { value, .. } => ExprEval {
                outcome: ExprOutcome::Done(ValueView::Str(value@)),
                effects: Seq::<EffectView>::empty(),
            },
            Expr::Bool { value, .. } => ExprEval {
                outcome: ExprOutcome::Done(ValueView::Bool(value)),
                effects: Seq::<EffectView>::empty(),
            },
            Expr::Var { name, span } => ExprEval {
                outcome: if env.contains_key(name@) {
                    ExprOutcome::Done(env[name@])
                } else {
                    ExprOutcome::Fail(span)
                },
                effects: Seq::<EffectView>::empty(),
            },
            Expr::Unary { op, rhs, span } => {
                let r = spec_eval_expr((fuel - 1) as nat, *rhs, env, ctx);
                match r.outcome {
                    ExprOutcome::Done(v) => ExprEval {
                        outcome: match op {
                            UnaryOp::Plus => if spec_numeric(v) {
                                ExprOutcome::Done(ValueView::Int(spec_to_int(v)))
                            } else {
                                ExprOutcome::Fail(span)
                            },
                            UnaryOp::Minus => if spec_numeric(v) {
                                ExprOutcome::Done(ValueView::Int(spec_wrap_neg(spec_to_int(v))))
                            } else {
                                ExprOutcome::Fail(span)
                            },
                            UnaryOp::Not => ExprOutcome::Done(ValueView::Bool(!spec_truthy(v))),
                        },
                        effects: r.effects,
                    },
                    _ => r,
                }
            },
            Expr::Binary { lhs, op, rhs, span } => {
                let l = spec_eval_expr((fuel - 1) as nat, *lhs, env, ctx);
                match l.outcome {
                    ExprOutcome::Done(lv) => {
                        let r = spec_eval_expr((fuel - 1) as nat, *rhs, env, ctx);
                        match r.outcome {
                            ExprOutcome::Done(rv) => ExprEval {
                                outcome: spec_binop(op, lv, rv, span),
                                effects: l.effects + r.effects,
                            },
                            _ => ExprEval {
                                outcome: r.outcome,
                                effects: l.effects + r.effects,
                            },
                        }
                    },
                    _ => l,
                }
            },
            Expr::Call { name, args, span } => {
                let a = spec_eval_args((fuel - 1) as nat, args@, 0, env, ctx);
                match a.outcome {
                    ArgsOutcome::Done(vals) => match spec_call(name@, vals, ctx) {
                        CallOutcome::COk(v, eff) => ExprEval {
                            outcome: ExprOutcome::Done(v),
                            effects: a.effects + eff,
                        },
                        _ => ExprEval { outcome: ExprOutcome::Fail(span), effects: a.effects },
                    },
                    ArgsOutcome::Fail(sp) => ExprEval {
                        outcome: ExprOutcome::Fail(sp),
                        effects: a.effects,
                    },
                    ArgsOutcome::Stop => ExprEval {
                        outcome: ExprOutcome::Stop,
                        effects: a.effects,
                    },
                }
            },
        }
    }
}

/// The meaning of the arguments from index `i` on: their values in order
/// and their accumulated effects.
pub open spec fn spec_eval_args(
    fuel: nat,
    args: Seq<Expr>,
    i: int,
    env: Map<Seq<u8>, ValueView>,
    ctx: ScriptCtx,
) -> ArgsEval
    decreases fuel,
{
    if fuel == 0 {
        ArgsEval { outcome: ArgsOutcome::Stop, effects: Seq::<EffectView>::empty() }
    } else if i < 0 || i >= args.len() {
        ArgsEval {
            outcome: ArgsOutcome::Done(Seq::<ValueView>::empty()),
            effects: Seq::<EffectView>::empty(),
        }
    } else {
        let first = spec_eval_expr((fuel - 1) as nat, args[i], env, ctx);
        match first.outcome {
            ExprOutcome::Done(v) => {
                let rest = spec_eval_args((fuel - 1) as nat, args, i + 1, env, ctx);
                match rest.outcome {
                    ArgsOutcome::Done(vs) => ArgsEval {
                        outcome: ArgsOutcome::Done(seq![v] + vs),
                        effects: first.effects + rest.effects,
                    },
                    _ => ArgsEval {
                        outcome: rest.outcome,
                        effects: first.effects + rest.effects,
                    },
                }
            },
            ExprOutcome::Fail(sp) => ArgsEval {
                outcome: ArgsOutcome::Fail(sp),
                effects: first.effects,
            },
            ExprOutcome::Stop => ArgsEval { outcome: ArgsOutcome::Stop, effects: first.effects },
        }
    }
}

/// The meaning of a statement: the environment it leaves behind and the
/// effects it emits; a failure carries its span, and a spent budget stops
/// evaluation.
pub open spec fn spec_eval_stmt(
    fuel: nat,
    s: Stmt,
    env: Map<Seq<u8>, ValueView>,
    ctx: ScriptCtx,
) -> StmtEval
    decreases fuel,
{
    if fuel == 0 {
        StmtEval { outcome: ExprOutcome::Stop, env, effects: Seq::<EffectView>::empty() }
    } else {
        match s {
            Stmt::Let { name, expr, span } => {
                let r = spec_eval_expr((fuel - 1) as nat, expr, env, ctx);
                match r.outcome {
                    ExprOutcome::Done(v) => StmtEval {
                        outcome: ExprOutcome::Done(ValueView::Int(0)),
                        env: env.insert(name@, v),
                        effects: r.effects,
                    },
                    _ => StmtEval { outcome: r.outcome, env, effects: r.effects },
                }
            },
            Stmt::Assign { name, expr, span } => {
                let r = spec_eval_expr((fuel - 1) as nat, expr, env, ctx);
                match r.outcome {
                    ExprOutcome::Done(v) => if env.contains_key(name@) {
                        StmtEval {
                            outcome: ExprOutcome::Done(ValueView::Int(0)),
                            env: env.insert(name@, v),
                            effects: r.effects,
                        }
                    } else {
                        StmtEval { outcome: ExprOutcome::Fail(span), env, effects: r.effects }
                    },
                    _ => StmtEval { outcome: r.outcome, env, effects: r.effects },
                }
            },
            Stmt::Expr { expr, .. } => {
                let r = spec_eval_expr((fuel - 1) as nat, expr, env, ctx);
                match r.outcome {
                    ExprOutcome::Done(_) => StmtEval {
                        outcome: ExprOutcome::Done(ValueView::Int(0)),
                        env,
                        effects: r.effects,
                    },
                    _ => StmtEval { outcome: r.outcome, env, effects: r.effects },
                }
            },
            Stmt::Block { stmts, .. } => spec_eval_block((fuel - 1) as nat, stmts@, 0, env, ctx),
            Stmt::If { condition, then_block, else_block, span } => {
                let c = spec_eval_expr((fuel - 1) as nat, condition, env, ctx);
                match c.outcome {
                    ExprOutcome::Done(v) => if spec_truthy(v) {
                        let b = spec_eval_stmt((fuel - 1) as nat, *then_block, env, ctx);
                        StmtEval {
                            outcome: b.outcome,
                            env: b.env,
                            effects: c.effects + b.effects,
                        }
                    } else {
                        match else_block {
                            Option::Some(eb) => {
                                let b = spec_eval_stmt((fuel - 1) as nat, *eb, env, ctx);
                                StmtEval {
                                    outcome: b.outcome,
                                    env: b.env,
                                    effects: c.effects + b.effects,
                                }
                            },
                            Option::None => StmtEval {
                                outcome: ExprOutcome::Done(ValueView::Int(0)),
                                env,
                                effects: c.effects,
                            },
                        }
                    },
                    _ => StmtEval { outcome: c.outcome, env, effects: c.effects },
                }
            },
            Stmt::While { condition, body, span } => {
                let c = spec_eval_expr((fuel - 1) as nat, condition, env, ctx);
                match c.outcome {
                    ExprOutcome::Done(v) => if !spec_truthy(v) {
                        StmtEval {
                            outcome: ExprOutcome::Done(ValueView::Int(0)),
                            env,
                            effects: c.effects,
                        }
                    } else {
                        let b = spec_eval_stmt((fuel - 1) as nat, *body, env, ctx);
                        match b.outcome {
                            ExprOutcome::Done(_) => {
                                let rest = spec_eval_stmt((fuel - 1) as nat, s, b.env, ctx);
                                StmtEval {
                                    outcome: rest.outcome,
                                    env: rest.env,
                                    effects: c.effects + b.effects + rest.effects,
                                }
                            },
                            _ => StmtEval {
                                outcome: b.outcome,
                                env: b.env,
                                effects: c.effects + b.effects,
                            },
                        }
                    },
                    _ => StmtEval { outcome: c.outcome, env, effects: c.effects },
                }
            },
            Stmt::Error { span } => StmtEval {
                outcome: ExprOutcome::Fail(span),
                env,
                effects: Seq::<EffectView>::empty(),
            },
        }
    }
}

/// The meaning of the statements from index `i` on, threaded through the
/// environment.
pub open spec fn spec_eval_block(
    fuel: nat,
    stmts: Seq<Stmt>,
    i: int,
    env: Map<Seq<u8>, ValueView>,
    ctx: ScriptCtx,
) -> StmtEval
    decreases fuel,
{
    if fuel == 0 {
        StmtEval { outcome: ExprOutcome::Stop, env, effects: Seq::<EffectView>::empty() }
    } else if i < 0 || i >= stmts.len() {
        StmtEval {
            outcome: ExprOutcome::Done(ValueView::Int(0)),
            env,
            effects: Seq::<EffectView>::empty(),
        }
    } else {
        let first = spec_eval_stmt((fuel - 1) as nat, stmts[i], env, ctx);
        match first.outcome {
            ExprOutcome::Done(_) => {
                let rest = spec_eval_block((fuel - 1) as nat, stmts, i + 1, first.env, ctx);
                StmtEval {
                    outcome: rest.outcome,
                    env: rest.env,
                    effects: first.effects + rest.effects,
                }
            },
            _ => first,
        }
    }
}


/// The views of a list of values.
pub open spec fn values_view(s: Seq<Value>) -> Seq<ValueView> {
    Seq::new(s.len(), |i: int| s[i]@)
}

proof fn lemma_swipe_ok_even(v: Seq<ValueView>)
    requires
        spec_swipe_points_ok(v),
    ensures
        v.len() % 2 == 0,
    decreases v.len(),
{
    if v.len() >= 2 {
        lemma_swipe_ok_even(v.skip(2));
    }
}

proof fn lemma_swipe_args_ok(v: Seq<ValueView>, k: int)
    requires
        spec_swipe_points_ok(v),
        0 <= k,
        2 * k < v.len(),
    ensures
        v.len() % 2 == 0,
        v[2 * k] is Int && v[2 * k + 1] is Int,
        spec_coord_ok(v[2 * k]->Int_0) && spec_coord_ok(v[2 * k + 1]->Int_0),
    decreases k,
{
    lemma_swipe_ok_even(v);
    if k > 0 {
        lemma_swipe_args_ok(v.skip(2), k - 1);
        assert(v.skip(2)[2 * (k - 1)] == v[2 * k]);
        assert(v.skip(2)[2 * (k - 1) + 1] == v[2 * k + 1]);
    }
}

proof fn lemma_swipe_args_ok_all(v: Seq<ValueView>)
    requires
        v.len() % 2 == 0,
        forall|k: int|
            0 <= k && 2 * k < v.len() ==> (#[trigger] v[2 * k]) is Int && v[2 * k + 1] is Int
                && spec_coord_ok(v[2 * k]->Int_0) && spec_coord_ok(v[2 * k + 1]->Int_0),
    ensures
        spec_swipe_points_ok(v),
    decreases v.len(),
{
    if v.len() >= 2 {
        let z: int = 0;
        assert(v[2 * z] is Int && v[2 * z + 1] is Int && spec_coord_ok(v[2 * z]->Int_0)
            && spec_coord_ok(v[2 * z + 1]->Int_0));
        assert forall|k: int| 0 <= k && 2 * k < v.skip(2).len() implies (#[trigger] v.skip(2)[2
            * k]) is Int && v.skip(2)[2 * k + 1] is Int && spec_coord_ok(v.skip(2)[2 * k]->Int_0)
            && spec_coord_ok(v.skip(2)[2 * k + 1]->Int_0) by {
            assert(v.skip(2)[2 * k] == v[2 * (k + 1)]);
            assert(v.skip(2)[2 * k + 1] == v[2 * (k + 1) + 1]);
            assert(v[2 * (k + 1)] is Int && v[2 * (k + 1) + 1] is Int && spec_coord_ok(
                v[2 * (k + 1)]->Int_0,
            ) && spec_coord_ok(v[2 * (k + 1) + 1]->Int_0));
        }
        lemma_swipe_args_ok_all(v.skip(2));
    }
}

proof fn lemma_swipe_points_shape(v: Seq<ValueView>)
    requires
        v.len() % 2 == 0,
    ensures
        spec_swipe_points(v).len() == v.len() / 2,
        forall|k: int|
            0 <= k < v.len() / 2 ==> #[trigger] spec_swipe_points(v)[k] == (Position {
                x: spec_to_int(v[2 * k]) as i64,
                y: spec_to_int(v[2 * k + 1]) as i64,
            }),
    decreases v.len(),
{
    if v.len() >= 2 {
        lemma_swipe_points_shape(v.skip(2));
        assert forall|k: int| 0 <= k < v.len() / 2 implies #[trigger] spec_swipe_points(v)[k]
            == (Position {
            x: spec_to_int(v[2 * k]) as i64,
            y: spec_to_int(v[2 * k + 1]) as i64,
        }) by {
            if k > 0 {
                assert(spec_swipe_points(v)[k] == spec_swipe_points(v.skip(2))[k - 1]);
                assert(v.skip(2)[2 * (k - 1)] == v[2 * k]);
                assert(v.skip(2)[2 * (k - 1) + 1] == v[2 * k + 1]);
            }
        }
    }
}

fn value_text(v: &Value) -> (r: Vec<u8>)
    ensures
        r@ == spec_value_text(v@),
{
    match v {
        Value::Int(n) => i64_dec(*n),
        Value::Bool(b) => {
            if *b {
                "true".as_bytes_vec()
            } else {
                "false".as_bytes_vec()
            }
        },
        Value::Str(s) => clone_bytes(s),
    }
}

fn print_line(vals: &Vec<Value>) -> (r: Vec<u8>)
    ensures
        r@ == spec_print_line(values_view(vals@)),
{
    let n = vals.len();
    let mut line: Vec<u8> = Vec::new();
    let mut i: usize = 0;
    proof {
        assert(values_view(vals@).take(0int) =~= Seq::<ValueView>::empty());
    }
    while i < n
        invariant
            i <= n,
            n == vals@.len(),
            line@ == spec_print_line(values_view(vals@).take(i as int)),
        decreases n - i,
    {
        if i > 0 {
            line.push(0x20);
        }
        let mut t = value_text(&vals[i]);
        line.append(&mut t);
        proof {
            let vv = values_view(vals@);
            assert(vv.take(i as int + 1).drop_last() =~= vv.take(i as int));
            assert(vv.take(i as int + 1).last() == vals@[i as int]@);
            if i == 0 {
                assert(line@ =~= spec_print_line(vv.take(i as int + 1)));
            } else {
                assert(line@ =~= spec_print_line(vv.take(i as int + 1)));
            }
        }
        i = i + 1;
    }
    proof {
        assert(values_view(vals@).take(n as int) =~= values_view(vals@));
    }
    line
}

fn fail(span: SourceSpan, source: &str, message: &str) -> (r: EvalStop)
    ensures
        r matches EvalStop::Error(e) && e.span == span,
{
    EvalStop::Error(ScriptError::from_span(span, source, message.to_owned()))
}

fn call_builtin(
    name: &Vec<u8>,
    vals: &Vec<Value>,
    ctx: ScriptCtx,
    span: SourceSpan,
    source: &str,
    out: &mut Vec<Effect>,
) -> (r: Result<Value, EvalStop>)
    ensures
        match spec_call(name@, values_view(vals@), ctx) {
            CallOutcome::COk(v, eff) => r matches Ok(rv) && rv@ == v && effects_view(final(out)@)
                == effects_view(old(out)@) + eff,
            _ => (r matches Err(EvalStop::Error(e)) && e.span == span) && final(out)@ == old(
                out,
            )@,
        },
{
    proof {
        reveal(spec_call);
    }
    let ghost vv = values_view(vals@);
    if bytes_is_str(name, "print") {
        let line = print_line(vals);
        out.push(Effect::Log(line));
        proof {
            assert(effects_view(out@) =~= effects_view(old(out)@) + seq![
                EffectView::Log(spec_print_line(vv)),
            ]);
        }
        Ok(Value::Int(0))
    } else if bytes_is_str(name, "wait") {
        if vals.len() != 1 {
            return Err(fail(span, source, "the wait function takes one integer argument"));
        }
        let ms = match &vals[0] {
            Value::Int(n) => *n,
            _ => {
                return Err(fail(span, source, "the wait function takes one integer argument"));
            },
        };
        out.push(Effect::Wait(ms as u64));
        proof {
            assert(effects_view(out@) =~= effects_view(old(out)@) + seq![
                EffectView::Wait(vv[0]->Int_0 as u64),
            ]);
        }
        Ok(Value::Int(0))
    } else if bytes_is_str(name, "tap") {
        call_tap(vals, ctx, span, source, out)
    } else if bytes_is_str(name, "swipe") {
        call_swipe(vals, ctx, span, source, out)
    } else if bytes_is_str(name, "send_key") {
        call_send_key(vals, span, source, out)
    } else if bytes_is_str(name, "paste_text") {
        if vals.len() != 1 {
            return Err(fail(span, source, "the paste_text function takes one string argument"));
        }
        let text = match &vals[0] {
            Value::Str(s) => clone_bytes(s),
            _ => {
                return Err(
                    fail(span, source, "the paste_text function takes one string argument"),
                );
            },
        };
        out.push(Effect::Paste(text));
        proof {
            assert(effects_view(out@) =~= effects_view(old(out)@) + seq![
                EffectView::Paste(vv[0]->Str_0),
            ]);
        }
        Ok(Value::Int(0))
    } else {
        Err(fail(span, source, "unknown function"))
    }
}

fn bytes_is_str(b: &Vec<u8>, s: &str) -> (r: bool)
    ensures
        r == (b@ == s.spec_bytes()),
{
    let sb = s.as_bytes();
    if b.len() != sb.len() {
        proof {
            assert(b@ != s.spec_bytes());
        }
        return false;
    }
    let n = b.len();
    let mut i: usize = 0;
    while i < n
        invariant
            i <= n,
            n == b@.len() == sb@.len(),
            sb@ == s.spec_bytes(),
            forall|k: int| 0 <= k < i ==> b@[k] == sb@[k],
        decreases n - i,
    {
        if b[i] != *vstd::slice::slice_index_get(sb, i) {
            return false;
        }
        i = i + 1;
    }
    proof {
        assert(b@ =~= s.spec_bytes());
    }
    true
}

fn call_tap(
    vals: &Vec<Value>,
    ctx: ScriptCtx,
    span: SourceSpan,
    source: &str,
    out: &mut Vec<Effect>,
) -> (r: Result<Value, EvalStop>)
    ensures
        match spec_tap_call(values_view(vals@), ctx) {
            CallOutcome::COk(v, eff) => r matches Ok(rv) && rv@ == v && effects_view(final(out)@)
                == effects_view(old(out)@) + eff,
            _ => (r matches Err(EvalStop::Error(e)) && e.span == span) && final(out)@ == old(
                out,
            )@,
        },
{
    proof {
        reveal(spec_tap_call);
    }
    let ghost vv = values_view(vals@);
    let msg = "the tap function takes pointer_id, x, y and an optional action";
    if !(vals.len() == 3 || vals.len() == 4) {
        return Err(fail(span, source, msg));
    }
    let p = match &vals[0] {
        Value::Int(n) => *n,
        _ => { return Err(fail(span, source, msg)); },
    };
    let x = match &vals[1] {
        Value::Int(n) => *n,
        _ => { return Err(fail(span, source, msg)); },
    };
    let y = match &vals[2] {
        Value::Int(n) => *n,
        _ => { return Err(fail(span, source, msg)); },
    };
    let mut action: Vec<u8> = "default".as_bytes_vec();
    if vals.len() == 4 {
        match &vals[3] {
            Value::Str(s) => { action = clone_bytes(s); },
            _ => { return Err(fail(span, source, msg)); },
        }
    }
    if p < 0 || x < -0x80000000 || x > 0x7FFFFFFF || y < -0x80000000 || y > 0x7FFFFFFF {
        return Err(fail(span, source, "tap arguments out of range"));
    }
    let pos = Position { x, y };
    if bytes_is_str(&action, "default") {
        out.push(
            Effect::Send(touch_msg(MotionEventAction::Down, p as u64, ctx.original_size, pos)),
        );
        out.push(Effect::Wait(30));
        out.push(Effect::Send(touch_msg(MotionEventAction::Up, p as u64, ctx.original_size, pos)));
        proof {
            assert(effects_view(out@) =~= effects_view(old(out)@) + seq![
                EffectView::Send(
                    spec_touch_view(MotionEventAction::Down, p as u64, ctx.original_size, pos),
                ),
                EffectView::Wait(30),
                EffectView::Send(
                    spec_touch_view(MotionEventAction::Up, p as u64, ctx.original_size, pos),
                ),
            ]);
        }
        Ok(Value::Int(0))
    } else if bytes_is_str(&action, "down") {
        out.push(
            Effect::Send(touch_msg(MotionEventAction::Down, p as u64, ctx.original_size, pos)),
        );
        proof {
            assert(effects_view(out@) =~= effects_view(old(out)@) + seq![
                EffectView::Send(
                    spec_touch_view(MotionEventAction::Down, p as u64, ctx.original_size, pos),
                ),
            ]);
        }
        Ok(Value::Int(0))
    } else if bytes_is_str(&action, "up") {
        out.push(Effect::Send(touch_msg(MotionEventAction::Up, p as u64, ctx.original_size, pos)));
        proof {
            assert(effects_view(out@) =~= effects_view(old(out)@) + seq![
                EffectView::Send(
                    spec_touch_view(MotionEventAction::Up, p as u64, ctx.original_size, pos),
                ),
            ]);
        }
        Ok(Value::Int(0))
    } else if bytes_is_str(&action, "move") {
        out.push(
            Effect::Send(touch_msg(MotionEventAction::Move, p as u64, ctx.original_size, pos)),
        );
        proof {
            assert(effects_view(out@) =~= effects_view(old(out)@) + seq![
                EffectView::Send(
                    spec_touch_view(MotionEventAction::Move, p as u64, ctx.original_size, pos),
                ),
            ]);
        }
        Ok(Value::Int(0))
    } else {
        Err(fail(span, source, "tap action must be default, down, up or move"))
    }
}

#[verifier::rlimit(100)]
#[verifier::spinoff_prover]
fn parse_swipe_points(vals: &Vec<Value>) -> (r: Result<Vec<Position>, ()>)
    requires
        vals@.len() >= 6,
        vals@.len() % 2 == 0,
    ensures
        match r {
            Ok(points) => spec_swipe_points_ok(values_view(vals@).skip(2)) && points@
                == spec_swipe_points(values_view(vals@).skip(2)) && spec_points_in_range(points@)
                && points@.len() > 0,
            Err(_) => !spec_swipe_points_ok(values_view(vals@).skip(2)),
        },
{
    let ghost vv = values_view(vals@);
    let ghost tail = vv.skip(2);
    let n = vals.len();
    let mut points: Vec<Position> = Vec::new();
    let mut j: usize = 2;
    while j < n
        invariant
            2 <= j <= n,
            j % 2 == 0,
            n % 2 == 0,
            6 <= n == vals@.len(),
            vv == values_view(vals@),
            tail == vv.skip(2),
            points@.len() == (j - 2) / 2,
            forall|k: int|
                0 <= k && 2 * k + 2 < j ==> (#[trigger] tail[2 * k]) is Int && tail[2 * k
                    + 1] is Int && spec_coord_ok(tail[2 * k]->Int_0) && spec_coord_ok(
                    tail[2 * k + 1]->Int_0,
                ),
            forall|k: int|
                0 <= k < points@.len() ==> (#[trigger] points@[k]) == (Position {
                    x: spec_to_int(tail[2 * k]) as i64,
                    y: spec_to_int(tail[2 * k + 1]) as i64,
                }) && -0x80000000 <= points@[k].x <= 0x7FFFFFFF && -0x80000000 <= points@[k].y
                    <= 0x7FFFFFFF,
        decreases n - j,
    {
        let ghost kk = (j - 2) as int / 2;
        proof {
            assert(tail[2 * kk] == vv[j as int]);
            assert(tail[2 * kk + 1] == vv[j as int + 1]);
        }
        let x = match &vals[j] {
            Value::Int(v) => *v,
            _ => {
                proof {
                    if spec_swipe_points_ok(tail) {
                        lemma_swipe_args_ok(tail, kk);
                    }
                }
                return Err(());
            },
        };
        let y = match &vals[j + 1] {
            Value::Int(v) => *v,
            _ => {
                proof {
                    if spec_swipe_points_ok(tail) {
                        lemma_swipe_args_ok(tail, kk);
                    }
                }
                return Err(());
            },
        };
        if x < -0x80000000 || x > 0x7FFFFFFF || y < -0x80000000 || y > 0x7FFFFFFF {
            proof {
                if spec_swipe_points_ok(tail) {
                    lemma_swipe_args_ok(tail, kk);
                }
            }
            return Err(());
        }
        points.push(Position { x, y });
        j = j + 2;
    }
    proof {
        assert(tail.len() == n - 2);
        assert forall|k: int| 0 <= k && 2 * k < tail.len() implies (#[trigger] tail[2 * k]) is Int
            && tail[2 * k + 1] is Int && spec_coord_ok(tail[2 * k]->Int_0) && spec_coord_ok(
            tail[2 * k + 1]->Int_0,
        ) by {
            assert(2 * k + 2 < j || 2 * k + 2 == j);
            if 2 * k + 2 == j {
                assert(2 * k < tail.len() && j == n);
                assert(false);
            }
        }
        lemma_swipe_args_ok_all(tail);
        lemma_swipe_points_shape(tail);
        assert(points@ =~= spec_swipe_points(tail));
        assert(spec_points_in_range(points@));
    }
    Ok(points)
}

fn call_swipe(
    vals: &Vec<Value>,
    ctx: ScriptCtx,
    span: SourceSpan,
    source: &str,
    out: &mut Vec<Effect>,
) -> (r: Result<Value, EvalStop>)
    ensures
        match spec_swipe_call(values_view(vals@), ctx) {
            CallOutcome::COk(v, eff) => r matches Ok(rv) && rv@ == v && effects_view(final(out)@)
                == effects_view(old(out)@) + eff,
            _ => (r matches Err(EvalStop::Error(e)) && e.span == span) && final(out)@ == old(
                out,
            )@,
        },
{
    proof {
        reveal(spec_swipe_call);
    }
    let msg = "the swipe function takes pointer_id, interval and at least two points";
    let n = vals.len();
    if n < 6 || n % 2 != 0 {
        return Err(fail(span, source, msg));
    }
    let p = match &vals[0] {
        Value::Int(v) => *v,
        _ => { return Err(fail(span, source, msg)); },
    };
    let interval = match &vals[1] {
        Value::Int(v) => *v,
        _ => { return Err(fail(span, source, msg)); },
    };
    if p < 0 || interval < 0 {
        return Err(fail(span, source, "pointer_id and interval must be non-negative"));
    }
    let points = match parse_swipe_points(vals) {
        Ok(points) => points,
        Err(_) => { return Err(fail(span, source, "swipe points must be integer pairs")); },
    };
    push_swipe_effects(p as u64, ctx.original_size, &points, interval as u64, out);
    Ok(Value::Int(0))
}

#[verifier::rlimit(100)]
#[verifier::spinoff_prover]
fn call_send_key(
    vals: &Vec<Value>,
    span: SourceSpan,
    source: &str,
    out: &mut Vec<Effect>,
) -> (r: Result<Value, EvalStop>)
    ensures
        match spec_send_key_call(values_view(vals@)) {
            CallOutcome::COk(v, eff) => r matches Ok(rv) && rv@ == v && effects_view(final(out)@)
                == effects_view(old(out)@) + eff,
            _ => (r matches Err(EvalStop::Error(e)) && e.span == span) && final(out)@ == old(
                out,
            )@,
        },
{
    proof {
        reveal(spec_send_key_call);
    }
    let ghost vv = values_view(vals@);
    let msg = "the send_key function takes a key name, an optional action and a meta state";
    if vals.len() < 1 || vals.len() > 3 {
        return Err(fail(span, source, msg));
    }
    let key_name = match &vals[0] {
        Value::Str(s) => clone_bytes(s),
        _ => { return Err(fail(span, source, msg)); },
    };
    let mut action: Vec<u8> = "default".as_bytes_vec();
    if vals.len() >= 2 {
        match &vals[1] {
            Value::Str(s) => { action = clone_bytes(s); },
            _ => { return Err(fail(span, source, msg)); },
        }
    }
    let mut meta_name: Vec<u8> = "NONE".as_bytes_vec();
    if vals.len() >= 3 {
        match &vals[2] {
            Value::Str(s) => { meta_name = clone_bytes(s); },
            _ => { return Err(fail(span, source, msg)); },
        }
    }
    let is_default = bytes_is_str(&action, "default");
    let is_down = bytes_is_str(&action, "down");
    let is_up = bytes_is_str(&action, "up");
    if !(is_default || is_down || is_up) {
        return Err(fail(span, source, "the action must be default, down or up"));
    }
    let kc = match Keycode::from_name(&key_name) {
        Some(kc) => kc,
        None => { return Err(fail(span, source, "unknown key name")); },
    };
    let meta = match metastate_from_name(&meta_name) {
        Some(m) => m,
        None => { return Err(fail(span, source, "unknown meta state name")); },
    };
    let down = ScrcpyControlMsg::InjectKeycode {
        action: KeyEventAction::Down,
        keycode: kc.value(),
        repeat: 0,
        metastate: meta,
    };
    let up = ScrcpyControlMsg::InjectKeycode {
        action: KeyEventAction::Up,
        keycode: kc.value(),
        repeat: 0,
        metastate: meta,
    };
    if is_default {
        out.push(Effect::Send(down));
        out.push(Effect::Send(up));
        proof {
            assert(effects_view(out@) =~= effects_view(old(out)@)
                + spec_send_key_call(vv)->COk_1);
        }
    } else if is_down {
        out.push(Effect::Send(down));
        proof {
            assert(effects_view(out@) =~= effects_view(old(out)@)
                + spec_send_key_call(vv)->COk_1);
        }
    } else {
        out.push(Effect::Send(up));
        proof {
            assert(effects_view(out@) =~= effects_view(old(out)@)
                + spec_send_key_call(vv)->COk_1);
        }
    }
    Ok(Value::Int(0))
}


#[verifier::rlimit(100)]
#[verifier::spinoff_prover]
fn eval_expr(
    fuel: u64,
    e: &Expr,
    env: &Env,
    ctx: ScriptCtx,
    source: &str,
    out: &mut Vec<Effect>,
) -> (r: Result<Value, EvalStop>)
    ensures
        ({
            let se = spec_eval_expr(fuel as nat, *e, env@, ctx);
            &&& effects_view(final(out)@) == effects_view(old(out)@) + se.effects
            &&& match r {
                Ok(v) => se.outcome == ExprOutcome::Done(v@),
                Err(EvalStop::Error(err)) => se.outcome == ExprOutcome::Fail(err.span),
                Err(EvalStop::OutOfFuel) => se.outcome is Stop,
            }
        }),
    decreases fuel,
{
    proof {
        assert(effects_view(out@) =~= effects_view(out@) + Seq::<EffectView>::empty());
    }
    if fuel == 0 {
        return Err(EvalStop::OutOfFuel);
    }
    match e {
        Expr::Number { value, .. } => Ok(Value::Int(*value)),
        Expr::Str { value, .. } => Ok(Value::Str(clone_bytes(value))),
        Expr::Bool { value, .. } => Ok(Value::Bool(*value)),
        Expr::Var { name, span } => match env.get(name) {
            Some(v) => Ok(clone_value(v)),
            None => Err(fail(*span, source, "variable not defined")),
        },
        Expr::Unary { op, rhs, span } => {
            let v = eval_expr(fuel - 1, rhs, env, ctx, source, out)?;
            match op {
                UnaryOp::Plus => match &v {
                    Value::Int(n) => Ok(Value::Int(*n)),
                    Value::Bool(b) => Ok(Value::Int(if *b {
                        1
                    } else {
                        0
                    })),
                    _ => Err(fail(*span, source, "unary plus needs a number")),
                },
                UnaryOp::Minus => match &v {
                    Value::Int(n) => Ok(Value::Int(wrap_neg(*n))),
                    Value::Bool(b) => Ok(Value::Int(wrap_neg(if *b {
                        1
                    } else {
                        0
                    }))),
                    _ => Err(fail(*span, source, "unary minus needs a number")),
                },
                UnaryOp::Not => {
                    let t = truthy(&v);
                    Ok(Value::Bool(!t))
                },
            }
        },
        Expr::Binary { lhs, op, rhs, span } => {
            let lv = eval_expr(fuel - 1, lhs, env, ctx, source, out)?;
            let rv = match eval_expr(fuel - 1, rhs, env, ctx, source, out) {
                Ok(rv) => rv,
                Err(stop) => {
                    return Err(stop);
                },
            };
            apply_binop(*op, &lv, &rv, *span, source)
        },
        Expr::Call { name, args, span } => {
            let mut vals: Vec<Value> = Vec::new();
            match eval_args(fuel - 1, args, 0, env, ctx, source, out, &mut vals) {
                Ok(()) => {},
                Err(stop) => {
                    return Err(stop);
                },
            }
            call_builtin(name, &vals, ctx, *span, source, out)
        },
    }
}

fn truthy(v: &Value) -> (r: bool)
    ensures
        r == spec_truthy(v@),
{
    match v {
        Value::Int(n) => *n != 0,
        Value::Bool(b) => *b,
        Value::Str(s) => s.len() > 0,
    }
}

fn to_int(v: &Value) -> (r: i64)
    requires
        spec_numeric(v@),
    ensures
        r == spec_to_int(v@),
{
    match v {
        Value::Int(n) => *n,
        Value::Bool(b) => if *b {
            1
        } else {
            0
        },
        Value::Str(_) => 0,
    }
}

fn apply_binop(op: BinOp, l: &Value, r: &Value, span: SourceSpan, source: &str) -> (res: Result<
    Value,
    EvalStop,
>)
    ensures
        match spec_binop(op, l@, r@, span) {
            ExprOutcome::Done(v) => res matches Ok(rv) && rv@ == v,
            ExprOutcome::Fail(sp) => res matches Err(EvalStop::Error(e)) && e.span == sp,
            ExprOutcome::Stop => false,
        },
{
    proof {
        reveal(spec_binop);
    }
    let l_str = match l {
        Value::Str(_) => true,
        _ => false,
    };
    let r_str = match r {
        Value::Str(_) => true,
        _ => false,
    };
    match op {
        BinOp::Add => {
            if l_str && r_str {
                let mut s = match l {
                    Value::Str(a) => clone_bytes(a),
                    _ => Vec::new(),
                };
                let mut t = match r {
                    Value::Str(b) => clone_bytes(b),
                    _ => Vec::new(),
                };
                s.append(&mut t);
                Ok(Value::Str(s))
            } else if !l_str && !r_str {
                Ok(Value::Int(to_int(l).wrapping_add(to_int(r))))
            } else {
                Err(fail(span, source, "these values cannot be added"))
            }
        },
        BinOp::Sub => {
            if !l_str && !r_str {
                Ok(Value::Int(to_int(l).wrapping_sub(to_int(r))))
            } else {
                Err(fail(span, source, "these values cannot be subtracted"))
            }
        },
        BinOp::Mul => {
            if !l_str && !r_str {
                Ok(Value::Int(to_int(l).wrapping_mul(to_int(r))))
            } else {
                Err(fail(span, source, "these values cannot be multiplied"))
            }
        },
        BinOp::Div => {
            if !l_str && !r_str {
                let d = to_int(r);
                if d == 0 {
                    Err(fail(span, source, "division by zero"))
                } else {
                    Ok(Value::Int(div_trunc(to_int(l), d)))
                }
            } else {
                Err(fail(span, source, "these values cannot be divided"))
            }
        },
        BinOp::Mod => {
            if !l_str && !r_str {
                let d = to_int(r);
                if d == 0 {
                    Err(fail(span, source, "modulo by zero"))
                } else {
                    Ok(Value::Int(rem_trunc(to_int(l), d)))
                }
            } else {
                Err(fail(span, source, "these values cannot be reduced modulo"))
            }
        },
        BinOp::And => Ok(Value::Bool(truthy(l) && truthy(r))),
        BinOp::Or => Ok(Value::Bool(truthy(l) || truthy(r))),
        BinOp::Eq => {
            if l_str && r_str {
                match (l, r) {
                    (Value::Str(a), Value::Str(b)) => Ok(Value::Bool(bytes_eq(a, b))),
                    _ => Err(fail(span, source, "these values cannot be compared")),
                }
            } else if !l_str && !r_str {
                Ok(Value::Bool(to_int(l) == to_int(r)))
            } else {
                Ok(Value::Bool(false))
            }
        },
        BinOp::Neq => {
            if l_str && r_str {
                match (l, r) {
                    (Value::Str(a), Value::Str(b)) => Ok(Value::Bool(!bytes_eq(a, b))),
                    _ => Err(fail(span, source, "these values cannot be compared")),
                }
            } else if !l_str && !r_str {
                Ok(Value::Bool(to_int(l) != to_int(r)))
            } else {
                Ok(Value::Bool(true))
            }
        },
        BinOp::Lt => {
            if l_str && r_str {
                match (l, r) {
                    (Value::Str(a), Value::Str(b)) => Ok(Value::Bool(bytes_lt(a, b))),
                    _ => Err(fail(span, source, "these values cannot be ordered")),
                }
            } else if !l_str && !r_str {
                Ok(Value::Bool(to_int(l) < to_int(r)))
            } else {
                Err(fail(span, source, "these values cannot be ordered"))
            }
        },
        BinOp::Le => {
            if l_str && r_str {
                match (l, r) {
                    (Value::Str(a), Value::Str(b)) => Ok(Value::Bool(!bytes_lt(b, a))),
                    _ => Err(fail(span, source, "these values cannot be ordered")),
                }
            } else if !l_str && !r_str {
                Ok(Value::Bool(to_int(l) <= to_int(r)))
            } else {
                Err(fail(span, source, "these values cannot be ordered"))
            }
        },
        BinOp::Gt => {
            if l_str && r_str {
                match (l, r) {
                    (Value::Str(a), Value::Str(b)) => Ok(Value::Bool(bytes_lt(b, a))),
                    _ => Err(fail(span, source, "these values cannot be ordered")),
                }
            } else if !l_str && !r_str {
                Ok(Value::Bool(to_int(l) > to_int(r)))
            } else {
                Err(fail(span, source, "these values cannot be ordered"))
            }
        },
        BinOp::Ge => {
            if l_str && r_str {
                match (l, r) {
                    (Value::Str(a), Value::Str(b)) => Ok(Value::Bool(!bytes_lt(a, b))),
                    _ => Err(fail(span, source, "these values cannot be ordered")),
                }
            } else if !l_str && !r_str {
                Ok(Value::Bool(to_int(l) >= to_int(r)))
            } else {
                Err(fail(span, source, "these values cannot be ordered"))
            }
        },
    }
}

#[verifier::rlimit(100)]
#[verifier::spinoff_prover]
fn eval_args(
    fuel: u64,
    args: &Vec<Expr>,
    i: usize,
    env: &Env,
    ctx: ScriptCtx,
    source: &str,
    out: &mut Vec<Effect>,
    vals: &mut Vec<Value>,
) -> (r: Result<(), EvalStop>)
    requires
        i <= args@.len(),
    ensures
        ({
            let se = spec_eval_args(fuel as nat, args@, i as int, env@, ctx);
            &&& effects_view(final(out)@) == effects_view(old(out)@) + se.effects
            &&& match r {
                Ok(()) => se.outcome matches ArgsOutcome::Done(vs) && values_view(final(vals)@)
                    == values_view(old(vals)@) + vs,
                Err(EvalStop::Error(err)) => se.outcome == ArgsOutcome::Fail(err.span),
                Err(EvalStop::OutOfFuel) => se.outcome is Stop,
            }
        }),
    decreases fuel,
{
    proof {
        assert(effects_view(out@) =~= effects_view(out@) + Seq::<EffectView>::empty());
    }
    if fuel == 0 {
        return Err(EvalStop::OutOfFuel);
    }
    if i >= args.len() {
        proof {
            assert(values_view(vals@) =~= values_view(vals@) + Seq::<ValueView>::empty());
        }
        return Ok(());
    }
    let ghost first = spec_eval_expr((fuel - 1) as nat, args@[i as int], env@, ctx);
    let ghost eff0 = effects_view(out@);
    let v = eval_expr(fuel - 1, &args[i], env, ctx, source, out)?;
    let ghost mid_vals = vals@;
    vals.push(v);
    proof {
        assert(values_view(vals@) =~= values_view(mid_vals) + seq![vals@.last()@]);
    }
    let ghost eff1 = effects_view(out@);
    match eval_args(fuel - 1, args, i + 1, env, ctx, source, out, vals) {
        Ok(()) => {
            proof {
                let rest = spec_eval_args((fuel - 1) as nat, args@, i as int + 1, env@, ctx);
                assert(eff1 == eff0 + first.effects);
                assert(effects_view(out@) == eff1 + rest.effects);
                assert(effects_view(out@) =~= eff0 + (first.effects + rest.effects));
                assert(values_view(vals@) =~= values_view(old(vals)@) + (seq![
                    mid_vals.push(v).last()@,
                ] + rest.outcome->Done_0));
            }
            Ok(())
        },
        Err(stop) => {
            proof {
                let rest = spec_eval_args((fuel - 1) as nat, args@, i as int + 1, env@, ctx);
                assert(effects_view(out@) =~= eff0 + (first.effects + rest.effects));
            }
            Err(stop)
        },
    }
}


#[verifier::rlimit(100)]
#[verifier::spinoff_prover]
fn eval_stmt(
    fuel: u64,
    s: &Stmt,
    env: &mut Env,
    ctx: ScriptCtx,
    source: &str,
    out: &mut Vec<Effect>,
) -> (r: Result<(), EvalStop>)
    ensures
        ({
            let se = spec_eval_stmt(fuel as nat, *s, old(env)@, ctx);
            &&& effects_view(final(out)@) == effects_view(old(out)@) + se.effects
            &&& match r {
                Ok(()) => se.outcome is Done && final(env)@ == se.env,
                Err(EvalStop::Error(err)) => se.outcome == ExprOutcome::Fail(err.span),
                Err(EvalStop::OutOfFuel) => se.outcome is Stop,
            }
        }),
    decreases fuel, 1int,
{
    proof {
        assert(effects_view(out@) =~= effects_view(out@) + Seq::<EffectView>::empty());
    }
    if fuel == 0 {
        return Err(EvalStop::OutOfFuel);
    }
    match s {
        Stmt::Let { name, expr, span } => {
            let v = eval_expr(fuel - 1, expr, env, ctx, source, out)?;
            env.set(clone_bytes(name), v);
            Ok(())
        },
        Stmt::Assign { name, expr, span } => {
            let v = eval_expr(fuel - 1, expr, env, ctx, source, out)?;
            let known = match env.get(name) {
                Some(_) => true,
                None => false,
            };
            if known {
                env.set(clone_bytes(name), v);
                Ok(())
            } else {
                Err(fail(*span, source, "variable not defined"))
            }
        },
        Stmt::Expr { expr, .. } => {
            let v = eval_expr(fuel - 1, expr, env, ctx, source, out)?;
            Ok(())
        },
        Stmt::Block { stmts, .. } => eval_block(fuel - 1, stmts, 0, env, ctx, source, out),
        Stmt::If { .. } => eval_if(fuel, s, env, ctx, source, out),
        Stmt::While { .. } => eval_while(fuel, s, env, ctx, source, out),
        Stmt::Error { span } => Err(fail(*span, source, "this statement did not parse")),
    }
}

#[verifier::rlimit(100)]
#[verifier::spinoff_prover]
fn eval_if(
    fuel: u64,
    s: &Stmt,
    env: &mut Env,
    ctx: ScriptCtx,
    source: &str,
    out: &mut Vec<Effect>,
) -> (r: Result<(), EvalStop>)
    requires
        fuel >= 1,
        s is If,
    ensures
        ({
            let se = spec_eval_stmt(fuel as nat, *s, old(env)@, ctx);
            &&& effects_view(final(out)@) == effects_view(old(out)@) + se.effects
            &&& match r {
                Ok(()) => se.outcome is Done && final(env)@ == se.env,
                Err(EvalStop::Error(err)) => se.outcome == ExprOutcome::Fail(err.span),
                Err(EvalStop::OutOfFuel) => se.outcome is Stop,
            }
        }),
    decreases fuel, 0int,
{
    proof {
        assert(effects_view(out@) =~= effects_view(out@) + Seq::<EffectView>::empty());
    }
    match s {
        Stmt::If { condition, then_block, else_block, span } => {
            let ghost eff0 = effects_view(out@);
            let ghost c_spec = spec_eval_expr((fuel - 1) as nat, *condition, old(env)@, ctx);
            let c = eval_expr(fuel - 1, condition, env, ctx, source, out)?;
            if truthy(&c) {
                let r = eval_stmt(fuel - 1, then_block, env, ctx, source, out);
                proof {
                    let b = spec_eval_stmt((fuel - 1) as nat, **then_block, old(env)@, ctx);
                    assert(effects_view(out@) =~= eff0 + (c_spec.effects + b.effects));
                }
                r
            } else {
                match else_block {
                    Some(eb) => {
                        let r = eval_stmt(fuel - 1, eb, env, ctx, source, out);
                        proof {
                            let b = spec_eval_stmt((fuel - 1) as nat, **eb, old(env)@, ctx);
                            assert(effects_view(out@) =~= eff0 + (c_spec.effects + b.effects));
                        }
                        r
                    },
                    None => Ok(()),
                }
            }
        },
        _ => Err(EvalStop::OutOfFuel),
    }
}

#[verifier::rlimit(100)]
#[verifier::spinoff_prover]
fn eval_while(
    fuel: u64,
    s: &Stmt,
    env: &mut Env,
    ctx: ScriptCtx,
    source: &str,
    out: &mut Vec<Effect>,
) -> (r: Result<(), EvalStop>)
    requires
        fuel >= 1,
        s is While,
    ensures
        ({
            let se = spec_eval_stmt(fuel as nat, *s, old(env)@, ctx);
            &&& effects_view(final(out)@) == effects_view(old(out)@) + se.effects
            &&& match r {
                Ok(()) => se.outcome is Done && final(env)@ == se.env,
                Err(EvalStop::Error(err)) => se.outcome == ExprOutcome::Fail(err.span),
                Err(EvalStop::OutOfFuel) => se.outcome is Stop,
            }
        }),
    decreases fuel, 0int,
{
    proof {
        assert(effects_view(out@) =~= effects_view(out@) + Seq::<EffectView>::empty());
    }
    match s {
        Stmt::While { condition, body, span } => {
            let ghost eff0 = effects_view(out@);
            let ghost c_spec = spec_eval_expr((fuel - 1) as nat, *condition, old(env)@, ctx);
            let c = eval_expr(fuel - 1, condition, env, ctx, source, out)?;
            if !truthy(&c) {
                Ok(())
            } else {
                let ghost b_spec = spec_eval_stmt((fuel - 1) as nat, **body, old(env)@, ctx);
                match eval_stmt(fuel - 1, body, env, ctx, source, out) {
                    Ok(()) => {
                        let ghost mid_env = env@;
                        let r = eval_stmt(fuel - 1, s, env, ctx, source, out);
                        proof {
                            let rest = spec_eval_stmt((fuel - 1) as nat, *s, mid_env, ctx);
                            assert(effects_view(out@) =~= eff0 + (c_spec.effects + b_spec.effects
                                + rest.effects));
                        }
                        r
                    },
                    Err(stop) => {
                        proof {
                            assert(effects_view(out@) =~= eff0 + (c_spec.effects
                                + b_spec.effects));
                        }
                        Err(stop)
                    },
                }
            }
        },
        _ => Err(EvalStop::OutOfFuel),
    }
}

#[verifier::rlimit(100)]
#[verifier::spinoff_prover]
fn eval_block(
    fuel: u64,
    stmts: &Vec<Stmt>,
    i: usize,
    env: &mut Env,
    ctx: ScriptCtx,
    source: &str,
    out: &mut Vec<Effect>,
) -> (r: Result<(), EvalStop>)
    requires
        i <= stmts@.len(),
    ensures
        ({
            let se = spec_eval_block(fuel as nat, stmts@, i as int, old(env)@, ctx);
            &&& effects_view(final(out)@) == effects_view(old(out)@) + se.effects
            &&& match r {
                Ok(()) => se.outcome is Done && final(env)@ == se.env,
                Err(EvalStop::Error(err)) => se.outcome == ExprOutcome::Fail(err.span),
                Err(EvalStop::OutOfFuel) => se.outcome is Stop,
            }
        }),
    decreases fuel,
{
    proof {
        assert(effects_view(out@) =~= effects_view(out@) + Seq::<EffectView>::empty());
    }
    if fuel == 0 {
        return Err(EvalStop::OutOfFuel);
    }
    if i >= stmts.len() {
        return Ok(());
    }
    match eval_stmt(fuel - 1, &stmts[i], env, ctx, source, out) {
        Ok(()) => eval_block(fuel - 1, stmts, i + 1, env, ctx, source, out),
        Err(stop) => Err(stop),
    }
}

/// The preset bindings every run starts with: the authored canvas size and
/// the cursor position at invocation time.
pub open spec fn spec_preset_env(ctx: ScriptCtx) -> Map<Seq<u8>, ValueView> {
    Map::<Seq<u8>, ValueView>::empty().insert(
        "ORIGINAL_W".spec_bytes(),
        ValueView::Int(ctx.original_size.width as i64),
    ).insert("ORIGINAL_H".spec_bytes(), ValueView::Int(ctx.original_size.height as i64)).insert(
        "CURSOR_X".spec_bytes(),
        ValueView::Int(ctx.cursor_x),
    ).insert("CURSOR_Y".spec_bytes(), ValueView::Int(ctx.cursor_y))
}

impl ScriptAST {
    /// Runs the script under a step budget, appending everything it emits to
    /// `out`. The meaning of the run is `spec_eval_block` over the parsed
    /// statements, started from the preset bindings; effects emitted before
    /// a failure stay in `out`.
    pub fn eval_script(&self, ctx: ScriptCtx, fuel: u64, out: &mut Vec<Effect>) -> (r: Result<
        (),
        EvalStop,
    >)
        ensures
            self.empty ==> r is Ok && final(out)@ == old(out)@,
            !self.empty ==> ({
                let se = spec_eval_block(
                    fuel as nat,
                    self.program.stmts@,
                    0,
                    spec_preset_env(ctx),
                    ctx,
                );
                &&& effects_view(final(out)@) == effects_view(old(out)@) + se.effects
                &&& match r {
                    Ok(()) => se.outcome is Done,
                    Err(EvalStop::Error(err)) => se.outcome == ExprOutcome::Fail(err.span),
                    Err(EvalStop::OutOfFuel) => se.outcome is Stop,
                }
            }),
    {
        if self.empty {
            return Ok(());
        }
        let mut env = Env::new();
        env.set("ORIGINAL_W".as_bytes_vec(), Value::Int(self_w(ctx)));
        env.set("ORIGINAL_H".as_bytes_vec(), Value::Int(self_h(ctx)));
        env.set("CURSOR_X".as_bytes_vec(), Value::Int(ctx.cursor_x));
        env.set("CURSOR_Y".as_bytes_vec(), Value::Int(ctx.cursor_y));
        proof {
            assert(env@ == spec_preset_env(ctx));
        }
        eval_block(fuel, &self.program.stmts, 0, &mut env, ctx, self.script.as_str(), out)
    }
}

fn self_w(ctx: ScriptCtx) -> (r: i64)
    ensures
        r == ctx.original_size.width as i64,
{
    ctx.original_size.width as i64
}

fn self_h(ctx: ScriptCtx) -> (r: i64)
    ensures
        r == ctx.original_size.height as i64,
{
    ctx.original_size.height as i64
}


/// The script built-in `swipe` emits exactly the plan of a swipe mapping
/// with the same pointer, points and interval on the same canvas: the two
/// paths share one plan, easing and timing included.
pub proof fn lemma_script_swipe_matches_mapping(
    args: Seq<ValueView>,
    ctx: ScriptCtx,
    m: crate::mapping_config::MappingSwipe,
)
    requires
        args.len() >= 6,
        args.len() % 2 == 0,
        args[0] is Int && args[1] is Int,
        args[0]->Int_0 >= 0,
        args[1]->Int_0 >= 0,
        spec_swipe_points_ok(args.skip(2)),
        m.pointer_id == args[0]->Int_0 as u64,
        m.interval == args[1]->Int_0 as u64,
        m.positions@ == spec_swipe_points(args.skip(2)),
    ensures
        spec_swipe_call(args, ctx) == CallOutcome::COk(
            ValueView::Int(0),
            spec_swipe_effects(m.pointer_id, ctx.original_size, m.positions@, m.interval),
        ),
{
    reveal(spec_swipe_call);
}

} // verus!
