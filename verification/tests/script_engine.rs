//! The script engine: parsing, evaluation, its built-ins and its errors.

use scrcpy_mask::effect::{Effect, Size};
use scrcpy_mask::mapping_config::MappingSwipe;
use scrcpy_mask::mapping_engine::swipe_plan;
use scrcpy_mask::script_eval::ScriptCtx;
use scrcpy_mask::script_helper::ScriptAST;
use scrcpy_mask::control_msg::ScrcpyControlMsg;

const FUEL: u64 = 100000;

fn ctx() -> ScriptCtx {
    ScriptCtx {
        original_size: Size {
            width: 2560,
            height: 1440,
        },
        cursor_x: 10,
        cursor_y: 20,
    }
}

#[test]
fn print_logs_three() {
    let ast = ScriptAST::new("let x = 1 + 2; print(x);").unwrap();
    let mut out: Vec<Effect> = Vec::new();
    ast.eval_script(ctx(), FUEL, &mut out).unwrap();
    assert_eq!(out.len(), 1);
    match &out[0] {
        Effect::Log(line) => assert_eq!(line, b"3"),
        _ => panic!("expected a log line"),
    }
}

#[test]
fn division_by_zero_has_the_spanning_error() {
    let ast = ScriptAST::new("1 / 0;").unwrap();
    let mut out: Vec<Effect> = Vec::new();
    let err = ast.eval_script(ctx(), FUEL, &mut out).unwrap_err();
    match err {
        scrcpy_mask::script_eval::EvalStop::Error(e) => {
            // The span covers the whole `1 / 0` expression.
            assert_eq!(e.span.start_line, 1);
            assert_eq!(e.span.start_col, 1);
            assert_eq!(e.span.end_line, 1);
            assert_eq!(e.span.end_col, 6);
        }
        _ => panic!("expected a runtime error"),
    }
}

#[test]
fn send_key_default_is_down_then_up() {
    let ast = ScriptAST::new("send_key(\"A\", \"default\");").unwrap();
    let mut out: Vec<Effect> = Vec::new();
    ast.eval_script(ctx(), FUEL, &mut out).unwrap();
    assert_eq!(out.len(), 2);
    match &out[0] {
        Effect::Send(ScrcpyControlMsg::InjectKeycode {
            action,
            keycode,
            repeat,
            metastate,
        }) => {
            assert_eq!(
                *action,
                scrcpy_mask::constant::KeyEventAction::Down
            );
            assert_eq!(*keycode, 29); // the Android keycode of A
            assert_eq!(*repeat, 0);
            assert_eq!(*metastate, 0); // NONE
        }
        _ => panic!("expected a key press"),
    }
    match &out[1] {
        Effect::Send(ScrcpyControlMsg::InjectKeycode { action, .. }) => {
            assert_eq!(*action, scrcpy_mask::constant::KeyEventAction::Up);
        }
        _ => panic!("expected a key release"),
    }
}

#[test]
fn send_key_metastate_names() {
    let ast = ScriptAST::new("send_key(\"V\", \"down\", \"CTRL_ON|SHIFT_ON\");").unwrap();
    let mut out: Vec<Effect> = Vec::new();
    ast.eval_script(ctx(), FUEL, &mut out).unwrap();
    assert_eq!(out.len(), 1);
    match &out[0] {
        Effect::Send(ScrcpyControlMsg::InjectKeycode { metastate, .. }) => {
            assert_eq!(*metastate, 0x1001);
        }
        _ => panic!("expected a key press"),
    }
}

#[test]
fn script_swipe_matches_swipe_mapping() {
    let ast = ScriptAST::new("swipe(0, 100, 0,0, 100,0);").unwrap();
    let mut from_script: Vec<Effect> = Vec::new();
    ast.eval_script(ctx(), FUEL, &mut from_script).unwrap();

    let mapping = MappingSwipe {
        note: String::new(),
        pointer_id: 0,
        positions: vec![
            scrcpy_mask::effect::Position { x: 0, y: 0 },
            scrcpy_mask::effect::Position { x: 100, y: 0 },
        ],
        interval: 100,
        bind: scrcpy_mask::mapping_config::ButtonBinding::new(vec![]),
    };
    let from_mapping = swipe_plan(&mapping, ctx().original_size);

    assert_eq!(format!("{:?}", from_script), format!("{:?}", from_mapping));
}

#[test]
fn swipe_two_points_has_down_four_moves_up() {
    // interval 100 and a 25 ms step floor give 4 eased moves per segment.
    let mapping = MappingSwipe {
        note: String::new(),
        pointer_id: 7,
        positions: vec![
            scrcpy_mask::effect::Position { x: 0, y: 0 },
            scrcpy_mask::effect::Position { x: 100, y: 0 },
        ],
        interval: 100,
        bind: scrcpy_mask::mapping_config::ButtonBinding::new(vec![]),
    };
    let plan = swipe_plan(&mapping, ctx().original_size);
    // Down, then 4 (Move, Wait) pairs, then Up.
    assert_eq!(plan.len(), 1 + 8 + 1);
    match &plan[0] {
        Effect::Send(ScrcpyControlMsg::InjectTouchEvent { action, x, y, .. }) => {
            assert_eq!(*action, scrcpy_mask::constant::MotionEventAction::Down);
            assert_eq!((*x, *y), (0, 0));
        }
        _ => panic!("expected the press"),
    }
    let mut move_xs: Vec<i32> = Vec::new();
    for k in 0..4 {
        match &plan[1 + 2 * k] {
            Effect::Send(ScrcpyControlMsg::InjectTouchEvent { action, x, .. }) => {
                assert_eq!(*action, scrcpy_mask::constant::MotionEventAction::Move);
                move_xs.push(*x);
            }
            _ => panic!("expected a move"),
        }
        match &plan[2 + 2 * k] {
            Effect::Wait(ms) => assert_eq!(*ms, 25),
            _ => panic!("expected a pause"),
        }
    }
    // The eased x positions climb monotonically toward the far end.
    assert!(move_xs[0] < move_xs[1] && move_xs[1] < move_xs[2] && move_xs[2] < move_xs[3]);
    match &plan[9] {
        Effect::Send(ScrcpyControlMsg::InjectTouchEvent { action, x, .. }) => {
            assert_eq!(*action, scrcpy_mask::constant::MotionEventAction::Up);
            assert_eq!(*x, 100);
        }
        _ => panic!("expected the release"),
    }
}

#[test]
fn while_loops_and_assignment() {
    let ast = ScriptAST::new("let i = 0; while i < 3 { print(i); i = i + 1; }").unwrap();
    let mut out: Vec<Effect> = Vec::new();
    ast.eval_script(ctx(), FUEL, &mut out).unwrap();
    let lines: Vec<&[u8]> = out
        .iter()
        .map(|e| match e {
            Effect::Log(l) => l.as_slice(),
            _ => panic!("expected only log lines"),
        })
        .collect();
    assert_eq!(lines, vec![b"0".as_slice(), b"1".as_slice(), b"2".as_slice()]);
}

#[test]
fn endless_loop_runs_out_of_budget() {
    let ast = ScriptAST::new("while true { }").unwrap();
    let mut out: Vec<Effect> = Vec::new();
    let err = ast.eval_script(ctx(), 1000, &mut out).unwrap_err();
    assert!(matches!(err, scrcpy_mask::script_eval::EvalStop::OutOfFuel));
}

#[test]
fn preset_variables_are_bound() {
    let ast = ScriptAST::new("print(ORIGINAL_W, ORIGINAL_H, CURSOR_X, CURSOR_Y);").unwrap();
    let mut out: Vec<Effect> = Vec::new();
    ast.eval_script(ctx(), FUEL, &mut out).unwrap();
    match &out[0] {
        Effect::Log(line) => assert_eq!(line, b"2560 1440 10 20"),
        _ => panic!("expected a log line"),
    }
}

#[test]
fn undefined_variable_is_an_error() {
    let ast = ScriptAST::new("print(nope);").unwrap();
    let mut out: Vec<Effect> = Vec::new();
    assert!(ast.eval_script(ctx(), FUEL, &mut out).is_err());
}

#[test]
fn parse_error_is_reported() {
    assert!(ScriptAST::new("let = ;").is_err());
    assert!(ScriptAST::new("1 +").is_err());
    assert!(ScriptAST::new("\"unterminated").is_err());
}

#[test]
fn empty_script_does_nothing() {
    let ast = ScriptAST::new("").unwrap();
    assert!(ast.empty);
    let mut out: Vec<Effect> = Vec::new();
    ast.eval_script(ctx(), FUEL, &mut out).unwrap();
    assert!(out.is_empty());
}

#[test]
fn tap_and_paste_and_wait() {
    let ast = ScriptAST::new("tap(3, 5, 6, \"down\"); wait(40); paste_text(\"hi\");").unwrap();
    let mut out: Vec<Effect> = Vec::new();
    ast.eval_script(ctx(), FUEL, &mut out).unwrap();
    assert_eq!(out.len(), 3);
    match &out[0] {
        Effect::Send(ScrcpyControlMsg::InjectTouchEvent {
            action,
            pointer_id,
            x,
            y,
            w,
            h,
            pressure,
            ..
        }) => {
            assert_eq!(*action, scrcpy_mask::constant::MotionEventAction::Down);
            assert_eq!(*pointer_id, 3);
            assert_eq!((*x, *y), (5, 6));
            assert_eq!((*w, *h), (2560, 1440));
            assert_eq!(*pressure, 0xFFFF);
        }
        _ => panic!("expected a touch"),
    }
    assert!(matches!(out[1], Effect::Wait(40)));
    match &out[2] {
        Effect::Paste(text) => assert_eq!(text, b"hi"),
        _ => panic!("expected a clipboard paste"),
    }
}

#[test]
fn string_operations() {
    let ast =
        ScriptAST::new("let a = \"ab\" + \"cd\"; if a == \"abcd\" { print(\"y\"); } if \"a\" < \"b\" { print(a); }")
            .unwrap();
    let mut out: Vec<Effect> = Vec::new();
    ast.eval_script(ctx(), FUEL, &mut out).unwrap();
    assert_eq!(out.len(), 2);
    match &out[1] {
        Effect::Log(line) => assert_eq!(line, b"abcd"),
        _ => panic!("expected a log line"),
    }
}
