//! The session registry, name parsing, id generation, media framing, the
//! mapping planners and the configuration validator.

use scrcpy_mask::constant::MotionEventAction;
use scrcpy_mask::control_msg::ScrcpyControlMsg;
use scrcpy_mask::effect::{Effect, Position, Size};
use scrcpy_mask::keymap::{get_keycode, metastate_from_name, HostKey, Keycode};
use scrcpy_mask::mapping_config::{
    default_mapping_config, validate_mapping_config, ButtonBinding, CanvasSize, MappingConfig,
    MappingMultipleTap, MappingMultipleTapItem, MappingSingleTap, MappingSwipe, MappingType,
};
use scrcpy_mask::mapping_engine::{
    multiple_tap_plan, repeat_tap_tick, scale_direction, single_tap_press, single_tap_release,
};
use scrcpy_mask::media::{parse_packet_header, parse_stream_header, PacketMerger, VideoCodec, VideoPacket};
use scrcpy_mask::session::{gen_scid, parse_device_name, DeviceRegistry, ScreenSize, ScrcpyDevice, ClientInfo};
use scrcpy_mask::web::is_safe_file_name;
use scrcpy_mask::command::{ControlMsgType, ScrcpyMaskCmdType};

fn size() -> Size {
    Size {
        width: 1080,
        height: 1920,
    }
}

fn bind() -> ButtonBinding {
    ButtonBinding::new(vec!["KeyK".to_string()])
}

#[test]
fn single_tap_sync_press_then_release() {
    let m = MappingSingleTap {
        position: Position { x: 40, y: 60 },
        note: String::new(),
        pointer_id: 2,
        duration: 50,
        sync: true,
        bind: bind(),
    };
    let press = single_tap_press(&m, size());
    assert_eq!(press.len(), 1);
    match &press[0] {
        Effect::Send(ScrcpyControlMsg::InjectTouchEvent { action, x, y, .. }) => {
            assert_eq!(*action, MotionEventAction::Down);
            assert_eq!((*x, *y), (40, 60));
        }
        _ => panic!("expected the press"),
    }
    let release = single_tap_release(&m, size());
    assert_eq!(release.len(), 1);
    match &release[0] {
        Effect::Send(ScrcpyControlMsg::InjectTouchEvent { action, x, y, .. }) => {
            assert_eq!(*action, MotionEventAction::Up);
            assert_eq!((*x, *y), (40, 60));
        }
        _ => panic!("expected the release"),
    }
}

#[test]
fn single_tap_timed_holds_then_releases() {
    let m = MappingSingleTap {
        position: Position { x: 1, y: 2 },
        note: String::new(),
        pointer_id: 2,
        duration: 80,
        sync: false,
        bind: bind(),
    };
    let plan = single_tap_press(&m, size());
    assert_eq!(plan.len(), 3);
    assert!(matches!(plan[1], Effect::Wait(80)));
}

#[test]
fn repeat_tap_tick_is_down_wait_up() {
    let m = scrcpy_mask::mapping_config::MappingRepeatTap {
        position: Position { x: 9, y: 9 },
        note: String::new(),
        pointer_id: 4,
        duration: 17,
        interval: 100,
        bind: bind(),
    };
    let plan = repeat_tap_tick(&m, size());
    assert_eq!(plan.len(), 3);
    assert!(matches!(plan[1], Effect::Wait(17)));
}

#[test]
fn multiple_tap_runs_items_in_order() {
    let items = vec![
        MappingMultipleTapItem {
            position: Position { x: 1, y: 1 },
            duration: 10,
            wait: 5,
        },
        MappingMultipleTapItem {
            position: Position { x: 2, y: 2 },
            duration: 20,
            wait: 15,
        },
    ];
    let plan = multiple_tap_plan(&items, 3, size());
    assert_eq!(plan.len(), 8);
    assert!(matches!(plan[0], Effect::Wait(5)));
    assert!(matches!(plan[4], Effect::Wait(15)));
    match &plan[5] {
        Effect::Send(ScrcpyControlMsg::InjectTouchEvent { x, y, .. }) => {
            assert_eq!((*x, *y), (2, 2))
        }
        _ => panic!("expected the second press"),
    }
}

#[test]
fn direction_pad_scaling() {
    // Pressing "up" alone: the full offset along the y semi-axis.
    assert_eq!(scale_direction(0, -1000, 200, 300), (0, -300));
    // A diagonal is clamped to the ellipse along the input ray.
    let (x, y) = scale_direction(1000, 1000, 200, 200);
    // The unit diagonal meets the circle of radius 200 near (141, 141).
    assert!((140..=142).contains(&x));
    assert!((140..=142).contains(&y));
    // Inside the unit square the state scales linearly.
    assert_eq!(scale_direction(500, 0, 200, 300), (100, 0));
    assert_eq!(scale_direction(0, 0, 200, 300), (0, 0));
}

#[test]
fn keycode_tables() {
    assert_eq!(get_keycode(HostKey::Enter), Keycode::Enter);
    assert_eq!(Keycode::Enter.value(), 66);
    assert_eq!(get_keycode(HostKey::KeyA), Keycode::A);
    assert_eq!(Keycode::from_name(&b"A".to_vec()), Some(Keycode::A));
    assert_eq!(Keycode::from_name(&b"NoSuchKey".to_vec()), None);
    assert_eq!(metastate_from_name(&b"NONE".to_vec()), Some(0));
    assert_eq!(
        metastate_from_name(&b"CTRL_ON|SHIFT_ON".to_vec()),
        Some(0x1001)
    );
    assert_eq!(metastate_from_name(&b"BOGUS_ON".to_vec()), None);
}

#[test]
fn registry_keeps_one_main_device() {
    let mut reg = DeviceRegistry::new();
    reg.add_device(ScrcpyDevice::new(
        "emulator-5554".to_string(),
        "10111111".to_string(),
        true,
        vec!["main_control".to_string()],
    ));
    reg.add_device(ScrcpyDevice::new(
        "emulator-5556".to_string(),
        "10222222".to_string(),
        false,
        vec![],
    ));
    assert_eq!(reg.len(), 2);
    assert!(reg.is_scid_controlled(&"10111111".to_string()));
    assert!(!reg.is_scid_controlled(&"10333333".to_string()));
    assert_eq!(reg.main_device_index(), Some(0));
    reg.update_device_name(&"10111111".to_string(), "Pixel".to_string());
    assert_eq!(reg.get(0).name, "Pixel");
    reg.update_device_size(
        &"10111111".to_string(),
        ScreenSize {
            width: 1080,
            height: 1920,
        },
    );
    assert_eq!(reg.get(0).device_size.width, 1080);
    reg.remove_device(&"10111111".to_string());
    assert_eq!(reg.len(), 1);
    assert!(!reg.is_scid_controlled(&"10111111".to_string()));
    assert_eq!(reg.main_device_index(), None);
}

#[test]
fn scid_shape() {
    for _ in 0..20 {
        let scid = gen_scid();
        assert_eq!(scid.len(), 8);
        assert!(scid.starts_with("10"));
        for c in scid[2..].chars() {
            assert!(('1'..='9').contains(&c));
        }
    }
}

#[test]
fn device_name_parsing() {
    let mut buf = b"Pixel 7".to_vec();
    buf.extend_from_slice(&[0, 0, 0]);
    assert_eq!(parse_device_name(&buf).unwrap(), "Pixel 7");
    assert!(parse_device_name(&vec![0xFF, 0xFE]).is_none());
    assert_eq!(parse_device_name(&vec![0, 0]).unwrap(), "");
}

#[test]
fn client_info_tracks_size() {
    let mut info = ClientInfo::new(
        "Pixel".to_string(),
        "emulator-5554".to_string(),
        "10111111".to_string(),
    );
    assert_eq!(info.width, 0);
    info.set_size(1080, 1920);
    assert_eq!((info.width, info.height), (1080, 1920));
}

#[test]
fn video_header_and_packets() {
    // "h264" tag, 1920 x 1080.
    let buf = vec![
        0x68, 0x32, 0x36, 0x34, 0x00, 0x00, 0x07, 0x80, 0x00, 0x00, 0x04, 0x38,
    ];
    let h = parse_stream_header(&buf).unwrap();
    assert_eq!(h.codec, VideoCodec::H264);
    assert_eq!((h.width, h.height), (1920, 1080));
    assert!(h.codec.must_merge_config());
    assert!(!VideoCodec::AV1.must_merge_config());
    assert!(parse_stream_header(&vec![0; 12]).is_none());

    // Config packet: top bit set.
    let mut hdr = vec![0x80, 0, 0, 0, 0, 0, 0, 0];
    hdr.extend_from_slice(&[0, 0, 0, 5]);
    let ph = parse_packet_header(&hdr);
    assert_eq!(ph.pts, None);
    assert_eq!(ph.size, 5);

    // Keyframe packet with pts 7.
    let mut hdr = vec![0x40, 0, 0, 0, 0, 0, 0, 7];
    hdr.extend_from_slice(&[0, 0, 0, 2]);
    let ph = parse_packet_header(&hdr);
    assert_eq!(ph.pts, Some(7));
    assert!(ph.keyframe);
}

#[test]
fn packet_merger_prepends_config() {
    let mut merger = PacketMerger::new();
    let mut config = VideoPacket {
        pts: None,
        keyframe: false,
        data: vec![1, 2, 3],
    };
    merger.merge(&mut config);
    let mut frame = VideoPacket {
        pts: Some(9),
        keyframe: true,
        data: vec![4, 5],
    };
    merger.merge(&mut frame);
    assert_eq!(frame.data, vec![1, 2, 3, 4, 5]);
    // The config is spent: the next frame passes through untouched.
    let mut frame2 = VideoPacket {
        pts: Some(10),
        keyframe: false,
        data: vec![6],
    };
    merger.merge(&mut frame2);
    assert_eq!(frame2.data, vec![6]);
}

#[test]
fn safe_file_names() {
    assert!(is_safe_file_name("layout.json"));
    assert!(!is_safe_file_name(""));
    assert!(!is_safe_file_name("."));
    assert!(!is_safe_file_name(".."));
    assert!(!is_safe_file_name("a/b"));
    assert!(!is_safe_file_name("a\\b"));
    assert!(!is_safe_file_name("a:b"));
    assert!(!is_safe_file_name("up..down"));
    assert!(!is_safe_file_name("what?"));
    assert!(!is_safe_file_name("star*"));
}

#[test]
fn config_validation_limits() {
    let config = default_mapping_config();
    assert_eq!(config.version, "0.0.1");
    assert!(validate_mapping_config(&config).is_ok());

    // An empty multiple tap is rejected.
    let bad = MappingConfig {
        version: "0.0.1".to_string(),
        original_size: CanvasSize {
            width: 2560,
            height: 1440,
        },
        mappings: vec![MappingType::MultipleTap(MappingMultipleTap {
            note: String::new(),
            pointer_id: 1,
            items: vec![],
            bind: bind(),
        })],
    };
    assert!(validate_mapping_config(&bad).is_err());

    // A 33rd instance of one kind is rejected.
    let swipe = MappingSwipe {
        note: String::new(),
        pointer_id: 1,
        positions: vec![Position { x: 0, y: 0 }],
        interval: 100,
        bind: bind(),
    };
    let many = MappingConfig {
        version: "0.0.1".to_string(),
        original_size: CanvasSize {
            width: 2560,
            height: 1440,
        },
        mappings: (0..33)
            .map(|_| MappingType::Swipe(swipe.clone()))
            .collect(),
    };
    assert!(validate_mapping_config(&many).is_err());

    // 32 instances still pass.
    let enough = MappingConfig {
        version: "0.0.1".to_string(),
        original_size: CanvasSize {
            width: 2560,
            height: 1440,
        },
        mappings: (0..32)
            .map(|_| MappingType::Swipe(swipe.clone()))
            .collect(),
    };
    assert!(validate_mapping_config(&enough).is_ok());

    // A script mapping must parse.
    let bad_script = MappingConfig {
        version: "0.0.1".to_string(),
        original_size: CanvasSize {
            width: 2560,
            height: 1440,
        },
        mappings: vec![MappingType::Script(
            scrcpy_mask::mapping_config::MappingScript {
                position: Position { x: 0, y: 0 },
                note: String::new(),
                pressed_script: "let = ;".to_string(),
                released_script: String::new(),
                held_script: String::new(),
                interval: 100,
                bind: bind(),
            },
        )],
    };
    assert!(validate_mapping_config(&bad_script).is_err());
}

#[test]
fn command_codes() {
    assert!(matches!(
        ControlMsgType::from_i64(0),
        Some(ControlMsgType::ControlMsgTypeInjectKeycode)
    ));
    assert!(ControlMsgType::from_i64(15).is_none());
    assert!(matches!(
        ScrcpyMaskCmdType::from_i64(15),
        Some(ScrcpyMaskCmdType::SendKey)
    ));
    assert!(ScrcpyMaskCmdType::from_i64(3).is_none());
}

#[test]
fn clipboard_helper_keeps_sequence() {
    let msg = scrcpy_mask::effect::ControlMsgHelper::set_clipboard(
        Some(77),
        "x".to_string(),
        true,
    );
    match msg {
        ScrcpyControlMsg::SetClipboard {
            sequence,
            paste,
            text,
        } => {
            assert_eq!(sequence, 77);
            assert!(paste);
            assert_eq!(text, "x");
        }
        _ => panic!("wrong variant"),
    }
}

#[test]
fn fire_switchover_is_up_then_down() {
    let fire = scrcpy_mask::mapping_config::MappingFire {
        note: String::new(),
        pointer_id: 6,
        position: Position { x: 300, y: 400 },
        sensitivity_x: 500,
        sensitivity_y: 500,
        bind: bind(),
    };
    let cursor = Position { x: 11, y: 12 };
    let mask = Size {
        width: 800,
        height: 600,
    };
    let plan = scrcpy_mask::mapping_engine::fire_press_plan(&fire, 5, mask, cursor, size());
    assert_eq!(plan.len(), 2);
    match (&plan[0], &plan[1]) {
        (
            Effect::Send(ScrcpyControlMsg::InjectTouchEvent {
                action: a0,
                pointer_id: p0,
                ..
            }),
            Effect::Send(ScrcpyControlMsg::InjectTouchEvent {
                action: a1,
                pointer_id: p1,
                x,
                y,
                ..
            }),
        ) => {
            assert_eq!((*a0, *p0), (MotionEventAction::Up, 5));
            assert_eq!((*a1, *p1), (MotionEventAction::Down, 6));
            assert_eq!((*x, *y), (300, 400));
        }
        _ => panic!("expected the switchover"),
    }
    // The mirror switch on release: fire pointer up, aim pointer down at its
    // center.
    let back = scrcpy_mask::mapping_engine::fire_release_plan(
        6,
        Position { x: 42, y: 43 },
        mask,
        5,
        Position { x: 300, y: 400 },
        size(),
    );
    assert_eq!(back.len(), 2);
    match (&back[0], &back[1]) {
        (
            Effect::Send(ScrcpyControlMsg::InjectTouchEvent {
                action: a0,
                pointer_id: p0,
                ..
            }),
            Effect::Send(ScrcpyControlMsg::InjectTouchEvent {
                action: a1,
                pointer_id: p1,
                ..
            }),
        ) => {
            assert_eq!((*a0, *p0), (MotionEventAction::Up, 6));
            assert_eq!((*a1, *p1), (MotionEventAction::Down, 5));
        }
        _ => panic!("expected the mirror switch"),
    }
}

#[test]
fn cancel_cast_bounded_moves_and_one_up() {
    let plan = scrcpy_mask::mapping_engine::cancel_cast_plan(
        3,
        size(),
        Position { x: 0, y: 0 },
        Position { x: 100, y: 0 },
        5,
    );
    // 5 interpolation moves, 10 jitter (move, wait) pairs, one release.
    assert_eq!(plan.len(), 5 + 20 + 1);
    let mut ups = 0;
    for e in &plan {
        if let Effect::Send(ScrcpyControlMsg::InjectTouchEvent { action, x, .. }) = e {
            if *action == MotionEventAction::Up {
                ups += 1;
                assert_eq!(*x, 100);
            }
        }
    }
    assert_eq!(ups, 1);
    // The interpolation climbs linearly to the cancel position.
    match &plan[4] {
        Effect::Send(ScrcpyControlMsg::InjectTouchEvent { action, x, .. }) => {
            assert_eq!(*action, MotionEventAction::Move);
            assert_eq!(*x, 100);
        }
        _ => panic!("expected the last interpolation move"),
    }
}
