//! The encoder against the decoder, and the scenario encodings of the
//! current protocol revision.

use scrcpy_mask::constant::{CopyKey, KeyEventAction, MotionEventAction};
use scrcpy_mask::control_msg::ScrcpyControlMsg;
use scrcpy_mask::device_msg::{DeviceMsgError, DeviceMsgType, ScrcpyDeviceMsg};
use scrcpy_mask::session::rescale_control_msg;

fn round_trips(msg: ScrcpyControlMsg) -> ScrcpyControlMsg {
    let bytes = msg.encode();
    ScrcpyControlMsg::decode(&bytes).expect("the encoding must decode")
}

#[test]
fn keycode_round_trip() {
    let msg = ScrcpyControlMsg::InjectKeycode {
        action: KeyEventAction::Up,
        keycode: 66,
        repeat: 5,
        metastate: 0x41,
    };
    assert_eq!(
        msg.encode(),
        vec![0x00, 0x01, 0, 0, 0, 0x42, 0, 0, 0, 5, 0, 0, 0, 0x41]
    );
    match round_trips(msg) {
        ScrcpyControlMsg::InjectKeycode {
            action,
            keycode,
            repeat,
            metastate,
        } => {
            assert_eq!(action, KeyEventAction::Up);
            assert_eq!(keycode, 66);
            assert_eq!(repeat, 5);
            assert_eq!(metastate, 0x41);
        }
        _ => panic!("wrong variant"),
    }
}

#[test]
fn text_round_trip() {
    let msg = ScrcpyControlMsg::InjectText {
        text: "hello, world!".to_string(),
    };
    let mut expected = vec![0x01u8, 0, 0, 0, 0x0d];
    expected.extend_from_slice(b"hello, world!");
    assert_eq!(msg.encode(), expected);
    match round_trips(msg) {
        ScrcpyControlMsg::InjectText { text } => assert_eq!(text, "hello, world!"),
        _ => panic!("wrong variant"),
    }
}

#[test]
fn touch_event_scenario() {
    let msg = ScrcpyControlMsg::InjectTouchEvent {
        action: MotionEventAction::Down,
        pointer_id: 0x1234567887654321,
        x: 100,
        y: 200,
        w: 1080,
        h: 1920,
        pressure: 0xFFFF,
        action_button: 1,
        buttons: 1,
    };
    let expected: Vec<u8> = vec![
        0x02, 0x00, 0x12, 0x34, 0x56, 0x78, 0x87, 0x65, 0x43, 0x21, 0x00, 0x00, 0x00, 0x64, 0x00,
        0x00, 0x00, 0xC8, 0x04, 0x38, 0x07, 0x80, 0xFF, 0xFF, 0x00, 0x00, 0x00, 0x01, 0x00, 0x00,
        0x00, 0x01,
    ];
    assert_eq!(msg.encode(), expected);
    match round_trips(msg) {
        ScrcpyControlMsg::InjectTouchEvent {
            pointer_id, x, y, ..
        } => {
            assert_eq!(pointer_id, 0x1234567887654321);
            assert_eq!(x, 100);
            assert_eq!(y, 200);
        }
        _ => panic!("wrong variant"),
    }
}

#[test]
fn scroll_event_scenario() {
    let msg = ScrcpyControlMsg::InjectScrollEvent {
        x: 260,
        y: 1026,
        w: 1080,
        h: 1920,
        hscroll: 0x7FFF,
        vscroll: -0x8000,
        buttons: 1,
    };
    let expected: Vec<u8> = vec![
        0x03, 0x00, 0x00, 0x01, 0x04, 0x00, 0x00, 0x04, 0x02, 0x04, 0x38, 0x07, 0x80, 0x7F, 0xFF,
        0x80, 0x00, 0x00, 0x00, 0x00, 0x01,
    ];
    assert_eq!(msg.encode(), expected);
    match round_trips(msg) {
        ScrcpyControlMsg::InjectScrollEvent {
            hscroll, vscroll, ..
        } => {
            assert_eq!(hscroll, 0x7FFF);
            assert_eq!(vscroll, -0x8000);
        }
        _ => panic!("wrong variant"),
    }
}

#[test]
fn set_clipboard_scenario() {
    let msg = ScrcpyControlMsg::SetClipboard {
        sequence: 0x0102030405060708,
        paste: true,
        text: "hello, world!".to_string(),
    };
    let mut expected: Vec<u8> = vec![0x09, 0x01, 0x02, 0x03, 0x04, 0x05, 0x06, 0x07, 0x08, 0x01];
    expected.extend_from_slice(&[0x00, 0x00, 0x00, 0x0D]);
    expected.extend_from_slice(b"hello, world!");
    assert_eq!(msg.encode(), expected);
    match round_trips(msg) {
        ScrcpyControlMsg::SetClipboard {
            sequence,
            paste,
            text,
        } => {
            assert_eq!(sequence, 0x0102030405060708);
            assert!(paste);
            assert_eq!(text, "hello, world!");
        }
        _ => panic!("wrong variant"),
    }
}

#[test]
fn inject_text_truncates_on_char_boundary() {
    // 149 two-byte characters and one more: 300 bytes fit, the 151st
    // character would split at byte 301 and is dropped whole.
    let text: String = "é".repeat(151);
    let msg = ScrcpyControlMsg::InjectText { text };
    let bytes = msg.encode();
    let len = u32::from_be_bytes([bytes[1], bytes[2], bytes[3], bytes[4]]) as usize;
    assert_eq!(len, 300);
    assert_eq!(bytes.len(), 5 + 300);
    assert!(std::str::from_utf8(&bytes[5..]).is_ok());
}

#[test]
fn set_clipboard_truncates_to_limit() {
    let limit = scrcpy_mask::control_msg::SC_CONTROL_MSG_CLIPBOARD_TEXT_MAX_LENGTH;
    let text: String = "a".repeat(limit + 100);
    let msg = ScrcpyControlMsg::SetClipboard {
        sequence: 1,
        paste: false,
        text,
    };
    let bytes = msg.encode();
    let len = u32::from_be_bytes([bytes[10], bytes[11], bytes[12], bytes[13]]) as usize;
    assert_eq!(len, limit);
    assert_eq!(bytes.len(), 14 + limit);
}

#[test]
fn simple_headers_encode() {
    assert_eq!(
        ScrcpyControlMsg::BackOrScreenOn {
            action: KeyEventAction::Up
        }
        .encode(),
        vec![0x04, 0x01]
    );
    assert_eq!(
        ScrcpyControlMsg::GetClipboard {
            copy_key: CopyKey::Copy
        }
        .encode(),
        vec![0x08, 0x01]
    );
    assert_eq!(
        ScrcpyControlMsg::SetDisplayPower { mode: true }.encode(),
        vec![0x0A, 0x01]
    );
    assert_eq!(ScrcpyControlMsg::RotateDevice.encode(), vec![0x0B]);
    assert_eq!(ScrcpyControlMsg::ResetVideo.encode(), vec![0x11]);
}

#[test]
fn decode_rejects_garbage() {
    assert!(ScrcpyControlMsg::decode(&vec![]).is_none());
    assert!(ScrcpyControlMsg::decode(&vec![0x00, 0x05]).is_none());
    assert!(ScrcpyControlMsg::decode(&vec![0xEE]).is_none());
}

#[test]
fn device_msg_decode() {
    // Clipboard: tag 0, length 2, "hi"
    let buf = vec![0u8, 0, 0, 0, 2, b'h', b'i'];
    let (msg, used) = ScrcpyDeviceMsg::read_msg(&buf, 0, "10111111").unwrap();
    assert_eq!(used, 7);
    match msg {
        ScrcpyDeviceMsg::Clipboard { length, text } => {
            assert_eq!(length, 2);
            assert_eq!(text, "hi");
        }
        _ => panic!("wrong variant"),
    }

    // AckClipboard: tag 1, sequence
    let buf = vec![1u8, 0, 0, 0, 0, 0, 0, 0, 9];
    let (msg, used) = ScrcpyDeviceMsg::read_msg(&buf, 0, "10111111").unwrap();
    assert_eq!(used, 9);
    match msg {
        ScrcpyDeviceMsg::AckClipboard { sequence } => assert_eq!(sequence, 9),
        _ => panic!("wrong variant"),
    }

    // Rotation: tag 3, rotation 1, 1920 x 1080
    let buf = vec![3u8, 0, 1, 0, 0, 7, 128, 0, 0, 4, 56];
    let (msg, used) = ScrcpyDeviceMsg::read_msg(&buf, 0, "10222222").unwrap();
    assert_eq!(used, 11);
    match msg {
        ScrcpyDeviceMsg::Rotation {
            rotation,
            width,
            height,
            scid,
        } => {
            assert_eq!(rotation, 1);
            assert_eq!(width, 1920);
            assert_eq!(height, 1080);
            assert_eq!(scid, "10222222");
        }
        _ => panic!("wrong variant"),
    }

    // Unknown tag is consumed, not fatal.
    let buf = vec![9u8, 1, 2, 3];
    let (msg, used) = ScrcpyDeviceMsg::read_msg(&buf, 0, "10222222").unwrap();
    assert_eq!(used, 1);
    assert!(matches!(msg, ScrcpyDeviceMsg::Unknown));

    // A short buffer asks for more data.
    let buf = vec![0u8, 0, 0];
    assert_eq!(
        ScrcpyDeviceMsg::read_msg(&buf, 0, "10222222").unwrap_err(),
        DeviceMsgError::NeedMoreData
    );

    // A clipboard that is not UTF-8 closes the socket.
    let buf = vec![0u8, 0, 0, 0, 1, 0xFF];
    assert_eq!(
        ScrcpyDeviceMsg::read_msg(&buf, 0, "10222222").unwrap_err(),
        DeviceMsgError::InvalidText
    );

    assert_eq!(DeviceMsgType::from_u8(0), Some(DeviceMsgType::Clipboard));
    assert_eq!(DeviceMsgType::from_u8(3), Some(DeviceMsgType::Rotation));
    assert_eq!(DeviceMsgType::from_u8(7), None);
}

#[test]
fn rescale_touch_to_device_frame() {
    let msg = ScrcpyControlMsg::InjectTouchEvent {
        action: MotionEventAction::Move,
        pointer_id: 1,
        x: 100,
        y: 100,
        w: 200,
        h: 200,
        pressure: 0xFFFF,
        action_button: 1,
        buttons: 1,
    };
    match rescale_control_msg(msg, 100, 100) {
        ScrcpyControlMsg::InjectTouchEvent { x, y, w, h, .. } => {
            assert_eq!(x, 50);
            assert_eq!(y, 50);
            assert_eq!(w, 100);
            assert_eq!(h, 100);
        }
        _ => panic!("wrong variant"),
    }
}
