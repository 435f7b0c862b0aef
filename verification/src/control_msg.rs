//! Control messages sent from the host to the device, with a byte-exact
//! encoder, a decoder, and a proof that decoding inverts encoding.

use vstd::prelude::*;
use vstd::string::StringSliceAdditionalSpecFns;
use vstd::utf8::valid_utf8;

use crate::binary::{
    spec_string_field, spec_truncation_index, spec_u16_be, spec_u32_be, spec_u64_be, spec_position,
    write_16be, write_32be, write_64be, write_posion, write_string,
};
use crate::constant::{CopyKey, KeyEventAction, MotionEventAction};

verus! {

/// Longest text payload of an `InjectText` message, in bytes.
pub const SC_CONTROL_MSG_INJECT_TEXT_MAX_LENGTH: usize = 300;

/// Longest control message on the wire, in bytes.
pub const SC_CONTROL_MSG_MAX_SIZE: usize = 0x40000;

/// Longest text payload of a `SetClipboard` message, in bytes: the message
/// size limit minus the fourteen header bytes.
pub const SC_CONTROL_MSG_CLIPBOARD_TEXT_MAX_LENGTH: usize = 0x40000 - 14;

/// Discriminants of the control message header byte.
#[derive(Debug, Clone, Copy, PartialEq, Eq, Structural)]
pub enum ScrcpyControlMsgType {
    InjectKeycode,
    InjectText,
    InjectTouchEvent,
    InjectScrollEvent,
    BackOrScreenOn,
    ExpandNotificationPanel,
    ExpandSettingsPanel,
    CollapsePanels,
    GetClipboard,
    SetClipboard,
    SetDisplayPower,
    RotateDevice,
    UhidCreate,
    UhidInput,
    UhidDestroy,
    OpenHardKeyboardSettings,
    StartApp,
    ResetVideo,
}

impl ScrcpyControlMsgType {
    /// The header byte of this message type.
    pub open spec fn spec_value(self) -> u8 {
        match self {
            ScrcpyControlMsgType::InjectKeycode => 0,
            ScrcpyControlMsgType::InjectText => 1,
            ScrcpyControlMsgType::InjectTouchEvent => 2,
            ScrcpyControlMsgType::InjectScrollEvent => 3,
            ScrcpyControlMsgType::BackOrScreenOn => 4,
            ScrcpyControlMsgType::ExpandNotificationPanel => 5,
            ScrcpyControlMsgType::ExpandSettingsPanel => 6,
            ScrcpyControlMsgType::CollapsePanels => 7,
            ScrcpyControlMsgType::GetClipboard => 8,
            ScrcpyControlMsgType::SetClipboard => 9,
            ScrcpyControlMsgType::SetDisplayPower => 10,
            ScrcpyControlMsgType::RotateDevice => 11,
            ScrcpyControlMsgType::UhidCreate => 12,
            ScrcpyControlMsgType::UhidInput => 13,
            ScrcpyControlMsgType::UhidDestroy => 14,
            ScrcpyControlMsgType::OpenHardKeyboardSettings => 15,
            ScrcpyControlMsgType::StartApp => 16,
            ScrcpyControlMsgType::ResetVideo => 17,
        }
    }

    #[verifier::when_used_as_spec(spec_value)]
    pub fn value(self) -> (r: u8)
        ensures
            r == self.spec_value(),
    {
        match self {
            ScrcpyControlMsgType::InjectKeycode => 0,
            ScrcpyControlMsgType::InjectText => 1,
            ScrcpyControlMsgType::InjectTouchEvent => 2,
            ScrcpyControlMsgType::InjectScrollEvent => 3,
            ScrcpyControlMsgType::BackOrScreenOn => 4,
            ScrcpyControlMsgType::ExpandNotificationPanel => 5,
            ScrcpyControlMsgType::ExpandSettingsPanel => 6,
            ScrcpyControlMsgType::CollapsePanels => 7,
            ScrcpyControlMsgType::GetClipboard => 8,
            ScrcpyControlMsgType::SetClipboard => 9,
            ScrcpyControlMsgType::SetDisplayPower => 10,
            ScrcpyControlMsgType::RotateDevice => 11,
            ScrcpyControlMsgType::UhidCreate => 12,
            ScrcpyControlMsgType::UhidInput => 13,
            ScrcpyControlMsgType::UhidDestroy => 14,
            ScrcpyControlMsgType::OpenHardKeyboardSettings => 15,
            ScrcpyControlMsgType::StartApp => 16,
            ScrcpyControlMsgType::ResetVideo => 17,
        }
    }
}

/// A control message bound for the device. Text is carried as a `String`;
/// fractional wire fields (pressure, scroll amounts) are carried directly in
/// their fixed-point wire form.
#[derive(Debug, Clone)]
pub enum ScrcpyControlMsg {
    InjectKeycode { action: KeyEventAction, keycode: u32, repeat: u32, metastate: u32 },
    InjectText { text: String },
    InjectTouchEvent {
        action: MotionEventAction,
        pointer_id: u64,
        x: i32,
        y: i32,
        w: u16,
        h: u16,
        pressure: u16,
        action_button: u32,
        buttons: u32,
    },
    InjectScrollEvent { x: i32, y: i32, w: u16, h: u16, hscroll: i16, vscroll: i16, buttons: u32 },
    BackOrScreenOn { action: KeyEventAction },
    GetClipboard { copy_key: CopyKey },
    SetClipboard { sequence: u64, paste: bool, text: String },
    SetDisplayPower { mode: bool },
    RotateDevice,
    ResetVideo,
}

/// The mathematical shape of a control message: text is a byte sequence, all
/// other fields are plain values.
pub enum ControlMsgView {
    InjectKeycode { action: KeyEventAction, keycode: u32, repeat: u32, metastate: u32 },
    InjectText { text: Seq<u8> },
    InjectTouchEvent {
        action: MotionEventAction,
        pointer_id: u64,
        x: i32,
        y: i32,
        w: u16,
        h: u16,
        pressure: u16,
        action_button: u32,
        buttons: u32,
    },
    InjectScrollEvent { x: i32, y: i32, w: u16, h: u16, hscroll: i16, vscroll: i16, buttons: u32 },
    BackOrScreenOn { action: KeyEventAction },
    GetClipboard { copy_key: CopyKey },
    SetClipboard { sequence: u64, paste: bool, text: Seq<u8> },
    SetDisplayPower { mode: bool },
    RotateDevice,
    ResetVideo,
}

impl View for ScrcpyControlMsg {
    type V = ControlMsgView;

    open spec fn view(&self) -> ControlMsgView {
        match self {
            ScrcpyControlMsg::InjectKeycode { action, keycode, repeat, metastate } =>
                ControlMsgView::InjectKeycode {
                    action: *action,
                    keycode: *keycode,
                    repeat: *repeat,
                    metastate: *metastate,
                },
            ScrcpyControlMsg::InjectText { text } => ControlMsgView::InjectText {
                text: spec_str_bytes(text@),
            },
            ScrcpyControlMsg::InjectTouchEvent {
                action,
                pointer_id,
                x,
                y,
                w,
                h,
                pressure,
                action_button,
                buttons,
            } => ControlMsgView::InjectTouchEvent {
                action: *action,
                pointer_id: *pointer_id,
                x: *x,
                y: *y,
                w: *w,
                h: *h,
                pressure: *pressure,
                action_button: *action_button,
                buttons: *buttons,
            },
            ScrcpyControlMsg::InjectScrollEvent { x, y, w, h, hscroll, vscroll, buttons } =>
                ControlMsgView::InjectScrollEvent {
                    x: *x,
                    y: *y,
                    w: *w,
                    h: *h,
                    hscroll: *hscroll,
                    vscroll: *vscroll,
                    buttons: *buttons,
                },
            ScrcpyControlMsg::BackOrScreenOn { action } => ControlMsgView::BackOrScreenOn {
                action: *action,
            },
            ScrcpyControlMsg::GetClipboard { copy_key } => ControlMsgView::GetClipboard {
                copy_key: *copy_key,
            },
            ScrcpyControlMsg::SetClipboard { sequence, paste, text } =>
                ControlMsgView::SetClipboard {
                    sequence: *sequence,
                    paste: *paste,
                    text: spec_str_bytes(text@),
                },
            ScrcpyControlMsg::SetDisplayPower { mode } => ControlMsgView::SetDisplayPower {
                mode: *mode,
            },
            ScrcpyControlMsg::RotateDevice => ControlMsgView::RotateDevice,
            ScrcpyControlMsg::ResetVideo => ControlMsgView::ResetVideo,
        }
    }
}

/// The bytes of a string as seen through a `String` view.
pub open spec fn spec_str_bytes(s: Seq<char>) -> Seq<u8> {
    vstd::utf8::encode_utf8(s)
}

/// The exact wire bytes of a control message.
pub open spec fn spec_encode(m: ControlMsgView) -> Seq<u8> {
    match m {
        ControlMsgView::InjectKeycode { action, keycode, repeat, metastate } => seq![
            0u8,
            action.spec_value(),
        ] + spec_u32_be(keycode) + spec_u32_be(repeat) + spec_u32_be(metastate),
        ControlMsgView::InjectText { text } => seq![1u8] + spec_string_field(
            text,
            SC_CONTROL_MSG_INJECT_TEXT_MAX_LENGTH as int,
        ),
        ControlMsgView::InjectTouchEvent {
            action,
            pointer_id,
            x,
            y,
            w,
            h,
            pressure,
            action_button,
            buttons,
        } => seq![2u8, action.spec_value()] + spec_u64_be(pointer_id) + spec_position(x, y, w, h)
            + spec_u16_be(pressure) + spec_u32_be(action_button) + spec_u32_be(buttons),
        ControlMsgView::InjectScrollEvent { x, y, w, h, hscroll, vscroll, buttons } => seq![3u8]
            + spec_position(x, y, w, h) + spec_u16_be(hscroll as u16) + spec_u16_be(vscroll as u16)
            + spec_u32_be(buttons),
        ControlMsgView::BackOrScreenOn { action } => seq![4u8, action.spec_value()],
        ControlMsgView::GetClipboard { copy_key } => seq![8u8, copy_key.spec_value()],
        ControlMsgView::SetClipboard { sequence, paste, text } => seq![9u8] + spec_u64_be(sequence)
            + seq![if paste { 1u8 } else { 0u8 }] + spec_string_field(
            text,
            SC_CONTROL_MSG_CLIPBOARD_TEXT_MAX_LENGTH as int,
        ),
        ControlMsgView::SetDisplayPower { mode } => seq![10u8, if mode { 1u8 } else { 0u8 }],
        ControlMsgView::RotateDevice => seq![11u8],
        ControlMsgView::ResetVideo => seq![17u8],
    }
}

impl ScrcpyControlMsg {
    /// Encodes this message into its exact wire bytes.
    pub fn encode(&self) -> (r: Vec<u8>)
        ensures
            r@ == spec_encode(self@),
    {
        let mut buf: Vec<u8> = Vec::new();
        match self {
            ScrcpyControlMsg::InjectKeycode { action, keycode, repeat, metastate } => {
                buf.push(0);
                buf.push(action.value());
                write_32be(&mut buf, *keycode);
                write_32be(&mut buf, *repeat);
                write_32be(&mut buf, *metastate);
            },
            ScrcpyControlMsg::InjectText { text } => {
                buf.push(1);
                write_string(text.as_str(), SC_CONTROL_MSG_INJECT_TEXT_MAX_LENGTH, &mut buf);
            },
            ScrcpyControlMsg::InjectTouchEvent {
                action,
                pointer_id,
                x,
                y,
                w,
                h,
                pressure,
                action_button,
                buttons,
            } => {
                buf.push(2);
                buf.push(action.value());
                write_64be(&mut buf, *pointer_id);
                write_posion(&mut buf, *x, *y, *w, *h);
                write_16be(&mut buf, *pressure);
                write_32be(&mut buf, *action_button);
                write_32be(&mut buf, *buttons);
            },
            ScrcpyControlMsg::InjectScrollEvent { x, y, w, h, hscroll, vscroll, buttons } => {
                buf.push(3);
                write_posion(&mut buf, *x, *y, *w, *h);
                write_16be(&mut buf, *hscroll as u16);
                write_16be(&mut buf, *vscroll as u16);
                write_32be(&mut buf, *buttons);
            },
            ScrcpyControlMsg::BackOrScreenOn { action } => {
                buf.push(4);
                buf.push(action.value());
            },
            ScrcpyControlMsg::GetClipboard { copy_key } => {
                buf.push(8);
                buf.push(copy_key.value());
            },
            ScrcpyControlMsg::SetClipboard { sequence, paste, text } => {
                buf.push(9);
                write_64be(&mut buf, *sequence);
                buf.push(if *paste { 1 } else { 0 });
                write_string(text.as_str(), SC_CONTROL_MSG_CLIPBOARD_TEXT_MAX_LENGTH, &mut buf);
            },
            ScrcpyControlMsg::SetDisplayPower { mode } => {
                buf.push(10);
                buf.push(if *mode { 1 } else { 0 });
            },
            ScrcpyControlMsg::RotateDevice => {
                buf.push(11);
            },
            ScrcpyControlMsg::ResetVideo => {
                buf.push(17);
            },
        }
        proof {
            assert(buf@ =~= spec_encode(self@));
        }
        buf
    }
}


/// Relies on `String::from_utf8`: it succeeds exactly on valid UTF-8 input
/// and the returned string holds exactly the input bytes.
#[verifier::external_body]
pub(crate) fn string_from_utf8(v: Vec<u8>) -> (r: Option<String>)
    ensures
        match r {
            Some(s) => valid_utf8(v@) && spec_str_bytes(s@) == v@,
            None => !valid_utf8(v@),
        },
{
    match String::from_utf8(v) {
        Ok(s) => Some(s),
        Err(_) => None,
    }
}

/// The value of two big-endian bytes at `i`.
pub open spec fn spec_be16(b: Seq<u8>, i: int) -> int {
    b[i] * 0x100 + b[i + 1]
}

/// The value of four big-endian bytes at `i`.
pub open spec fn spec_be32(b: Seq<u8>, i: int) -> int {
    b[i] * 0x1000000 + b[i + 1] * 0x10000 + b[i + 2] * 0x100 + b[i + 3]
}

/// The value of eight big-endian bytes at `i`.
pub open spec fn spec_be64(b: Seq<u8>, i: int) -> int {
    b[i] * 0x100000000000000 + b[i + 1] * 0x1000000000000 + b[i + 2] * 0x10000000000 + b[i + 3]
        * 0x100000000 + b[i + 4] * 0x1000000 + b[i + 5] * 0x10000 + b[i + 6] * 0x100 + b[i + 7]
}

fn read_u16(b: &Vec<u8>, i: usize) -> (r: u16)
    requires
        i + 2 <= b@.len(),
    ensures
        r == spec_be16(b@, i as int),
{
    let n = b.len();
    (b[i] as u16) * 0x100 + (b[i + 1] as u16)
}

fn read_u32(b: &Vec<u8>, i: usize) -> (r: u32)
    requires
        i + 4 <= b@.len(),
    ensures
        r == spec_be32(b@, i as int),
{
    let n = b.len();
    (b[i] as u32) * 0x1000000 + (b[i + 1] as u32) * 0x10000 + (b[i + 2] as u32) * 0x100 + (b[i
        + 3] as u32)
}

fn read_u64(b: &Vec<u8>, i: usize) -> (r: u64)
    requires
        i + 8 <= b@.len(),
    ensures
        r == spec_be64(b@, i as int),
{
    let n = b.len();
    (b[i] as u64) * 0x100000000000000 + (b[i + 1] as u64) * 0x1000000000000 + (b[i + 2] as u64)
        * 0x10000000000 + (b[i + 3] as u64) * 0x100000000 + (b[i + 4] as u64) * 0x1000000 + (b[i
        + 5] as u64) * 0x10000 + (b[i + 6] as u64) * 0x100 + (b[i + 7] as u64)
}

/// The key event action named by a wire byte.
pub open spec fn spec_key_action_from(b: u8) -> Option<KeyEventAction> {
    if b == 0 {
        Some(KeyEventAction::Down)
    } else if b == 1 {
        Some(KeyEventAction::Up)
    } else if b == 2 {
        Some(KeyEventAction::Multiple)
    } else {
        None
    }
}

/// The motion event action named by a wire byte.
pub open spec fn spec_motion_action_from(b: u8) -> Option<MotionEventAction> {
    if b == 0 {
        Some(MotionEventAction::Down)
    } else if b == 1 {
        Some(MotionEventAction::Up)
    } else if b == 2 {
        Some(MotionEventAction::Move)
    } else {
        None
    }
}

/// The copy key named by a wire byte.
pub open spec fn spec_copy_key_from(b: u8) -> Option<CopyKey> {
    if b == 0 {
        Some(CopyKey::NoKey)
    } else if b == 1 {
        Some(CopyKey::Copy)
    } else if b == 2 {
        Some(CopyKey::Cut)
    } else {
        None
    }
}

/// The message encoded by an exact wire buffer, or `None` when the buffer is
/// not the exact encoding of any message this decoder covers.
pub open spec fn spec_decode(b: Seq<u8>) -> Option<ControlMsgView> {
    if b.len() == 0 {
        None
    } else if b[0] == 0 {
        if b.len() == 14 {
            match spec_key_action_from(b[1]) {
                Some(action) => Some(ControlMsgView::InjectKeycode {
                    action,
                    keycode: spec_be32(b, 2) as u32,
                    repeat: spec_be32(b, 6) as u32,
                    metastate: spec_be32(b, 10) as u32,
                }),
                None => None,
            }
        } else {
            None
        }
    } else if b[0] == 1 {
        if b.len() >= 5 && spec_be32(b, 1) == b.len() - 5 && valid_utf8(
            b.subrange(5, b.len() as int),
        ) {
            Some(ControlMsgView::InjectText { text: b.subrange(5, b.len() as int) })
        } else {
            None
        }
    } else if b[0] == 2 {
        if b.len() == 32 {
            match spec_motion_action_from(b[1]) {
                Some(action) => Some(ControlMsgView::InjectTouchEvent {
                    action,
                    pointer_id: spec_be64(b, 2) as u64,
                    x: spec_be32(b, 10) as u32 as i32,
                    y: spec_be32(b, 14) as u32 as i32,
                    w: spec_be16(b, 18) as u16,
                    h: spec_be16(b, 20) as u16,
                    pressure: spec_be16(b, 22) as u16,
                    action_button: spec_be32(b, 24) as u32,
                    buttons: spec_be32(b, 28) as u32,
                }),
                None => None,
            }
        } else {
            None
        }
    } else if b[0] == 3 {
        if b.len() == 21 {
            Some(ControlMsgView::InjectScrollEvent {
                x: spec_be32(b, 1) as u32 as i32,
                y: spec_be32(b, 5) as u32 as i32,
                w: spec_be16(b, 9) as u16,
                h: spec_be16(b, 11) as u16,
                hscroll: spec_be16(b, 13) as u16 as i16,
                vscroll: spec_be16(b, 15) as u16 as i16,
                buttons: spec_be32(b, 17) as u32,
            })
        } else {
            None
        }
    } else if b[0] == 4 {
        if b.len() == 2 {
            match spec_key_action_from(b[1]) {
                Some(action) => Some(ControlMsgView::BackOrScreenOn { action }),
                None => None,
            }
        } else {
            None
        }
    } else if b[0] == 8 {
        if b.len() == 2 {
            match spec_copy_key_from(b[1]) {
                Some(copy_key) => Some(ControlMsgView::GetClipboard { copy_key }),
                None => None,
            }
        } else {
            None
        }
    } else if b[0] == 9 {
        if b.len() >= 14 && b[9] <= 1 && spec_be32(b, 10) == b.len() - 14 && valid_utf8(
            b.subrange(14, b.len() as int),
        ) {
            Some(ControlMsgView::SetClipboard {
                sequence: spec_be64(b, 1) as u64,
                paste: b[9] == 1,
                text: b.subrange(14, b.len() as int),
            })
        } else {
            None
        }
    } else if b[0] == 10 {
        if b.len() == 2 && b[1] <= 1 {
            Some(ControlMsgView::SetDisplayPower { mode: b[1] == 1 })
        } else {
            None
        }
    } else if b[0] == 11 {
        if b.len() == 1 {
            Some(ControlMsgView::RotateDevice)
        } else {
            None
        }
    } else if b[0] == 17 {
        if b.len() == 1 {
            Some(ControlMsgView::ResetVideo)
        } else {
            None
        }
    } else {
        None
    }
}

impl ScrcpyControlMsg {
    /// Decodes one exact wire buffer back into a control message.
    pub fn decode(bytes: &Vec<u8>) -> (r: Option<ScrcpyControlMsg>)
        ensures
            match r {
                Some(m) => spec_decode(bytes@) == Some(m@),
                None => spec_decode(bytes@) is None,
            },
    {
        if bytes.len() == 0 {
            return None;
        }
        let tag = bytes[0];
        if tag == 0 {
            if bytes.len() != 14 {
                return None;
            }
            let action = match key_action_from(bytes[1]) {
                Some(a) => a,
                None => { return None; },
            };
            Some(ScrcpyControlMsg::InjectKeycode {
                action,
                keycode: read_u32(bytes, 2),
                repeat: read_u32(bytes, 6),
                metastate: read_u32(bytes, 10),
            })
        } else if tag == 1 {
            if bytes.len() < 5 {
                return None;
            }
            let n = read_u32(bytes, 1);
            if n as usize != bytes.len() - 5 {
                return None;
            }
            let sub = vstd::slice::slice_to_vec(
                vstd::slice::slice_subrange(bytes.as_slice(), 5, bytes.len()),
            );
            match string_from_utf8(sub) {
                Some(text) => Some(ScrcpyControlMsg::InjectText { text }),
                None => None,
            }
        } else if tag == 2 {
            if bytes.len() != 32 {
                return None;
            }
            let action = match motion_action_from(bytes[1]) {
                Some(a) => a,
                None => { return None; },
            };
            Some(ScrcpyControlMsg::InjectTouchEvent {
                action,
                pointer_id: read_u64(bytes, 2),
                x: read_u32(bytes, 10) as i32,
                y: read_u32(bytes, 14) as i32,
                w: read_u16(bytes, 18),
                h: read_u16(bytes, 20),
                pressure: read_u16(bytes, 22),
                action_button: read_u32(bytes, 24),
                buttons: read_u32(bytes, 28),
            })
        } else if tag == 3 {
            if bytes.len() != 21 {
                return None;
            }
            Some(ScrcpyControlMsg::InjectScrollEvent {
                x: read_u32(bytes, 1) as i32,
                y: read_u32(bytes, 5) as i32,
                w: read_u16(bytes, 9),
                h: read_u16(bytes, 11),
                hscroll: read_u16(bytes, 13) as i16,
                vscroll: read_u16(bytes, 15) as i16,
                buttons: read_u32(bytes, 17),
            })
        } else if tag == 4 {
            if bytes.len() != 2 {
                return None;
            }
            match key_action_from(bytes[1]) {
                Some(action) => Some(ScrcpyControlMsg::BackOrScreenOn { action }),
                None => None,
            }
        } else if tag == 8 {
            if bytes.len() != 2 {
                return None;
            }
            match copy_key_from(bytes[1]) {
                Some(copy_key) => Some(ScrcpyControlMsg::GetClipboard { copy_key }),
                None => None,
            }
        } else if tag == 9 {
            if bytes.len() < 14 {
                return None;
            }
            let paste_byte = bytes[9];
            if paste_byte > 1 {
                return None;
            }
            let n = read_u32(bytes, 10);
            if n as usize != bytes.len() - 14 {
                return None;
            }
            let sub = vstd::slice::slice_to_vec(
                vstd::slice::slice_subrange(bytes.as_slice(), 14, bytes.len()),
            );
            match string_from_utf8(sub) {
                Some(text) => Some(ScrcpyControlMsg::SetClipboard {
                    sequence: read_u64(bytes, 1),
                    paste: paste_byte == 1,
                    text,
                }),
                None => None,
            }
        } else if tag == 10 {
            if bytes.len() != 2 || bytes[1] > 1 {
                return None;
            }
            Some(ScrcpyControlMsg::SetDisplayPower { mode: bytes[1] == 1 })
        } else if tag == 11 {
            if bytes.len() != 1 {
                return None;
            }
            Some(ScrcpyControlMsg::RotateDevice)
        } else if tag == 17 {
            if bytes.len() != 1 {
                return None;
            }
            Some(ScrcpyControlMsg::ResetVideo)
        } else {
            None
        }
    }
}

fn key_action_from(b: u8) -> (r: Option<KeyEventAction>)
    ensures
        r == spec_key_action_from(b),
{
    if b == 0 {
        Some(KeyEventAction::Down)
    } else if b == 1 {
        Some(KeyEventAction::Up)
    } else if b == 2 {
        Some(KeyEventAction::Multiple)
    } else {
        None
    }
}

fn motion_action_from(b: u8) -> (r: Option<MotionEventAction>)
    ensures
        r == spec_motion_action_from(b),
{
    if b == 0 {
        Some(MotionEventAction::Down)
    } else if b == 1 {
        Some(MotionEventAction::Up)
    } else if b == 2 {
        Some(MotionEventAction::Move)
    } else {
        None
    }
}

fn copy_key_from(b: u8) -> (r: Option<CopyKey>)
    ensures
        r == spec_copy_key_from(b),
{
    if b == 0 {
        Some(CopyKey::NoKey)
    } else if b == 1 {
        Some(CopyKey::Copy)
    } else if b == 2 {
        Some(CopyKey::Cut)
    } else {
        None
    }
}


/// Encodings that the decoder inverts exactly: action bytes are always in
/// range, so only the text fields matter. A text round-trips when it fits the
/// field's byte limit, so that encoding does not truncate it.
pub open spec fn spec_round_trippable(m: ControlMsgView) -> bool {
    match m {
        ControlMsgView::InjectText { text } => valid_utf8(text) && text.len()
            <= SC_CONTROL_MSG_INJECT_TEXT_MAX_LENGTH,
        ControlMsgView::SetClipboard { text, .. } => valid_utf8(text) && text.len()
            <= SC_CONTROL_MSG_CLIPBOARD_TEXT_MAX_LENGTH,
        _ => true,
    }
}

proof fn lemma_be16_of_u16(pre: Seq<u8>, v: u16, post: Seq<u8>)
    ensures
        spec_be16(pre + spec_u16_be(v) + post, pre.len() as int) == v,
{
    let b = pre + spec_u16_be(v) + post;
    assert(b[pre.len() as int] == v / 0x100);
    assert(b[pre.len() as int + 1] == v % 0x100);
}

proof fn lemma_be32_of_u32(pre: Seq<u8>, v: u32, post: Seq<u8>)
    ensures
        spec_be32(pre + spec_u32_be(v) + post, pre.len() as int) == v,
{
    let b = pre + spec_u32_be(v) + post;
    assert(b[pre.len() as int] == v / 0x1000000);
    assert(b[pre.len() as int + 1] == (v / 0x10000) % 0x100);
    assert(b[pre.len() as int + 2] == (v / 0x100) % 0x100);
    assert(b[pre.len() as int + 3] == v % 0x100);
    assert((v / 0x1000000) * 0x1000000 + ((v / 0x10000) % 0x100) * 0x10000 + ((v / 0x100) % 0x100)
        * 0x100 + v % 0x100 == v) by (bit_vector);
}

proof fn lemma_be64_of_u64(pre: Seq<u8>, v: u64, post: Seq<u8>)
    ensures
        spec_be64(pre + spec_u64_be(v) + post, pre.len() as int) == v,
{
    let b = pre + spec_u64_be(v) + post;
    assert(b[pre.len() as int] == v / 0x100000000000000);
    assert(b[pre.len() as int + 1] == (v / 0x1000000000000) % 0x100);
    assert(b[pre.len() as int + 2] == (v / 0x10000000000) % 0x100);
    assert(b[pre.len() as int + 3] == (v / 0x100000000) % 0x100);
    assert(b[pre.len() as int + 4] == (v / 0x1000000) % 0x100);
    assert(b[pre.len() as int + 5] == (v / 0x10000) % 0x100);
    assert(b[pre.len() as int + 6] == (v / 0x100) % 0x100);
    assert(b[pre.len() as int + 7] == v % 0x100);
    assert((v / 0x100000000000000) * 0x100000000000000 + ((v / 0x1000000000000) % 0x100)
        * 0x1000000000000 + ((v / 0x10000000000) % 0x100) * 0x10000000000 + ((v / 0x100000000)
        % 0x100) * 0x100000000 + ((v / 0x1000000) % 0x100) * 0x1000000 + ((v / 0x10000) % 0x100)
        * 0x10000 + ((v / 0x100) % 0x100) * 0x100 + v % 0x100 == v) by (bit_vector);
}

#[verifier::spinoff_prover]
proof fn lemma_rt_keycode(m: ControlMsgView)
    requires
        m is InjectKeycode,
    ensures
        spec_decode(spec_encode(m)) == Some(m),
{
    let b = spec_encode(m);
    match m {
        ControlMsgView::InjectKeycode { action, keycode, repeat, metastate } => {
            let pre = seq![0u8, action.spec_value()];
            assert(b =~= pre + spec_u32_be(keycode) + (spec_u32_be(repeat) + spec_u32_be(
                metastate,
            )));
            lemma_be32_of_u32(pre, keycode, spec_u32_be(repeat) + spec_u32_be(metastate));
            assert(b =~= (pre + spec_u32_be(keycode)) + spec_u32_be(repeat) + spec_u32_be(
                metastate,
            ));
            lemma_be32_of_u32(pre + spec_u32_be(keycode), repeat, spec_u32_be(metastate));
            assert(b =~= (pre + spec_u32_be(keycode) + spec_u32_be(repeat)) + spec_u32_be(
                metastate,
            ) + Seq::<u8>::empty());
            lemma_be32_of_u32(
                pre + spec_u32_be(keycode) + spec_u32_be(repeat),
                metastate,
                Seq::<u8>::empty(),
            );
            assert(spec_decode(b) == Some(m));
        },
        _ => {},
    }
}

#[verifier::spinoff_prover]
proof fn lemma_rt_text(m: ControlMsgView)
    requires
        m is InjectText,
        spec_round_trippable(m),
    ensures
        spec_decode(spec_encode(m)) == Some(m),
{
    let b = spec_encode(m);
    match m {
        ControlMsgView::InjectText { text } => {
            assert(spec_truncation_index(text, SC_CONTROL_MSG_INJECT_TEXT_MAX_LENGTH as int)
                == text.len());
            assert(b =~= seq![1u8] + spec_u32_be(text.len() as u32) + text);
            lemma_be32_of_u32(seq![1u8], text.len() as u32, text);
            assert(b.subrange(5, b.len() as int) =~= text);
            assert(spec_decode(b) == Some(m));
        },
        _ => {},
    }
}

#[verifier::spinoff_prover]
#[verifier::rlimit(100)]
proof fn lemma_rt_touch(m: ControlMsgView)
    requires
        m is InjectTouchEvent,
    ensures
        spec_decode(spec_encode(m)) == Some(m),
{
    let b = spec_encode(m);
    match m {
        ControlMsgView::InjectTouchEvent {
            action,
            pointer_id,
            x,
            y,
            w,
            h,
            pressure,
            action_button,
            buttons,
        } => {
            let p0 = seq![2u8, action.spec_value()];
            let p1 = p0 + spec_u64_be(pointer_id);
            let p2 = p1 + spec_u32_be(x as u32);
            let p3 = p2 + spec_u32_be(y as u32);
            let p4 = p3 + spec_u16_be(w);
            let p5 = p4 + spec_u16_be(h);
            let p6 = p5 + spec_u16_be(pressure);
            let p7 = p6 + spec_u32_be(action_button);
            let rest2 = spec_u32_be(x as u32) + spec_u32_be(y as u32) + spec_u16_be(w)
                + spec_u16_be(h) + spec_u16_be(pressure) + spec_u32_be(action_button) + spec_u32_be(
                buttons,
            );
            assert(b =~= p0 + spec_u64_be(pointer_id) + rest2);
            lemma_be64_of_u64(p0, pointer_id, rest2);
            assert(b =~= p1 + spec_u32_be(x as u32) + (b.subrange(14, b.len() as int)));
            lemma_be32_of_u32(p1, x as u32, b.subrange(14, b.len() as int));
            assert(b =~= p2 + spec_u32_be(y as u32) + (b.subrange(18, b.len() as int)));
            lemma_be32_of_u32(p2, y as u32, b.subrange(18, b.len() as int));
            assert(b =~= p3 + spec_u16_be(w) + (b.subrange(20, b.len() as int)));
            lemma_be16_of_u16(p3, w, b.subrange(20, b.len() as int));
            assert(b =~= p4 + spec_u16_be(h) + (b.subrange(22, b.len() as int)));
            lemma_be16_of_u16(p4, h, b.subrange(22, b.len() as int));
            assert(b =~= p5 + spec_u16_be(pressure) + (b.subrange(24, b.len() as int)));
            lemma_be16_of_u16(p5, pressure, b.subrange(24, b.len() as int));
            assert(b =~= p6 + spec_u32_be(action_button) + (b.subrange(28, b.len() as int)));
            lemma_be32_of_u32(p6, action_button, b.subrange(28, b.len() as int));
            assert(b =~= p7 + spec_u32_be(buttons) + Seq::<u8>::empty());
            lemma_be32_of_u32(p7, buttons, Seq::<u8>::empty());
            let xu = spec_be32(b, 10) as u32;
            let yu = spec_be32(b, 14) as u32;
            assert(xu == x as u32);
            assert(yu == y as u32);
            assert(xu == x as u32 ==> xu as i32 == x) by (bit_vector);
            assert(yu == y as u32 ==> yu as i32 == y) by (bit_vector);
            assert(spec_decode(b) == Some(m));
        },
        _ => {},
    }
}

#[verifier::spinoff_prover]
#[verifier::rlimit(100)]
proof fn lemma_rt_scroll(m: ControlMsgView)
    requires
        m is InjectScrollEvent,
    ensures
        spec_decode(spec_encode(m)) == Some(m),
{
    let b = spec_encode(m);
    match m {
        ControlMsgView::InjectScrollEvent { x, y, w, h, hscroll, vscroll, buttons } => {
            let p0 = seq![3u8];
            let p1 = p0 + spec_u32_be(x as u32);
            let p2 = p1 + spec_u32_be(y as u32);
            let p3 = p2 + spec_u16_be(w);
            let p4 = p3 + spec_u16_be(h);
            let p5 = p4 + spec_u16_be(hscroll as u16);
            let p6 = p5 + spec_u16_be(vscroll as u16);
            assert(b =~= p0 + spec_u32_be(x as u32) + (b.subrange(5, b.len() as int)));
            lemma_be32_of_u32(p0, x as u32, b.subrange(5, b.len() as int));
            assert(b =~= p1 + spec_u32_be(y as u32) + (b.subrange(9, b.len() as int)));
            lemma_be32_of_u32(p1, y as u32, b.subrange(9, b.len() as int));
            assert(b =~= p2 + spec_u16_be(w) + (b.subrange(11, b.len() as int)));
            lemma_be16_of_u16(p2, w, b.subrange(11, b.len() as int));
            assert(b =~= p3 + spec_u16_be(h) + (b.subrange(13, b.len() as int)));
            lemma_be16_of_u16(p3, h, b.subrange(13, b.len() as int));
            assert(b =~= p4 + spec_u16_be(hscroll as u16) + (b.subrange(15, b.len() as int)));
            lemma_be16_of_u16(p4, hscroll as u16, b.subrange(15, b.len() as int));
            assert(b =~= p5 + spec_u16_be(vscroll as u16) + (b.subrange(17, b.len() as int)));
            lemma_be16_of_u16(p5, vscroll as u16, b.subrange(17, b.len() as int));
            assert(b =~= p6 + spec_u32_be(buttons) + Seq::<u8>::empty());
            lemma_be32_of_u32(p6, buttons, Seq::<u8>::empty());
            let xu = spec_be32(b, 1) as u32;
            let yu = spec_be32(b, 5) as u32;
            let hu = spec_be16(b, 13) as u16;
            let vu = spec_be16(b, 15) as u16;
            assert(xu == x as u32);
            assert(yu == y as u32);
            assert(hu == hscroll as u16);
            assert(vu == vscroll as u16);
            assert(xu == x as u32 ==> xu as i32 == x) by (bit_vector);
            assert(yu == y as u32 ==> yu as i32 == y) by (bit_vector);
            assert(hu == hscroll as u16 ==> hu as i16 == hscroll) by (bit_vector);
            assert(vu == vscroll as u16 ==> vu as i16 == vscroll) by (bit_vector);
            assert(spec_decode(b) == Some(m));
        },
        _ => {},
    }
}

#[verifier::spinoff_prover]
proof fn lemma_rt_clipboard(m: ControlMsgView)
    requires
        m is SetClipboard,
        spec_round_trippable(m),
    ensures
        spec_decode(spec_encode(m)) == Some(m),
{
    let b = spec_encode(m);
    match m {
        ControlMsgView::SetClipboard { sequence, paste, text } => {
            assert(spec_truncation_index(text, SC_CONTROL_MSG_CLIPBOARD_TEXT_MAX_LENGTH as int)
                == text.len());
            let p0 = seq![9u8];
            let p1 = p0 + spec_u64_be(sequence);
            let p2 = p1 + seq![if paste { 1u8 } else { 0u8 }];
            assert(b =~= p0 + spec_u64_be(sequence) + (b.subrange(9, b.len() as int)));
            lemma_be64_of_u64(p0, sequence, b.subrange(9, b.len() as int));
            assert(b =~= p2 + spec_u32_be(text.len() as u32) + text);
            lemma_be32_of_u32(p2, text.len() as u32, text);
            assert(b[9] == if paste { 1u8 } else { 0u8 });
            assert(b.subrange(14, b.len() as int) =~= text);
            assert(spec_decode(b) == Some(m));
        },
        _ => {},
    }
}

/// Decoding inverts encoding: for every control message whose text fits its
/// field, decoding the encoded bytes yields the message back, field for field.
pub proof fn lemma_decode_encode(m: ControlMsgView)
    requires
        spec_round_trippable(m),
    ensures
        spec_decode(spec_encode(m)) == Some(m),
{
    match m {
        ControlMsgView::InjectKeycode { .. } => lemma_rt_keycode(m),
        ControlMsgView::InjectText { .. } => lemma_rt_text(m),
        ControlMsgView::InjectTouchEvent { .. } => lemma_rt_touch(m),
        ControlMsgView::InjectScrollEvent { .. } => lemma_rt_scroll(m),
        ControlMsgView::SetClipboard { .. } => lemma_rt_clipboard(m),
        ControlMsgView::BackOrScreenOn { .. } => {
            assert(spec_decode(spec_encode(m)) == Some(m));
        },
        ControlMsgView::GetClipboard { .. } => {
            assert(spec_decode(spec_encode(m)) == Some(m));
        },
        ControlMsgView::SetDisplayPower { .. } => {
            assert(spec_decode(spec_encode(m)) == Some(m));
        },
        ControlMsgView::RotateDevice => {
            assert(spec_decode(spec_encode(m)) == Some(m));
        },
        ControlMsgView::ResetVideo => {
            assert(spec_decode(spec_encode(m)) == Some(m));
        },
    }
}


/// An `InjectText` encoding truncates the text by bytes on a UTF-8 character
/// boundary and never carries more than the 300-byte payload limit.
pub proof fn lemma_inject_text_truncates(text: Seq<u8>)
    requires
        valid_utf8(text),
    ensures
        ({
            let n = spec_truncation_index(text, SC_CONTROL_MSG_INJECT_TEXT_MAX_LENGTH as int);
            &&& 0 <= n <= SC_CONTROL_MSG_INJECT_TEXT_MAX_LENGTH
            &&& n <= text.len()
            &&& text.len() <= SC_CONTROL_MSG_INJECT_TEXT_MAX_LENGTH ==> n == text.len()
            &&& vstd::utf8::is_char_boundary(text, n)
            &&& spec_encode(ControlMsgView::InjectText { text }) =~= seq![1u8] + spec_u32_be(
                n as u32,
            ) + text.subrange(0, n)
            &&& spec_encode(ControlMsgView::InjectText { text }).len() <= 5
                + SC_CONTROL_MSG_INJECT_TEXT_MAX_LENGTH
        }),
{
    crate::binary::lemma_truncation_index_boundary(
        text,
        SC_CONTROL_MSG_INJECT_TEXT_MAX_LENGTH as int,
    );
}

/// A `SetClipboard` encoding never carries more text than the clipboard
/// payload limit: longer text is truncated on a UTF-8 character boundary
/// before encoding.
pub proof fn lemma_set_clipboard_truncates(sequence: u64, paste: bool, text: Seq<u8>)
    requires
        valid_utf8(text),
    ensures
        ({
            let n = spec_truncation_index(text, SC_CONTROL_MSG_CLIPBOARD_TEXT_MAX_LENGTH as int);
            &&& 0 <= n <= SC_CONTROL_MSG_CLIPBOARD_TEXT_MAX_LENGTH
            &&& n <= text.len()
            &&& text.len() <= SC_CONTROL_MSG_CLIPBOARD_TEXT_MAX_LENGTH ==> n == text.len()
            &&& vstd::utf8::is_char_boundary(text, n)
            &&& spec_encode(ControlMsgView::SetClipboard { sequence, paste, text }).len() == 14 + n
            &&& spec_encode(ControlMsgView::SetClipboard { sequence, paste, text }).len()
                <= SC_CONTROL_MSG_MAX_SIZE
        }),
{
    crate::binary::lemma_truncation_index_boundary(
        text,
        SC_CONTROL_MSG_CLIPBOARD_TEXT_MAX_LENGTH as int,
    );
}

} // verus!
