//! The protocol revision spoken by the web command fast path: message
//! generators addressed by `ControlMsgType`, and the command set relayed to
//! a device socket, planned as timed byte buffers.

use vstd::prelude::*;
use vstd::string::StringSliceAdditionalSpecFns;

use crate::binary::{
    spec_position, spec_string_field, spec_u16_be, spec_u32_be, spec_u64_be, write_16be,
    write_32be, write_64be, write_posion, write_string,
};

verus! {

/// Message types of the protocol revision used by the command fast path.
#[derive(Debug, Clone, Copy, PartialEq, Eq, Structural)]
pub enum ControlMsgType {
    ControlMsgTypeInjectKeycode,
    ControlMsgTypeInjectText,
    ControlMsgTypeInjectTouchEvent,
    ControlMsgTypeInjectScrollEvent,
    ControlMsgTypeBackOrScreenOn,
    ControlMsgTypeExpandNotificationPanel,
    ControlMsgTypeExpandSettingsPanel,
    ControlMsgTypeCollapsePanels,
    ControlMsgTypeGetClipboard,
    ControlMsgTypeSetClipboard,
    ControlMsgTypeSetScreenPowerMode,
    ControlMsgTypeRotateDevice,
    ControlMsgTypeUhidCreate,
    ControlMsgTypeUhidInput,
    ControlMsgTypeOpenHardKeyboardSettings,
}

impl ControlMsgType {
    /// The header byte of this message type.
    pub open spec fn spec_value(self) -> u8 {
        match self {
            ControlMsgType::ControlMsgTypeInjectKeycode => 0,
            ControlMsgType::ControlMsgTypeInjectText => 1,
            ControlMsgType::ControlMsgTypeInjectTouchEvent => 2,
            ControlMsgType::ControlMsgTypeInjectScrollEvent => 3,
            ControlMsgType::ControlMsgTypeBackOrScreenOn => 4,
            ControlMsgType::ControlMsgTypeExpandNotificationPanel => 5,
            ControlMsgType::ControlMsgTypeExpandSettingsPanel => 6,
            ControlMsgType::ControlMsgTypeCollapsePanels => 7,
            ControlMsgType::ControlMsgTypeGetClipboard => 8,
            ControlMsgType::ControlMsgTypeSetClipboard => 9,
            ControlMsgType::ControlMsgTypeSetScreenPowerMode => 10,
            ControlMsgType::ControlMsgTypeRotateDevice => 11,
            ControlMsgType::ControlMsgTypeUhidCreate => 12,
            ControlMsgType::ControlMsgTypeUhidInput => 13,
            ControlMsgType::ControlMsgTypeOpenHardKeyboardSettings => 14,
        }
    }

    #[verifier::when_used_as_spec(spec_value)]
    pub fn value(self) -> (r: u8)
        ensures
            r == self.spec_value(),
    {
        match self {
            ControlMsgType::ControlMsgTypeInjectKeycode => 0,
            ControlMsgType::ControlMsgTypeInjectText => 1,
            ControlMsgType::ControlMsgTypeInjectTouchEvent => 2,
            ControlMsgType::ControlMsgTypeInjectScrollEvent => 3,
            ControlMsgType::ControlMsgTypeBackOrScreenOn => 4,
            ControlMsgType::ControlMsgTypeExpandNotificationPanel => 5,
            ControlMsgType::ControlMsgTypeExpandSettingsPanel => 6,
            ControlMsgType::ControlMsgTypeCollapsePanels => 7,
            ControlMsgType::ControlMsgTypeGetClipboard => 8,
            ControlMsgType::ControlMsgTypeSetClipboard => 9,
            ControlMsgType::ControlMsgTypeSetScreenPowerMode => 10,
            ControlMsgType::ControlMsgTypeRotateDevice => 11,
            ControlMsgType::ControlMsgTypeUhidCreate => 12,
            ControlMsgType::ControlMsgTypeUhidInput => 13,
            ControlMsgType::ControlMsgTypeOpenHardKeyboardSettings => 14,
        }
    }

    /// The message type named by a command code, if any.
    pub open spec fn spec_from_i64(value: i64) -> Option<ControlMsgType> {
        if value == 0 {
            Some(ControlMsgType::ControlMsgTypeInjectKeycode)
        } else if value == 1 {
            Some(ControlMsgType::ControlMsgTypeInjectText)
        } else if value == 2 {
            Some(ControlMsgType::ControlMsgTypeInjectTouchEvent)
        } else if value == 3 {
            Some(ControlMsgType::ControlMsgTypeInjectScrollEvent)
        } else if value == 4 {
            Some(ControlMsgType::ControlMsgTypeBackOrScreenOn)
        } else if value == 5 {
            Some(ControlMsgType::ControlMsgTypeExpandNotificationPanel)
        } else if value == 6 {
            Some(ControlMsgType::ControlMsgTypeExpandSettingsPanel)
        } else if value == 7 {
            Some(ControlMsgType::ControlMsgTypeCollapsePanels)
        } else if value == 8 {
            Some(ControlMsgType::ControlMsgTypeGetClipboard)
        } else if value == 9 {
            Some(ControlMsgType::ControlMsgTypeSetClipboard)
        } else if value == 10 {
            Some(ControlMsgType::ControlMsgTypeSetScreenPowerMode)
        } else if value == 11 {
            Some(ControlMsgType::ControlMsgTypeRotateDevice)
        } else if value == 12 {
            Some(ControlMsgType::ControlMsgTypeUhidCreate)
        } else if value == 13 {
            Some(ControlMsgType::ControlMsgTypeUhidInput)
        } else if value == 14 {
            Some(ControlMsgType::ControlMsgTypeOpenHardKeyboardSettings)
        } else {
            None
        }
    }

    #[verifier::when_used_as_spec(spec_from_i64)]
    pub fn from_i64(value: i64) -> (r: Option<ControlMsgType>)
        ensures
            r == Self::spec_from_i64(value),
    {
        if value == 0 {
            Some(ControlMsgType::ControlMsgTypeInjectKeycode)
        } else if value == 1 {
            Some(ControlMsgType::ControlMsgTypeInjectText)
        } else if value == 2 {
            Some(ControlMsgType::ControlMsgTypeInjectTouchEvent)
        } else if value == 3 {
            Some(ControlMsgType::ControlMsgTypeInjectScrollEvent)
        } else if value == 4 {
            Some(ControlMsgType::ControlMsgTypeBackOrScreenOn)
        } else if value == 5 {
            Some(ControlMsgType::ControlMsgTypeExpandNotificationPanel)
        } else if value == 6 {
            Some(ControlMsgType::ControlMsgTypeExpandSettingsPanel)
        } else if value == 7 {
            Some(ControlMsgType::ControlMsgTypeCollapsePanels)
        } else if value == 8 {
            Some(ControlMsgType::ControlMsgTypeGetClipboard)
        } else if value == 9 {
            Some(ControlMsgType::ControlMsgTypeSetClipboard)
        } else if value == 10 {
            Some(ControlMsgType::ControlMsgTypeSetScreenPowerMode)
        } else if value == 11 {
            Some(ControlMsgType::ControlMsgTypeRotateDevice)
        } else if value == 12 {
            Some(ControlMsgType::ControlMsgTypeUhidCreate)
        } else if value == 13 {
            Some(ControlMsgType::ControlMsgTypeUhidInput)
        } else if value == 14 {
            Some(ControlMsgType::ControlMsgTypeOpenHardKeyboardSettings)
        } else {
            None
        }
    }
}

/// Generates an `InjectKeycode` message: a header byte, the action byte and
/// three 32-bit fields.
pub fn gen_inject_key_ctrl_msg(
    ctrl_msg_type: u8,
    action: u8,
    keycode: u32,
    repeat: u32,
    metastate: u32,
) -> (r: Vec<u8>)
    ensures
        r@ == seq![ctrl_msg_type, action] + spec_u32_be(keycode) + spec_u32_be(repeat)
            + spec_u32_be(metastate),
{
    let mut buf: Vec<u8> = Vec::new();
    buf.push(ctrl_msg_type);
    buf.push(action);
    write_32be(&mut buf, keycode);
    write_32be(&mut buf, repeat);
    write_32be(&mut buf, metastate);
    proof {
        assert(buf@ =~= seq![ctrl_msg_type, action] + spec_u32_be(keycode) + spec_u32_be(repeat)
            + spec_u32_be(metastate));
    }
    buf
}

/// Generates an `InjectTouchEvent` message: a header byte, the action byte,
/// the pointer id, the position block, and the pressure and button fields.
pub fn gen_inject_touch_ctrl_msg(
    ctrl_msg_type: u8,
    action: u8,
    pointer_id: u64,
    x: i32,
    y: i32,
    w: u16,
    h: u16,
    pressure: u16,
    action_button: u32,
    buttons: u32,
) -> (r: Vec<u8>)
    ensures
        r@ == seq![ctrl_msg_type, action] + spec_u64_be(pointer_id) + spec_position(x, y, w, h)
            + spec_u16_be(pressure) + spec_u32_be(action_button) + spec_u32_be(buttons),
{
    let mut buf: Vec<u8> = Vec::new();
    buf.push(ctrl_msg_type);
    buf.push(action);
    write_64be(&mut buf, pointer_id);
    write_posion(&mut buf, x, y, w, h);
    write_16be(&mut buf, pressure);
    write_32be(&mut buf, action_button);
    write_32be(&mut buf, buttons);
    proof {
        assert(buf@ =~= seq![ctrl_msg_type, action] + spec_u64_be(pointer_id) + spec_position(
            x,
            y,
            w,
            h,
        ) + spec_u16_be(pressure) + spec_u32_be(action_button) + spec_u32_be(buttons));
    }
    buf
}

/// The payload of one command-path message, as plain values.
#[derive(Debug, Clone)]
pub enum ControlMsgPayload {
    InjectKeycode { action: u8, keycode: u32, repeat: u32, metastate: u32 },
    InjectText { text: String },
    InjectTouchEvent {
        action: u8,
        pointer_id: u64,
        x: i32,
        y: i32,
        w: u16,
        h: u16,
        pressure: u16,
        action_button: u32,
        buttons: u32,
    },
    InjectScrollEvent { x: i32, y: i32, w: u16, h: u16, hscroll: i16, vscroll: i16, buttons: u32 },
    BackOrScreenOn { action: u8 },
    GetClipboard { copy_key: u8 },
    SetClipboard { sequence: u64, paste: bool, text: String },
    SetScreenPowerMode { mode: u8 },
    UhidCreate { id: u16, report_desc_size: u16, report_desc: Vec<u8> },
    UhidInput { id: u16, size: u16, data: Vec<u8> },
    Empty,
}

/// The exact bytes generated for a message type and a payload of the
/// matching shape; a header byte alone when the shapes do not match or the
/// type has no payload.
pub open spec fn spec_gen_ctrl_msg(t: ControlMsgType, p: ControlMsgPayload) -> Seq<u8> {
    match (t, p) {
        (
            ControlMsgType::ControlMsgTypeInjectKeycode,
            ControlMsgPayload::InjectKeycode { action, keycode, repeat, metastate },
        ) => seq![t.spec_value(), action] + spec_u32_be(keycode) + spec_u32_be(repeat)
            + spec_u32_be(metastate),
        (
            ControlMsgType::ControlMsgTypeInjectText,
            ControlMsgPayload::InjectText { text },
        ) => seq![t.spec_value()] + spec_string_field(
            crate::control_msg::spec_str_bytes(text@),
            crate::control_msg::SC_CONTROL_MSG_INJECT_TEXT_MAX_LENGTH as int,
        ),
        (
            ControlMsgType::ControlMsgTypeInjectTouchEvent,
            ControlMsgPayload::InjectTouchEvent {
                action,
                pointer_id,
                x,
                y,
                w,
                h,
                pressure,
                action_button,
                buttons,
            },
        ) => seq![t.spec_value(), action] + spec_u64_be(pointer_id) + spec_position(x, y, w, h)
            + spec_u16_be(pressure) + spec_u32_be(action_button) + spec_u32_be(buttons),
        (
            ControlMsgType::ControlMsgTypeInjectScrollEvent,
            ControlMsgPayload::InjectScrollEvent { x, y, w, h, hscroll, vscroll, buttons },
        ) => seq![t.spec_value()] + spec_position(x, y, w, h) + spec_u16_be(hscroll as u16)
            + spec_u16_be(vscroll as u16) + spec_u32_be(buttons),
        (
            ControlMsgType::ControlMsgTypeBackOrScreenOn,
            ControlMsgPayload::BackOrScreenOn { action },
        ) => seq![t.spec_value(), action],
        (
            ControlMsgType::ControlMsgTypeGetClipboard,
            ControlMsgPayload::GetClipboard { copy_key },
        ) => seq![t.spec_value(), copy_key],
        (
            ControlMsgType::ControlMsgTypeSetClipboard,
            ControlMsgPayload::SetClipboard { sequence, paste, text },
        ) => seq![t.spec_value()] + spec_u64_be(sequence) + seq![
            if paste {
                1u8
            } else {
                0u8
            },
        ] + spec_string_field(
            crate::control_msg::spec_str_bytes(text@),
            crate::control_msg::SC_CONTROL_MSG_CLIPBOARD_TEXT_MAX_LENGTH as int,
        ),
        (
            ControlMsgType::ControlMsgTypeSetScreenPowerMode,
            ControlMsgPayload::SetScreenPowerMode { mode },
        ) => seq![t.spec_value(), mode],
        (
            ControlMsgType::ControlMsgTypeUhidCreate,
            ControlMsgPayload::UhidCreate { id, report_desc_size, report_desc },
        ) => seq![t.spec_value()] + spec_u16_be(id) + spec_u16_be(report_desc_size)
            + report_desc@,
        (
            ControlMsgType::ControlMsgTypeUhidInput,
            ControlMsgPayload::UhidInput { id, size, data },
        ) => seq![t.spec_value()] + spec_u16_be(id) + spec_u16_be(size) + data@,
        (t, _) => seq![t.spec_value()],
    }
}

/// Generates the wire bytes for one command-path message.
pub fn gen_ctrl_msg(ctrl_msg_type: ControlMsgType, payload: &ControlMsgPayload) -> (r: Vec<u8>)
    ensures
        r@ == spec_gen_ctrl_msg(ctrl_msg_type, *payload),
{
    match (ctrl_msg_type, payload) {
        (
            ControlMsgType::ControlMsgTypeInjectKeycode,
            ControlMsgPayload::InjectKeycode { action, keycode, repeat, metastate },
        ) => gen_inject_key_ctrl_msg(
            ctrl_msg_type.value(),
            *action,
            *keycode,
            *repeat,
            *metastate,
        ),
        (ControlMsgType::ControlMsgTypeInjectText, ControlMsgPayload::InjectText { text }) => {
            let mut buf: Vec<u8> = Vec::new();
            buf.push(ctrl_msg_type.value());
            write_string(
                text.as_str(),
                crate::control_msg::SC_CONTROL_MSG_INJECT_TEXT_MAX_LENGTH,
                &mut buf,
            );
            proof {
                assert(buf@ =~= spec_gen_ctrl_msg(ctrl_msg_type, *payload));
            }
            buf
        },
        (
            ControlMsgType::ControlMsgTypeInjectTouchEvent,
            ControlMsgPayload::InjectTouchEvent {
                action,
                pointer_id,
                x,
                y,
                w,
                h,
                pressure,
                action_button,
                buttons,
            },
        ) => gen_inject_touch_ctrl_msg(
            ctrl_msg_type.value(),
            *action,
            *pointer_id,
            *x,
            *y,
            *w,
            *h,
            *pressure,
            *action_button,
            *buttons,
        ),
        (
            ControlMsgType::ControlMsgTypeInjectScrollEvent,
            ControlMsgPayload::InjectScrollEvent { x, y, w, h, hscroll, vscroll, buttons },
        ) => {
            let mut buf: Vec<u8> = Vec::new();
            buf.push(ctrl_msg_type.value());
            write_posion(&mut buf, *x, *y, *w, *h);
            write_16be(&mut buf, *hscroll as u16);
            write_16be(&mut buf, *vscroll as u16);
            write_32be(&mut buf, *buttons);
            proof {
                assert(buf@ =~= spec_gen_ctrl_msg(ctrl_msg_type, *payload));
            }
            buf
        },
        (
            ControlMsgType::ControlMsgTypeBackOrScreenOn,
            ControlMsgPayload::BackOrScreenOn { action },
        ) => {
            let mut buf: Vec<u8> = Vec::new();
            buf.push(ctrl_msg_type.value());
            buf.push(*action);
            proof {
                assert(buf@ =~= spec_gen_ctrl_msg(ctrl_msg_type, *payload));
            }
            buf
        },
        (
            ControlMsgType::ControlMsgTypeGetClipboard,
            ControlMsgPayload::GetClipboard { copy_key },
        ) => {
            let mut buf: Vec<u8> = Vec::new();
            buf.push(ctrl_msg_type.value());
            buf.push(*copy_key);
            proof {
                assert(buf@ =~= spec_gen_ctrl_msg(ctrl_msg_type, *payload));
            }
            buf
        },
        (
            ControlMsgType::ControlMsgTypeSetClipboard,
            ControlMsgPayload::SetClipboard { sequence, paste, text },
        ) => {
            let mut buf: Vec<u8> = Vec::new();
            buf.push(ctrl_msg_type.value());
            write_64be(&mut buf, *sequence);
            buf.push(if *paste {
                1
            } else {
                0
            });
            write_string(
                text.as_str(),
                crate::control_msg::SC_CONTROL_MSG_CLIPBOARD_TEXT_MAX_LENGTH,
                &mut buf,
            );
            proof {
                assert(buf@ =~= spec_gen_ctrl_msg(ctrl_msg_type, *payload));
            }
            buf
        },
        (
            ControlMsgType::ControlMsgTypeSetScreenPowerMode,
            ControlMsgPayload::SetScreenPowerMode { mode },
        ) => {
            let mut buf: Vec<u8> = Vec::new();
            buf.push(ctrl_msg_type.value());
            buf.push(*mode);
            proof {
                assert(buf@ =~= spec_gen_ctrl_msg(ctrl_msg_type, *payload));
            }
            buf
        },
        (
            ControlMsgType::ControlMsgTypeUhidCreate,
            ControlMsgPayload::UhidCreate { id, report_desc_size, report_desc },
        ) => {
            let mut buf: Vec<u8> = Vec::new();
            buf.push(ctrl_msg_type.value());
            write_16be(&mut buf, *id);
            write_16be(&mut buf, *report_desc_size);
            buf.extend_from_slice(report_desc.as_slice());
            proof {
                assert(buf@ =~= spec_gen_ctrl_msg(ctrl_msg_type, *payload));
            }
            buf
        },
        (ControlMsgType::ControlMsgTypeUhidInput, ControlMsgPayload::UhidInput { id, size, data }) => {
            let mut buf: Vec<u8> = Vec::new();
            buf.push(ctrl_msg_type.value());
            write_16be(&mut buf, *id);
            write_16be(&mut buf, *size);
            buf.extend_from_slice(data.as_slice());
            proof {
                assert(buf@ =~= spec_gen_ctrl_msg(ctrl_msg_type, *payload));
            }
            buf
        },
        (t, _) => {
            let mut buf: Vec<u8> = Vec::new();
            buf.push(t.value());
            proof {
                assert(buf@ =~= spec_gen_ctrl_msg(ctrl_msg_type, *payload));
            }
            buf
        },
    }
}

/// Commands relayed from the web front end straight onto a device socket.
#[derive(Debug, Clone, Copy, PartialEq, Eq, Structural)]
pub enum ScrcpyMaskCmdType {
    SendKey,
    Touch,
    Swipe,
    Shutdown,
}

impl ScrcpyMaskCmdType {
    /// The command named by a command code, if any.
    pub open spec fn spec_from_i64(value: i64) -> Option<ScrcpyMaskCmdType> {
        if value == 15 {
            Some(ScrcpyMaskCmdType::SendKey)
        } else if value == 16 {
            Some(ScrcpyMaskCmdType::Touch)
        } else if value == 17 {
            Some(ScrcpyMaskCmdType::Swipe)
        } else if value == 18 {
            Some(ScrcpyMaskCmdType::Shutdown)
        } else {
            None
        }
    }

    #[verifier::when_used_as_spec(spec_from_i64)]
    pub fn from_i64(value: i64) -> (r: Option<ScrcpyMaskCmdType>)
        ensures
            r == Self::spec_from_i64(value),
    {
        if value == 15 {
            Some(ScrcpyMaskCmdType::SendKey)
        } else if value == 16 {
            Some(ScrcpyMaskCmdType::Touch)
        } else if value == 17 {
            Some(ScrcpyMaskCmdType::Swipe)
        } else if value == 18 {
            Some(ScrcpyMaskCmdType::Shutdown)
        } else {
            None
        }
    }
}

} // verus!
