//! Protocol constants shared by the wire codec and the mapping runtime.

use vstd::prelude::*;

verus! {

/// Key event action byte of an `InjectKeycode` message.
#[derive(Debug, Clone, Copy, PartialEq, Eq, Structural)]
pub enum KeyEventAction {
    Down,
    Up,
    Multiple,
}

impl KeyEventAction {
    /// The wire byte for this action.
    pub open spec fn spec_value(self) -> u8 {
        match self {
            KeyEventAction::Down => 0,
            KeyEventAction::Up => 1,
            KeyEventAction::Multiple => 2,
        }
    }

    #[verifier::when_used_as_spec(spec_value)]
    pub fn value(self) -> (r: u8)
        ensures
            r == self.spec_value(),
    {
        match self {
            KeyEventAction::Down => 0,
            KeyEventAction::Up => 1,
            KeyEventAction::Multiple => 2,
        }
    }
}

/// Motion event action byte of an `InjectTouchEvent` message.
#[derive(Debug, Clone, Copy, PartialEq, Eq, Structural)]
pub enum MotionEventAction {
    Down,
    Up,
    Move,
}

impl MotionEventAction {
    /// The wire byte for this action.
    pub open spec fn spec_value(self) -> u8 {
        match self {
            MotionEventAction::Down => 0,
            MotionEventAction::Up => 1,
            MotionEventAction::Move => 2,
        }
    }

    #[verifier::when_used_as_spec(spec_value)]
    pub fn value(self) -> (r: u8)
        ensures
            r == self.spec_value(),
    {
        match self {
            MotionEventAction::Down => 0,
            MotionEventAction::Up => 1,
            MotionEventAction::Move => 2,
        }
    }
}

/// Copy key byte of a `GetClipboard` message.
#[derive(Debug, Clone, Copy, PartialEq, Eq, Structural)]
pub enum CopyKey {
    NoKey,
    Copy,
    Cut,
}

impl CopyKey {
    /// The wire byte for this copy key.
    pub open spec fn spec_value(self) -> u8 {
        match self {
            CopyKey::NoKey => 0,
            CopyKey::Copy => 1,
            CopyKey::Cut => 2,
        }
    }

    #[verifier::when_used_as_spec(spec_value)]
    pub fn value(self) -> (r: u8)
        ensures
            r == self.spec_value(),
    {
        match self {
            CopyKey::NoKey => 0,
            CopyKey::Copy => 1,
            CopyKey::Cut => 2,
        }
    }
}

/// Meta state flag: some shift key is held.
pub const META_SHIFT_ON: u32 = 0x000001;

/// Meta state flag: some alt key is held.
pub const META_ALT_ON: u32 = 0x000002;

/// Meta state flag: some control key is held.
pub const META_CTRL_ON: u32 = 0x001000;

/// Meta state flag: some meta (super) key is held.
pub const META_META_ON: u32 = 0x010000;

/// Meta state flag: caps lock is latched.
pub const META_CAPS_LOCK_ON: u32 = 0x100000;

/// Meta state flag: num lock is latched.
pub const META_NUM_LOCK_ON: u32 = 0x200000;

/// Meta state flag: scroll lock is latched.
pub const META_SCROLL_LOCK_ON: u32 = 0x400000;

/// Motion event button bit: primary button (left mouse).
pub const BUTTON_PRIMARY: u32 = 0x1;

/// Motion event button bit: secondary button (right mouse).
pub const BUTTON_SECONDARY: u32 = 0x2;

/// Motion event button bit: tertiary button (middle mouse).
pub const BUTTON_TERTIARY: u32 = 0x4;

/// The fixed-point form of pressure 1.0 on the wire.
pub const PRESSURE_FULL: u16 = 0xFFFF;

} // verus!
