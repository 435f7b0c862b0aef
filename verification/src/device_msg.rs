//! Messages sent from the device back to the host, decoded from a byte
//! stream with an exact specification.

use vstd::prelude::*;
use vstd::utf8::valid_utf8;

use crate::control_msg::{spec_be16, spec_be32, spec_be64, spec_str_bytes};

verus! {

/// Discriminants of the device message header byte.
#[derive(Debug, Clone, Copy, PartialEq, Eq, Structural)]
pub enum DeviceMsgType {
    Clipboard,
    AckClipboard,
    UhidOutput,
    Rotation,
}

impl DeviceMsgType {
    /// The message type named by a wire byte.
    pub open spec fn spec_from_u8(value: u8) -> Option<DeviceMsgType> {
        if value == 0 {
            Some(DeviceMsgType::Clipboard)
        } else if value == 1 {
            Some(DeviceMsgType::AckClipboard)
        } else if value == 2 {
            Some(DeviceMsgType::UhidOutput)
        } else if value == 3 {
            Some(DeviceMsgType::Rotation)
        } else {
            None
        }
    }

    #[verifier::when_used_as_spec(spec_from_u8)]
    pub fn from_u8(value: u8) -> (r: Option<DeviceMsgType>)
        ensures
            r == Self::spec_from_u8(value),
    {
        if value == 0 {
            Some(DeviceMsgType::Clipboard)
        } else if value == 1 {
            Some(DeviceMsgType::AckClipboard)
        } else if value == 2 {
            Some(DeviceMsgType::UhidOutput)
        } else if value == 3 {
            Some(DeviceMsgType::Rotation)
        } else {
            None
        }
    }
}

/// A message from the device. The `scid` of a rotation is the id of the
/// session whose socket delivered it, stamped in by the caller.
#[derive(Debug, Clone)]
pub enum ScrcpyDeviceMsg {
    Clipboard { length: u32, text: String },
    AckClipboard { sequence: u64 },
    UhidOutput { id: u16, size: u16, data: Vec<u8> },
    Rotation { rotation: u16, width: u32, height: u32, scid: String },
    Unknown,
}

/// The mathematical shape of a device message.
pub enum DeviceMsgView {
    Clipboard { length: u32, text: Seq<u8> },
    AckClipboard { sequence: u64 },
    UhidOutput { id: u16, size: u16, data: Seq<u8> },
    Rotation { rotation: u16, width: u32, height: u32, scid: Seq<char> },
    Unknown,
}

impl View for ScrcpyDeviceMsg {
    type V = DeviceMsgView;

    open spec fn view(&self) -> DeviceMsgView {
        match self {
            ScrcpyDeviceMsg::Clipboard { length, text } => DeviceMsgView::Clipboard {
                length: *length,
                text: spec_str_bytes(text@),
            },
            ScrcpyDeviceMsg::AckClipboard { sequence } => DeviceMsgView::AckClipboard {
                sequence: *sequence,
            },
            ScrcpyDeviceMsg::UhidOutput { id, size, data } => DeviceMsgView::UhidOutput {
                id: *id,
                size: *size,
                data: data@,
            },
            ScrcpyDeviceMsg::Rotation { rotation, width, height, scid } => DeviceMsgView::Rotation {
                rotation: *rotation,
                width: *width,
                height: *height,
                scid: scid@,
            },
            ScrcpyDeviceMsg::Unknown => DeviceMsgView::Unknown,
        }
    }
}

/// The outcome of decoding the front of a device byte stream.
pub enum DeviceDecodeView {
    /// The buffer does not yet hold one whole message.
    NeedMore,
    /// The message is a clipboard whose payload is not valid UTF-8.
    BadText,
    /// One whole message, and how many bytes of the buffer it took.
    Parsed(DeviceMsgView, int),
}

/// What the front of a device byte stream decodes to. An unknown header byte
/// consumes itself and yields `Unknown`, so the stream is not aborted.
pub open spec fn spec_device_decode(s: Seq<u8>, scid: Seq<char>) -> DeviceDecodeView {
    if s.len() < 1 {
        DeviceDecodeView::NeedMore
    } else if s[0] == 0 {
        if s.len() < 5 {
            DeviceDecodeView::NeedMore
        } else {
            let n = spec_be32(s, 1);
            if s.len() < 5 + n {
                DeviceDecodeView::NeedMore
            } else if valid_utf8(s.subrange(5, 5 + n)) {
                DeviceDecodeView::Parsed(
                    DeviceMsgView::Clipboard { length: n as u32, text: s.subrange(5, 5 + n) },
                    5 + n,
                )
            } else {
                DeviceDecodeView::BadText
            }
        }
    } else if s[0] == 1 {
        if s.len() < 9 {
            DeviceDecodeView::NeedMore
        } else {
            DeviceDecodeView::Parsed(
                DeviceMsgView::AckClipboard { sequence: spec_be64(s, 1) as u64 },
                9,
            )
        }
    } else if s[0] == 2 {
        if s.len() < 5 {
            DeviceDecodeView::NeedMore
        } else {
            let n = spec_be16(s, 3);
            if s.len() < 5 + n {
                DeviceDecodeView::NeedMore
            } else {
                DeviceDecodeView::Parsed(
                    DeviceMsgView::UhidOutput {
                        id: spec_be16(s, 1) as u16,
                        size: n as u16,
                        data: s.subrange(5, 5 + n),
                    },
                    5 + n,
                )
            }
        }
    } else if s[0] == 3 {
        if s.len() < 11 {
            DeviceDecodeView::NeedMore
        } else {
            DeviceDecodeView::Parsed(
                DeviceMsgView::Rotation {
                    rotation: spec_be16(s, 1) as u16,
                    width: spec_be32(s, 3) as u32,
                    height: spec_be32(s, 7) as u32,
                    scid,
                },
                11,
            )
        }
    } else {
        DeviceDecodeView::Parsed(DeviceMsgView::Unknown, 1)
    }
}

/// Why the front of the buffer did not decode to a message.
#[derive(Debug, Clone, Copy, PartialEq, Eq, Structural)]
pub enum DeviceMsgError {
    /// More bytes must be read from the socket first.
    NeedMoreData,
    /// A clipboard payload was not valid UTF-8; the socket should be closed.
    InvalidText,
}

impl ScrcpyDeviceMsg {
    /// Decodes the message at `start` in `bytes`, returning it and the number
    /// of bytes it occupied.
    pub fn read_msg(bytes: &Vec<u8>, start: usize, scid: &str) -> (r: Result<
        (ScrcpyDeviceMsg, usize),
        DeviceMsgError,
    >)
        requires
            start <= bytes@.len(),
        ensures
            match r {
                Ok((m, used)) => start + used <= bytes@.len() && spec_device_decode(
                    bytes@.skip(start as int),
                    scid@,
                ) == DeviceDecodeView::Parsed(m@, used as int),
                Err(DeviceMsgError::NeedMoreData) => spec_device_decode(
                    bytes@.skip(start as int),
                    scid@,
                ) is NeedMore,
                Err(DeviceMsgError::InvalidText) => spec_device_decode(
                    bytes@.skip(start as int),
                    scid@,
                ) is BadText,
            },
    {
        let ghost s = bytes@.skip(start as int);
        let n_total = bytes.len();
        if start >= n_total {
            return Err(DeviceMsgError::NeedMoreData);
        }
        let tag = bytes[start];
        proof {
            assert(s[0] == bytes@[start as int]);
        }
        if tag == 0 {
            if n_total - start < 5 {
                return Err(DeviceMsgError::NeedMoreData);
            }
            let n = read_u32_at(bytes, start + 1);
            proof {
                lemma_skip_be32(bytes@, start as int, 1);
            }
            if (n_total - start - 5) < n as usize {
                return Err(DeviceMsgError::NeedMoreData);
            }
            let sub = vstd::slice::slice_to_vec(
                vstd::slice::slice_subrange(bytes.as_slice(), start + 5, start + 5 + n as usize),
            );
            proof {
                assert(sub@ =~= s.subrange(5, 5 + n));
            }
            match crate::control_msg::string_from_utf8(sub) {
                Some(text) => Ok((ScrcpyDeviceMsg::Clipboard { length: n, text }, 5 + n as usize)),
                None => Err(DeviceMsgError::InvalidText),
            }
        } else if tag == 1 {
            if n_total - start < 9 {
                return Err(DeviceMsgError::NeedMoreData);
            }
            let sequence = read_u64_at(bytes, start + 1);
            proof {
                lemma_skip_be64(bytes@, start as int, 1);
            }
            Ok((ScrcpyDeviceMsg::AckClipboard { sequence }, 9))
        } else if tag == 2 {
            if n_total - start < 5 {
                return Err(DeviceMsgError::NeedMoreData);
            }
            let id = read_u16_at(bytes, start + 1);
            let n = read_u16_at(bytes, start + 3);
            proof {
                lemma_skip_be16(bytes@, start as int, 1);
                lemma_skip_be16(bytes@, start as int, 3);
            }
            if (n_total - start - 5) < n as usize {
                return Err(DeviceMsgError::NeedMoreData);
            }
            let data = vstd::slice::slice_to_vec(
                vstd::slice::slice_subrange(bytes.as_slice(), start + 5, start + 5 + n as usize),
            );
            proof {
                assert(data@ =~= s.subrange(5, 5 + n));
            }
            Ok((ScrcpyDeviceMsg::UhidOutput { id, size: n, data }, 5 + n as usize))
        } else if tag == 3 {
            if n_total - start < 11 {
                return Err(DeviceMsgError::NeedMoreData);
            }
            let rotation = read_u16_at(bytes, start + 1);
            let width = read_u32_at(bytes, start + 3);
            let height = read_u32_at(bytes, start + 7);
            proof {
                lemma_skip_be16(bytes@, start as int, 1);
                lemma_skip_be32(bytes@, start as int, 3);
                lemma_skip_be32(bytes@, start as int, 7);
            }
            Ok((ScrcpyDeviceMsg::Rotation { rotation, width, height, scid: scid.to_owned() }, 11))
        } else {
            Ok((ScrcpyDeviceMsg::Unknown, 1))
        }
    }
}

proof fn lemma_skip_be16(b: Seq<u8>, start: int, off: int)
    requires
        0 <= start,
        0 <= off,
        start + off + 2 <= b.len(),
    ensures
        spec_be16(b.skip(start), off) == spec_be16(b, start + off),
{
}

proof fn lemma_skip_be32(b: Seq<u8>, start: int, off: int)
    requires
        0 <= start,
        0 <= off,
        start + off + 4 <= b.len(),
    ensures
        spec_be32(b.skip(start), off) == spec_be32(b, start + off),
{
}

proof fn lemma_skip_be64(b: Seq<u8>, start: int, off: int)
    requires
        0 <= start,
        0 <= off,
        start + off + 8 <= b.len(),
    ensures
        spec_be64(b.skip(start), off) == spec_be64(b, start + off),
{
}

fn read_u16_at(b: &Vec<u8>, i: usize) -> (r: u16)
    requires
        i + 2 <= b@.len(),
    ensures
        r == spec_be16(b@, i as int),
{
    let n = b.len();
    (b[i] as u16) * 0x100 + (b[i + 1] as u16)
}

fn read_u32_at(b: &Vec<u8>, i: usize) -> (r: u32)
    requires
        i + 4 <= b@.len(),
    ensures
        r == spec_be32(b@, i as int),
{
    let n = b.len();
    (b[i] as u32) * 0x1000000 + (b[i + 1] as u32) * 0x10000 + (b[i + 2] as u32) * 0x100 + (b[i
        + 3] as u32)
}

fn read_u64_at(b: &Vec<u8>, i: usize) -> (r: u64)
    requires
        i + 8 <= b@.len(),
    ensures
        r == spec_be64(b@, i as int),
{
    let n = b.len();
    (b[i] as u64) * 0x100000000000000 + (b[i + 1] as u64) * 0x1000000000000 + (b[i + 2] as u64)
        * 0x10000000000 + (b[i + 3] as u64) * 0x100000000 + (b[i + 4] as u64) * 0x1000000 + (b[i
        + 5] as u64) * 0x10000 + (b[i + 6] as u64) * 0x100 + (b[i + 7] as u64)
}

} // verus!
