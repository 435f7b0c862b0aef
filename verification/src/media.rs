//! Video stream framing: the 12-byte packet header, the codec tag of the
//! stream header, and the merging of codec-config packets into data packets.

use vstd::prelude::*;

use crate::control_msg::{spec_be32, spec_be64};

verus! {

/// Codec tag of an H.264 video stream.
pub const SC_CODEC_ID_H264: u32 = 0x68323634;

/// Codec tag of an H.265 video stream.
pub const SC_CODEC_ID_H265: u32 = 0x68323635;

/// Codec tag of an AV1 video stream.
pub const SC_CODEC_ID_AV1: u32 = 0x00617631;

/// The video codec of a stream.
#[derive(Debug, Clone, Copy, PartialEq, Eq, Structural)]
pub enum VideoCodec {
    H264,
    H265,
    AV1,
}

impl VideoCodec {
    /// The codec named by a stream header tag.
    pub open spec fn spec_from_raw(raw: u32) -> Option<VideoCodec> {
        if raw == SC_CODEC_ID_H264 {
            Some(VideoCodec::H264)
        } else if raw == SC_CODEC_ID_H265 {
            Some(VideoCodec::H265)
        } else if raw == SC_CODEC_ID_AV1 {
            Some(VideoCodec::AV1)
        } else {
            None
        }
    }

    #[verifier::when_used_as_spec(spec_from_raw)]
    pub fn from_raw(raw: u32) -> (r: Option<VideoCodec>)
        ensures
            r == Self::spec_from_raw(raw),
    {
        if raw == SC_CODEC_ID_H264 {
            Some(VideoCodec::H264)
        } else if raw == SC_CODEC_ID_H265 {
            Some(VideoCodec::H265)
        } else if raw == SC_CODEC_ID_AV1 {
            Some(VideoCodec::AV1)
        } else {
            None
        }
    }

    /// The lower-case name of the codec, as passed to the companion.
    pub fn name(&self) -> (r: String)
        ensures
            r@ == match self {
                VideoCodec::H264 => "h264"@,
                VideoCodec::H265 => "h265"@,
                VideoCodec::AV1 => "av1"@,
            },
    {
        match self {
            VideoCodec::H264 => "h264".to_owned(),
            VideoCodec::H265 => "h265".to_owned(),
            VideoCodec::AV1 => "av1".to_owned(),
        }
    }

    /// Whether config packets of this codec must be prepended to the next
    /// data packet before decoding.
    pub fn must_merge_config(&self) -> (r: bool)
        ensures
            r == (self is H264 || self is H265),
    {
        match self {
            VideoCodec::H264 => true,
            VideoCodec::H265 => true,
            VideoCodec::AV1 => false,
        }
    }
}

/// The stream header that precedes the first video packet: a codec tag and
/// the initial frame size.
#[derive(Debug, Clone, Copy, PartialEq, Eq, Structural)]
pub struct VideoStreamHeader {
    pub codec: VideoCodec,
    pub width: u32,
    pub height: u32,
}

/// Parses the 12-byte video stream header. Fails exactly on an unknown codec
/// tag.
pub fn parse_stream_header(buf: &Vec<u8>) -> (r: Option<VideoStreamHeader>)
    requires
        buf@.len() == 12,
    ensures
        match r {
            Some(h) => VideoCodec::spec_from_raw(spec_be32(buf@, 0) as u32) == Some(h.codec)
                && h.width == spec_be32(buf@, 4) as u32 && h.height == spec_be32(buf@, 8) as u32,
            None => VideoCodec::spec_from_raw(spec_be32(buf@, 0) as u32) is None,
        },
{
    let raw = read_u32_at(buf, 0);
    let width = read_u32_at(buf, 4);
    let height = read_u32_at(buf, 8);
    match VideoCodec::from_raw(raw) {
        Some(codec) => Some(VideoStreamHeader { codec, width, height }),
        None => None,
    }
}

/// One framed video packet: presentation timestamp (absent for codec-config
/// packets), keyframe flag, and payload size still to be read.
#[derive(Debug, Clone, Copy, PartialEq, Eq, Structural)]
pub struct VideoPacketHeader {
    pub pts: Option<i64>,
    pub keyframe: bool,
    pub size: u32,
}

/// The config bit of a packet header: the top bit of `pts_flags`.
pub open spec fn spec_is_config(pts_flags: u64) -> bool {
    pts_flags / 0x8000000000000000 == 1
}

/// The keyframe bit of a packet header: bit 62 of `pts_flags`.
pub open spec fn spec_is_keyframe(pts_flags: u64) -> bool {
    (pts_flags / 0x4000000000000000) % 2 == 1
}

/// The low 62 bits of `pts_flags`: the presentation timestamp.
pub open spec fn spec_pts_of(pts_flags: u64) -> int {
    (pts_flags % 0x4000000000000000) as int
}

/// Parses the 12-byte packet header: 8 bytes of `pts_flags` then a 4-byte
/// payload size. The timestamp is `None` exactly when the config bit is set.
pub fn parse_packet_header(buf: &Vec<u8>) -> (r: VideoPacketHeader)
    requires
        buf@.len() == 12,
    ensures
        ({
            let pts_flags = spec_be64(buf@, 0) as u64;
            &&& r.size == spec_be32(buf@, 8) as u32
            &&& r.keyframe == spec_is_keyframe(pts_flags)
            &&& r.pts == if spec_is_config(pts_flags) {
                Option::<i64>::None
            } else {
                Some(spec_pts_of(pts_flags) as i64)
            }
        }),
{
    let pts_flags = read_u64_at(buf, 0);
    let size = read_u32_at(buf, 8);
    let config = (pts_flags >> 63) & 1 == 1;
    let keyframe = (pts_flags >> 62) & 1 == 1;
    let pts_low = pts_flags & 0x3FFFFFFFFFFFFFFF;
    proof {
        assert(((pts_flags >> 63) & 1 == 1) == (pts_flags / 0x8000000000000000 == 1))
            by (bit_vector);
        assert(((pts_flags >> 62) & 1 == 1) == ((pts_flags / 0x4000000000000000) % 2 == 1))
            by (bit_vector);
        assert((pts_flags & 0x3FFFFFFFFFFFFFFF) == pts_flags % 0x4000000000000000) by (bit_vector);
        assert(pts_flags % 0x4000000000000000 < 0x4000000000000000);
    }
    VideoPacketHeader {
        pts: if config {
            None
        } else {
            Some(pts_low as i64)
        },
        keyframe,
        size,
    }
}

/// A video packet handed to the decoder.
#[derive(Debug, Clone)]
pub struct VideoPacket {
    pub pts: Option<i64>,
    pub keyframe: bool,
    pub data: Vec<u8>,
}

/// Holds the last codec-config payload until the next data packet arrives,
/// then prepends it.
pub struct PacketMerger {
    config: Option<Vec<u8>>,
}

impl PacketMerger {
    /// The pending config payload, if one has been seen and not yet merged.
    pub closed spec fn spec_config(&self) -> Option<Seq<u8>> {
        if self.config is Some {
            Some(self.config->Some_0@)
        } else {
            None
        }
    }

    /// A fresh merger with no pending config payload.
    pub fn new() -> (r: PacketMerger)
        ensures
            r.spec_config() is None,
    {
        PacketMerger { config: None }
    }

    /// Absorbs a config packet, or prepends the pending config payload to a
    /// data packet.
    pub fn merge(&mut self, packet: &mut VideoPacket)
        ensures
            old(packet).pts is None ==> final(self).spec_config() == Some(old(packet).data@)
                && final(packet).data@ == old(packet).data@,
            old(packet).pts is Some && old(self).spec_config() is Some
                ==> final(self).spec_config() is None && final(packet).data@ == old(
                self,
            ).spec_config().unwrap() + old(packet).data@,
            old(packet).pts is Some && old(self).spec_config() is None
                ==> final(self).spec_config() is None && final(packet).data@ == old(packet).data@,
            final(packet).pts == old(packet).pts,
            final(packet).keyframe == old(packet).keyframe,
    {
        let is_config = packet.pts.is_none();
        if is_config {
            self.config = Some(packet.data.clone());
            proof {
                assert(self.spec_config() == Some(packet.data@));
            }
        } else if self.config.is_some() {
            let mut merged = match self.config.take() {
                Some(c) => c,
                None => Vec::new(),
            };
            let ghost c = merged@;
            let mut rest: Vec<u8> = Vec::new();
            core::mem::swap(&mut rest, &mut packet.data);
            merged.append(&mut rest);
            packet.data = merged;
            proof {
                assert(packet.data@ =~= c + old(packet).data@);
            }
        }
    }
}

/// A decoded frame on its way to the renderer, or the end of the stream.
pub enum VideoMsg {
    Data { data: Vec<u8>, width: u32, height: u32 },
    Close,
}

fn read_u32_at(b: &Vec<u8>, i: usize) -> (r: u32)
    requires
        i + 4 <= b@.len(),
    ensures
        r == spec_be32(b@, i as int),
{
    let n = b.len();
    (b[i] as u32) * 0x1000000 + (b[i + 1] as u32) * 0x10000 + (b[i + 2] as u32) * 0x100 + (b[i
        + 3] as u32)
}

fn read_u64_at(b: &Vec<u8>, i: usize) -> (r: u64)
    requires
        i + 8 <= b@.len(),
    ensures
        r == spec_be64(b@, i as int),
{
    let n = b.len();
    (b[i] as u64) * 0x100000000000000 + (b[i + 1] as u64) * 0x1000000000000 + (b[i + 2] as u64)
        * 0x10000000000 + (b[i + 3] as u64) * 0x100000000 + (b[i + 4] as u64) * 0x1000000 + (b[i
        + 5] as u64) * 0x10000 + (b[i + 6] as u64) * 0x100 + (b[i + 7] as u64)
}

} // verus!
