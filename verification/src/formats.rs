//! Pixel formats, capture formats and the V4L2 values that the proxy sets.

use vstd::prelude::*;

use crate::text::{decimal, hex_digits, push_decimal, push_char, push_hex};

verus! {

/// The V4L2 code of a four-character pixel format: the bytes in
/// little-endian order, as `PixelFormat::from_fourcc` builds it.
pub open spec fn fourcc_value(b0: u8, b1: u8, b2: u8, b3: u8) -> u32 {
    (b0 as u32) | ((b1 as u32) << 8u32) | ((b2 as u32) << 16u32) | ((b3 as u32) << 24u32)
}

/// The V4L2 code of a four-character pixel format such as `b"YUYV"`.
pub fn fourcc_code(code: &[u8; 4]) -> (r: u32)
    ensures
        r == fourcc_value(code@[0], code@[1], code@[2], code@[3]),
{
    let b0 = code[0];
    let b1 = code[1];
    let b2 = code[2];
    let b3 = code[3];
    (b0 as u32) | ((b1 as u32) << 8u32) | ((b2 as u32) << 16u32) | ((b3 as u32) << 24u32)
}

/// The code of the `YUYV` format.
pub open spec fn yuyv() -> u32 {
    fourcc_value(0x59, 0x55, 0x59, 0x56)
}

/// The code of the `MJPG` format.
pub open spec fn mjpg() -> u32 {
    fourcc_value(0x4d, 0x4a, 0x50, 0x47)
}

/// A pixel format and a frame size.
#[derive(Clone, Copy, Debug, PartialEq, Eq, Structural)]
pub struct FrameFormat {
    /// The pixel format's code.
    pub pixelformat: u32,
    /// Frame width in pixels.
    pub width: u32,
    /// Frame height in pixels.
    pub height: u32,
}

/// How many capture formats are tried.
pub open spec fn candidate_count() -> nat {
    4
}

/// The `i`-th capture format tried, most wanted first: `YUYV` 640x480 (the
/// format that `v4l2loopback` and applications such as Discord or Chromium
/// take most readily), `MJPG` 1280x720, `MJPG` 640x480, `YUYV` 320x240.
pub open spec fn candidate(i: int) -> FrameFormat {
    if i == 0 {
        FrameFormat { pixelformat: yuyv(), width: 640, height: 480 }
    } else if i == 1 {
        FrameFormat { pixelformat: mjpg(), width: 1280, height: 720 }
    } else if i == 2 {
        FrameFormat { pixelformat: mjpg(), width: 640, height: 480 }
    } else {
        FrameFormat { pixelformat: yuyv(), width: 320, height: 240 }
    }
}

/// The `i`-th capture format tried.
pub fn capture_candidate(i: usize) -> (f: FrameFormat)
    requires
        i < candidate_count(),
    ensures
        f == candidate(i as int),
{
    let (code, width, height): ([u8; 4], u32, u32) = if i == 0 {
        ([0x59u8, 0x55u8, 0x59u8, 0x56u8], 640, 480)
    } else if i == 1 {
        ([0x4du8, 0x4au8, 0x50u8, 0x47u8], 1280, 720)
    } else if i == 2 {
        ([0x4du8, 0x4au8, 0x50u8, 0x47u8], 640, 480)
    } else {
        ([0x59u8, 0x55u8, 0x59u8, 0x56u8], 320, 240)
    };
    FrameFormat { pixelformat: fourcc_code(&code), width, height }
}

/// Whether two formats agree in pixel format, width and height.
pub fn same_format(a: &FrameFormat, b: &FrameFormat) -> (r: bool)
    ensures
        r == (*a == *b),
{
    a.pixelformat == b.pixelformat && a.width == b.width && a.height == b.height
}

/// The V4L2 capability bit of single-planar video capture.
pub open spec fn cap_video_capture() -> u32 {
    0x0000_0001
}

/// The V4L2 capability bit of multi-planar video capture.
pub open spec fn cap_video_capture_mplane() -> u32 {
    0x0000_1000
}

/// Whether a device with capability bits `device_caps` captures video,
/// single- or multi-planar.
pub open spec fn captures_video(device_caps: u32) -> bool {
    (device_caps & cap_video_capture()) == cap_video_capture() || (device_caps
        & cap_video_capture_mplane()) == cap_video_capture_mplane()
}

/// Whether a device with capability bits `device_caps` captures video.
pub fn supports_capture(device_caps: u32) -> (r: bool)
    ensures
        r == captures_video(device_caps),
{
    (device_caps & 0x0000_0001) == 0x0000_0001 || (device_caps & 0x0000_1000) == 0x0000_1000
}

/// The capture parameters (`v4l2_captureparm` within `v4l2_streamparm`) that
/// ask for a frame rate.
#[derive(Clone, Copy, Debug, PartialEq, Eq, Structural)]
pub struct CaptureParameters {
    /// The buffer type: video capture.
    pub buffer_type: u32,
    /// The capability flags: the time per frame can be set.
    pub capability: u32,
    /// The capture mode.
    pub capture_mode: u32,
    /// The time per frame, numerator, in seconds.
    pub numerator: u32,
    /// The time per frame, denominator.
    pub denominator: u32,
    /// Driver-specific mode.
    pub extended_mode: u32,
    /// Number of read buffers.
    pub read_buffers: u32,
}

/// The parameters that ask for `fps` frames per second: a time per frame of
/// `1/fps` seconds on the video capture queue (type 1), with the
/// time-per-frame capability (`0x1000`) and every other field zero.
pub open spec fn frame_rate_parameters(fps: u32) -> CaptureParameters {
    CaptureParameters {
        buffer_type: 1,
        capability: 0x1000,
        capture_mode: 0,
        numerator: 1,
        denominator: fps,
        extended_mode: 0,
        read_buffers: 0,
    }
}

/// The parameters that ask for `fps` frames per second.
pub fn capture_parameters(fps: u32) -> (p: CaptureParameters)
    ensures
        p == frame_rate_parameters(fps),
{
    CaptureParameters {
        buffer_type: 1,
        capability: 0x1000,
        capture_mode: 0,
        numerator: 1,
        denominator: fps,
        extended_mode: 0,
        read_buffers: 0,
    }
}

/// The four characters of a pixel format's code, each byte taken as a
/// character, lowest first.
pub open spec fn fourcc_chars(code: u32) -> Seq<char> {
    seq![
        (code & 0xff) as char,
        ((code >> 8u32) & 0xff) as char,
        ((code >> 16u32) & 0xff) as char,
        ((code >> 24u32) & 0xff) as char,
    ]
}

/// Appends the four characters of a pixel format's code.
pub fn push_fourcc(s: &mut String, code: u32)
    ensures
        final(s)@ == old(s)@ + fourcc_chars(code),
{
    let b0: u8 = (code & 0xff) as u8;
    let b1: u8 = ((code >> 8u32) & 0xff) as u8;
    let b2: u8 = ((code >> 16u32) & 0xff) as u8;
    let b3: u8 = ((code >> 24u32) & 0xff) as u8;
    assert(code & 0xff < 256) by (bit_vector);
    assert((code >> 8u32) & 0xff < 256) by (bit_vector);
    assert((code >> 16u32) & 0xff < 256) by (bit_vector);
    assert((code >> 24u32) & 0xff < 256) by (bit_vector);
    push_char(s, b0 as char);
    push_char(s, b1 as char);
    push_char(s, b2 as char);
    push_char(s, b3 as char);
    assert(final(s)@ =~= old(s)@ + fourcc_chars(code));
}

/// How a format is shown in the log: `WxH 0xCCCCCCCC (FOURCC)`, with the
/// code in eight lower-case hexadecimal digits.
pub open spec fn format_text(f: FrameFormat) -> Seq<char> {
    decimal(f.width as nat) + "x"@ + decimal(f.height as nat) + " 0x"@ + hex_digits(
        f.pixelformat as nat,
        8,
    ) + " ("@ + fourcc_chars(f.pixelformat) + ")"@
}

/// Appends how a format is shown in the log.
pub fn push_format(s: &mut String, f: FrameFormat)
    ensures
        final(s)@ == old(s)@ + format_text(f),
{
    let ghost start = s@;
    push_decimal(s, f.width);
    s.append("x");
    push_decimal(s, f.height);
    s.append(" 0x");
    push_hex(s, f.pixelformat as u64, 8);
    s.append(" (");
    push_fourcc(s, f.pixelformat);
    s.append(")");
    assert(s@ =~= start + format_text(f));
}

} // verus!
