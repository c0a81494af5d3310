//! Video sessions: uncompressed transmit/receive over a local slot ring
//! ("direct" mode), and pipeline sessions whose buffers live in the
//! engine-owned pool, plus the video part of the format catalog.

use vstd::prelude::*;
use crate::bytes::{bytes_eq, copy_bytes, zeroed};
use crate::error::SessionError;
use crate::mtl::Mtl;
use crate::session::RtpSession;
use crate::wake::WakeGate;

verus! {

/// The cursor after `i` in a ring of `n` slots: cursors advance by one,
/// modulo the ring depth.
pub open spec fn next_idx(i: int, n: int) -> int {
    if i + 1 < n {
        i + 1
    } else {
        0
    }
}

/// The first slot tagged `Free` in cyclic order from `start`, looking at
/// `left` slots; `None` if every slot looked at is occupied.
pub open spec fn scan_free(statuses: Seq<FrameStatus>, start: int, left: nat) -> Option<int>
    decreases left,
{
    if left == 0 {
        None
    } else if statuses[start] is Free {
        Some(start)
    } else {
        scan_free(statuses, next_idx(start, statuses.len() as int), (left - 1) as nat)
    }
}

/// Packing mode used on the wire for uncompressed video.
#[derive(Copy, Clone, Debug, Default, PartialEq, Eq, Structural)]
pub enum Packing {
    /// Block packing mode.
    #[default]
    Bpm,
    /// General packing mode.
    Gpm,
    /// General packing mode, single line.
    GpmSl,
}

/// Frame rates supported by the transport schedule.
#[derive(Copy, Clone, Debug, Default, PartialEq, Eq, Structural)]
pub enum Fps {
    #[default]
    P59_94,
    P50,
    P29_97,
    P25,
    P119_88,
    P120,
    P100,
    P60,
    P30,
    P24,
    P23_98,
}

impl Fps {
    /// Frames per second, as an exact rational: this many frames ...
    pub open spec fn rate_num(self) -> int {
        match self {
            Fps::P59_94 => 60000,
            Fps::P50 => 50000,
            Fps::P29_97 => 30000,
            Fps::P25 => 25000,
            Fps::P119_88 => 120000,
            Fps::P120 => 120000,
            Fps::P100 => 100000,
            Fps::P60 => 60000,
            Fps::P30 => 30000,
            Fps::P24 => 24000,
            Fps::P23_98 => 24000,
        }
    }

    /// ... per this many seconds (1001 for the fractional NTSC-family rates).
    pub open spec fn rate_den(self) -> int {
        match self {
            Fps::P59_94 => 1001,
            Fps::P50 => 1000,
            Fps::P29_97 => 1001,
            Fps::P25 => 1000,
            Fps::P119_88 => 1001,
            Fps::P120 => 1000,
            Fps::P100 => 1000,
            Fps::P60 => 1000,
            Fps::P30 => 1000,
            Fps::P24 => 1000,
            Fps::P23_98 => 1001,
        }
    }

    /// The length of `frame_count` frame intervals, in nanoseconds,
    /// truncated: `frame_count * 1s * rate_den / rate_num`.
    pub open spec fn spec_interval_nanos(self, frame_count: int) -> int {
        frame_count * 1_000_000_000 * self.rate_den() / self.rate_num()
    }

    /// How many nanoseconds `frame_count` frames occupy on the schedule.
    pub fn interval_nanos(self, frame_count: u32) -> (r: u64)
        ensures
            r as int == self.spec_interval_nanos(frame_count as int),
    {
        let num: u64 = match self {
            Fps::P59_94 => 60000,
            Fps::P50 => 50000,
            Fps::P29_97 => 30000,
            Fps::P25 => 25000,
            Fps::P119_88 => 120000,
            Fps::P120 => 120000,
            Fps::P100 => 100000,
            Fps::P60 => 60000,
            Fps::P30 => 30000,
            Fps::P24 => 24000,
            Fps::P23_98 => 24000,
        };
        let den: u64 = match self {
            Fps::P59_94 => 1001,
            Fps::P29_97 => 1001,
            Fps::P119_88 => 1001,
            Fps::P23_98 => 1001,
            _ => 1000,
        };
        let whole: u128 = (frame_count as u128) * 1_000_000_000;
        proof {
            assert(whole * den <= 4_299_262_262_705_000_000_000) by (nonlinear_arith)
                requires
                    0 <= whole <= 0xffff_ffffu128 * 1_000_000_000,
                    0 <= den <= 1001,
            ;
        }
        let ticks: u128 = whole * (den as u128);
        let nanos: u128 = ticks / (num as u128);
        proof {
            vstd::arithmetic::div_mod::lemma_div_is_ordered_by_denominator(
                ticks as int,
                24000,
                num as int,
            );
            vstd::arithmetic::div_mod::lemma_div_is_ordered(
                ticks as int,
                4_299_262_262_705_000_000_000,
                24000,
            );
        }
        nanos as u64
    }

    /// The length of `frame_count` frame intervals, as a `Duration` of
    /// [`Fps::interval_nanos`] nanoseconds.
    pub fn duration(self, frame_count: u32) -> core::time::Duration {
        crate::wake::duration_from_nanos(self.interval_nanos(frame_count))
    }

    /// The rate's name, as `from_str` parses it.
    pub open spec fn spec_name(self) -> Seq<char> {
        match self {
            Fps::P59_94 => "59.94"@,
            Fps::P50 => "50"@,
            Fps::P29_97 => "29.97"@,
            Fps::P25 => "25"@,
            Fps::P119_88 => "119.88"@,
            Fps::P120 => "120"@,
            Fps::P100 => "100"@,
            Fps::P60 => "60"@,
            Fps::P30 => "30"@,
            Fps::P24 => "24"@,
            Fps::P23_98 => "23.98"@,
        }
    }

    /// The rate's name.
    pub fn as_str(self) -> (r: &'static str)
        ensures
            r@ == self.spec_name(),
    {
        match self {
            Fps::P59_94 => "59.94",
            Fps::P50 => "50",
            Fps::P29_97 => "29.97",
            Fps::P25 => "25",
            Fps::P119_88 => "119.88",
            Fps::P120 => "120",
            Fps::P100 => "100",
            Fps::P60 => "60",
            Fps::P30 => "30",
            Fps::P24 => "24",
            Fps::P23_98 => "23.98",
        }
    }
}

impl core::str::FromStr for Fps {
    type Err = SessionError;

    /// The inverse of [`Fps::as_str`]; any other text is an unsupported
    /// format.
    fn from_str(s: &str) -> Result<Self, Self::Err> {
        let b = s.as_bytes();
        if bytes_eq(b, "59.94".as_bytes()) {
            Ok(Fps::P59_94)
        } else if bytes_eq(b, "50".as_bytes()) {
            Ok(Fps::P50)
        } else if bytes_eq(b, "29.97".as_bytes()) {
            Ok(Fps::P29_97)
        } else if bytes_eq(b, "25".as_bytes()) {
            Ok(Fps::P25)
        } else if bytes_eq(b, "119.88".as_bytes()) {
            Ok(Fps::P119_88)
        } else if bytes_eq(b, "120".as_bytes()) {
            Ok(Fps::P120)
        } else if bytes_eq(b, "100".as_bytes()) {
            Ok(Fps::P100)
        } else if bytes_eq(b, "60".as_bytes()) {
            Ok(Fps::P60)
        } else if bytes_eq(b, "30".as_bytes()) {
            Ok(Fps::P30)
        } else if bytes_eq(b, "24".as_bytes()) {
            Ok(Fps::P24)
        } else if bytes_eq(b, "23.98".as_bytes()) {
            Ok(Fps::P23_98)
        } else {
            Err(SessionError::UnsupportedFormat)
        }
    }
}

/// Transport formats for raw video on the wire; each maps to an exact
/// pixel-group byte layout.
#[derive(Copy, Clone, Debug, Default, PartialEq, Eq, Structural)]
pub enum TransportFmt {
    #[default]
    Yuv422_8bit,
    Yuv422_10bit,
    Yuv422_12bit,
    Yuv422_16bit,
    Yuv420_8bit,
    Yuv420_10bit,
    Yuv420_12bit,
    Yuv420_16bit,
    Rgb8bit,
    Rgb10bit,
    Rgb12bit,
    Rgb16bit,
    Yuv444_8bit,
    Yuv444_10bit,
    Yuv444_12bit,
    Yuv444_16bit,
}

impl TransportFmt {
    /// Bytes of one full frame of `w` by `h` pixels in this wire layout, from
    /// the pixel-group ratios of the uncompressed-video transport: e.g. a
    /// 10-bit 4:2:2 pixel pair packs into 5 bytes, a 10-bit 4:4:4 or RGB
    /// pixel quad into 15 bytes.
    pub open spec fn spec_frame_size(self, w: int, h: int) -> int {
        match self {
            TransportFmt::Yuv422_8bit => w * h * 2,
            TransportFmt::Yuv422_10bit => w * h * 5 / 2,
            TransportFmt::Yuv422_12bit => w * h * 3,
            TransportFmt::Yuv422_16bit => w * h * 4,
            TransportFmt::Yuv420_8bit => w * h * 3 / 2,
            TransportFmt::Yuv420_10bit => w * h * 15 / 8,
            TransportFmt::Yuv420_12bit => w * h * 9 / 4,
            TransportFmt::Yuv420_16bit => w * h * 3,
            TransportFmt::Rgb8bit => w * h * 3,
            TransportFmt::Rgb10bit => w * h * 15 / 4,
            TransportFmt::Rgb12bit => w * h * 9 / 2,
            TransportFmt::Rgb16bit => w * h * 6,
            TransportFmt::Yuv444_8bit => w * h * 3,
            TransportFmt::Yuv444_10bit => w * h * 15 / 4,
            TransportFmt::Yuv444_12bit => w * h * 9 / 2,
            TransportFmt::Yuv444_16bit => w * h * 6,
        }
    }

    /// Byte size of one frame in this transport format.
    pub fn frame_size(&self, width: u32, height: u32) -> (r: usize)
        requires
            width as int * height as int * 15 <= usize::MAX as int,
        ensures
            r as int == self.spec_frame_size(width as int, height as int),
    {
        let w = width as usize;
        let h = height as usize;
        match self {
            TransportFmt::Yuv422_8bit => w * h * 2,
            TransportFmt::Yuv422_10bit => w * h * 5 / 2,
            TransportFmt::Yuv422_12bit => w * h * 3,
            TransportFmt::Yuv422_16bit => w * h * 4,
            TransportFmt::Yuv420_8bit => w * h * 3 / 2,
            TransportFmt::Yuv420_10bit => w * h * 15 / 8,
            TransportFmt::Yuv420_12bit => w * h * 9 / 4,
            TransportFmt::Yuv420_16bit => w * h * 3,
            TransportFmt::Rgb8bit => w * h * 3,
            TransportFmt::Rgb10bit => w * h * 15 / 4,
            TransportFmt::Rgb12bit => w * h * 9 / 2,
            TransportFmt::Rgb16bit => w * h * 6,
            TransportFmt::Yuv444_8bit => w * h * 3,
            TransportFmt::Yuv444_10bit => w * h * 15 / 4,
            TransportFmt::Yuv444_12bit => w * h * 9 / 2,
            TransportFmt::Yuv444_16bit => w * h * 6,
        }
    }
}

impl TransportFmt {
    /// The format's name, as `from_str` parses it.
    pub open spec fn spec_name(self) -> Seq<char> {
        match self {
            TransportFmt::Yuv422_8bit => "yuv_422_8bit"@,
            TransportFmt::Yuv422_10bit => "yuv_422_10bit"@,
            TransportFmt::Yuv422_12bit => "yuv_422_12bit"@,
            TransportFmt::Yuv422_16bit => "yuv_422_16bit"@,
            TransportFmt::Yuv420_8bit => "yuv_420_8bit"@,
            TransportFmt::Yuv420_10bit => "yuv_420_10bit"@,
            TransportFmt::Yuv420_12bit => "yuv_420_12bit"@,
            TransportFmt::Yuv420_16bit => "yuv_420_16bit"@,
            TransportFmt::Rgb8bit => "rgb_8bit"@,
            TransportFmt::Rgb10bit => "rgb_10bit"@,
            TransportFmt::Rgb12bit => "rgb_12bit"@,
            TransportFmt::Rgb16bit => "rgb_16bit"@,
            TransportFmt::Yuv444_8bit => "yuv_444_8bit"@,
            TransportFmt::Yuv444_10bit => "yuv_444_10bit"@,
            TransportFmt::Yuv444_12bit => "yuv_444_12bit"@,
            TransportFmt::Yuv444_16bit => "yuv_444_16bit"@,
        }
    }

    /// The format's name.
    pub fn as_str(self) -> (r: &'static str)
        ensures
            r@ == self.spec_name(),
    {
        match self {
            TransportFmt::Yuv422_8bit => "yuv_422_8bit",
            TransportFmt::Yuv422_10bit => "yuv_422_10bit",
            TransportFmt::Yuv422_12bit => "yuv_422_12bit",
            TransportFmt::Yuv422_16bit => "yuv_422_16bit",
            TransportFmt::Yuv420_8bit => "yuv_420_8bit",
            TransportFmt::Yuv420_10bit => "yuv_420_10bit",
            TransportFmt::Yuv420_12bit => "yuv_420_12bit",
            TransportFmt::Yuv420_16bit => "yuv_420_16bit",
            TransportFmt::Rgb8bit => "rgb_8bit",
            TransportFmt::Rgb10bit => "rgb_10bit",
            TransportFmt::Rgb12bit => "rgb_12bit",
            TransportFmt::Rgb16bit => "rgb_16bit",
            TransportFmt::Yuv444_8bit => "yuv_444_8bit",
            TransportFmt::Yuv444_10bit => "yuv_444_10bit",
            TransportFmt::Yuv444_12bit => "yuv_444_12bit",
            TransportFmt::Yuv444_16bit => "yuv_444_16bit",
        }
    }
}

impl core::str::FromStr for TransportFmt {
    type Err = SessionError;

    /// The inverse of [`TransportFmt::as_str`]; any other text is an
    /// unsupported format.
    fn from_str(s: &str) -> Result<Self, Self::Err> {
        let b = s.as_bytes();
        if bytes_eq(b, "yuv_422_8bit".as_bytes()) {
            Ok(TransportFmt::Yuv422_8bit)
        } else if bytes_eq(b, "yuv_422_10bit".as_bytes()) {
            Ok(TransportFmt::Yuv422_10bit)
        } else if bytes_eq(b, "yuv_422_12bit".as_bytes()) {
            Ok(TransportFmt::Yuv422_12bit)
        } else if bytes_eq(b, "yuv_422_16bit".as_bytes()) {
            Ok(TransportFmt::Yuv422_16bit)
        } else if bytes_eq(b, "yuv_420_8bit".as_bytes()) {
            Ok(TransportFmt::Yuv420_8bit)
        } else if bytes_eq(b, "yuv_420_10bit".as_bytes()) {
            Ok(TransportFmt::Yuv420_10bit)
        } else if bytes_eq(b, "yuv_420_12bit".as_bytes()) {
            Ok(TransportFmt::Yuv420_12bit)
        } else if bytes_eq(b, "yuv_420_16bit".as_bytes()) {
            Ok(TransportFmt::Yuv420_16bit)
        } else if bytes_eq(b, "rgb_8bit".as_bytes()) {
            Ok(TransportFmt::Rgb8bit)
        } else if bytes_eq(b, "rgb_10bit".as_bytes()) {
            Ok(TransportFmt::Rgb10bit)
        } else if bytes_eq(b, "rgb_12bit".as_bytes()) {
            Ok(TransportFmt::Rgb12bit)
        } else if bytes_eq(b, "rgb_16bit".as_bytes()) {
            Ok(TransportFmt::Rgb16bit)
        } else if bytes_eq(b, "yuv_444_8bit".as_bytes()) {
            Ok(TransportFmt::Yuv444_8bit)
        } else if bytes_eq(b, "yuv_444_10bit".as_bytes()) {
            Ok(TransportFmt::Yuv444_10bit)
        } else if bytes_eq(b, "yuv_444_12bit".as_bytes()) {
            Ok(TransportFmt::Yuv444_12bit)
        } else if bytes_eq(b, "yuv_444_16bit".as_bytes()) {
            Ok(TransportFmt::Yuv444_16bit)
        } else {
            Err(SessionError::UnsupportedFormat)
        }
    }
}

/// States a frame slot can be in: nobody holds it, the application has
/// written it and the engine has not picked it up yet, or the engine has
/// claimed it for active transmission.
#[derive(Copy, Clone, Debug, Default, PartialEq, Eq, Structural)]
pub enum FrameStatus {
    #[default]
    Free,
    InUse,
    Ready,
}

/// In-memory frame layouts used on the pipeline (format-converting) paths.
#[derive(Copy, Clone, Debug, Default, PartialEq, Eq, Structural)]
pub enum FrameFmt {
    Yuv422Planar10Le,
    V210,
    Y210,
    Yuv422Planar8,
    Uyvy,
    #[default]
    Yuv422Rfc4175Pg2Be10,
    Yuv422Planar12Le,
    Yuv422Rfc4175Pg2Be12,
    Yuv444Planar10Le,
    Yuv444Rfc4175Pg4Be10,
    Yuv444Planar12Le,
    Yuv444Rfc4175Pg2Be12,
    Yuv420Custom8,
    Yuv422Custom8,
    Argb,
    Bgra,
    Rgb8,
    Gbrplanar10Le,
    RgbRfc4175Pg4Be10,
    Gbrplanar12Le,
    RgbRfc4175Pg2Be12,
    JpegxsCodestream,
    H264CbrCodestream,
    H264Codestream,
    H265CbrCodestream,
    H265Codestream,
}

impl FrameFmt {
    /// Bytes of one `w` by `h` frame in this layout, or `None` for the
    /// codestream layouts, whose size is not a function of the resolution.
    pub open spec fn spec_frame_size(self, w: int, h: int) -> Option<int> {
        match self {
            FrameFmt::Yuv422Planar10Le => Some(w * h * 4),
            FrameFmt::Y210 => Some(w * h * 4),
            FrameFmt::Yuv422Planar12Le => Some(w * h * 4),
            FrameFmt::V210 => Some(w * h * 16 / 6),
            FrameFmt::Yuv422Planar8 => Some(w * h * 2),
            FrameFmt::Uyvy => Some(w * h * 2),
            FrameFmt::Yuv422Custom8 => Some(w * h * 2),
            FrameFmt::Yuv422Rfc4175Pg2Be10 => Some(w * h * 5 / 2),
            FrameFmt::Yuv422Rfc4175Pg2Be12 => Some(w * h * 3),
            FrameFmt::Yuv444Planar10Le => Some(w * h * 6),
            FrameFmt::Yuv444Planar12Le => Some(w * h * 6),
            FrameFmt::Gbrplanar10Le => Some(w * h * 6),
            FrameFmt::Gbrplanar12Le => Some(w * h * 6),
            FrameFmt::Yuv444Rfc4175Pg4Be10 => Some(w * h * 15 / 4),
            FrameFmt::RgbRfc4175Pg4Be10 => Some(w * h * 15 / 4),
            FrameFmt::Yuv444Rfc4175Pg2Be12 => Some(w * h * 9 / 2),
            FrameFmt::RgbRfc4175Pg2Be12 => Some(w * h * 9 / 2),
            FrameFmt::Yuv420Custom8 => Some(w * h * 6 / 4),
            FrameFmt::Argb => Some(w * h * 4),
            FrameFmt::Bgra => Some(w * h * 4),
            FrameFmt::Rgb8 => Some(w * h * 3),
            _ => None,
        }
    }

    /// Byte size of one frame in this layout; an unknown (codestream) layout
    /// is a configuration error, not a runtime condition.
    pub fn frame_size(&self, width: u32, height: u32) -> (r: Result<
        usize,
        crate::error::SessionError,
    >)
        requires
            width as int * height as int * 16 <= usize::MAX as int,
        ensures
            match r {
                Ok(n) => self.spec_frame_size(width as int, height as int) == Some(n as int),
                Err(e) => {
                    &&& self.spec_frame_size(width as int, height as int) is None
                    &&& e == crate::error::SessionError::UnsupportedFormat
                },
            },
    {
        let w = width as usize;
        let h = height as usize;
        match self {
            FrameFmt::Yuv422Planar10Le => Ok(w * h * 4),
            FrameFmt::Y210 => Ok(w * h * 4),
            FrameFmt::Yuv422Planar12Le => Ok(w * h * 4),
            FrameFmt::V210 => Ok(w * h * 16 / 6),
            FrameFmt::Yuv422Planar8 => Ok(w * h * 2),
            FrameFmt::Uyvy => Ok(w * h * 2),
            FrameFmt::Yuv422Custom8 => Ok(w * h * 2),
            FrameFmt::Yuv422Rfc4175Pg2Be10 => Ok(w * h * 5 / 2),
            FrameFmt::Yuv422Rfc4175Pg2Be12 => Ok(w * h * 3),
            FrameFmt::Yuv444Planar10Le => Ok(w * h * 6),
            FrameFmt::Yuv444Planar12Le => Ok(w * h * 6),
            FrameFmt::Gbrplanar10Le => Ok(w * h * 6),
            FrameFmt::Gbrplanar12Le => Ok(w * h * 6),
            FrameFmt::Yuv444Rfc4175Pg4Be10 => Ok(w * h * 15 / 4),
            FrameFmt::RgbRfc4175Pg4Be10 => Ok(w * h * 15 / 4),
            FrameFmt::Yuv444Rfc4175Pg2Be12 => Ok(w * h * 9 / 2),
            FrameFmt::RgbRfc4175Pg2Be12 => Ok(w * h * 9 / 2),
            FrameFmt::Yuv420Custom8 => Ok(w * h * 6 / 4),
            FrameFmt::Argb => Ok(w * h * 4),
            FrameFmt::Bgra => Ok(w * h * 4),
            FrameFmt::Rgb8 => Ok(w * h * 3),
            _ => Err(crate::error::SessionError::UnsupportedFormat),
        }
    }
}

impl FrameFmt {
    /// The layout's name, as `from_str` parses it.
    pub open spec fn spec_name(self) -> Seq<char> {
        match self {
            FrameFmt::Yuv422Planar10Le => "YUV422PLANAR10LE"@,
            FrameFmt::V210 => "V210"@,
            FrameFmt::Y210 => "Y210"@,
            FrameFmt::Yuv422Planar8 => "YUV422PLANAR8"@,
            FrameFmt::Uyvy => "UYVY"@,
            FrameFmt::Yuv422Rfc4175Pg2Be10 => "YUV422RFC4175PG2BE10"@,
            FrameFmt::Yuv422Planar12Le => "YUV422PLANAR12LE"@,
            FrameFmt::Yuv422Rfc4175Pg2Be12 => "YUV422RFC4175PG2BE12"@,
            FrameFmt::Yuv444Planar10Le => "YUV444PLANAR10LE"@,
            FrameFmt::Yuv444Rfc4175Pg4Be10 => "YUV444RFC4175PG4BE10"@,
            FrameFmt::Yuv444Planar12Le => "YUV444PLANAR12LE"@,
            FrameFmt::Yuv444Rfc4175Pg2Be12 => "YUV444RFC4175PG2BE12"@,
            FrameFmt::Yuv420Custom8 => "YUV420CUSTOM8"@,
            FrameFmt::Yuv422Custom8 => "YUV422CUSTOM8"@,
            FrameFmt::Argb => "ARGB"@,
            FrameFmt::Bgra => "BGRA"@,
            FrameFmt::Rgb8 => "RGB8"@,
            FrameFmt::Gbrplanar10Le => "GBRPLANAR10LE"@,
            FrameFmt::RgbRfc4175Pg4Be10 => "RGBRFC4175PG4BE10"@,
            FrameFmt::Gbrplanar12Le => "GBRPLANAR12LE"@,
            FrameFmt::RgbRfc4175Pg2Be12 => "RGBRFC4175PG2BE12"@,
            FrameFmt::JpegxsCodestream => "JPEGXS_CODESTREAM"@,
            FrameFmt::H264CbrCodestream => "H264_CBR_CODESTREAM"@,
            FrameFmt::H264Codestream => "H264_CODESTREAM"@,
            FrameFmt::H265CbrCodestream => "H265_CBR_CODESTREAM"@,
            FrameFmt::H265Codestream => "H265_CODESTREAM"@,
        }
    }

    /// The layout's name.
    pub fn as_str(self) -> (r: &'static str)
        ensures
            r@ == self.spec_name(),
    {
        match self {
            FrameFmt::Yuv422Planar10Le => "YUV422PLANAR10LE",
            FrameFmt::V210 => "V210",
            FrameFmt::Y210 => "Y210",
            FrameFmt::Yuv422Planar8 => "YUV422PLANAR8",
            FrameFmt::Uyvy => "UYVY",
            FrameFmt::Yuv422Rfc4175Pg2Be10 => "YUV422RFC4175PG2BE10",
            FrameFmt::Yuv422Planar12Le => "YUV422PLANAR12LE",
            FrameFmt::Yuv422Rfc4175Pg2Be12 => "YUV422RFC4175PG2BE12",
            FrameFmt::Yuv444Planar10Le => "YUV444PLANAR10LE",
            FrameFmt::Yuv444Rfc4175Pg4Be10 => "YUV444RFC4175PG4BE10",
            FrameFmt::Yuv444Planar12Le => "YUV444PLANAR12LE",
            FrameFmt::Yuv444Rfc4175Pg2Be12 => "YUV444RFC4175PG2BE12",
            FrameFmt::Yuv420Custom8 => "YUV420CUSTOM8",
            FrameFmt::Yuv422Custom8 => "YUV422CUSTOM8",
            FrameFmt::Argb => "ARGB",
            FrameFmt::Bgra => "BGRA",
            FrameFmt::Rgb8 => "RGB8",
            FrameFmt::Gbrplanar10Le => "GBRPLANAR10LE",
            FrameFmt::RgbRfc4175Pg4Be10 => "RGBRFC4175PG4BE10",
            FrameFmt::Gbrplanar12Le => "GBRPLANAR12LE",
            FrameFmt::RgbRfc4175Pg2Be12 => "RGBRFC4175PG2BE12",
            FrameFmt::JpegxsCodestream => "JPEGXS_CODESTREAM",
            FrameFmt::H264CbrCodestream => "H264_CBR_CODESTREAM",
            FrameFmt::H264Codestream => "H264_CODESTREAM",
            FrameFmt::H265CbrCodestream => "H265_CBR_CODESTREAM",
            FrameFmt::H265Codestream => "H265_CODESTREAM",
        }
    }
}

impl core::str::FromStr for FrameFmt {
    type Err = SessionError;

    /// The inverse of [`FrameFmt::as_str`]; any other text is an
    /// unsupported format.
    fn from_str(s: &str) -> Result<Self, Self::Err> {
        let b = s.as_bytes();
        if bytes_eq(b, "YUV422PLANAR10LE".as_bytes()) {
            Ok(FrameFmt::Yuv422Planar10Le)
        } else if bytes_eq(b, "V210".as_bytes()) {
            Ok(FrameFmt::V210)
        } else if bytes_eq(b, "Y210".as_bytes()) {
            Ok(FrameFmt::Y210)
        } else if bytes_eq(b, "YUV422PLANAR8".as_bytes()) {
            Ok(FrameFmt::Yuv422Planar8)
        } else if bytes_eq(b, "UYVY".as_bytes()) {
            Ok(FrameFmt::Uyvy)
        } else if bytes_eq(b, "YUV422RFC4175PG2BE10".as_bytes()) {
            Ok(FrameFmt::Yuv422Rfc4175Pg2Be10)
        } else if bytes_eq(b, "YUV422PLANAR12LE".as_bytes()) {
            Ok(FrameFmt::Yuv422Planar12Le)
        } else if bytes_eq(b, "YUV422RFC4175PG2BE12".as_bytes()) {
            Ok(FrameFmt::Yuv422Rfc4175Pg2Be12)
        } else if bytes_eq(b, "YUV444PLANAR10LE".as_bytes()) {
            Ok(FrameFmt::Yuv444Planar10Le)
        } else if bytes_eq(b, "YUV444RFC4175PG4BE10".as_bytes()) {
            Ok(FrameFmt::Yuv444Rfc4175Pg4Be10)
        } else if bytes_eq(b, "YUV444PLANAR12LE".as_bytes()) {
            Ok(FrameFmt::Yuv444Planar12Le)
        } else if bytes_eq(b, "YUV444RFC4175PG2BE12".as_bytes()) {
            Ok(FrameFmt::Yuv444Rfc4175Pg2Be12)
        } else if bytes_eq(b, "YUV420CUSTOM8".as_bytes()) {
            Ok(FrameFmt::Yuv420Custom8)
        } else if bytes_eq(b, "YUV422CUSTOM8".as_bytes()) {
            Ok(FrameFmt::Yuv422Custom8)
        } else if bytes_eq(b, "ARGB".as_bytes()) {
            Ok(FrameFmt::Argb)
        } else if bytes_eq(b, "BGRA".as_bytes()) {
            Ok(FrameFmt::Bgra)
        } else if bytes_eq(b, "RGB8".as_bytes()) {
            Ok(FrameFmt::Rgb8)
        } else if bytes_eq(b, "GBRPLANAR10LE".as_bytes()) {
            Ok(FrameFmt::Gbrplanar10Le)
        } else if bytes_eq(b, "RGBRFC4175PG4BE10".as_bytes()) {
            Ok(FrameFmt::RgbRfc4175Pg4Be10)
        } else if bytes_eq(b, "GBRPLANAR12LE".as_bytes()) {
            Ok(FrameFmt::Gbrplanar12Le)
        } else if bytes_eq(b, "RGBRFC4175PG2BE12".as_bytes()) {
            Ok(FrameFmt::RgbRfc4175Pg2Be12)
        } else if bytes_eq(b, "JPEGXS_CODESTREAM".as_bytes()) {
            Ok(FrameFmt::JpegxsCodestream)
        } else if bytes_eq(b, "H264_CBR_CODESTREAM".as_bytes()) {
            Ok(FrameFmt::H264CbrCodestream)
        } else if bytes_eq(b, "H264_CODESTREAM".as_bytes()) {
            Ok(FrameFmt::H264Codestream)
        } else if bytes_eq(b, "H265_CBR_CODESTREAM".as_bytes()) {
            Ok(FrameFmt::H265CbrCodestream)
        } else if bytes_eq(b, "H265_CODESTREAM".as_bytes()) {
            Ok(FrameFmt::H265Codestream)
        } else {
            Err(SessionError::UnsupportedFormat)
        }
    }
}

/// A ring of `n` slots as a fresh transmit session creates it: every slot
/// `Free`.
pub open spec fn spec_fresh_ring(n: nat) -> Seq<FrameStatus> {
    Seq::new(n, |i: int| FrameStatus::Free)
}

/// One application fill on the ring model, exactly as
/// [`VideoTx::fill_next_frame`] performs it in direct mode: claim the first
/// `Free` slot in cyclic order from the producer cursor, tag it `Ready`,
/// and advance the cursor one past it; `None` when no slot is `Free`.
pub open spec fn spec_fill_step(statuses: Seq<FrameStatus>, producer: int) -> Option<
    (Seq<FrameStatus>, int),
> {
    match scan_free(statuses, producer, statuses.len()) {
        Some(k) => Some(
            (statuses.update(k, FrameStatus::Ready), next_idx(k, statuses.len() as int)),
        ),
        None => None,
    }
}

/// The ring and producer cursor after `j` consecutive successful fills on a
/// fresh ring of depth `n`; `None` as soon as one of them fails.
pub open spec fn spec_fill_n(n: nat, j: nat) -> Option<(Seq<FrameStatus>, int)>
    decreases j,
{
    if j == 0 {
        Some((spec_fresh_ring(n), 0))
    } else {
        match spec_fill_n(n, (j - 1) as nat) {
            Some(sp) => spec_fill_step(sp.0, sp.1),
            None => None,
        }
    }
}

/// What the scan returns is always a `Free` slot inside the ring: together
/// with the operation contracts this pins the whole transition table — the
/// fill turns exactly one `Free` slot `Ready`, the claim callback turns a
/// `Ready` slot `InUse`, the completion callback turns an `InUse` slot
/// `Free`, and every other (tag, event) pair is rejected with every tag
/// left unchanged.
pub proof fn lemma_scan_finds_free(statuses: Seq<FrameStatus>, start: int, left: nat)
    requires
        0 <= start < statuses.len(),
    ensures
        scan_free(statuses, start, left) matches Some(k) ==> 0 <= k < statuses.len()
            && statuses[k] is Free,
    decreases left,
{
    if left > 0 && !(statuses[start] is Free) {
        lemma_scan_finds_free(statuses, next_idx(start, statuses.len() as int), (left - 1) as nat);
    }
}

/// A scan over a ring without one `Free` slot finds nothing, wherever it
/// starts and however far it looks.
pub proof fn lemma_scan_none(statuses: Seq<FrameStatus>, start: int, left: nat)
    requires
        0 <= start < statuses.len(),
        forall|i: int| 0 <= i < statuses.len() ==> !(#[trigger] statuses[i] is Free),
    ensures
        scan_free(statuses, start, left) is None,
    decreases left,
{
    if left > 0 {
        lemma_scan_none(statuses, next_idx(start, statuses.len() as int), (left - 1) as nat);
    }
}

/// After `j <= n` fills on a fresh ring of depth `n >= 2`, every fill so
/// far has succeeded, slots `0` to `j-1` are `Ready` (claimed in order),
/// the rest are still `Free`, and the producer cursor stands at `j mod n`.
pub proof fn lemma_fill_n_shape(n: nat, j: nat)
    requires
        2 <= n,
        j <= n,
    ensures
        spec_fill_n(n, j) matches Some(sp) && {
            &&& sp.0.len() == n
            &&& (forall|i: int| 0 <= i < n ==> (#[trigger] sp.0[i] is Ready <==> i < j))
            &&& (forall|i: int| 0 <= i < n ==> (#[trigger] sp.0[i] is Free <==> j <= i))
            &&& sp.1 == (if j < n {
                j as int
            } else {
                0
            })
        },
    decreases j,
{
    if j == 0 {
        assert(spec_fresh_ring(n).len() == n);
    } else {
        lemma_fill_n_shape(n, (j - 1) as nat);
        match spec_fill_n(n, (j - 1) as nat) {
            Some(sp) => {
                assert(sp.0[j - 1] is Free);
                assert(scan_free(sp.0, j - 1, sp.0.len()) == Some(j - 1 as int));
            },
            None => {
                assert(false);
            },
        }
    }
}

/// The saturation law of the transmit ring: on a fresh ring of any depth
/// `n >= 2`, `n` consecutive fills all succeed, and with no claim callback
/// in between, the ring they leave behind has no `Free` slot, so the next
/// fill finds nothing and reports `NoFreeFrames`.
/// [`VideoTx::fill_next_frame`] performs exactly one [`spec_fill_step`] per
/// successful call, as its contract states.
pub proof fn lemma_ring_saturates(n: nat)
    requires
        2 <= n,
    ensures
        forall|j: nat|
            j < n ==> ((#[trigger] spec_fill_n(n, j)) matches Some(sp) && spec_fill_step(
                sp.0,
                sp.1,
            ) is Some),
        spec_fill_n(n, n) matches Some(sp) && spec_fill_step(sp.0, sp.1) is None,
{
    assert forall|j: nat| j < n implies (#[trigger] spec_fill_n(n, j)) matches Some(sp)
        && spec_fill_step(sp.0, sp.1) is Some by {
        lemma_fill_n_shape(n, j);
        lemma_fill_n_shape(n, (j + 1) as nat);
    }
    lemma_fill_n_shape(n, n);
    match spec_fill_n(n, n) {
        Some(sp) => {
            lemma_scan_none(sp.0, sp.1, sp.0.len());
        },
        None => {
            assert(false);
        },
    }
}

/// The round-trip law of one slot: starting from a `Free` slot at the
/// producer cursor, the fill claims exactly that slot (`Free` to `Ready`),
/// the claim callback finds it `Ready` and marks it `InUse`, and the
/// completion callback returns it to `Free` — after the full cycle every
/// slot tag is exactly as it started, with nothing about the buffer's
/// content required to change: content is opaque to the ring.
pub proof fn lemma_slot_round_trip(statuses: Seq<FrameStatus>, p: int)
    requires
        2 <= statuses.len(),
        0 <= p < statuses.len(),
        statuses[p] is Free,
    ensures
        scan_free(statuses, p, statuses.len()) == Some(p),
        statuses.update(p, FrameStatus::Ready)[p] is Ready,
        statuses.update(p, FrameStatus::Ready).update(p, FrameStatus::InUse)[p] is InUse,
        statuses.update(p, FrameStatus::Ready).update(p, FrameStatus::InUse).update(
            p,
            FrameStatus::Free,
        ) == statuses,
{
    assert(statuses.update(p, FrameStatus::Ready).update(p, FrameStatus::InUse).update(
        p,
        FrameStatus::Free,
    ) =~= statuses);
}

/// Which kind of engine session a video session was created as.
#[derive(Copy, Clone, Debug, PartialEq, Eq, Structural)]
enum VideoHandle {
    Tx,
    Rx,
    PipelineTx,
    PipelineRx,
    PipelineCompressedTx,
    PipelineCompressedRx,
}

/// Transmit session for uncompressed video.
///
/// In direct mode (no `input_fmt`) the session owns a ring of `fb_cnt` frame
/// buffers with one ownership tag each; the application produces `Ready`
/// frames and the engine's pacer consumes them through [`VideoTx::on_need_frame`] /
/// [`VideoTx::on_frame_done`].  With an `input_fmt` set, the engine converts
/// formats itself and owns the buffers end to end; the session then only
/// tracks how many submitted frames the engine has not recycled yet.
pub struct VideoTx {
    netdev_id: u8,
    rtp_session: RtpSession,
    width: u32,
    height: u32,
    fps: Fps,
    t_fmt: TransportFmt,
    packing: Packing,
    fb_cnt: u8,
    interlaced: bool,
    input_fmt: Option<FrameFmt>,
    handle: Option<VideoHandle>,
    consumer_idx: u8,
    producer_idx: u8,
    frame_status: Vec<FrameStatus>,
    frame_size: usize,
    gate: WakeGate,
    buffers: Vec<Vec<u8>>,
    pending: Vec<Vec<u8>>,
}

/// Whether `a` and `b` carry the same configuration.
pub open spec fn spec_same_tx_config(a: VideoTx, b: VideoTx) -> bool {
    &&& a.spec_netdev_id() == b.spec_netdev_id()
    &&& a.spec_width() == b.spec_width()
    &&& a.spec_height() == b.spec_height()
    &&& a.spec_fps() == b.spec_fps()
    &&& a.spec_t_fmt() == b.spec_t_fmt()
    &&& a.spec_packing() == b.spec_packing()
    &&& a.spec_fb_cnt() == b.spec_fb_cnt()
    &&& a.spec_interlaced() == b.spec_interlaced()
    &&& a.spec_input_fmt() == b.spec_input_fmt()
}

/// Whether `a` and `b` are the same session in the same mode, differing at
/// most in the ring or pool state.
pub open spec fn spec_same_tx_shape(a: VideoTx, b: VideoTx) -> bool {
    &&& spec_same_tx_config(a, b)
    &&& a.spec_created() == b.spec_created()
    &&& a.spec_direct() == b.spec_direct()
    &&& a.spec_pipeline() == b.spec_pipeline()
    &&& a.spec_ring_depth() == b.spec_ring_depth()
    &&& a.spec_frame_size() == b.spec_frame_size()
}

impl VideoTx {
    /// Whether `create` has succeeded on this session.
    pub closed spec fn spec_created(&self) -> bool {
        self.handle is Some
    }

    /// Whether this is a created direct-mode (ring) session.
    pub closed spec fn spec_direct(&self) -> bool {
        self.handle == Some(VideoHandle::Tx)
    }

    /// Whether this is a created pipeline-mode (engine pool) session.
    pub closed spec fn spec_pipeline(&self) -> bool {
        self.handle == Some(VideoHandle::PipelineTx)
    }

    /// The ownership tag of every ring slot.
    pub closed spec fn spec_statuses(&self) -> Seq<FrameStatus> {
        self.frame_status@
    }

    /// The application-owned producer cursor.
    pub closed spec fn spec_producer(&self) -> int {
        self.producer_idx as int
    }

    /// The callback-owned consumer cursor.
    pub closed spec fn spec_consumer(&self) -> int {
        self.consumer_idx as int
    }

    /// The ring depth.
    pub closed spec fn spec_ring_depth(&self) -> int {
        self.fb_cnt as int
    }

    /// The byte size of one frame.
    pub closed spec fn spec_frame_size(&self) -> int {
        self.frame_size as int
    }

    /// The contents of the ring's frame buffers.
    pub closed spec fn spec_buffers(&self) -> Seq<Seq<u8>> {
        self.buffers@.map_values(|b: Vec<u8>| b@)
    }

    /// The frames submitted to the engine pool and not yet recycled
    /// (pipeline mode), oldest first.
    pub closed spec fn spec_pending(&self) -> Seq<Seq<u8>> {
        self.pending@.map_values(|b: Vec<u8>| b@)
    }

    /// The configured net device index.
    pub closed spec fn spec_netdev_id(&self) -> int {
        self.netdev_id as int
    }

    /// The configured frame width in pixels.
    pub closed spec fn spec_width(&self) -> int {
        self.width as int
    }

    /// The configured frame height in pixels.
    pub closed spec fn spec_height(&self) -> int {
        self.height as int
    }

    /// The configured frame rate.
    pub closed spec fn spec_fps(&self) -> Fps {
        self.fps
    }

    /// The configured transport format.
    pub closed spec fn spec_t_fmt(&self) -> TransportFmt {
        self.t_fmt
    }

    /// The configured packing mode.
    pub closed spec fn spec_packing(&self) -> Packing {
        self.packing
    }

    /// The configured ring depth.
    pub closed spec fn spec_fb_cnt(&self) -> int {
        self.fb_cnt as int
    }

    /// Whether the video is interlaced.
    pub closed spec fn spec_interlaced(&self) -> bool {
        self.interlaced
    }

    /// The pipeline input format, if the session is to run in pipeline mode.
    pub closed spec fn spec_input_fmt(&self) -> Option<FrameFmt> {
        self.input_fmt
    }

    /// Well-formedness: the ring arrays match the configured depth, the
    /// cursors are in range, and every buffer has the computed frame size.
    pub closed spec fn wf(&self) -> bool {
        &&& (self.spec_created() ==> 2 <= self.fb_cnt)
        &&& (self.spec_direct() ==> {
            &&& self.frame_status@.len() == self.fb_cnt as int
            &&& self.buffers@.len() == self.fb_cnt as int
            &&& self.producer_idx < self.fb_cnt
            &&& self.consumer_idx < self.fb_cnt
            &&& (forall|i: int|
                0 <= i < self.buffers@.len() ==> (#[trigger] self.buffers@[i])@.len()
                    == self.frame_size)
        })
        &&& (self.spec_pipeline() ==> {
            &&& self.pending@.len() <= self.fb_cnt as int
            &&& (forall|i: int|
                0 <= i < self.pending@.len() ==> (#[trigger] self.pending@[i])@.len()
                    == self.frame_size)
        })
    }

    /// The configuration checks of `create` that do not depend on the
    /// format catalog.
    pub open spec fn spec_create_base_ok(&self, mtl: &Mtl) -> bool {
        &&& !self.spec_created()
        &&& mtl.spec_initialized()
        &&& self.spec_netdev_id() < mtl.spec_net_devs().len()
        &&& 2 <= self.spec_fb_cnt()
        &&& self.spec_width() * self.spec_height() * 16 <= usize::MAX as int
    }

    /// Everything `create` checks: the base configuration, and that the
    /// format catalog knows the configured format.
    pub open spec fn spec_create_ok(&self, mtl: &Mtl) -> bool {
        &&& self.spec_create_base_ok(mtl)
        &&& (self.spec_input_fmt() matches Some(f) ==> f.spec_frame_size(
            self.spec_width(),
            self.spec_height(),
        ) is Some)
    }

    /// Initializes the session against a created engine attachment.
    ///
    /// On success the session is created in direct mode (every slot `Free`,
    /// both cursors at zero) or in pipeline mode (nothing pending), with the
    /// frame size computed from the format catalog.
    pub fn create(self, mtl: &Mtl) -> (r: Result<Self, SessionError>)
        ensures
            r is Ok <==> self.spec_create_ok(mtl),
            r matches Ok(s) ==> {
                &&& s.wf()
                &&& spec_same_tx_config(self, s)
                &&& s.spec_created()
                &&& s.spec_ring_depth() == self.spec_fb_cnt()
                &&& (self.spec_input_fmt() is None ==> {
                    &&& s.spec_direct()
                    &&& s.spec_frame_size() == self.spec_t_fmt().spec_frame_size(
                        self.spec_width(),
                        self.spec_height(),
                    )
                    &&& s.spec_statuses().len() == s.spec_ring_depth()
                    &&& (forall|i: int|
                        0 <= i < s.spec_ring_depth() ==> s.spec_statuses()[i] is Free)
                    &&& s.spec_producer() == 0
                    &&& s.spec_consumer() == 0
                })
                &&& (self.spec_input_fmt() matches Some(f) ==> {
                    &&& s.spec_pipeline()
                    &&& Some(s.spec_frame_size()) == f.spec_frame_size(
                        self.spec_width(),
                        self.spec_height(),
                    )
                    &&& s.spec_pending() == Seq::<Seq<u8>>::empty()
                })
            },
            r matches Err(e) ==> {
                &&& (e == SessionError::CreationFailure <==> !self.spec_create_base_ok(mtl))
                &&& (e == SessionError::UnsupportedFormat <==> self.spec_create_base_ok(mtl)
                    && !self.spec_create_ok(mtl))
            },
    {
        if self.handle.is_some() {
            return Err(SessionError::CreationFailure);
        }
        if mtl.handle().is_none() {
            return Err(SessionError::CreationFailure);
        }
        if (self.netdev_id as usize) >= mtl.net_devs().len() {
            return Err(SessionError::CreationFailure);
        }
        if self.fb_cnt < 2 {
            return Err(SessionError::CreationFailure);
        }
        proof {
            assert(self.width as int * self.height as int <= 0xffff_ffff * 0xffff_ffff)
                by (nonlinear_arith)
                requires
                    self.width <= 0xffff_ffffu32,
                    self.height <= 0xffff_ffffu32,
            ;
        }
        let wh: u128 = (self.width as u128) * (self.height as u128);
        if wh * 16 > (usize::MAX as u128) {
            return Err(SessionError::CreationFailure);
        }
        match self.input_fmt {
            Some(input_fmt) => {
                let frame_size = match input_fmt.frame_size(self.width, self.height) {
                    Ok(n) => n,
                    Err(e) => {
                        return Err(e);
                    },
                };
                Ok(
                    VideoTx {
                        handle: Some(VideoHandle::PipelineTx),
                        consumer_idx: 0,
                        producer_idx: 0,
                        frame_status: Vec::new(),
                        frame_size,
                        gate: WakeGate::new(),
                        buffers: Vec::new(),
                        pending: Vec::new(),
                        ..self
                    },
                )
            },
            None => {
                let frame_size = self.t_fmt.frame_size(self.width, self.height);
                let mut frame_status: Vec<FrameStatus> = Vec::new();
                let mut buffers: Vec<Vec<u8>> = Vec::new();
                let mut i: u8 = 0;
                while i < self.fb_cnt
                    invariant
                        i <= self.fb_cnt,
                        frame_status@.len() == i as int,
                        buffers@.len() == i as int,
                        forall|j: int| 0 <= j < i as int ==> frame_status@[j] is Free,
                        forall|j: int|
                            0 <= j < i as int ==> (#[trigger] buffers@[j])@.len() == frame_size,
                    decreases self.fb_cnt - i,
                {
                    frame_status.push(FrameStatus::Free);
                    buffers.push(zeroed(frame_size));
                    i = i + 1;
                }
                Ok(
                    VideoTx {
                        handle: Some(VideoHandle::Tx),
                        consumer_idx: 0,
                        producer_idx: 0,
                        frame_status,
                        frame_size,
                        gate: WakeGate::new(),
                        buffers,
                        pending: Vec::new(),
                        ..self
                    },
                )
            },
        }
    }

    /// Get the raw frame size.
    pub fn frame_size(&self) -> (r: usize)
        ensures
            r == self.spec_frame_size(),
    {
        self.frame_size
    }

    /// The engine-side view of one ring buffer: the pacer transmits
    /// straight out of the slot it claimed, zero-copy.
    pub fn frame_buffer(&self, frame_idx: u8) -> (r: &Vec<u8>)
        requires
            self.wf(),
            self.spec_direct(),
            (frame_idx as int) < self.spec_ring_depth(),
        ensures
            r@ == self.spec_buffers()[frame_idx as int],
    {
        &self.buffers[frame_idx as usize]
    }

    /// The slot tag at `frame_idx`, if the index is within the ring.
    fn is_frame_free(&self, frame_idx: u8) -> (r: bool)
        requires
            (frame_idx as int) < self.frame_status@.len(),
        ensures
            r == (self.spec_statuses()[frame_idx as int] is Free),
    {
        self.frame_status[frame_idx as usize] == FrameStatus::Free
    }

    /// Whether the slot at `frame_idx` is tagged `Ready`.
    fn is_frame_ready(&self, frame_idx: u8) -> (r: bool)
        requires
            (frame_idx as int) < self.frame_status@.len(),
        ensures
            r == (self.spec_statuses()[frame_idx as int] is Ready),
    {
        self.frame_status[frame_idx as usize] == FrameStatus::Ready
    }

    /// Whether the slot at `frame_idx` is tagged `InUse`.
    fn is_frame_in_use(&self, frame_idx: u8) -> (r: bool)
        requires
            (frame_idx as int) < self.frame_status@.len(),
        ensures
            r == (self.spec_statuses()[frame_idx as int] is InUse),
    {
        self.frame_status[frame_idx as usize] == FrameStatus::InUse
    }

    /// Wait until a free frame may be available, then return: at most one
    /// frame interval in direct mode (and only if the producer slot is not
    /// already `Free`), exactly one bounded park in pipeline mode.  Callers
    /// must re-attempt the fill; a timeout and a wake look the same.
    pub fn wait_free_frame(&mut self)
        requires
            old(self).wf(),
        ensures
            *final(self) == *old(self),
    {
        match self.handle {
            Some(VideoHandle::Tx) => {
                let frame_idx = self.producer_idx;
                if !self.is_frame_free(frame_idx) {
                    self.gate.park_nanos(self.fps.interval_nanos(1));
                }
            },
            Some(VideoHandle::PipelineTx) => {
                self.gate.park_nanos(self.fps.interval_nanos(1));
            },
            _ => (),
        }
    }

    /// Hand one frame to the session for transmission.
    ///
    /// In direct mode: the buffer must be exactly one frame long, else
    /// `SizeMismatch` with nothing changed; the first `Free` slot in cyclic
    /// order from the producer cursor receives a copy of the data and is
    /// tagged `Ready`, and the producer cursor moves one past it; with no
    /// `Free` slot the call fails fast with `NoFreeFrames`, changing
    /// nothing.  In pipeline mode the frame goes to the engine pool instead,
    /// which holds at most `fb_cnt` outstanding frames.  Never blocks.
    pub fn fill_next_frame(&mut self, frame: &[u8]) -> (r: Result<(), SessionError>)
        requires
            old(self).wf(),
        ensures
            final(self).wf(),
            spec_same_tx_shape(*old(self), *final(self)),
            !old(self).spec_direct() && !old(self).spec_pipeline() ==> r == Err::<(),
            SessionError>(SessionError::InvalidHandle) && *final(self) == *old(self),
            old(self).spec_direct() ==> {
                if frame@.len() != old(self).spec_frame_size() {
                    &&& r == Err::<(), SessionError>(SessionError::SizeMismatch)
                    &&& *final(self) == *old(self)
                } else {
                    match scan_free(
                        old(self).spec_statuses(),
                        old(self).spec_producer(),
                        old(self).spec_ring_depth() as nat,
                    ) {
                        Some(k) => {
                            &&& r is Ok
                            &&& final(self).spec_statuses() == old(self).spec_statuses().update(
                                k,
                                FrameStatus::Ready,
                            )
                            &&& final(self).spec_buffers() == old(self).spec_buffers().update(
                                k,
                                frame@,
                            )
                            &&& final(self).spec_producer() == next_idx(
                                k,
                                old(self).spec_ring_depth(),
                            )
                            &&& final(self).spec_consumer() == old(self).spec_consumer()
                        },
                        None => {
                            &&& r == Err::<(), SessionError>(SessionError::NoFreeFrames)
                            &&& *final(self) == *old(self)
                        },
                    }
                }
            },
            old(self).spec_direct() && old(self).spec_statuses().len() == old(
                self,
            ).spec_ring_depth() && frame@.len() == old(self).spec_frame_size() ==> {
                match spec_fill_step(old(self).spec_statuses(), old(self).spec_producer()) {
                    Some(sp) => {
                        &&& r is Ok
                        &&& final(self).spec_statuses() == sp.0
                        &&& final(self).spec_producer() == sp.1
                    },
                    None => r == Err::<(), SessionError>(SessionError::NoFreeFrames),
                }
            },
            old(self).spec_pipeline() ==> {
                if frame@.len() != old(self).spec_frame_size() {
                    &&& r == Err::<(), SessionError>(SessionError::SizeMismatch)
                    &&& *final(self) == *old(self)
                } else if old(self).spec_pending().len() == old(self).spec_ring_depth() {
                    &&& r == Err::<(), SessionError>(SessionError::NoFreeFrames)
                    &&& *final(self) == *old(self)
                } else {
                    &&& r is Ok
                    &&& final(self).spec_pending() == old(self).spec_pending().push(frame@)
                }
            },
    {
        match self.handle {
            Some(VideoHandle::Tx) => {
                if frame.len() != self.frame_size {
                    return Err(SessionError::SizeMismatch);
                }
                let ghost s0 = self.frame_status@;
                let ghost n = self.fb_cnt as int;
                let mut frame_idx = self.producer_idx;
                let ghost mut j: int = 0;
                while !self.is_frame_free(frame_idx)
                    invariant
                        self.wf(),
                        self.spec_direct(),
                        *self == *old(self),
                        frame@.len() == self.frame_size,
                        s0 == self.frame_status@,
                        n == self.fb_cnt as int,
                        0 <= j < n,
                        frame_idx < self.fb_cnt,
                        frame_idx as int == if self.producer_idx as int + j < n {
                            self.producer_idx as int + j
                        } else {
                            self.producer_idx as int + j - n
                        },
                        scan_free(s0, self.producer_idx as int, n as nat) == scan_free(
                            s0,
                            frame_idx as int,
                            (n - j) as nat,
                        ),
                    decreases n - j,
                {
                    proof {
                        assert(scan_free(s0, frame_idx as int, (n - j) as nat) == scan_free(
                            s0,
                            next_idx(frame_idx as int, n),
                            (n - j - 1) as nat,
                        ));
                    }
                    frame_idx = self.next_frame_idx(frame_idx);
                    proof {
                        j = j + 1;
                    }
                    if frame_idx == self.producer_idx {
                        proof {
                            assert(j == n);
                            assert(scan_free(s0, frame_idx as int, 0) is None);
                        }
                        return Err(SessionError::NoFreeFrames);
                    }
                    proof {
                        assert(j < n);
                    }
                }
                proof {
                    assert(scan_free(s0, self.producer_idx as int, n as nat) == Some(
                        frame_idx as int,
                    ));
                }
                let data = copy_bytes(frame);
                self.buffers[frame_idx as usize] = data;
                self.frame_status[frame_idx as usize] = FrameStatus::Ready;
                self.producer_idx = self.next_frame_idx(frame_idx);
                proof {
                    assert(self.spec_buffers() =~= old(self).spec_buffers().update(
                        frame_idx as int,
                        frame@,
                    ));
                }
                Ok(())
            },
            Some(VideoHandle::PipelineTx) => {
                if frame.len() != self.frame_size {
                    return Err(SessionError::SizeMismatch);
                }
                if self.pending.len() >= self.fb_cnt as usize {
                    return Err(SessionError::NoFreeFrames);
                }
                let data = copy_bytes(frame);
                self.pending.push(data);
                proof {
                    assert(self.spec_pending() =~= old(self).spec_pending().push(frame@));
                }
                Ok(())
            },
            _ => Err(SessionError::InvalidHandle),
        }
    }

    /// Pacer-side callback, direct mode: claim the next frame to transmit.
    ///
    /// If the slot at the consumer cursor is `Ready` it becomes `InUse`, the
    /// cursor advances, and the slot index is returned for the engine to
    /// transmit from.  Any other tag means there is nothing to send this
    /// tick: an error comes back and nothing changes.  Never blocks and
    /// never allocates.
    pub fn on_need_frame(&mut self) -> (r: Result<u8, SessionError>)
        requires
            old(self).wf(),
        ensures
            final(self).wf(),
            spec_same_tx_shape(*old(self), *final(self)),
            !old(self).spec_direct() ==> r == Err::<u8, SessionError>(SessionError::InvalidHandle)
                && *final(self) == *old(self),
            old(self).spec_direct() ==> {
                if old(self).spec_statuses()[old(self).spec_consumer()] is Ready {
                    &&& r matches Ok(i) && i as int == old(self).spec_consumer()
                    &&& final(self).spec_statuses() == old(self).spec_statuses().update(
                        old(self).spec_consumer(),
                        FrameStatus::InUse,
                    )
                    &&& final(self).spec_consumer() == next_idx(
                        old(self).spec_consumer(),
                        old(self).spec_ring_depth(),
                    )
                    &&& final(self).spec_producer() == old(self).spec_producer()
                    &&& final(self).spec_buffers() == old(self).spec_buffers()
                } else {
                    &&& r == Err::<u8, SessionError>(SessionError::NoFrameAvailable)
                    &&& *final(self) == *old(self)
                }
            },
    {
        match self.handle {
            Some(VideoHandle::Tx) => {
                let nfi = self.consumer_idx;
                if self.is_frame_ready(nfi) {
                    self.frame_status[nfi as usize] = FrameStatus::InUse;
                    self.consumer_idx = self.next_frame_idx(nfi);
                    Ok(nfi)
                } else {
                    Err(SessionError::NoFrameAvailable)
                }
            },
            _ => Err(SessionError::InvalidHandle),
        }
    }

    /// Pacer-side callback, direct mode: the engine finished transmitting
    /// the claimed slot `frame_idx`.
    ///
    /// An `InUse` slot becomes `Free` again and the wake gate is signalled
    /// so a blocked producer can re-check.  A slot that is not `InUse` (or
    /// an index outside the ring) is an ownership-protocol violation: an
    /// error comes back and nothing changes.  Never blocks and never
    /// allocates.
    pub fn on_frame_done(&mut self, frame_idx: u8) -> (r: Result<(), SessionError>)
        requires
            old(self).wf(),
        ensures
            final(self).wf(),
            spec_same_tx_shape(*old(self), *final(self)),
            !old(self).spec_direct() ==> r == Err::<(), SessionError>(SessionError::InvalidHandle)
                && *final(self) == *old(self),
            old(self).spec_direct() ==> {
                if frame_idx < old(self).spec_ring_depth() && old(self).spec_statuses()[frame_idx as int]
                    is InUse {
                    &&& r is Ok
                    &&& final(self).spec_statuses() == old(self).spec_statuses().update(
                        frame_idx as int,
                        FrameStatus::Free,
                    )
                    &&& final(self).spec_producer() == old(self).spec_producer()
                    &&& final(self).spec_consumer() == old(self).spec_consumer()
                    &&& final(self).spec_buffers() == old(self).spec_buffers()
                } else {
                    &&& r == Err::<(), SessionError>(SessionError::OwnershipViolation)
                    &&& *final(self) == *old(self)
                }
            },
    {
        match self.handle {
            Some(VideoHandle::Tx) => {
                if frame_idx < self.fb_cnt && self.is_frame_in_use(frame_idx) {
                    self.frame_status[frame_idx as usize] = FrameStatus::Free;
                    self.gate.wake();
                    Ok(())
                } else {
                    Err(SessionError::OwnershipViolation)
                }
            },
            _ => Err(SessionError::InvalidHandle),
        }
    }

    /// Pacer-side callback, pipeline mode: the engine finished transmitting
    /// the oldest submitted frame and recycled its pool buffer.
    ///
    /// Returns the transmitted frame and signals the wake gate; with
    /// nothing outstanding, reports `NoFrameAvailable` and changes nothing.
    pub fn notify_frame_done(&mut self) -> (r: Result<Vec<u8>, SessionError>)
        requires
            old(self).wf(),
        ensures
            final(self).wf(),
            spec_same_tx_shape(*old(self), *final(self)),
            !old(self).spec_pipeline() ==> (r matches Err(e) && e == SessionError::InvalidHandle
                && *final(self) == *old(self)),
            old(self).spec_pipeline() ==> {
                if old(self).spec_pending().len() == 0 {
                    &&& (r matches Err(e) && e == SessionError::NoFrameAvailable)
                    &&& *final(self) == *old(self)
                } else {
                    &&& r matches Ok(b) && b@ == old(self).spec_pending()[0]
                    &&& final(self).spec_pending() == old(self).spec_pending().remove(0)
                }
            },
    {
        match self.handle {
            Some(VideoHandle::PipelineTx) => {
                if self.pending.len() == 0 {
                    return Err(SessionError::NoFrameAvailable);
                }
                let frame = self.pending.remove(0);
                self.gate.wake();
                proof {
                    assert(self.spec_pending() =~= old(self).spec_pending().remove(0));
                }
                Ok(frame)
            },
            _ => Err(SessionError::InvalidHandle),
        }
    }

    /// The cursor after `frame_idx`, wrapping at the ring depth.
    fn next_frame_idx(&self, frame_idx: u8) -> (r: u8)
        requires
            frame_idx < self.fb_cnt,
        ensures
            r as int == next_idx(frame_idx as int, self.spec_ring_depth()),
    {
        let r = (frame_idx + 1) % self.fb_cnt;
        proof {
            if frame_idx as int + 1 < self.fb_cnt as int {
                vstd::arithmetic::div_mod::lemma_small_mod(
                    (frame_idx + 1) as nat,
                    self.fb_cnt as nat,
                );
            } else {
                vstd::arithmetic::div_mod::lemma_mod_self_0(self.fb_cnt as int);
            }
        }
        r
    }
}

/// Builder for [`VideoTx`].  Every field has a default; `build` yields a
/// session on which `create` has not been called yet.
pub struct VideoTxBuilder {
    /// Index into the engine attachment's net devices.
    pub netdev_id: u8,
    /// RTP addressing of the session.
    pub rtp_session: RtpSession,
    /// Frame width in pixels.
    pub width: u32,
    /// Frame height in pixels.
    pub height: u32,
    /// Frame rate.
    pub fps: Fps,
    /// Transport format on the wire.
    pub t_fmt: TransportFmt,
    /// Packing mode on the wire.
    pub packing: Packing,
    /// Ring (or pool) depth.
    pub fb_cnt: u8,
    /// Whether the video is interlaced.
    pub interlaced: bool,
    /// Input format for pipeline mode; `None` selects direct mode.
    pub input_fmt: Option<FrameFmt>,
}

impl Default for VideoTxBuilder {
    /// 1920 by 1080 at 59.94 frames per second, 8-bit 4:2:2, block packing,
    /// a ring of three, progressive, direct mode.
    fn default() -> (r: Self)
        ensures
            r.netdev_id == 0u8,
            r.width == 1920u32,
            r.height == 1080u32,
            r.fps == Fps::P59_94,
            r.t_fmt == TransportFmt::Yuv422_8bit,
            r.packing == Packing::Bpm,
            r.fb_cnt == 3u8,
            r.interlaced == false,
            r.input_fmt is None,
    {
        VideoTxBuilder {
            netdev_id: 0,
            rtp_session: RtpSession::default(),
            width: 1920,
            height: 1080,
            fps: Fps::P59_94,
            t_fmt: TransportFmt::Yuv422_8bit,
            packing: Packing::Bpm,
            fb_cnt: 3,
            interlaced: false,
            input_fmt: None,
        }
    }
}

impl VideoTxBuilder {
    /// Set the net device index.
    pub fn netdev_id(self, netdev_id: u8) -> (r: Self)
        ensures
            r == (VideoTxBuilder { netdev_id, ..self }),
    {
        VideoTxBuilder { netdev_id, ..self }
    }

    /// Set the RTP session addressing.
    pub fn rtp_session(self, rtp_session: RtpSession) -> (r: Self)
        ensures
            r == (VideoTxBuilder { rtp_session, ..self }),
    {
        VideoTxBuilder { rtp_session, ..self }
    }

    /// Set the frame width.
    pub fn width(self, width: u32) -> (r: Self)
        ensures
            r == (VideoTxBuilder { width, ..self }),
    {
        VideoTxBuilder { width, ..self }
    }

    /// Set the frame height.
    pub fn height(self, height: u32) -> (r: Self)
        ensures
            r == (VideoTxBuilder { height, ..self }),
    {
        VideoTxBuilder { height, ..self }
    }

    /// Set the frame rate.
    pub fn fps(self, fps: Fps) -> (r: Self)
        ensures
            r == (VideoTxBuilder { fps, ..self }),
    {
        VideoTxBuilder { fps, ..self }
    }

    /// Set the transport format.
    pub fn t_fmt(self, t_fmt: TransportFmt) -> (r: Self)
        ensures
            r == (VideoTxBuilder { t_fmt, ..self }),
    {
        VideoTxBuilder { t_fmt, ..self }
    }

    /// Set the packing mode.
    pub fn packing(self, packing: Packing) -> (r: Self)
        ensures
            r == (VideoTxBuilder { packing, ..self }),
    {
        VideoTxBuilder { packing, ..self }
    }

    /// Set the ring depth.
    pub fn fb_cnt(self, fb_cnt: u8) -> (r: Self)
        ensures
            r == (VideoTxBuilder { fb_cnt, ..self }),
    {
        VideoTxBuilder { fb_cnt, ..self }
    }

    /// Set whether the video is interlaced.
    pub fn interlaced(self, interlaced: bool) -> (r: Self)
        ensures
            r == (VideoTxBuilder { interlaced, ..self }),
    {
        VideoTxBuilder { interlaced, ..self }
    }

    /// Set the pipeline input format.
    pub fn input_fmt(self, input_fmt: Option<FrameFmt>) -> (r: Self)
        ensures
            r == (VideoTxBuilder { input_fmt, ..self }),
    {
        VideoTxBuilder { input_fmt, ..self }
    }

    /// Assemble the not-yet-created session.
    pub fn build(self) -> (r: VideoTx)
        ensures
            r.wf(),
            !r.spec_created(),
            !r.spec_direct(),
            !r.spec_pipeline(),
            r.spec_netdev_id() == self.netdev_id as int,
            r.spec_width() == self.width as int,
            r.spec_height() == self.height as int,
            r.spec_fps() == self.fps,
            r.spec_t_fmt() == self.t_fmt,
            r.spec_packing() == self.packing,
            r.spec_fb_cnt() == self.fb_cnt as int,
            r.spec_interlaced() == self.interlaced,
            r.spec_input_fmt() == self.input_fmt,
    {
        VideoTx {
            netdev_id: self.netdev_id,
            rtp_session: self.rtp_session,
            width: self.width,
            height: self.height,
            fps: self.fps,
            t_fmt: self.t_fmt,
            packing: self.packing,
            fb_cnt: self.fb_cnt,
            interlaced: self.interlaced,
            input_fmt: self.input_fmt,
            handle: None,
            consumer_idx: 0,
            producer_idx: 0,
            frame_status: Vec::new(),
            frame_size: 0,
            gate: WakeGate::new(),
            buffers: Vec::new(),
            pending: Vec::new(),
        }
    }
}

/// Receive session for uncompressed video.
///
/// Roles invert relative to transmit: the engine's pacer is the producer and
/// the application is the consumer.  In direct mode the ring holds, per
/// slot, either a reference to a received engine-owned frame or an empty
/// marker; the pacer fills slots through [`VideoRx::on_frame_ready`] and is
/// never blocked — a saturated ring drops the frame instead.  With an
/// `output_fmt` set the engine converts and owns the buffers itself, and
/// the session tracks the delivered, not yet collected frames.
pub struct VideoRx {
    netdev_id: u8,
    rtp_session: RtpSession,
    width: u32,
    height: u32,
    fps: Fps,
    t_fmt: TransportFmt,
    fb_cnt: u8,
    interlaced: bool,
    output_fmt: Option<FrameFmt>,
    handle: Option<VideoHandle>,
    consumer_idx: u8,
    producer_idx: u8,
    frame_size: usize,
    gate: WakeGate,
    frames: Vec<Option<Vec<u8>>>,
    pending: Vec<Vec<u8>>,
}

/// Whether `a` and `b` carry the same configuration.
pub open spec fn spec_same_rx_config(a: VideoRx, b: VideoRx) -> bool {
    &&& a.spec_netdev_id() == b.spec_netdev_id()
    &&& a.spec_width() == b.spec_width()
    &&& a.spec_height() == b.spec_height()
    &&& a.spec_fps() == b.spec_fps()
    &&& a.spec_t_fmt() == b.spec_t_fmt()
    &&& a.spec_fb_cnt() == b.spec_fb_cnt()
    &&& a.spec_interlaced() == b.spec_interlaced()
    &&& a.spec_output_fmt() == b.spec_output_fmt()
}

/// Whether `a` and `b` are the same session in the same mode, differing at
/// most in the ring or pool state.
pub open spec fn spec_same_rx_shape(a: VideoRx, b: VideoRx) -> bool {
    &&& spec_same_rx_config(a, b)
    &&& a.spec_created() == b.spec_created()
    &&& a.spec_direct() == b.spec_direct()
    &&& a.spec_pipeline() == b.spec_pipeline()
    &&& a.spec_ring_depth() == b.spec_ring_depth()
    &&& a.spec_frame_size() == b.spec_frame_size()
}

impl VideoRx {
    /// Whether `create` has succeeded on this session.
    pub closed spec fn spec_created(&self) -> bool {
        self.handle is Some
    }

    /// Whether this is a created direct-mode (ring) session.
    pub closed spec fn spec_direct(&self) -> bool {
        self.handle == Some(VideoHandle::Rx)
    }

    /// Whether this is a created pipeline-mode (engine pool) session.
    pub closed spec fn spec_pipeline(&self) -> bool {
        self.handle == Some(VideoHandle::PipelineRx)
    }

    /// The content of every ring slot: a received frame, or `None` for the
    /// empty marker.
    pub closed spec fn spec_slots(&self) -> Seq<Option<Seq<u8>>> {
        self.frames@.map_values(
            |o: Option<Vec<u8>>|
                match o {
                    Some(b) => Some(b@),
                    None => None,
                },
        )
    }

    /// The callback-owned producer cursor.
    pub closed spec fn spec_producer(&self) -> int {
        self.producer_idx as int
    }

    /// The application-owned consumer cursor.
    pub closed spec fn spec_consumer(&self) -> int {
        self.consumer_idx as int
    }

    /// The ring depth.
    pub closed spec fn spec_ring_depth(&self) -> int {
        self.fb_cnt as int
    }

    /// The byte size of one frame.
    pub closed spec fn spec_frame_size(&self) -> int {
        self.frame_size as int
    }

    /// The frames the engine has delivered and the application has not
    /// collected yet (pipeline mode), oldest first.
    pub closed spec fn spec_pending(&self) -> Seq<Seq<u8>> {
        self.pending@.map_values(|b: Vec<u8>| b@)
    }

    /// The configured net device index.
    pub closed spec fn spec_netdev_id(&self) -> int {
        self.netdev_id as int
    }

    /// The configured frame width in pixels.
    pub closed spec fn spec_width(&self) -> int {
        self.width as int
    }

    /// The configured frame height in pixels.
    pub closed spec fn spec_height(&self) -> int {
        self.height as int
    }

    /// The configured frame rate.
    pub closed spec fn spec_fps(&self) -> Fps {
        self.fps
    }

    /// The configured transport format.
    pub closed spec fn spec_t_fmt(&self) -> TransportFmt {
        self.t_fmt
    }

    /// The configured ring depth.
    pub closed spec fn spec_fb_cnt(&self) -> int {
        self.fb_cnt as int
    }

    /// Whether the video is interlaced.
    pub closed spec fn spec_interlaced(&self) -> bool {
        self.interlaced
    }

    /// The pipeline output format, if the session is to run in pipeline
    /// mode.
    pub closed spec fn spec_output_fmt(&self) -> Option<FrameFmt> {
        self.output_fmt
    }

    /// Well-formedness: the slot array matches the configured depth, the
    /// cursors are in range, and every held frame has the computed size.
    pub closed spec fn wf(&self) -> bool {
        &&& (self.spec_created() ==> 2 <= self.fb_cnt)
        &&& (self.spec_direct() ==> {
            &&& self.frames@.len() == self.fb_cnt as int
            &&& self.producer_idx < self.fb_cnt
            &&& self.consumer_idx < self.fb_cnt
            &&& (forall|i: int|
                0 <= i < self.frames@.len() ==> ((#[trigger] self.frames@[i]) matches Some(b)
                    ==> b@.len() == self.frame_size))
        })
        &&& (self.spec_pipeline() ==> {
            &&& self.pending@.len() <= self.fb_cnt as int
            &&& (forall|i: int|
                0 <= i < self.pending@.len() ==> (#[trigger] self.pending@[i])@.len()
                    == self.frame_size)
        })
    }

    /// The configuration checks of `create` that do not depend on the
    /// format catalog.
    pub open spec fn spec_create_base_ok(&self, mtl: &Mtl) -> bool {
        &&& !self.spec_created()
        &&& mtl.spec_initialized()
        &&& self.spec_netdev_id() < mtl.spec_net_devs().len()
        &&& 2 <= self.spec_fb_cnt()
        &&& self.spec_width() * self.spec_height() * 16 <= usize::MAX as int
    }

    /// Everything `create` checks: the base configuration, and that the
    /// format catalog knows the configured format.
    pub open spec fn spec_create_ok(&self, mtl: &Mtl) -> bool {
        &&& self.spec_create_base_ok(mtl)
        &&& (self.spec_output_fmt() matches Some(f) ==> f.spec_frame_size(
            self.spec_width(),
            self.spec_height(),
        ) is Some)
    }

    /// Initializes the session against a created engine attachment.
    ///
    /// On success the session is created in direct mode (every slot empty,
    /// both cursors at zero) or in pipeline mode (nothing pending), with the
    /// frame size computed from the format catalog.
    pub fn create(self, mtl: &Mtl) -> (r: Result<Self, SessionError>)
        ensures
            r is Ok <==> self.spec_create_ok(mtl),
            r matches Ok(s) ==> {
                &&& s.wf()
                &&& spec_same_rx_config(self, s)
                &&& s.spec_created()
                &&& s.spec_ring_depth() == self.spec_fb_cnt()
                &&& (self.spec_output_fmt() is None ==> {
                    &&& s.spec_direct()
                    &&& s.spec_frame_size() == self.spec_t_fmt().spec_frame_size(
                        self.spec_width(),
                        self.spec_height(),
                    )
                    &&& s.spec_slots().len() == s.spec_ring_depth()
                    &&& (forall|i: int| 0 <= i < s.spec_ring_depth() ==> s.spec_slots()[i] is None)
                    &&& s.spec_producer() == 0
                    &&& s.spec_consumer() == 0
                })
                &&& (self.spec_output_fmt() matches Some(f) ==> {
                    &&& s.spec_pipeline()
                    &&& Some(s.spec_frame_size()) == f.spec_frame_size(
                        self.spec_width(),
                        self.spec_height(),
                    )
                    &&& s.spec_pending() == Seq::<Seq<u8>>::empty()
                })
            },
            r matches Err(e) ==> {
                &&& (e == SessionError::CreationFailure <==> !self.spec_create_base_ok(mtl))
                &&& (e == SessionError::UnsupportedFormat <==> self.spec_create_base_ok(mtl)
                    && !self.spec_create_ok(mtl))
            },
    {
        if self.handle.is_some() {
            return Err(SessionError::CreationFailure);
        }
        if mtl.handle().is_none() {
            return Err(SessionError::CreationFailure);
        }
        if (self.netdev_id as usize) >= mtl.net_devs().len() {
            return Err(SessionError::CreationFailure);
        }
        if self.fb_cnt < 2 {
            return Err(SessionError::CreationFailure);
        }
        proof {
            assert(self.width as int * self.height as int <= 0xffff_ffff * 0xffff_ffff)
                by (nonlinear_arith)
                requires
                    self.width <= 0xffff_ffffu32,
                    self.height <= 0xffff_ffffu32,
            ;
        }
        let wh: u128 = (self.width as u128) * (self.height as u128);
        if wh * 16 > (usize::MAX as u128) {
            return Err(SessionError::CreationFailure);
        }
        match self.output_fmt {
            Some(output_fmt) => {
                let frame_size = match output_fmt.frame_size(self.width, self.height) {
                    Ok(n) => n,
                    Err(e) => {
                        return Err(e);
                    },
                };
                Ok(
                    VideoRx {
                        handle: Some(VideoHandle::PipelineRx),
                        consumer_idx: 0,
                        producer_idx: 0,
                        frame_size,
                        gate: WakeGate::new(),
                        frames: Vec::new(),
                        pending: Vec::new(),
                        ..self
                    },
                )
            },
            None => {
                let frame_size = self.t_fmt.frame_size(self.width, self.height);
                let mut frames: Vec<Option<Vec<u8>>> = Vec::new();
                let mut i: u8 = 0;
                while i < self.fb_cnt
                    invariant
                        i <= self.fb_cnt,
                        frames@.len() == i as int,
                        forall|j: int| 0 <= j < i as int ==> frames@[j] is None,
                    decreases self.fb_cnt - i,
                {
                    frames.push(None);
                    i = i + 1;
                }
                Ok(
                    VideoRx {
                        handle: Some(VideoHandle::Rx),
                        consumer_idx: 0,
                        producer_idx: 0,
                        frame_size,
                        gate: WakeGate::new(),
                        frames,
                        pending: Vec::new(),
                        ..self
                    },
                )
            },
        }
    }

    /// Get the raw frame size.
    pub fn frame_size(&self) -> (r: usize)
        ensures
            r == self.spec_frame_size(),
    {
        self.frame_size
    }

    /// Wait until a received frame may be available, then return: at most
    /// one frame interval in direct mode (and only if the consumer slot is
    /// still empty), exactly one bounded park in pipeline mode.  Callers
    /// must re-attempt the fill; a timeout and a wake look the same.
    pub fn wait_new_frame(&mut self)
        requires
            old(self).wf(),
        ensures
            *final(self) == *old(self),
    {
        match self.handle {
            Some(VideoHandle::Rx) => {
                if !self.is_slot_filled(self.consumer_idx) {
                    self.gate.park_nanos(self.fps.interval_nanos(1));
                }
            },
            Some(VideoHandle::PipelineRx) => {
                self.gate.park_nanos(self.fps.interval_nanos(1));
            },
            _ => (),
        }
    }

    /// Pacer-side callback, direct mode: a frame has just arrived.
    ///
    /// The frame must be exactly one frame long, else `SizeMismatch`.  If
    /// the slot at the producer cursor is still holding an unconsumed frame
    /// the call reports `Busy` and the frame is dropped — this side never
    /// blocks waiting for the application.  Otherwise the slot takes the
    /// frame, the producer cursor advances, and the wake gate is signalled.
    pub fn on_frame_ready(&mut self, buffer: Vec<u8>) -> (r: Result<(), SessionError>)
        requires
            old(self).wf(),
        ensures
            final(self).wf(),
            spec_same_rx_shape(*old(self), *final(self)),
            !old(self).spec_direct() ==> r == Err::<(), SessionError>(SessionError::InvalidHandle)
                && *final(self) == *old(self),
            old(self).spec_direct() ==> {
                if buffer@.len() != old(self).spec_frame_size() {
                    &&& r == Err::<(), SessionError>(SessionError::SizeMismatch)
                    &&& *final(self) == *old(self)
                } else if old(self).spec_slots()[old(self).spec_producer()] is Some {
                    &&& r == Err::<(), SessionError>(SessionError::Busy)
                    &&& *final(self) == *old(self)
                } else {
                    &&& r is Ok
                    &&& final(self).spec_slots() == old(self).spec_slots().update(
                        old(self).spec_producer(),
                        Some(buffer@),
                    )
                    &&& final(self).spec_producer() == next_idx(
                        old(self).spec_producer(),
                        old(self).spec_ring_depth(),
                    )
                    &&& final(self).spec_consumer() == old(self).spec_consumer()
                }
            },
    {
        match self.handle {
            Some(VideoHandle::Rx) => {
                if buffer.len() != self.frame_size {
                    return Err(SessionError::SizeMismatch);
                }
                let r = self.enqueue_frame(buffer);
                if r.is_ok() {
                    self.gate.wake();
                }
                r
            },
            _ => Err(SessionError::InvalidHandle),
        }
    }

    /// Pacer-side callback, pipeline mode: the engine has converted and
    /// delivered a frame into its pool.
    ///
    /// The frame must be exactly one frame long, else `SizeMismatch`.  With
    /// `fb_cnt` frames already awaiting collection the pool is saturated:
    /// the call reports `Busy` and the frame is dropped.  Otherwise the
    /// frame queues up and the wake gate is signalled.
    pub fn notify_frame_available(&mut self, buffer: Vec<u8>) -> (r: Result<(), SessionError>)
        requires
            old(self).wf(),
        ensures
            final(self).wf(),
            spec_same_rx_shape(*old(self), *final(self)),
            !old(self).spec_pipeline() ==> r == Err::<(), SessionError>(SessionError::InvalidHandle)
                && *final(self) == *old(self),
            old(self).spec_pipeline() ==> {
                if buffer@.len() != old(self).spec_frame_size() {
                    &&& r == Err::<(), SessionError>(SessionError::SizeMismatch)
                    &&& *final(self) == *old(self)
                } else if old(self).spec_pending().len() == old(self).spec_ring_depth() {
                    &&& r == Err::<(), SessionError>(SessionError::Busy)
                    &&& *final(self) == *old(self)
                } else {
                    &&& r is Ok
                    &&& final(self).spec_pending() == old(self).spec_pending().push(buffer@)
                }
            },
    {
        match self.handle {
            Some(VideoHandle::PipelineRx) => {
                if buffer.len() != self.frame_size {
                    return Err(SessionError::SizeMismatch);
                }
                if self.pending.len() >= self.fb_cnt as usize {
                    return Err(SessionError::Busy);
                }
                self.pending.push(buffer);
                self.gate.wake();
                proof {
                    assert(self.spec_pending() =~= old(self).spec_pending().push(buffer@));
                }
                Ok(())
            },
            _ => Err(SessionError::InvalidHandle),
        }
    }

    /// Copy the oldest received frame into `data` and return the underlying
    /// buffer to the engine.
    ///
    /// `data` must be exactly one frame long, else `SizeMismatch`.  In
    /// direct mode an empty consumer slot means `NoFrameAvailable`
    /// (non-blocking); otherwise `data` receives the frame, the slot is
    /// cleared and the consumer cursor advances.  In pipeline mode the
    /// oldest delivered frame is collected instead.
    pub fn fill_new_frame(&mut self, data: &mut Vec<u8>) -> (r: Result<(), SessionError>)
        requires
            old(self).wf(),
        ensures
            final(self).wf(),
            spec_same_rx_shape(*old(self), *final(self)),
            r !is Ok ==> *final(data) == *old(data),
            !old(self).spec_direct() && !old(self).spec_pipeline() ==> r == Err::<(),
            SessionError>(SessionError::InvalidHandle) && *final(self) == *old(self),
            old(self).spec_direct() ==> {
                if old(data)@.len() != old(self).spec_frame_size() {
                    &&& r == Err::<(), SessionError>(SessionError::SizeMismatch)
                    &&& *final(self) == *old(self)
                } else {
                    match old(self).spec_slots()[old(self).spec_consumer()] {
                        Some(b) => {
                            &&& r is Ok
                            &&& final(data)@ == b
                            &&& final(self).spec_slots() == old(self).spec_slots().update(
                                old(self).spec_consumer(),
                                None,
                            )
                            &&& final(self).spec_consumer() == next_idx(
                                old(self).spec_consumer(),
                                old(self).spec_ring_depth(),
                            )
                            &&& final(self).spec_producer() == old(self).spec_producer()
                        },
                        None => {
                            &&& r == Err::<(), SessionError>(SessionError::NoFrameAvailable)
                            &&& *final(self) == *old(self)
                        },
                    }
                }
            },
            old(self).spec_pipeline() ==> {
                if old(data)@.len() != old(self).spec_frame_size() {
                    &&& r == Err::<(), SessionError>(SessionError::SizeMismatch)
                    &&& *final(self) == *old(self)
                } else if old(self).spec_pending().len() == 0 {
                    &&& r == Err::<(), SessionError>(SessionError::NoFrameAvailable)
                    &&& *final(self) == *old(self)
                } else {
                    &&& r is Ok
                    &&& final(data)@ == old(self).spec_pending()[0]
                    &&& final(self).spec_pending() == old(self).spec_pending().remove(0)
                }
            },
    {
        match self.handle {
            Some(VideoHandle::Rx) => {
                if data.len() != self.frame_size {
                    return Err(SessionError::SizeMismatch);
                }
                let idx = self.consumer_idx;
                if !self.is_slot_filled(idx) {
                    return Err(SessionError::NoFrameAvailable);
                }
                let taken = self.frames.remove(idx as usize);
                self.frames.insert(idx as usize, None);
                proof {
                    assert(self.frames@ =~= old(self).frames@.update(idx as int, None));
                    assert(self.spec_slots() =~= old(self).spec_slots().update(idx as int, None));
                }
                self.consumer_idx = self.next_frame_idx(idx);
                match taken {
                    Some(frame) => {
                        *data = frame;
                        Ok(())
                    },
                    None => {
                        proof {
                            assert(false);
                        }
                        Err(SessionError::NoFrameAvailable)
                    },
                }
            },
            Some(VideoHandle::PipelineRx) => {
                if data.len() != self.frame_size {
                    return Err(SessionError::SizeMismatch);
                }
                if self.pending.len() == 0 {
                    return Err(SessionError::NoFrameAvailable);
                }
                let frame = self.pending.remove(0);
                proof {
                    assert(self.spec_pending() =~= old(self).spec_pending().remove(0));
                }
                *data = frame;
                Ok(())
            },
            _ => Err(SessionError::InvalidHandle),
        }
    }

    /// Whether the slot at `frame_idx` holds an unconsumed frame.
    fn is_slot_filled(&self, frame_idx: u8) -> (r: bool)
        requires
            (frame_idx as int) < self.frames@.len(),
        ensures
            r == (self.spec_slots()[frame_idx as int] is Some),
    {
        self.frames[frame_idx as usize].is_some()
    }

    /// Store an arriving frame at the producer cursor, or report `Busy` if
    /// that slot still holds an unconsumed one.
    fn enqueue_frame(&mut self, frame: Vec<u8>) -> (r: Result<(), SessionError>)
        requires
            old(self).wf(),
            old(self).spec_direct(),
            frame@.len() == old(self).spec_frame_size(),
        ensures
            final(self).wf(),
            spec_same_rx_shape(*old(self), *final(self)),
            if old(self).spec_slots()[old(self).spec_producer()] is Some {
                &&& r == Err::<(), SessionError>(SessionError::Busy)
                &&& *final(self) == *old(self)
            } else {
                &&& r is Ok
                &&& final(self).spec_slots() == old(self).spec_slots().update(
                    old(self).spec_producer(),
                    Some(frame@),
                )
                &&& final(self).spec_producer() == next_idx(
                    old(self).spec_producer(),
                    old(self).spec_ring_depth(),
                )
                &&& final(self).spec_consumer() == old(self).spec_consumer()
            },
    {
        let producer_idx = self.producer_idx;
        if self.is_slot_filled(producer_idx) {
            return Err(SessionError::Busy);
        }
        self.frames.remove(producer_idx as usize);
        self.frames.insert(producer_idx as usize, Some(frame));
        proof {
            assert(self.frames@ =~= old(self).frames@.update(
                producer_idx as int,
                Some(frame),
            ));
            assert(self.spec_slots() =~= old(self).spec_slots().update(
                producer_idx as int,
                Some(frame@),
            ));
        }
        self.producer_idx = self.next_frame_idx(producer_idx);
        Ok(())
    }

    /// The cursor after `frame_idx`, wrapping at the ring depth.
    fn next_frame_idx(&self, frame_idx: u8) -> (r: u8)
        requires
            frame_idx < self.fb_cnt,
        ensures
            r as int == next_idx(frame_idx as int, self.spec_ring_depth()),
    {
        let r = (frame_idx + 1) % self.fb_cnt;
        proof {
            if frame_idx as int + 1 < self.fb_cnt as int {
                vstd::arithmetic::div_mod::lemma_small_mod(
                    (frame_idx + 1) as nat,
                    self.fb_cnt as nat,
                );
            } else {
                vstd::arithmetic::div_mod::lemma_mod_self_0(self.fb_cnt as int);
            }
        }
        r
    }
}

/// Builder for [`VideoRx`].  Every field has a default; `build` yields a
/// session on which `create` has not been called yet.
pub struct VideoRxBuilder {
    /// Index into the engine attachment's net devices.
    pub netdev_id: u8,
    /// RTP addressing of the session.
    pub rtp_session: RtpSession,
    /// Frame width in pixels.
    pub width: u32,
    /// Frame height in pixels.
    pub height: u32,
    /// Frame rate.
    pub fps: Fps,
    /// Transport format on the wire.
    pub t_fmt: TransportFmt,
    /// Ring (or pool) depth.
    pub fb_cnt: u8,
    /// Whether the video is interlaced.
    pub interlaced: bool,
    /// Output format for pipeline mode; `None` selects direct mode.
    pub output_fmt: Option<FrameFmt>,
}

impl Default for VideoRxBuilder {
    /// 1920 by 1080 at 59.94 frames per second, 8-bit 4:2:2, a ring of three, progressive, direct mode.
    fn default() -> (r: Self)
        ensures
            r.netdev_id == 0u8,
            r.width == 1920u32,
            r.height == 1080u32,
            r.fps == Fps::P59_94,
            r.t_fmt == TransportFmt::Yuv422_8bit,
            r.fb_cnt == 3u8,
            r.interlaced == false,
            r.output_fmt == Option::<FrameFmt>::None,
    {
        VideoRxBuilder {
            netdev_id: 0,
            rtp_session: RtpSession::default(),
            width: 1920,
            height: 1080,
            fps: Fps::P59_94,
            t_fmt: TransportFmt::Yuv422_8bit,
            fb_cnt: 3,
            interlaced: false,
            output_fmt: None,
        }
    }
}

impl VideoRxBuilder {
    /// Set: index into the engine attachment's net devices.
    pub fn netdev_id(self, netdev_id: u8) -> (r: Self)
        ensures
            r == (VideoRxBuilder { netdev_id, ..self }),
    {
        VideoRxBuilder { netdev_id, ..self }
    }

    /// Set: rTP addressing of the session.
    pub fn rtp_session(self, rtp_session: RtpSession) -> (r: Self)
        ensures
            r == (VideoRxBuilder { rtp_session, ..self }),
    {
        VideoRxBuilder { rtp_session, ..self }
    }

    /// Set: frame width in pixels.
    pub fn width(self, width: u32) -> (r: Self)
        ensures
            r == (VideoRxBuilder { width, ..self }),
    {
        VideoRxBuilder { width, ..self }
    }

    /// Set: frame height in pixels.
    pub fn height(self, height: u32) -> (r: Self)
        ensures
            r == (VideoRxBuilder { height, ..self }),
    {
        VideoRxBuilder { height, ..self }
    }

    /// Set: frame rate.
    pub fn fps(self, fps: Fps) -> (r: Self)
        ensures
            r == (VideoRxBuilder { fps, ..self }),
    {
        VideoRxBuilder { fps, ..self }
    }

    /// Set: transport format on the wire.
    pub fn t_fmt(self, t_fmt: TransportFmt) -> (r: Self)
        ensures
            r == (VideoRxBuilder { t_fmt, ..self }),
    {
        VideoRxBuilder { t_fmt, ..self }
    }

    /// Set: ring (or pool) depth.
    pub fn fb_cnt(self, fb_cnt: u8) -> (r: Self)
        ensures
            r == (VideoRxBuilder { fb_cnt, ..self }),
    {
        VideoRxBuilder { fb_cnt, ..self }
    }

    /// Set: whether the video is interlaced.
    pub fn interlaced(self, interlaced: bool) -> (r: Self)
        ensures
            r == (VideoRxBuilder { interlaced, ..self }),
    {
        VideoRxBuilder { interlaced, ..self }
    }

    /// Set: output format for pipeline mode; `None` selects direct mode.
    pub fn output_fmt(self, output_fmt: Option<FrameFmt>) -> (r: Self)
        ensures
            r == (VideoRxBuilder { output_fmt, ..self }),
    {
        VideoRxBuilder { output_fmt, ..self }
    }

    /// Assemble the not-yet-created session.
    pub fn build(self) -> (r: VideoRx)
        ensures
            r.wf(),
            !r.spec_created(),
            !r.spec_direct(),
            !r.spec_pipeline(),
            r.spec_netdev_id() == self.netdev_id as int,
            r.spec_width() == self.width as int,
            r.spec_height() == self.height as int,
            r.spec_fps() == self.fps,
            r.spec_t_fmt() == self.t_fmt,
            r.spec_fb_cnt() == self.fb_cnt as int,
            r.spec_interlaced() == self.interlaced,
            r.spec_output_fmt() == self.output_fmt,
    {
        VideoRx {
            netdev_id: self.netdev_id,
            rtp_session: self.rtp_session,
            width: self.width,
            height: self.height,
            fps: self.fps,
            t_fmt: self.t_fmt,
            fb_cnt: self.fb_cnt,
            interlaced: self.interlaced,
            output_fmt: self.output_fmt,
            handle: None,
            consumer_idx: 0,
            producer_idx: 0,
            frame_size: 0,
            gate: WakeGate::new(),
            frames: Vec::new(),
            pending: Vec::new(),
        }
    }
}

/// Transmit session for compressed (codestream) video.
///
/// Pure pool mode: the engine compresses and owns every buffer end to end,
/// so no local ring exists.  The session tracks the raw frames submitted
/// for encoding that the engine has not transmitted yet, bounded by
/// `fb_cnt`; an exhausted pool surfaces as `Timeout`, recoverable by
/// retrying.
pub struct CompressedVideoTx {
    netdev_id: u8,
    rtp_session: RtpSession,
    width: u32,
    height: u32,
    fps: Fps,
    fb_cnt: u8,
    interlaced: bool,
    input_fmt: FrameFmt,
    codec_thread_cnt: u8,
    bpp: u8,
    handle: Option<VideoHandle>,
    frame_size: usize,
    codestream_size: usize,
    pending: Vec<Vec<u8>>,
}

impl CompressedVideoTx {
    /// Whether `create` has succeeded on this session.
    pub closed spec fn spec_created(&self) -> bool {
        self.handle == Some(VideoHandle::PipelineCompressedTx)
    }

    /// Whether `create` has not been called on this session yet.
    pub closed spec fn spec_fresh(&self) -> bool {
        self.handle is None
    }

    /// The pool depth.
    pub closed spec fn spec_fb_cnt(&self) -> int {
        self.fb_cnt as int
    }

    /// The byte size of one raw input frame.
    pub closed spec fn spec_frame_size(&self) -> int {
        self.frame_size as int
    }

    /// The byte budget of one compressed frame:
    /// `width * height * bpp / 8`, halved for interlaced video.
    pub closed spec fn spec_codestream_size(&self) -> int {
        self.codestream_size as int
    }

    /// The frames submitted for encoding and not yet transmitted, oldest
    /// first.
    pub closed spec fn spec_pending(&self) -> Seq<Seq<u8>> {
        self.pending@.map_values(|b: Vec<u8>| b@)
    }

    /// The configured net device index.
    pub closed spec fn spec_netdev_id(&self) -> int {
        self.netdev_id as int
    }

    /// The configured frame width in pixels.
    pub closed spec fn spec_width(&self) -> int {
        self.width as int
    }

    /// The configured frame height in pixels.
    pub closed spec fn spec_height(&self) -> int {
        self.height as int
    }

    /// The configured raw input format handed to the encoder.
    pub closed spec fn spec_input_fmt(&self) -> FrameFmt {
        self.input_fmt
    }

    /// The configured compressed bits per pixel.
    pub closed spec fn spec_bpp(&self) -> int {
        self.bpp as int
    }

    /// Whether the video is interlaced.
    pub closed spec fn spec_interlaced(&self) -> bool {
        self.interlaced
    }

    /// Well-formedness: the pool never holds more than `fb_cnt` frames, and
    /// every held frame has the raw input size.
    pub closed spec fn wf(&self) -> bool {
        self.spec_created() ==> {
            &&& self.pending@.len() <= self.fb_cnt as int
            &&& (forall|i: int|
                0 <= i < self.pending@.len() ==> (#[trigger] self.pending@[i])@.len()
                    == self.frame_size)
        }
    }

    /// The configuration checks of `create` that do not depend on the
    /// format catalog.
    pub open spec fn spec_create_base_ok(&self, mtl: &Mtl) -> bool {
        &&& self.spec_fresh()
        &&& mtl.spec_initialized()
        &&& self.spec_netdev_id() < mtl.spec_net_devs().len()
        &&& self.spec_width() * self.spec_height() * 16 <= usize::MAX as int
        &&& self.spec_width() * self.spec_height() * self.spec_bpp() / 8 <= usize::MAX as int
    }

    /// Everything `create` checks: the base configuration, and that the
    /// format catalog knows the raw input format.
    pub open spec fn spec_create_ok(&self, mtl: &Mtl) -> bool {
        &&& self.spec_create_base_ok(mtl)
        &&& self.spec_input_fmt().spec_frame_size(self.spec_width(), self.spec_height()) is Some
    }

    /// Initializes the session against a created engine attachment.  On
    /// success the raw frame size comes from the format catalog and the
    /// codestream budget from the configured bits per pixel.
    pub fn create(self, mtl: &Mtl) -> (r: Result<Self, SessionError>)
        ensures
            r is Ok <==> self.spec_create_ok(mtl),
            r matches Ok(s) ==> {
                &&& s.wf()
                &&& s.spec_created()
                &&& s.spec_fb_cnt() == self.spec_fb_cnt()
                &&& Some(s.spec_frame_size()) == self.spec_input_fmt().spec_frame_size(
                    self.spec_width(),
                    self.spec_height(),
                )
                &&& s.spec_codestream_size() == (if self.spec_interlaced() {
                    self.spec_width() * self.spec_height() * self.spec_bpp() / 8 / 2
                } else {
                    self.spec_width() * self.spec_height() * self.spec_bpp() / 8
                })
                &&& s.spec_pending() == Seq::<Seq<u8>>::empty()
            },
            r matches Err(e) ==> {
                &&& (e == SessionError::CreationFailure <==> !self.spec_create_base_ok(mtl))
                &&& (e == SessionError::UnsupportedFormat <==> self.spec_create_base_ok(mtl)
                    && !self.spec_create_ok(mtl))
            },
    {
        if self.handle.is_some() {
            return Err(SessionError::CreationFailure);
        }
        if mtl.handle().is_none() {
            return Err(SessionError::CreationFailure);
        }
        if (self.netdev_id as usize) >= mtl.net_devs().len() {
            return Err(SessionError::CreationFailure);
        }
        proof {
            assert(self.width as int * self.height as int <= 0xffff_ffff * 0xffff_ffff)
                by (nonlinear_arith)
                requires
                    self.width <= 0xffff_ffffu32,
                    self.height <= 0xffff_ffffu32,
            ;
        }
        let wh: u128 = (self.width as u128) * (self.height as u128);
        if wh * 16 > (usize::MAX as u128) {
            return Err(SessionError::CreationFailure);
        }
        proof {
            assert(self.width as int * self.height as int * self.bpp as int <= 0xffff_ffff
                * 0xffff_ffff * 255) by (nonlinear_arith)
                requires
                    0 <= self.width as int * self.height as int <= 0xffff_ffff * 0xffff_ffff,
                    0 <= self.bpp <= 255,
            ;
        }
        let cs: u128 = wh * (self.bpp as u128) / 8;
        if cs > (usize::MAX as u128) {
            return Err(SessionError::CreationFailure);
        }
        let frame_size = match self.input_fmt.frame_size(self.width, self.height) {
            Ok(n) => n,
            Err(e) => {
                return Err(e);
            },
        };
        let mut codestream_size: usize = cs as usize;
        if self.interlaced {
            codestream_size = codestream_size / 2;
        }
        Ok(
            CompressedVideoTx {
                handle: Some(VideoHandle::PipelineCompressedTx),
                frame_size,
                codestream_size,
                pending: Vec::new(),
                ..self
            },
        )
    }

    /// Submit one raw frame for compression and transmission.
    ///
    /// The frame must be exactly one raw frame long, else `SizeMismatch`.
    /// With `fb_cnt` frames already awaiting the engine, the blocking
    /// checkout would come back empty: `Timeout`, recoverable by retrying.
    pub fn fill_next_frame(&mut self, frame: &[u8]) -> (r: Result<(), SessionError>)
        requires
            old(self).wf(),
        ensures
            final(self).wf(),
            final(self).spec_created() == old(self).spec_created(),
            final(self).spec_fb_cnt() == old(self).spec_fb_cnt(),
            final(self).spec_frame_size() == old(self).spec_frame_size(),
            final(self).spec_codestream_size() == old(self).spec_codestream_size(),
            !old(self).spec_created() ==> r == Err::<(), SessionError>(SessionError::InvalidHandle)
                && *final(self) == *old(self),
            old(self).spec_created() ==> {
                if frame@.len() != old(self).spec_frame_size() {
                    &&& r == Err::<(), SessionError>(SessionError::SizeMismatch)
                    &&& *final(self) == *old(self)
                } else if old(self).spec_pending().len() == old(self).spec_fb_cnt() {
                    &&& r == Err::<(), SessionError>(SessionError::Timeout)
                    &&& *final(self) == *old(self)
                } else {
                    &&& r is Ok
                    &&& final(self).spec_pending() == old(self).spec_pending().push(frame@)
                }
            },
    {
        match self.handle {
            Some(VideoHandle::PipelineCompressedTx) => {
                if frame.len() != self.frame_size {
                    return Err(SessionError::SizeMismatch);
                }
                if self.pending.len() >= self.fb_cnt as usize {
                    return Err(SessionError::Timeout);
                }
                let data = copy_bytes(frame);
                self.pending.push(data);
                proof {
                    assert(self.spec_pending() =~= old(self).spec_pending().push(frame@));
                }
                Ok(())
            },
            _ => Err(SessionError::InvalidHandle),
        }
    }

    /// Pacer-side: the engine compressed, transmitted and recycled the
    /// oldest submitted frame; returns it.  With nothing outstanding,
    /// reports `NoFrameAvailable` and changes nothing.
    pub fn notify_frame_done(&mut self) -> (r: Result<Vec<u8>, SessionError>)
        requires
            old(self).wf(),
        ensures
            final(self).wf(),
            final(self).spec_created() == old(self).spec_created(),
            final(self).spec_fb_cnt() == old(self).spec_fb_cnt(),
            final(self).spec_frame_size() == old(self).spec_frame_size(),
            final(self).spec_codestream_size() == old(self).spec_codestream_size(),
            !old(self).spec_created() ==> (r matches Err(e) && e == SessionError::InvalidHandle
                && *final(self) == *old(self)),
            old(self).spec_created() ==> {
                if old(self).spec_pending().len() == 0 {
                    &&& (r matches Err(e) && e == SessionError::NoFrameAvailable)
                    &&& *final(self) == *old(self)
                } else {
                    &&& (r matches Ok(b) && b@ == old(self).spec_pending()[0])
                    &&& final(self).spec_pending() == old(self).spec_pending().remove(0)
                }
            },
    {
        match self.handle {
            Some(VideoHandle::PipelineCompressedTx) => {
                if self.pending.len() == 0 {
                    return Err(SessionError::NoFrameAvailable);
                }
                let frame = self.pending.remove(0);
                proof {
                    assert(self.spec_pending() =~= old(self).spec_pending().remove(0));
                }
                Ok(frame)
            },
            _ => Err(SessionError::InvalidHandle),
        }
    }
}

/// Builder for [`CompressedVideoTx`].  Every field has a default; `build` yields a
/// session on which `create` has not been called yet.
pub struct CompressedVideoTxBuilder {
    /// Index into the engine attachment's net devices.
    pub netdev_id: u8,
    /// RTP addressing of the session.
    pub rtp_session: RtpSession,
    /// Frame width in pixels.
    pub width: u32,
    /// Frame height in pixels.
    pub height: u32,
    /// Frame rate.
    pub fps: Fps,
    /// Pool depth.
    pub fb_cnt: u8,
    /// Whether the video is interlaced.
    pub interlaced: bool,
    /// Raw input format handed to the encoder.
    pub input_fmt: FrameFmt,
    /// Number of codec threads.
    pub codec_thread_cnt: u8,
    /// Compressed bits per pixel.
    pub bpp: u8,
}

impl Default for CompressedVideoTxBuilder {
    /// 1920 by 1080 at 59.94 frames per second, a pool of three, progressive, network-order 10-bit 4:2:2 input, two codec threads, three bits per pixel.
    fn default() -> (r: Self)
        ensures
            r.netdev_id == 0u8,
            r.width == 1920u32,
            r.height == 1080u32,
            r.fps == Fps::P59_94,
            r.fb_cnt == 3u8,
            r.interlaced == false,
            r.input_fmt == FrameFmt::Yuv422Rfc4175Pg2Be10,
            r.codec_thread_cnt == 2u8,
            r.bpp == 3u8,
    {
        CompressedVideoTxBuilder {
            netdev_id: 0,
            rtp_session: RtpSession::default(),
            width: 1920,
            height: 1080,
            fps: Fps::P59_94,
            fb_cnt: 3,
            interlaced: false,
            input_fmt: FrameFmt::Yuv422Rfc4175Pg2Be10,
            codec_thread_cnt: 2,
            bpp: 3,
        }
    }
}

impl CompressedVideoTxBuilder {
    /// Set: index into the engine attachment's net devices.
    pub fn netdev_id(self, netdev_id: u8) -> (r: Self)
        ensures
            r == (CompressedVideoTxBuilder { netdev_id, ..self }),
    {
        CompressedVideoTxBuilder { netdev_id, ..self }
    }

    /// Set: rTP addressing of the session.
    pub fn rtp_session(self, rtp_session: RtpSession) -> (r: Self)
        ensures
            r == (CompressedVideoTxBuilder { rtp_session, ..self }),
    {
        CompressedVideoTxBuilder { rtp_session, ..self }
    }

    /// Set: frame width in pixels.
    pub fn width(self, width: u32) -> (r: Self)
        ensures
            r == (CompressedVideoTxBuilder { width, ..self }),
    {
        CompressedVideoTxBuilder { width, ..self }
    }

    /// Set: frame height in pixels.
    pub fn height(self, height: u32) -> (r: Self)
        ensures
            r == (CompressedVideoTxBuilder { height, ..self }),
    {
        CompressedVideoTxBuilder { height, ..self }
    }

    /// Set: frame rate.
    pub fn fps(self, fps: Fps) -> (r: Self)
        ensures
            r == (CompressedVideoTxBuilder { fps, ..self }),
    {
        CompressedVideoTxBuilder { fps, ..self }
    }

    /// Set: pool depth.
    pub fn fb_cnt(self, fb_cnt: u8) -> (r: Self)
        ensures
            r == (CompressedVideoTxBuilder { fb_cnt, ..self }),
    {
        CompressedVideoTxBuilder { fb_cnt, ..self }
    }

    /// Set: whether the video is interlaced.
    pub fn interlaced(self, interlaced: bool) -> (r: Self)
        ensures
            r == (CompressedVideoTxBuilder { interlaced, ..self }),
    {
        CompressedVideoTxBuilder { interlaced, ..self }
    }

    /// Set: raw input format handed to the encoder.
    pub fn input_fmt(self, input_fmt: FrameFmt) -> (r: Self)
        ensures
            r == (CompressedVideoTxBuilder { input_fmt, ..self }),
    {
        CompressedVideoTxBuilder { input_fmt, ..self }
    }

    /// Set: number of codec threads.
    pub fn codec_thread_cnt(self, codec_thread_cnt: u8) -> (r: Self)
        ensures
            r == (CompressedVideoTxBuilder { codec_thread_cnt, ..self }),
    {
        CompressedVideoTxBuilder { codec_thread_cnt, ..self }
    }

    /// Set: compressed bits per pixel.
    pub fn bpp(self, bpp: u8) -> (r: Self)
        ensures
            r == (CompressedVideoTxBuilder { bpp, ..self }),
    {
        CompressedVideoTxBuilder { bpp, ..self }
    }

    /// Assemble the not-yet-created session.
    pub fn build(self) -> (r: CompressedVideoTx)
        ensures
            r.wf(),
            !r.spec_created(),
            r.spec_fresh(),
            r.spec_netdev_id() == self.netdev_id as int,
            r.spec_width() == self.width as int,
            r.spec_height() == self.height as int,
            r.spec_fb_cnt() == self.fb_cnt as int,
            r.spec_interlaced() == self.interlaced,
            r.spec_input_fmt() == self.input_fmt,
            r.spec_bpp() == self.bpp as int,
    {
        CompressedVideoTx {
            netdev_id: self.netdev_id,
            rtp_session: self.rtp_session,
            width: self.width,
            height: self.height,
            fps: self.fps,
            fb_cnt: self.fb_cnt,
            interlaced: self.interlaced,
            input_fmt: self.input_fmt,
            codec_thread_cnt: self.codec_thread_cnt,
            bpp: self.bpp,
            handle: None,
            frame_size: 0,
            codestream_size: 0,
            pending: Vec::new(),
        }
    }
}

/// Receive session for compressed (codestream) video.
///
/// Pure pool mode: the engine receives, decodes and owns every buffer;
/// the session tracks the decoded frames delivered and not yet collected,
/// bounded by `fb_cnt`.  An empty pool surfaces as `Timeout`, recoverable
/// by retrying.
pub struct CompressedVideoRx {
    netdev_id: u8,
    rtp_session: RtpSession,
    width: u32,
    height: u32,
    fps: Fps,
    fb_cnt: u8,
    interlaced: bool,
    output_fmt: FrameFmt,
    codec_thread_cnt: u8,
    handle: Option<VideoHandle>,
    frame_size: usize,
    pending: Vec<Vec<u8>>,
}

impl CompressedVideoRx {
    /// Whether `create` has succeeded on this session.
    pub closed spec fn spec_created(&self) -> bool {
        self.handle == Some(VideoHandle::PipelineCompressedRx)
    }

    /// Whether `create` has not been called on this session yet.
    pub closed spec fn spec_fresh(&self) -> bool {
        self.handle is None
    }

    /// The pool depth.
    pub closed spec fn spec_fb_cnt(&self) -> int {
        self.fb_cnt as int
    }

    /// The byte size of one decoded output frame.
    pub closed spec fn spec_frame_size(&self) -> int {
        self.frame_size as int
    }

    /// The decoded frames delivered by the engine and not yet collected,
    /// oldest first.
    pub closed spec fn spec_pending(&self) -> Seq<Seq<u8>> {
        self.pending@.map_values(|b: Vec<u8>| b@)
    }

    /// The configured net device index.
    pub closed spec fn spec_netdev_id(&self) -> int {
        self.netdev_id as int
    }

    /// The configured frame width in pixels.
    pub closed spec fn spec_width(&self) -> int {
        self.width as int
    }

    /// The configured frame height in pixels.
    pub closed spec fn spec_height(&self) -> int {
        self.height as int
    }

    /// The configured decoded output format.
    pub closed spec fn spec_output_fmt(&self) -> FrameFmt {
        self.output_fmt
    }

    /// Well-formedness: the pool never holds more than `fb_cnt` frames, and
    /// every held frame has the decoded output size.
    pub closed spec fn wf(&self) -> bool {
        self.spec_created() ==> {
            &&& self.pending@.len() <= self.fb_cnt as int
            &&& (forall|i: int|
                0 <= i < self.pending@.len() ==> (#[trigger] self.pending@[i])@.len()
                    == self.frame_size)
        }
    }

    /// The configuration checks of `create` that do not depend on the
    /// format catalog.
    pub open spec fn spec_create_base_ok(&self, mtl: &Mtl) -> bool {
        &&& self.spec_fresh()
        &&& mtl.spec_initialized()
        &&& self.spec_netdev_id() < mtl.spec_net_devs().len()
        &&& self.spec_width() * self.spec_height() * 16 <= usize::MAX as int
    }

    /// Everything `create` checks: the base configuration, and that the
    /// format catalog knows the decoded output format.
    pub open spec fn spec_create_ok(&self, mtl: &Mtl) -> bool {
        &&& self.spec_create_base_ok(mtl)
        &&& self.spec_output_fmt().spec_frame_size(self.spec_width(), self.spec_height()) is Some
    }

    /// Initializes the session against a created engine attachment.  On
    /// success the decoded frame size comes from the format catalog.
    pub fn create(self, mtl: &Mtl) -> (r: Result<Self, SessionError>)
        ensures
            r is Ok <==> self.spec_create_ok(mtl),
            r matches Ok(s) ==> {
                &&& s.wf()
                &&& s.spec_created()
                &&& s.spec_fb_cnt() == self.spec_fb_cnt()
                &&& Some(s.spec_frame_size()) == self.spec_output_fmt().spec_frame_size(
                    self.spec_width(),
                    self.spec_height(),
                )
                &&& s.spec_pending() == Seq::<Seq<u8>>::empty()
            },
            r matches Err(e) ==> {
                &&& (e == SessionError::CreationFailure <==> !self.spec_create_base_ok(mtl))
                &&& (e == SessionError::UnsupportedFormat <==> self.spec_create_base_ok(mtl)
                    && !self.spec_create_ok(mtl))
            },
    {
        if self.handle.is_some() {
            return Err(SessionError::CreationFailure);
        }
        if mtl.handle().is_none() {
            return Err(SessionError::CreationFailure);
        }
        if (self.netdev_id as usize) >= mtl.net_devs().len() {
            return Err(SessionError::CreationFailure);
        }
        proof {
            assert(self.width as int * self.height as int <= 0xffff_ffff * 0xffff_ffff)
                by (nonlinear_arith)
                requires
                    self.width <= 0xffff_ffffu32,
                    self.height <= 0xffff_ffffu32,
            ;
        }
        let wh: u128 = (self.width as u128) * (self.height as u128);
        if wh * 16 > (usize::MAX as u128) {
            return Err(SessionError::CreationFailure);
        }
        let frame_size = match self.output_fmt.frame_size(self.width, self.height) {
            Ok(n) => n,
            Err(e) => {
                return Err(e);
            },
        };
        Ok(
            CompressedVideoRx {
                handle: Some(VideoHandle::PipelineCompressedRx),
                frame_size,
                pending: Vec::new(),
                ..self
            },
        )
    }

    /// Collect the oldest decoded frame into `data`.
    ///
    /// `data` must be exactly one decoded frame long, else `SizeMismatch`.
    /// With nothing delivered yet, the blocking checkout would come back
    /// empty: `Timeout`, recoverable by retrying.
    pub fn fill_new_frame(&mut self, data: &mut Vec<u8>) -> (r: Result<(), SessionError>)
        requires
            old(self).wf(),
        ensures
            final(self).wf(),
            final(self).spec_created() == old(self).spec_created(),
            final(self).spec_fb_cnt() == old(self).spec_fb_cnt(),
            final(self).spec_frame_size() == old(self).spec_frame_size(),
            r !is Ok ==> *final(data) == *old(data),
            !old(self).spec_created() ==> r == Err::<(), SessionError>(SessionError::InvalidHandle)
                && *final(self) == *old(self),
            old(self).spec_created() ==> {
                if old(data)@.len() != old(self).spec_frame_size() {
                    &&& r == Err::<(), SessionError>(SessionError::SizeMismatch)
                    &&& *final(self) == *old(self)
                } else if old(self).spec_pending().len() == 0 {
                    &&& r == Err::<(), SessionError>(SessionError::Timeout)
                    &&& *final(self) == *old(self)
                } else {
                    &&& r is Ok
                    &&& final(data)@ == old(self).spec_pending()[0]
                    &&& final(self).spec_pending() == old(self).spec_pending().remove(0)
                }
            },
    {
        match self.handle {
            Some(VideoHandle::PipelineCompressedRx) => {
                if data.len() != self.frame_size {
                    return Err(SessionError::SizeMismatch);
                }
                if self.pending.len() == 0 {
                    return Err(SessionError::Timeout);
                }
                let frame = self.pending.remove(0);
                proof {
                    assert(self.spec_pending() =~= old(self).spec_pending().remove(0));
                }
                *data = frame;
                Ok(())
            },
            _ => Err(SessionError::InvalidHandle),
        }
    }

    /// Pacer-side: the engine received and decoded a frame.
    ///
    /// The frame must be exactly one decoded frame long, else
    /// `SizeMismatch`.  With `fb_cnt` frames already awaiting collection
    /// the pool is saturated: `Busy`, and the frame is dropped.
    pub fn notify_frame_available(&mut self, buffer: Vec<u8>) -> (r: Result<(), SessionError>)
        requires
            old(self).wf(),
        ensures
            final(self).wf(),
            final(self).spec_created() == old(self).spec_created(),
            final(self).spec_fb_cnt() == old(self).spec_fb_cnt(),
            final(self).spec_frame_size() == old(self).spec_frame_size(),
            !old(self).spec_created() ==> r == Err::<(), SessionError>(SessionError::InvalidHandle)
                && *final(self) == *old(self),
            old(self).spec_created() ==> {
                if buffer@.len() != old(self).spec_frame_size() {
                    &&& r == Err::<(), SessionError>(SessionError::SizeMismatch)
                    &&& *final(self) == *old(self)
                } else if old(self).spec_pending().len() == old(self).spec_fb_cnt() {
                    &&& r == Err::<(), SessionError>(SessionError::Busy)
                    &&& *final(self) == *old(self)
                } else {
                    &&& r is Ok
                    &&& final(self).spec_pending() == old(self).spec_pending().push(buffer@)
                }
            },
    {
        match self.handle {
            Some(VideoHandle::PipelineCompressedRx) => {
                if buffer.len() != self.frame_size {
                    return Err(SessionError::SizeMismatch);
                }
                if self.pending.len() >= self.fb_cnt as usize {
                    return Err(SessionError::Busy);
                }
                self.pending.push(buffer);
                proof {
                    assert(self.spec_pending() =~= old(self).spec_pending().push(buffer@));
                }
                Ok(())
            },
            _ => Err(SessionError::InvalidHandle),
        }
    }
}

/// Builder for [`CompressedVideoRx`].  Every field has a default; `build` yields a
/// session on which `create` has not been called yet.
pub struct CompressedVideoRxBuilder {
    /// Index into the engine attachment's net devices.
    pub netdev_id: u8,
    /// RTP addressing of the session.
    pub rtp_session: RtpSession,
    /// Frame width in pixels.
    pub width: u32,
    /// Frame height in pixels.
    pub height: u32,
    /// Frame rate.
    pub fps: Fps,
    /// Pool depth.
    pub fb_cnt: u8,
    /// Whether the video is interlaced.
    pub interlaced: bool,
    /// Decoded output format.
    pub output_fmt: FrameFmt,
    /// Number of codec threads.
    pub codec_thread_cnt: u8,
}

impl Default for CompressedVideoRxBuilder {
    /// 1920 by 1080 at 59.94 frames per second, a pool of three, progressive, network-order 10-bit 4:2:2 output, two codec threads.
    fn default() -> (r: Self)
        ensures
            r.netdev_id == 0u8,
            r.width == 1920u32,
            r.height == 1080u32,
            r.fps == Fps::P59_94,
            r.fb_cnt == 3u8,
            r.interlaced == false,
            r.output_fmt == FrameFmt::Yuv422Rfc4175Pg2Be10,
            r.codec_thread_cnt == 2u8,
    {
        CompressedVideoRxBuilder {
            netdev_id: 0,
            rtp_session: RtpSession::default(),
            width: 1920,
            height: 1080,
            fps: Fps::P59_94,
            fb_cnt: 3,
            interlaced: false,
            output_fmt: FrameFmt::Yuv422Rfc4175Pg2Be10,
            codec_thread_cnt: 2,
        }
    }
}

impl CompressedVideoRxBuilder {
    /// Set: index into the engine attachment's net devices.
    pub fn netdev_id(self, netdev_id: u8) -> (r: Self)
        ensures
            r == (CompressedVideoRxBuilder { netdev_id, ..self }),
    {
        CompressedVideoRxBuilder { netdev_id, ..self }
    }

    /// Set: rTP addressing of the session.
    pub fn rtp_session(self, rtp_session: RtpSession) -> (r: Self)
        ensures
            r == (CompressedVideoRxBuilder { rtp_session, ..self }),
    {
        CompressedVideoRxBuilder { rtp_session, ..self }
    }

    /// Set: frame width in pixels.
    pub fn width(self, width: u32) -> (r: Self)
        ensures
            r == (CompressedVideoRxBuilder { width, ..self }),
    {
        CompressedVideoRxBuilder { width, ..self }
    }

    /// Set: frame height in pixels.
    pub fn height(self, height: u32) -> (r: Self)
        ensures
            r == (CompressedVideoRxBuilder { height, ..self }),
    {
        CompressedVideoRxBuilder { height, ..self }
    }

    /// Set: frame rate.
    pub fn fps(self, fps: Fps) -> (r: Self)
        ensures
            r == (CompressedVideoRxBuilder { fps, ..self }),
    {
        CompressedVideoRxBuilder { fps, ..self }
    }

    /// Set: pool depth.
    pub fn fb_cnt(self, fb_cnt: u8) -> (r: Self)
        ensures
            r == (CompressedVideoRxBuilder { fb_cnt, ..self }),
    {
        CompressedVideoRxBuilder { fb_cnt, ..self }
    }

    /// Set: whether the video is interlaced.
    pub fn interlaced(self, interlaced: bool) -> (r: Self)
        ensures
            r == (CompressedVideoRxBuilder { interlaced, ..self }),
    {
        CompressedVideoRxBuilder { interlaced, ..self }
    }

    /// Set: decoded output format.
    pub fn output_fmt(self, output_fmt: FrameFmt) -> (r: Self)
        ensures
            r == (CompressedVideoRxBuilder { output_fmt, ..self }),
    {
        CompressedVideoRxBuilder { output_fmt, ..self }
    }

    /// Set: number of codec threads.
    pub fn codec_thread_cnt(self, codec_thread_cnt: u8) -> (r: Self)
        ensures
            r == (CompressedVideoRxBuilder { codec_thread_cnt, ..self }),
    {
        CompressedVideoRxBuilder { codec_thread_cnt, ..self }
    }

    /// Assemble the not-yet-created session.
    pub fn build(self) -> (r: CompressedVideoRx)
        ensures
            r.wf(),
            !r.spec_created(),
            r.spec_fresh(),
            r.spec_netdev_id() == self.netdev_id as int,
            r.spec_width() == self.width as int,
            r.spec_height() == self.height as int,
            r.spec_fb_cnt() == self.fb_cnt as int,
            r.spec_output_fmt() == self.output_fmt,
    {
        CompressedVideoRx {
            netdev_id: self.netdev_id,
            rtp_session: self.rtp_session,
            width: self.width,
            height: self.height,
            fps: self.fps,
            fb_cnt: self.fb_cnt,
            interlaced: self.interlaced,
            output_fmt: self.output_fmt,
            codec_thread_cnt: self.codec_thread_cnt,
            handle: None,
            frame_size: 0,
            pending: Vec::new(),
        }
    }
}


} // verus!
