//! Audio sessions: transmit/receive of uncompressed or AES3 audio through
//! the engine-owned pool, plus the audio part of the format catalog.
//!
//! Audio always runs in pool mode: the engine paces packets itself and owns
//! every buffer, so no local slot ring exists.  A session only tracks the
//! frames handed over and not yet consumed, bounded by the pool depth.

use vstd::prelude::*;
use crate::bytes::{bytes_eq, copy_bytes};
use crate::error::SessionError;
use crate::mtl::Mtl;
use crate::session::RtpSession;

verus! {

/// Payload sample format of an audio stream.
#[derive(Copy, Clone, Debug, Default, PartialEq, Eq, Structural)]
pub enum Fmt {
    /// 8-bit PCM.
    #[default]
    Pcm8,
    /// 16-bit PCM.
    Pcm16,
    /// 24-bit PCM.
    Pcm24,
    /// AM824 (AES3 subframes), 32 bits per sample.
    Am824,
}

impl Fmt {
    /// Bytes of one sample of one channel.
    pub open spec fn spec_sample_size(self) -> int {
        match self {
            Fmt::Pcm8 => 1,
            Fmt::Pcm16 => 2,
            Fmt::Pcm24 => 3,
            Fmt::Am824 => 4,
        }
    }
}

impl Fmt {
    /// The format's name, as `from_str` parses it.
    pub open spec fn spec_name(self) -> Seq<char> {
        match self {
            Fmt::Pcm8 => "pcm8"@,
            Fmt::Pcm16 => "pcm16"@,
            Fmt::Pcm24 => "pcm24"@,
            Fmt::Am824 => "am824"@,
        }
    }

    /// The format's name.
    pub fn as_str(self) -> (r: &'static str)
        ensures
            r@ == self.spec_name(),
    {
        match self {
            Fmt::Pcm8 => "pcm8",
            Fmt::Pcm16 => "pcm16",
            Fmt::Pcm24 => "pcm24",
            Fmt::Am824 => "am824",
        }
    }
}

impl core::str::FromStr for Fmt {
    type Err = SessionError;

    /// The inverse of [`Fmt::as_str`]; any other text is an
    /// unsupported format.
    fn from_str(s: &str) -> Result<Self, Self::Err> {
        let b = s.as_bytes();
        if bytes_eq(b, "pcm8".as_bytes()) {
            Ok(Fmt::Pcm8)
        } else if bytes_eq(b, "pcm16".as_bytes()) {
            Ok(Fmt::Pcm16)
        } else if bytes_eq(b, "pcm24".as_bytes()) {
            Ok(Fmt::Pcm24)
        } else if bytes_eq(b, "am824".as_bytes()) {
            Ok(Fmt::Am824)
        } else {
            Err(SessionError::UnsupportedFormat)
        }
    }
}

/// Sampling rate of an audio stream.
#[derive(Copy, Clone, Debug, Default, PartialEq, Eq, Structural)]
pub enum Sampling {
    /// 48 kHz.
    #[default]
    S48K,
    /// 96 kHz.
    S96K,
    /// 44.1 kHz (AES3).
    S44K,
}

impl Sampling {
    /// The rate's name, as `from_str` parses it.
    pub open spec fn spec_name(self) -> Seq<char> {
        match self {
            Sampling::S48K => "48k"@,
            Sampling::S96K => "96k"@,
            Sampling::S44K => "44.1k"@,
        }
    }

    /// The rate's name.
    pub fn as_str(self) -> (r: &'static str)
        ensures
            r@ == self.spec_name(),
    {
        match self {
            Sampling::S48K => "48k",
            Sampling::S96K => "96k",
            Sampling::S44K => "44.1k",
        }
    }
}

impl core::str::FromStr for Sampling {
    type Err = SessionError;

    /// The inverse of [`Sampling::as_str`]; any other text is an
    /// unsupported format.
    fn from_str(s: &str) -> Result<Self, Self::Err> {
        let b = s.as_bytes();
        if bytes_eq(b, "48k".as_bytes()) {
            Ok(Sampling::S48K)
        } else if bytes_eq(b, "96k".as_bytes()) {
            Ok(Sampling::S96K)
        } else if bytes_eq(b, "44.1k".as_bytes()) {
            Ok(Sampling::S44K)
        } else {
            Err(SessionError::UnsupportedFormat)
        }
    }
}

/// Packet time period of an audio stream.
#[derive(Copy, Clone, Debug, Default, PartialEq, Eq, Structural)]
pub enum PacketTime {
    /// 1 millisecond.
    #[default]
    P1ms,
    /// 125 microseconds.
    P125us,
    /// 250 microseconds.
    P250us,
    /// One third of a millisecond.
    P333us,
    /// 4 milliseconds.
    P4ms,
    /// 80 microseconds.
    P80us,
    /// 48 samples at 44.1 kHz.
    P1_09ms,
    /// 6 samples at 44.1 kHz.
    P0_14ms,
    /// 4 samples at 44.1 kHz.
    P0_09ms,
}

impl PacketTime {
    /// The period's name, as `from_str` parses it.
    pub open spec fn spec_name(self) -> Seq<char> {
        match self {
            PacketTime::P1ms => "1ms"@,
            PacketTime::P125us => "125us"@,
            PacketTime::P250us => "250us"@,
            PacketTime::P333us => "333us"@,
            PacketTime::P4ms => "4ms"@,
            PacketTime::P80us => "80us"@,
            PacketTime::P1_09ms => "1.09ms"@,
            PacketTime::P0_14ms => "0.14ms"@,
            PacketTime::P0_09ms => "0.09ms"@,
        }
    }

    /// The period's name.
    pub fn as_str(self) -> (r: &'static str)
        ensures
            r@ == self.spec_name(),
    {
        match self {
            PacketTime::P1ms => "1ms",
            PacketTime::P125us => "125us",
            PacketTime::P250us => "250us",
            PacketTime::P333us => "333us",
            PacketTime::P4ms => "4ms",
            PacketTime::P80us => "80us",
            PacketTime::P1_09ms => "1.09ms",
            PacketTime::P0_14ms => "0.14ms",
            PacketTime::P0_09ms => "0.09ms",
        }
    }
}

impl core::str::FromStr for PacketTime {
    type Err = SessionError;

    /// The inverse of [`PacketTime::as_str`]; any other text is an
    /// unsupported format.
    fn from_str(s: &str) -> Result<Self, Self::Err> {
        let b = s.as_bytes();
        if bytes_eq(b, "1ms".as_bytes()) {
            Ok(PacketTime::P1ms)
        } else if bytes_eq(b, "125us".as_bytes()) {
            Ok(PacketTime::P125us)
        } else if bytes_eq(b, "250us".as_bytes()) {
            Ok(PacketTime::P250us)
        } else if bytes_eq(b, "333us".as_bytes()) {
            Ok(PacketTime::P333us)
        } else if bytes_eq(b, "4ms".as_bytes()) {
            Ok(PacketTime::P4ms)
        } else if bytes_eq(b, "80us".as_bytes()) {
            Ok(PacketTime::P80us)
        } else if bytes_eq(b, "1.09ms".as_bytes()) {
            Ok(PacketTime::P1_09ms)
        } else if bytes_eq(b, "0.14ms".as_bytes()) {
            Ok(PacketTime::P0_14ms)
        } else if bytes_eq(b, "0.09ms".as_bytes()) {
            Ok(PacketTime::P0_09ms)
        } else {
            Err(SessionError::UnsupportedFormat)
        }
    }
}

impl PacketTime {
    /// The period in nanoseconds, truncated for the 44.1 kHz periods.
    pub open spec fn spec_nanos(self) -> int {
        match self {
            PacketTime::P1ms => 1_000_000,
            PacketTime::P125us => 125_000,
            PacketTime::P250us => 250_000,
            PacketTime::P333us => 333_333,
            PacketTime::P4ms => 4_000_000,
            PacketTime::P80us => 80_000,
            PacketTime::P1_09ms => 1_088_435,
            PacketTime::P0_14ms => 136_054,
            PacketTime::P0_09ms => 90_702,
        }
    }
}

impl Sampling {
    /// Samples of one channel in one packet period, where the period holds
    /// a whole number of samples at this rate; `None` otherwise.
    pub open spec fn spec_samples_per_packet(self, ptime: PacketTime) -> Option<int> {
        match self {
            Sampling::S48K => match ptime {
                PacketTime::P1ms => Some(48),
                PacketTime::P125us => Some(6),
                PacketTime::P250us => Some(12),
                PacketTime::P333us => Some(16),
                PacketTime::P4ms => Some(192),
                _ => None,
            },
            Sampling::S96K => match ptime {
                PacketTime::P1ms => Some(96),
                PacketTime::P125us => Some(12),
                PacketTime::P250us => Some(24),
                PacketTime::P333us => Some(32),
                PacketTime::P4ms => Some(384),
                _ => None,
            },
            Sampling::S44K => match ptime {
                PacketTime::P1_09ms => Some(48),
                PacketTime::P0_14ms => Some(6),
                PacketTime::P0_09ms => Some(4),
                _ => None,
            },
        }
    }
}

/// Bytes of one audio frame covering `frametime_ms` milliseconds: the whole
/// packets that fit in the frame time, each holding one packet period of
/// samples for every channel.  `None` where the sampling rate and packet
/// time do not combine.
pub open spec fn spec_audio_frame_size(
    fmt: Fmt,
    sampling: Sampling,
    ptime: PacketTime,
    channel: int,
    frametime_ms: int,
) -> Option<int> {
    match sampling.spec_samples_per_packet(ptime) {
        Some(spp) => Some(
            (frametime_ms * 1_000_000 / ptime.spec_nanos()) * spp * channel
                * fmt.spec_sample_size(),
        ),
        None => None,
    }
}

/// The audio format catalog: byte size of one frame, from the sample
/// format, sampling rate, packet time, channel count and frame time.
pub fn audio_frame_size(
    fmt: Fmt,
    sampling: Sampling,
    ptime: PacketTime,
    channel: u16,
    frametime_ms: u16,
) -> (r: Result<usize, SessionError>)
    ensures
        r is Ok <==> (spec_audio_frame_size(
            fmt,
            sampling,
            ptime,
            channel as int,
            frametime_ms as int,
        ) matches Some(s) && s <= usize::MAX as int),
        match r {
            Ok(n) => spec_audio_frame_size(fmt, sampling, ptime, channel as int, frametime_ms as int)
                == Some(n as int),
            Err(e) => {
                &&& (e == SessionError::UnsupportedFormat <==> spec_audio_frame_size(
                    fmt,
                    sampling,
                    ptime,
                    channel as int,
                    frametime_ms as int,
                ) is None)
                &&& (e == SessionError::CreationFailure <==> (spec_audio_frame_size(
                    fmt,
                    sampling,
                    ptime,
                    channel as int,
                    frametime_ms as int,
                ) matches Some(s) && s > usize::MAX as int))
            },
        },
{
    let spp: u64 = match sampling {
        Sampling::S48K => match ptime {
            PacketTime::P1ms => 48,
            PacketTime::P125us => 6,
            PacketTime::P250us => 12,
            PacketTime::P333us => 16,
            PacketTime::P4ms => 192,
            _ => {
                return Err(SessionError::UnsupportedFormat);
            },
        },
        Sampling::S96K => match ptime {
            PacketTime::P1ms => 96,
            PacketTime::P125us => 12,
            PacketTime::P250us => 24,
            PacketTime::P333us => 32,
            PacketTime::P4ms => 384,
            _ => {
                return Err(SessionError::UnsupportedFormat);
            },
        },
        Sampling::S44K => match ptime {
            PacketTime::P1_09ms => 48,
            PacketTime::P0_14ms => 6,
            PacketTime::P0_09ms => 4,
            _ => {
                return Err(SessionError::UnsupportedFormat);
            },
        },
    };
    let ptime_ns: u64 = match ptime {
        PacketTime::P1ms => 1_000_000,
        PacketTime::P125us => 125_000,
        PacketTime::P250us => 250_000,
        PacketTime::P333us => 333_333,
        PacketTime::P4ms => 4_000_000,
        PacketTime::P80us => 80_000,
        PacketTime::P1_09ms => 1_088_435,
        PacketTime::P0_14ms => 136_054,
        PacketTime::P0_09ms => 90_702,
    };
    let sample_size: u64 = match fmt {
        Fmt::Pcm8 => 1,
        Fmt::Pcm16 => 2,
        Fmt::Pcm24 => 3,
        Fmt::Am824 => 4,
    };
    let frametime_ns: u64 = (frametime_ms as u64) * 1_000_000;
    let packets: u64 = frametime_ns / ptime_ns;
    proof {
        vstd::arithmetic::div_mod::lemma_div_is_ordered_by_denominator(
            frametime_ns as int,
            1,
            ptime_ns as int,
        );
        assert(packets * spp * (channel as u64) * sample_size <= 65_535_000_000
            * (384 * 65535 * 4)) by (nonlinear_arith)
            requires
                0 <= packets <= 65_535_000_000,
                0 <= spp <= 384,
                0 <= channel <= 65535,
                0 <= sample_size <= 4,
        ;
    }
    let total: u64 = packets * spp * (channel as u64) * sample_size;
    if total > (usize::MAX as u64) {
        return Err(SessionError::CreationFailure);
    }
    Ok(total as usize)
}

/// Which kind of engine session an audio session was created as.
#[derive(Copy, Clone, Debug, PartialEq, Eq, Structural)]
enum AudioHandle {
    Tx,
    Rx,
}

/// Transmit session for audio.  The engine owns the buffers; the session
/// tracks the frames submitted and not yet transmitted, bounded by the pool
/// depth `fb_cnt`.
pub struct AudioTx {
    netdev_id: u8,
    rtp_session: RtpSession,
    fmt: Fmt,
    channel: u16,
    sampling: Sampling,
    ptime: PacketTime,
    fb_cnt: u8,
    frametime_ms: u16,
    handle: Option<AudioHandle>,
    frame_size: usize,
    pending: Vec<Vec<u8>>,
}

impl AudioTx {
    /// Whether `create` has succeeded on this session.
    pub closed spec fn spec_created(&self) -> bool {
        self.handle == Some(AudioHandle::Tx)
    }

    /// Whether `create` has not been called on this session yet.
    pub closed spec fn spec_fresh(&self) -> bool {
        self.handle is None
    }

    /// The pool depth.
    pub closed spec fn spec_fb_cnt(&self) -> int {
        self.fb_cnt as int
    }

    /// The byte size of one audio frame.
    pub closed spec fn spec_frame_size(&self) -> int {
        self.frame_size as int
    }

    /// The frames submitted and not yet transmitted, oldest first.
    pub closed spec fn spec_pending(&self) -> Seq<Seq<u8>> {
        self.pending@.map_values(|b: Vec<u8>| b@)
    }

    /// The configured net device index.
    pub closed spec fn spec_netdev_id(&self) -> int {
        self.netdev_id as int
    }

    /// The configured sample format.
    pub closed spec fn spec_fmt(&self) -> Fmt {
        self.fmt
    }

    /// The configured channel count.
    pub closed spec fn spec_channel(&self) -> int {
        self.channel as int
    }

    /// The configured sampling rate.
    pub closed spec fn spec_sampling(&self) -> Sampling {
        self.sampling
    }

    /// The configured packet time.
    pub closed spec fn spec_ptime(&self) -> PacketTime {
        self.ptime
    }

    /// The configured frame time in milliseconds.
    pub closed spec fn spec_frametime_ms(&self) -> int {
        self.frametime_ms as int
    }

    /// What the format catalog says one frame of this configuration holds.
    pub open spec fn spec_catalog_size(&self) -> Option<int> {
        spec_audio_frame_size(
            self.spec_fmt(),
            self.spec_sampling(),
            self.spec_ptime(),
            self.spec_channel(),
            self.spec_frametime_ms(),
        )
    }

    /// Well-formedness: the pool never holds more than `fb_cnt` frames, and
    /// every held frame has the computed size.
    pub closed spec fn wf(&self) -> bool {
        self.spec_created() ==> {
            &&& self.pending@.len() <= self.fb_cnt as int
            &&& (forall|i: int|
                0 <= i < self.pending@.len() ==> (#[trigger] self.pending@[i])@.len()
                    == self.frame_size)
        }
    }

    /// The configuration checks of `create` that do not depend on the
    /// format catalog.
    pub open spec fn spec_create_base_ok(&self, mtl: &Mtl) -> bool {
        &&& self.spec_fresh()
        &&& mtl.spec_initialized()
        &&& self.spec_netdev_id() < mtl.spec_net_devs().len()
    }

    /// Everything `create` checks: the base configuration, and a frame
    /// size the catalog knows and the machine can hold.
    pub open spec fn spec_create_ok(&self, mtl: &Mtl) -> bool {
        &&& self.spec_create_base_ok(mtl)
        &&& (self.spec_catalog_size() matches Some(s) && s <= usize::MAX as int)
    }

    /// Initializes the session against a created engine attachment.  On
    /// success the frame size comes from the audio format catalog.
    pub fn create(self, mtl: &Mtl) -> (r: Result<Self, SessionError>)
        ensures
            r is Ok <==> self.spec_create_ok(mtl),
            r matches Ok(s) ==> {
                &&& s.wf()
                &&& s.spec_created()
                &&& s.spec_fb_cnt() == self.spec_fb_cnt()
                &&& Some(s.spec_frame_size()) == self.spec_catalog_size()
                &&& s.spec_pending() == Seq::<Seq<u8>>::empty()
            },
            r matches Err(e) ==> {
                &&& (e == SessionError::UnsupportedFormat <==> self.spec_create_base_ok(mtl)
                    && self.spec_catalog_size() is None)
                &&& (e == SessionError::CreationFailure <==> !self.spec_create_base_ok(mtl) || (
                self.spec_catalog_size() matches Some(s) && s > usize::MAX as int))
            },
    {
        if self.handle.is_some() {
            return Err(SessionError::CreationFailure);
        }
        if mtl.handle().is_none() {
            return Err(SessionError::CreationFailure);
        }
        if (self.netdev_id as usize) >= mtl.net_devs().len() {
            return Err(SessionError::CreationFailure);
        }
        let frame_size = match audio_frame_size(
            self.fmt,
            self.sampling,
            self.ptime,
            self.channel,
            self.frametime_ms,
        ) {
            Ok(n) => n,
            Err(e) => {
                return Err(e);
            },
        };
        Ok(
            AudioTx {
                handle: Some(AudioHandle::Tx),
                frame_size,
                pending: Vec::new(),
                ..self
            },
        )
    }

    /// Get the raw frame size.
    pub fn frame_size(&self) -> (r: usize)
        ensures
            r == self.spec_frame_size(),
    {
        self.frame_size
    }

    /// Submit one audio frame for transmission.
    ///
    /// The frame must be exactly one frame long, else `SizeMismatch`.  With
    /// `fb_cnt` frames already awaiting the engine, the blocking checkout
    /// would come back empty: `Timeout`, recoverable by retrying.
    pub fn fill_next_frame(&mut self, frame: &[u8]) -> (r: Result<(), SessionError>)
        requires
            old(self).wf(),
        ensures
            final(self).wf(),
            final(self).spec_created() == old(self).spec_created(),
            final(self).spec_fb_cnt() == old(self).spec_fb_cnt(),
            final(self).spec_frame_size() == old(self).spec_frame_size(),
            !old(self).spec_created() ==> r == Err::<(), SessionError>(SessionError::InvalidHandle)
                && *final(self) == *old(self),
            old(self).spec_created() ==> {
                if frame@.len() != old(self).spec_frame_size() {
                    &&& r == Err::<(), SessionError>(SessionError::SizeMismatch)
                    &&& *final(self) == *old(self)
                } else if old(self).spec_pending().len() == old(self).spec_fb_cnt() {
                    &&& r == Err::<(), SessionError>(SessionError::Timeout)
                    &&& *final(self) == *old(self)
                } else {
                    &&& r is Ok
                    &&& final(self).spec_pending() == old(self).spec_pending().push(frame@)
                }
            },
    {
        match self.handle {
            Some(AudioHandle::Tx) => {
                if frame.len() != self.frame_size {
                    return Err(SessionError::SizeMismatch);
                }
                if self.pending.len() >= self.fb_cnt as usize {
                    return Err(SessionError::Timeout);
                }
                let data = copy_bytes(frame);
                self.pending.push(data);
                proof {
                    assert(self.spec_pending() =~= old(self).spec_pending().push(frame@));
                }
                Ok(())
            },
            _ => Err(SessionError::InvalidHandle),
        }
    }

    /// Pacer-side: the engine transmitted and recycled the oldest submitted
    /// frame; returns it.  With nothing outstanding, reports
    /// `NoFrameAvailable` and changes nothing.
    pub fn notify_frame_done(&mut self) -> (r: Result<Vec<u8>, SessionError>)
        requires
            old(self).wf(),
        ensures
            final(self).wf(),
            final(self).spec_created() == old(self).spec_created(),
            final(self).spec_fb_cnt() == old(self).spec_fb_cnt(),
            final(self).spec_frame_size() == old(self).spec_frame_size(),
            !old(self).spec_created() ==> (r matches Err(e) && e == SessionError::InvalidHandle
                && *final(self) == *old(self)),
            old(self).spec_created() ==> {
                if old(self).spec_pending().len() == 0 {
                    &&& (r matches Err(e) && e == SessionError::NoFrameAvailable)
                    &&& *final(self) == *old(self)
                } else {
                    &&& (r matches Ok(b) && b@ == old(self).spec_pending()[0])
                    &&& final(self).spec_pending() == old(self).spec_pending().remove(0)
                }
            },
    {
        match self.handle {
            Some(AudioHandle::Tx) => {
                if self.pending.len() == 0 {
                    return Err(SessionError::NoFrameAvailable);
                }
                let frame = self.pending.remove(0);
                proof {
                    assert(self.spec_pending() =~= old(self).spec_pending().remove(0));
                }
                Ok(frame)
            },
            _ => Err(SessionError::InvalidHandle),
        }
    }
}

/// Builder for [`AudioTx`].  Every field has a default; `build` yields a
/// session on which `create` has not been called yet.
pub struct AudioTxBuilder {
    /// Index into the engine attachment's net devices.
    pub netdev_id: u8,
    /// RTP addressing of the session.
    pub rtp_session: RtpSession,
    /// Sample format.
    pub fmt: Fmt,
    /// Channel count.
    pub channel: u16,
    /// Sampling rate.
    pub sampling: Sampling,
    /// Packet time period.
    pub ptime: PacketTime,
    /// Pool depth.
    pub fb_cnt: u8,
    /// Frame time in milliseconds.
    pub frametime_ms: u16,
}

impl Default for AudioTxBuilder {
    /// 8-bit PCM, two channels at 48 kHz, 1 millisecond packets, a pool of three, 10 millisecond frames.
    fn default() -> (r: Self)
        ensures
            r.netdev_id == 0u8,
            r.fmt == Fmt::Pcm8,
            r.channel == 2u16,
            r.sampling == Sampling::S48K,
            r.ptime == PacketTime::P1ms,
            r.fb_cnt == 3u8,
            r.frametime_ms == 10u16,
    {
        AudioTxBuilder {
            netdev_id: 0,
            rtp_session: RtpSession::default(),
            fmt: Fmt::Pcm8,
            channel: 2,
            sampling: Sampling::S48K,
            ptime: PacketTime::P1ms,
            fb_cnt: 3,
            frametime_ms: 10,
        }
    }
}

impl AudioTxBuilder {
    /// Set: index into the engine attachment's net devices.
    pub fn netdev_id(self, netdev_id: u8) -> (r: Self)
        ensures
            r == (AudioTxBuilder { netdev_id, ..self }),
    {
        AudioTxBuilder { netdev_id, ..self }
    }

    /// Set: rTP addressing of the session.
    pub fn rtp_session(self, rtp_session: RtpSession) -> (r: Self)
        ensures
            r == (AudioTxBuilder { rtp_session, ..self }),
    {
        AudioTxBuilder { rtp_session, ..self }
    }

    /// Set: sample format.
    pub fn fmt(self, fmt: Fmt) -> (r: Self)
        ensures
            r == (AudioTxBuilder { fmt, ..self }),
    {
        AudioTxBuilder { fmt, ..self }
    }

    /// Set: channel count.
    pub fn channel(self, channel: u16) -> (r: Self)
        ensures
            r == (AudioTxBuilder { channel, ..self }),
    {
        AudioTxBuilder { channel, ..self }
    }

    /// Set: sampling rate.
    pub fn sampling(self, sampling: Sampling) -> (r: Self)
        ensures
            r == (AudioTxBuilder { sampling, ..self }),
    {
        AudioTxBuilder { sampling, ..self }
    }

    /// Set: packet time period.
    pub fn ptime(self, ptime: PacketTime) -> (r: Self)
        ensures
            r == (AudioTxBuilder { ptime, ..self }),
    {
        AudioTxBuilder { ptime, ..self }
    }

    /// Set: pool depth.
    pub fn fb_cnt(self, fb_cnt: u8) -> (r: Self)
        ensures
            r == (AudioTxBuilder { fb_cnt, ..self }),
    {
        AudioTxBuilder { fb_cnt, ..self }
    }

    /// Set: frame time in milliseconds.
    pub fn frametime_ms(self, frametime_ms: u16) -> (r: Self)
        ensures
            r == (AudioTxBuilder { frametime_ms, ..self }),
    {
        AudioTxBuilder { frametime_ms, ..self }
    }

    /// Assemble the not-yet-created session.
    pub fn build(self) -> (r: AudioTx)
        ensures
            r.wf(),
            !r.spec_created(),
            r.spec_fresh(),
            r.spec_netdev_id() == self.netdev_id as int,
            r.spec_fmt() == self.fmt,
            r.spec_channel() == self.channel as int,
            r.spec_sampling() == self.sampling,
            r.spec_ptime() == self.ptime,
            r.spec_fb_cnt() == self.fb_cnt as int,
            r.spec_frametime_ms() == self.frametime_ms as int,
    {
        AudioTx {
            netdev_id: self.netdev_id,
            rtp_session: self.rtp_session,
            fmt: self.fmt,
            channel: self.channel,
            sampling: self.sampling,
            ptime: self.ptime,
            fb_cnt: self.fb_cnt,
            frametime_ms: self.frametime_ms,
            handle: None,
            frame_size: 0,
            pending: Vec::new(),
        }
    }
}

/// Receive session for audio.  The engine owns the buffers; the session
/// tracks the received frames not yet collected, bounded by the pool depth
/// `fb_cnt`.
pub struct AudioRx {
    netdev_id: u8,
    rtp_session: RtpSession,
    fmt: Fmt,
    channel: u16,
    sampling: Sampling,
    ptime: PacketTime,
    fb_cnt: u8,
    frametime_ms: u16,
    handle: Option<AudioHandle>,
    frame_size: usize,
    pending: Vec<Vec<u8>>,
}

impl AudioRx {
    /// Whether `create` has succeeded on this session.
    pub closed spec fn spec_created(&self) -> bool {
        self.handle == Some(AudioHandle::Rx)
    }

    /// Whether `create` has not been called on this session yet.
    pub closed spec fn spec_fresh(&self) -> bool {
        self.handle is None
    }

    /// The pool depth.
    pub closed spec fn spec_fb_cnt(&self) -> int {
        self.fb_cnt as int
    }

    /// The byte size of one audio frame.
    pub closed spec fn spec_frame_size(&self) -> int {
        self.frame_size as int
    }

    /// The frames received and not yet collected, oldest first.
    pub closed spec fn spec_pending(&self) -> Seq<Seq<u8>> {
        self.pending@.map_values(|b: Vec<u8>| b@)
    }

    /// The configured net device index.
    pub closed spec fn spec_netdev_id(&self) -> int {
        self.netdev_id as int
    }

    /// The configured sample format.
    pub closed spec fn spec_fmt(&self) -> Fmt {
        self.fmt
    }

    /// The configured channel count.
    pub closed spec fn spec_channel(&self) -> int {
        self.channel as int
    }

    /// The configured sampling rate.
    pub closed spec fn spec_sampling(&self) -> Sampling {
        self.sampling
    }

    /// The configured packet time.
    pub closed spec fn spec_ptime(&self) -> PacketTime {
        self.ptime
    }

    /// The configured frame time in milliseconds.
    pub closed spec fn spec_frametime_ms(&self) -> int {
        self.frametime_ms as int
    }

    /// What the format catalog says one frame of this configuration holds.
    pub open spec fn spec_catalog_size(&self) -> Option<int> {
        spec_audio_frame_size(
            self.spec_fmt(),
            self.spec_sampling(),
            self.spec_ptime(),
            self.spec_channel(),
            self.spec_frametime_ms(),
        )
    }

    /// Well-formedness: the pool never holds more than `fb_cnt` frames, and
    /// every held frame has the computed size.
    pub closed spec fn wf(&self) -> bool {
        self.spec_created() ==> {
            &&& self.pending@.len() <= self.fb_cnt as int
            &&& (forall|i: int|
                0 <= i < self.pending@.len() ==> (#[trigger] self.pending@[i])@.len()
                    == self.frame_size)
        }
    }

    /// The configuration checks of `create` that do not depend on the
    /// format catalog.
    pub open spec fn spec_create_base_ok(&self, mtl: &Mtl) -> bool {
        &&& self.spec_fresh()
        &&& mtl.spec_initialized()
        &&& self.spec_netdev_id() < mtl.spec_net_devs().len()
    }

    /// Everything `create` checks: the base configuration, and a frame
    /// size the catalog knows and the machine can hold.
    pub open spec fn spec_create_ok(&self, mtl: &Mtl) -> bool {
        &&& self.spec_create_base_ok(mtl)
        &&& (self.spec_catalog_size() matches Some(s) && s <= usize::MAX as int)
    }

    /// Initializes the session against a created engine attachment.  On
    /// success the frame size comes from the audio format catalog.
    pub fn create(self, mtl: &Mtl) -> (r: Result<Self, SessionError>)
        ensures
            r is Ok <==> self.spec_create_ok(mtl),
            r matches Ok(s) ==> {
                &&& s.wf()
                &&& s.spec_created()
                &&& s.spec_fb_cnt() == self.spec_fb_cnt()
                &&& Some(s.spec_frame_size()) == self.spec_catalog_size()
                &&& s.spec_pending() == Seq::<Seq<u8>>::empty()
            },
            r matches Err(e) ==> {
                &&& (e == SessionError::UnsupportedFormat <==> self.spec_create_base_ok(mtl)
                    && self.spec_catalog_size() is None)
                &&& (e == SessionError::CreationFailure <==> !self.spec_create_base_ok(mtl) || (
                self.spec_catalog_size() matches Some(s) && s > usize::MAX as int))
            },
    {
        if self.handle.is_some() {
            return Err(SessionError::CreationFailure);
        }
        if mtl.handle().is_none() {
            return Err(SessionError::CreationFailure);
        }
        if (self.netdev_id as usize) >= mtl.net_devs().len() {
            return Err(SessionError::CreationFailure);
        }
        let frame_size = match audio_frame_size(
            self.fmt,
            self.sampling,
            self.ptime,
            self.channel,
            self.frametime_ms,
        ) {
            Ok(n) => n,
            Err(e) => {
                return Err(e);
            },
        };
        Ok(
            AudioRx {
                handle: Some(AudioHandle::Rx),
                frame_size,
                pending: Vec::new(),
                ..self
            },
        )
    }

    /// Get the raw frame size.
    pub fn frame_size(&self) -> (r: usize)
        ensures
            r == self.spec_frame_size(),
    {
        self.frame_size
    }

    /// Collect the oldest received frame into `data`.
    ///
    /// `data` must be exactly one frame long, else `SizeMismatch`.  With
    /// nothing received yet, the blocking checkout would come back empty:
    /// `Timeout`, recoverable by retrying.
    pub fn fill_new_frame(&mut self, data: &mut Vec<u8>) -> (r: Result<(), SessionError>)
        requires
            old(self).wf(),
        ensures
            final(self).wf(),
            final(self).spec_created() == old(self).spec_created(),
            final(self).spec_fb_cnt() == old(self).spec_fb_cnt(),
            final(self).spec_frame_size() == old(self).spec_frame_size(),
            r !is Ok ==> *final(data) == *old(data),
            !old(self).spec_created() ==> r == Err::<(), SessionError>(SessionError::InvalidHandle)
                && *final(self) == *old(self),
            old(self).spec_created() ==> {
                if old(data)@.len() != old(self).spec_frame_size() {
                    &&& r == Err::<(), SessionError>(SessionError::SizeMismatch)
                    &&& *final(self) == *old(self)
                } else if old(self).spec_pending().len() == 0 {
                    &&& r == Err::<(), SessionError>(SessionError::Timeout)
                    &&& *final(self) == *old(self)
                } else {
                    &&& r is Ok
                    &&& final(data)@ == old(self).spec_pending()[0]
                    &&& final(self).spec_pending() == old(self).spec_pending().remove(0)
                }
            },
    {
        match self.handle {
            Some(AudioHandle::Rx) => {
                if data.len() != self.frame_size {
                    return Err(SessionError::SizeMismatch);
                }
                if self.pending.len() == 0 {
                    return Err(SessionError::Timeout);
                }
                let frame = self.pending.remove(0);
                proof {
                    assert(self.spec_pending() =~= old(self).spec_pending().remove(0));
                }
                *data = frame;
                Ok(())
            },
            _ => Err(SessionError::InvalidHandle),
        }
    }

    /// Pacer-side: the engine received a frame.
    ///
    /// The frame must be exactly one frame long, else `SizeMismatch`.  With
    /// `fb_cnt` frames already awaiting collection the pool is saturated:
    /// `Busy`, and the frame is dropped.
    pub fn notify_frame_available(&mut self, buffer: Vec<u8>) -> (r: Result<(), SessionError>)
        requires
            old(self).wf(),
        ensures
            final(self).wf(),
            final(self).spec_created() == old(self).spec_created(),
            final(self).spec_fb_cnt() == old(self).spec_fb_cnt(),
            final(self).spec_frame_size() == old(self).spec_frame_size(),
            !old(self).spec_created() ==> r == Err::<(), SessionError>(SessionError::InvalidHandle)
                && *final(self) == *old(self),
            old(self).spec_created() ==> {
                if buffer@.len() != old(self).spec_frame_size() {
                    &&& r == Err::<(), SessionError>(SessionError::SizeMismatch)
                    &&& *final(self) == *old(self)
                } else if old(self).spec_pending().len() == old(self).spec_fb_cnt() {
                    &&& r == Err::<(), SessionError>(SessionError::Busy)
                    &&& *final(self) == *old(self)
                } else {
                    &&& r is Ok
                    &&& final(self).spec_pending() == old(self).spec_pending().push(buffer@)
                }
            },
    {
        match self.handle {
            Some(AudioHandle::Rx) => {
                if buffer.len() != self.frame_size {
                    return Err(SessionError::SizeMismatch);
                }
                if self.pending.len() >= self.fb_cnt as usize {
                    return Err(SessionError::Busy);
                }
                self.pending.push(buffer);
                proof {
                    assert(self.spec_pending() =~= old(self).spec_pending().push(buffer@));
                }
                Ok(())
            },
            _ => Err(SessionError::InvalidHandle),
        }
    }
}

/// Builder for [`AudioRx`].  Every field has a default; `build` yields a
/// session on which `create` has not been called yet.
pub struct AudioRxBuilder {
    /// Index into the engine attachment's net devices.
    pub netdev_id: u8,
    /// RTP addressing of the session.
    pub rtp_session: RtpSession,
    /// Sample format.
    pub fmt: Fmt,
    /// Channel count.
    pub channel: u16,
    /// Sampling rate.
    pub sampling: Sampling,
    /// Packet time period.
    pub ptime: PacketTime,
    /// Pool depth.
    pub fb_cnt: u8,
    /// Frame time in milliseconds.
    pub frametime_ms: u16,
}

impl Default for AudioRxBuilder {
    /// 8-bit PCM, two channels at 48 kHz, 1 millisecond packets, a pool of three, 10 millisecond frames.
    fn default() -> (r: Self)
        ensures
            r.netdev_id == 0u8,
            r.fmt == Fmt::Pcm8,
            r.channel == 2u16,
            r.sampling == Sampling::S48K,
            r.ptime == PacketTime::P1ms,
            r.fb_cnt == 3u8,
            r.frametime_ms == 10u16,
    {
        AudioRxBuilder {
            netdev_id: 0,
            rtp_session: RtpSession::default(),
            fmt: Fmt::Pcm8,
            channel: 2,
            sampling: Sampling::S48K,
            ptime: PacketTime::P1ms,
            fb_cnt: 3,
            frametime_ms: 10,
        }
    }
}

impl AudioRxBuilder {
    /// Set: index into the engine attachment's net devices.
    pub fn netdev_id(self, netdev_id: u8) -> (r: Self)
        ensures
            r == (AudioRxBuilder { netdev_id, ..self }),
    {
        AudioRxBuilder { netdev_id, ..self }
    }

    /// Set: rTP addressing of the session.
    pub fn rtp_session(self, rtp_session: RtpSession) -> (r: Self)
        ensures
            r == (AudioRxBuilder { rtp_session, ..self }),
    {
        AudioRxBuilder { rtp_session, ..self }
    }

    /// Set: sample format.
    pub fn fmt(self, fmt: Fmt) -> (r: Self)
        ensures
            r == (AudioRxBuilder { fmt, ..self }),
    {
        AudioRxBuilder { fmt, ..self }
    }

    /// Set: channel count.
    pub fn channel(self, channel: u16) -> (r: Self)
        ensures
            r == (AudioRxBuilder { channel, ..self }),
    {
        AudioRxBuilder { channel, ..self }
    }

    /// Set: sampling rate.
    pub fn sampling(self, sampling: Sampling) -> (r: Self)
        ensures
            r == (AudioRxBuilder { sampling, ..self }),
    {
        AudioRxBuilder { sampling, ..self }
    }

    /// Set: packet time period.
    pub fn ptime(self, ptime: PacketTime) -> (r: Self)
        ensures
            r == (AudioRxBuilder { ptime, ..self }),
    {
        AudioRxBuilder { ptime, ..self }
    }

    /// Set: pool depth.
    pub fn fb_cnt(self, fb_cnt: u8) -> (r: Self)
        ensures
            r == (AudioRxBuilder { fb_cnt, ..self }),
    {
        AudioRxBuilder { fb_cnt, ..self }
    }

    /// Set: frame time in milliseconds.
    pub fn frametime_ms(self, frametime_ms: u16) -> (r: Self)
        ensures
            r == (AudioRxBuilder { frametime_ms, ..self }),
    {
        AudioRxBuilder { frametime_ms, ..self }
    }

    /// Assemble the not-yet-created session.
    pub fn build(self) -> (r: AudioRx)
        ensures
            r.wf(),
            !r.spec_created(),
            r.spec_fresh(),
            r.spec_netdev_id() == self.netdev_id as int,
            r.spec_fmt() == self.fmt,
            r.spec_channel() == self.channel as int,
            r.spec_sampling() == self.sampling,
            r.spec_ptime() == self.ptime,
            r.spec_fb_cnt() == self.fb_cnt as int,
            r.spec_frametime_ms() == self.frametime_ms as int,
    {
        AudioRx {
            netdev_id: self.netdev_id,
            rtp_session: self.rtp_session,
            fmt: self.fmt,
            channel: self.channel,
            sampling: self.sampling,
            ptime: self.ptime,
            fb_cnt: self.fb_cnt,
            frametime_ms: self.frametime_ms,
            handle: None,
            frame_size: 0,
            pending: Vec::new(),
        }
    }
}

} // verus!
