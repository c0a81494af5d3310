use imtl::audio::{audio_frame_size, Fmt, PacketTime, Sampling};
use imtl::error::SessionError;
use imtl::video::{Fps, FrameFmt, TransportFmt};

#[test]
fn transport_yuv422_10bit_1080p_size() {
    assert_eq!(
        TransportFmt::Yuv422_10bit.frame_size(1920, 1080),
        1920 * 1080 * 5 / 2
    );
    assert_eq!(TransportFmt::Yuv422_10bit.frame_size(1920, 1080), 5_184_000);
}

#[test]
fn transport_sizes_exact() {
    assert_eq!(TransportFmt::Yuv422_8bit.frame_size(1920, 1080), 4_147_200);
    assert_eq!(TransportFmt::Yuv422_12bit.frame_size(1920, 1080), 6_220_800);
    assert_eq!(TransportFmt::Yuv420_8bit.frame_size(1920, 1080), 3_110_400);
    assert_eq!(TransportFmt::Rgb8bit.frame_size(16, 16), 16 * 16 * 3);
    assert_eq!(TransportFmt::Yuv444_10bit.frame_size(16, 16), 16 * 16 * 15 / 4);
}

#[test]
fn frame_fmt_sizes_exact() {
    assert_eq!(
        FrameFmt::Yuv422Rfc4175Pg2Be10.frame_size(1920, 1080),
        Ok(5_184_000)
    );
    assert_eq!(FrameFmt::V210.frame_size(1920, 1080), Ok(1920 * 1080 * 16 / 6));
    assert_eq!(FrameFmt::Uyvy.frame_size(1920, 1080), Ok(1920 * 1080 * 2));
    assert_eq!(FrameFmt::Argb.frame_size(16, 16), Ok(16 * 16 * 4));
}

#[test]
fn frame_fmt_codestream_is_unsupported() {
    assert_eq!(
        FrameFmt::JpegxsCodestream.frame_size(1920, 1080),
        Err(SessionError::UnsupportedFormat)
    );
    assert_eq!(
        FrameFmt::H264Codestream.frame_size(1920, 1080),
        Err(SessionError::UnsupportedFormat)
    );
}

#[test]
fn audio_sizes_exact() {
    // 10 ms of 1 ms packets: 10 packets of 48 samples, 2 channels, 2 bytes.
    assert_eq!(
        audio_frame_size(Fmt::Pcm16, Sampling::S48K, PacketTime::P1ms, 2, 10),
        Ok(1920)
    );
    assert_eq!(
        audio_frame_size(Fmt::Pcm8, Sampling::S48K, PacketTime::P1ms, 2, 10),
        Ok(960)
    );
    assert_eq!(
        audio_frame_size(Fmt::Pcm24, Sampling::S96K, PacketTime::P125us, 1, 1),
        Ok(8 * 12 * 3)
    );
    // 44.1 kHz AES3 packets of 48 samples: 9 whole packets fit in 10 ms.
    assert_eq!(
        audio_frame_size(Fmt::Am824, Sampling::S44K, PacketTime::P1_09ms, 2, 10),
        Ok(9 * 48 * 2 * 4)
    );
}

#[test]
fn audio_unsupported_combination() {
    assert_eq!(
        audio_frame_size(Fmt::Pcm16, Sampling::S44K, PacketTime::P1ms, 2, 10),
        Err(SessionError::UnsupportedFormat)
    );
    assert_eq!(
        audio_frame_size(Fmt::Pcm16, Sampling::S48K, PacketTime::P80us, 2, 10),
        Err(SessionError::UnsupportedFormat)
    );
}

#[test]
fn fps_interval_nanos_exact() {
    assert_eq!(Fps::P60.interval_nanos(1), 16_666_666);
    assert_eq!(Fps::P59_94.interval_nanos(1), 16_683_333);
    assert_eq!(Fps::P25.interval_nanos(1), 40_000_000);
    assert_eq!(Fps::P100.interval_nanos(2), 20_000_000);
    assert_eq!(Fps::P23_98.interval_nanos(1), 41_708_333);
}

#[test]
fn fps_duration_matches_nanos() {
    assert_eq!(Fps::P30.duration(1).as_nanos(), 33_333_333);
    assert_eq!(Fps::P50.duration(3).as_nanos(), 60_000_000);
}

#[test]
fn fps_names_round_trip() {
    let all = [
        Fps::P59_94,
        Fps::P50,
        Fps::P29_97,
        Fps::P25,
        Fps::P119_88,
        Fps::P120,
        Fps::P100,
        Fps::P60,
        Fps::P30,
        Fps::P24,
        Fps::P23_98,
    ];
    for fps in all {
        assert_eq!(fps.as_str().parse::<Fps>(), Ok(fps));
    }
    assert_eq!("59.94".parse::<Fps>(), Ok(Fps::P59_94));
    assert_eq!(Fps::P23_98.as_str(), "23.98");
    assert_eq!("59.95".parse::<Fps>(), Err(SessionError::UnsupportedFormat));
}

#[test]
fn transport_fmt_names_round_trip() {
    assert_eq!(TransportFmt::Yuv422_10bit.as_str(), "yuv_422_10bit");
    assert_eq!(
        "yuv_422_10bit".parse::<TransportFmt>(),
        Ok(TransportFmt::Yuv422_10bit)
    );
    assert_eq!("rgb_16bit".parse::<TransportFmt>(), Ok(TransportFmt::Rgb16bit));
    assert_eq!(
        "yuv_422_9bit".parse::<TransportFmt>(),
        Err(SessionError::UnsupportedFormat)
    );
}

#[test]
fn frame_fmt_names_round_trip() {
    assert_eq!(FrameFmt::V210.as_str(), "V210");
    assert_eq!(
        "YUV422RFC4175PG2BE10".parse::<FrameFmt>(),
        Ok(FrameFmt::Yuv422Rfc4175Pg2Be10)
    );
    assert_eq!(
        "JPEGXS_CODESTREAM".parse::<FrameFmt>(),
        Ok(FrameFmt::JpegxsCodestream)
    );
    assert_eq!("".parse::<FrameFmt>(), Err(SessionError::UnsupportedFormat));
}

#[test]
fn audio_names_round_trip() {
    assert_eq!(Fmt::Pcm24.as_str(), "pcm24");
    assert_eq!("am824".parse::<Fmt>(), Ok(Fmt::Am824));
    assert_eq!(Sampling::S44K.as_str(), "44.1k");
    assert_eq!("96k".parse::<Sampling>(), Ok(Sampling::S96K));
    assert_eq!(PacketTime::P0_14ms.as_str(), "0.14ms");
    assert_eq!("333us".parse::<PacketTime>(), Ok(PacketTime::P333us));
    assert_eq!("2ms".parse::<PacketTime>(), Err(SessionError::UnsupportedFormat));
}
