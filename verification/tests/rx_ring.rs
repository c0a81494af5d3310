use imtl::error::SessionError;
use imtl::mtl::{Mtl, MtlBuilder};
use imtl::netdev::{NetDevBuilder, NetProto, PmdType};
use imtl::video::{FrameFmt, TransportFmt, VideoRx, VideoRxBuilder};

fn engine() -> Mtl {
    let net_dev = NetDevBuilder::default()
        .port(String::from("0000:4b:01.1"))
        .pmd(PmdType::DpdkPmd)
        .net_proto(NetProto::Static)
        .ip(Some([192, 168, 96, 112]))
        .tx_queues_cnt(0)
        .rx_queues_cnt(1)
        .build()
        .unwrap();
    MtlBuilder::default()
        .net_devs(vec![net_dev])
        .build()
        .unwrap()
        .init()
        .unwrap()
}

fn rx_small(fb_cnt: u8) -> VideoRx {
    VideoRxBuilder::default()
        .width(64)
        .height(32)
        .t_fmt(TransportFmt::Yuv422_8bit)
        .fb_cnt(fb_cnt)
        .build()
        .create(&engine())
        .unwrap()
}

fn patterned(len: usize, seed: u8) -> Vec<u8> {
    let mut v = vec![0u8; len];
    for (i, b) in v.iter_mut().enumerate() {
        *b = seed.wrapping_add(i as u8);
    }
    v
}

#[test]
fn rx_three_arrivals_then_busy() {
    // Depth 3: three distinct arrivals land, the fourth is dropped with
    // Busy, and after one collection the next arrival lands again.
    let mut rx = rx_small(3);
    let size = rx.frame_size();
    assert_eq!(size, 64 * 32 * 2);
    let a = patterned(size, 1);
    let b = patterned(size, 2);
    let c = patterned(size, 3);
    let d = patterned(size, 4);
    assert_eq!(rx.on_frame_ready(a.clone()), Ok(()));
    assert_eq!(rx.on_frame_ready(b.clone()), Ok(()));
    assert_eq!(rx.on_frame_ready(c), Ok(()));
    assert_eq!(rx.on_frame_ready(d.clone()), Err(SessionError::Busy));
    let mut out = vec![0u8; size];
    assert_eq!(rx.fill_new_frame(&mut out), Ok(()));
    assert_eq!(out, a);
    assert_eq!(rx.on_frame_ready(d), Ok(()));
    assert_eq!(rx.fill_new_frame(&mut out), Ok(()));
    assert_eq!(out, b);
}

#[test]
fn rx_fill_on_empty_ring_is_nonblocking_error() {
    let mut rx = rx_small(3);
    let mut out = vec![0u8; rx.frame_size()];
    assert_eq!(rx.fill_new_frame(&mut out), Err(SessionError::NoFrameAvailable));
}

#[test]
fn rx_size_mismatch_on_both_sides() {
    let mut rx = rx_small(2);
    let size = rx.frame_size();
    assert_eq!(
        rx.on_frame_ready(vec![0u8; size - 1]),
        Err(SessionError::SizeMismatch)
    );
    assert_eq!(rx.on_frame_ready(vec![0u8; size]), Ok(()));
    let mut short = vec![0u8; size - 1];
    assert_eq!(rx.fill_new_frame(&mut short), Err(SessionError::SizeMismatch));
    assert_eq!(short.len(), size - 1);
    let mut out = vec![1u8; size];
    assert_eq!(rx.fill_new_frame(&mut out), Ok(()));
}

#[test]
fn rx_wait_new_frame_is_bounded_without_wakes() {
    let mut rx = rx_small(2);
    // Nothing arrived and nothing ever will: the wait must still return
    // after about one frame interval.
    let started = std::time::Instant::now();
    rx.wait_new_frame();
    assert!(started.elapsed() < std::time::Duration::from_secs(5));
}

#[test]
fn rx_operations_before_create_report_invalid_handle() {
    let mut rx = VideoRxBuilder::default().build();
    assert_eq!(rx.on_frame_ready(vec![0u8; 4]), Err(SessionError::InvalidHandle));
    let mut out = vec![0u8; 4];
    assert_eq!(rx.fill_new_frame(&mut out), Err(SessionError::InvalidHandle));
}

#[test]
fn rx_create_rejects_bad_configurations() {
    let mtl = engine();
    let r = VideoRxBuilder::default().fb_cnt(0).build().create(&mtl);
    assert!(matches!(r, Err(SessionError::CreationFailure)));
    let r = VideoRxBuilder::default().netdev_id(9).build().create(&mtl);
    assert!(matches!(r, Err(SessionError::CreationFailure)));
    let r = VideoRxBuilder::default()
        .output_fmt(Some(FrameFmt::H265Codestream))
        .build()
        .create(&mtl);
    assert!(matches!(r, Err(SessionError::UnsupportedFormat)));
}

#[test]
fn rx_pipeline_pool_round_trip() {
    let mtl = engine();
    let mut rx = VideoRxBuilder::default()
        .width(64)
        .height(32)
        .output_fmt(Some(FrameFmt::Uyvy))
        .fb_cnt(2)
        .build()
        .create(&mtl)
        .unwrap();
    let size = rx.frame_size();
    assert_eq!(size, 64 * 32 * 2);
    let a = patterned(size, 9);
    let b = patterned(size, 11);
    assert_eq!(rx.notify_frame_available(a.clone()), Ok(()));
    assert_eq!(rx.notify_frame_available(b.clone()), Ok(()));
    assert_eq!(
        rx.notify_frame_available(patterned(size, 13)),
        Err(SessionError::Busy)
    );
    let mut out = vec![0u8; size];
    assert_eq!(rx.fill_new_frame(&mut out), Ok(()));
    assert_eq!(out, a);
    assert_eq!(rx.fill_new_frame(&mut out), Ok(()));
    assert_eq!(out, b);
    assert_eq!(rx.fill_new_frame(&mut out), Err(SessionError::NoFrameAvailable));
}
