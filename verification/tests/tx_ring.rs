use imtl::error::SessionError;
use imtl::mtl::{Mtl, MtlBuilder};
use imtl::netdev::{NetDevBuilder, NetProto, PmdType};
use imtl::session::RtpSessionBuilder;
use imtl::video::{FrameFmt, TransportFmt, VideoTxBuilder};

fn engine() -> Mtl {
    let net_dev = NetDevBuilder::default()
        .port(String::from("0000:4b:01.0"))
        .pmd(PmdType::DpdkPmd)
        .net_proto(NetProto::Static)
        .ip(Some([192, 168, 96, 111]))
        .tx_queues_cnt(1)
        .rx_queues_cnt(0)
        .build()
        .unwrap();
    MtlBuilder::default()
        .net_devs(vec![net_dev])
        .build()
        .unwrap()
        .init()
        .unwrap()
}

fn tx_1080p_10bit(fb_cnt: u8) -> imtl::video::VideoTx {
    let session = RtpSessionBuilder::default()
        .ip([239, 19, 96, 111])
        .port(20000)
        .payload_type(112)
        .name(String::from("tx ring test"))
        .build()
        .unwrap();
    VideoTxBuilder::default()
        .rtp_session(session)
        .width(1920)
        .height(1080)
        .t_fmt(TransportFmt::Yuv422_10bit)
        .fb_cnt(fb_cnt)
        .build()
        .create(&engine())
        .unwrap()
}

#[test]
fn tx_frame_size_1080p_10bit() {
    let tx = tx_1080p_10bit(3);
    assert_eq!(tx.frame_size(), 5_184_000);
}

#[test]
fn tx_three_fills_then_no_free_frames() {
    // Depth 3: three fills succeed, a fourth without any claim fails fast.
    let mut tx = tx_1080p_10bit(3);
    let frame = vec![7u8; tx.frame_size()];
    assert_eq!(tx.fill_next_frame(&frame), Ok(()));
    assert_eq!(tx.fill_next_frame(&frame), Ok(()));
    assert_eq!(tx.fill_next_frame(&frame), Ok(()));
    assert_eq!(tx.fill_next_frame(&frame), Err(SessionError::NoFreeFrames));
}

#[test]
fn tx_saturation_at_other_depths() {
    for depth in 2u8..6 {
        let mut tx = tx_1080p_10bit(depth);
        let frame = vec![1u8; tx.frame_size()];
        for _ in 0..depth {
            assert_eq!(tx.fill_next_frame(&frame), Ok(()));
        }
        assert_eq!(tx.fill_next_frame(&frame), Err(SessionError::NoFreeFrames));
    }
}

#[test]
fn tx_size_mismatch_changes_nothing() {
    let mut tx = tx_1080p_10bit(3);
    let short = vec![1u8; tx.frame_size() - 1];
    let long = vec![1u8; tx.frame_size() + 1];
    assert_eq!(tx.fill_next_frame(&short), Err(SessionError::SizeMismatch));
    assert_eq!(tx.fill_next_frame(&long), Err(SessionError::SizeMismatch));
    assert_eq!(tx.fill_next_frame(&[]), Err(SessionError::SizeMismatch));
    // No tag was mutated: the full ring is still available.
    let frame = vec![2u8; tx.frame_size()];
    assert_eq!(tx.fill_next_frame(&frame), Ok(()));
    assert_eq!(tx.fill_next_frame(&frame), Ok(()));
    assert_eq!(tx.fill_next_frame(&frame), Ok(()));
}

#[test]
fn tx_round_trip_returns_slot_to_free() {
    let mut tx = tx_1080p_10bit(3);
    let mut frame = vec![0u8; tx.frame_size()];
    frame[0] = 0xAB;
    frame[5_184_000 - 1] = 0xCD;
    assert_eq!(tx.fill_next_frame(&frame), Ok(()));
    let claimed = tx.on_need_frame().unwrap();
    assert_eq!(claimed, 0);
    // The pacer transmits straight out of the claimed slot.
    let sent = tx.frame_buffer(claimed);
    assert_eq!(sent[0], 0xAB);
    assert_eq!(sent[5_184_000 - 1], 0xCD);
    assert_eq!(sent.len(), tx.frame_size());
    assert_eq!(tx.on_frame_done(claimed), Ok(()));
    // The slot is Free again: a full round of fills succeeds.
    assert_eq!(tx.fill_next_frame(&frame), Ok(()));
    assert_eq!(tx.fill_next_frame(&frame), Ok(()));
    assert_eq!(tx.fill_next_frame(&frame), Ok(()));
    assert_eq!(tx.fill_next_frame(&frame), Err(SessionError::NoFreeFrames));
}

#[test]
fn tx_rejected_transitions_leave_tags_unchanged() {
    let mut tx = tx_1080p_10bit(2);
    let frame = vec![3u8; tx.frame_size()];
    // Free slot: nothing to claim, nothing to complete.
    assert_eq!(tx.on_need_frame(), Err(SessionError::NoFrameAvailable));
    assert_eq!(tx.on_frame_done(0), Err(SessionError::OwnershipViolation));
    // Ready slot: completing it without a claim is a protocol violation.
    assert_eq!(tx.fill_next_frame(&frame), Ok(()));
    assert_eq!(tx.on_frame_done(0), Err(SessionError::OwnershipViolation));
    // An index outside the ring is a protocol violation, not a panic.
    assert_eq!(tx.on_frame_done(200), Err(SessionError::OwnershipViolation));
    // InUse slot: filling past it and re-claiming it both fail...
    let claimed = tx.on_need_frame().unwrap();
    assert_eq!(claimed, 0);
    assert_eq!(tx.fill_next_frame(&frame), Ok(()));
    assert_eq!(tx.fill_next_frame(&frame), Err(SessionError::NoFreeFrames));
    // ...and the rejections were pure: the protocol continues unharmed.
    assert_eq!(tx.on_frame_done(claimed), Ok(()));
    assert_eq!(tx.fill_next_frame(&frame), Ok(()));
}

#[test]
fn tx_wait_free_frame_is_bounded_without_wakes() {
    let mut tx = tx_1080p_10bit(2);
    let frame = vec![0u8; tx.frame_size()];
    assert_eq!(tx.fill_next_frame(&frame), Ok(()));
    assert_eq!(tx.fill_next_frame(&frame), Ok(()));
    // Ring saturated and nobody will ever wake us: the wait must still
    // return after about one frame interval (16.7 ms at 59.94 fps).
    let started = std::time::Instant::now();
    tx.wait_free_frame();
    assert!(started.elapsed() < std::time::Duration::from_secs(5));
    // The producer slot is free: the wait returns without blocking at all.
    let mut tx2 = tx_1080p_10bit(2);
    let started = std::time::Instant::now();
    tx2.wait_free_frame();
    assert!(started.elapsed() < std::time::Duration::from_secs(5));
}

#[test]
fn tx_create_rejects_bad_configurations() {
    let mtl = engine();
    // Ring depth below two cannot distinguish the cursors' progress.
    let r = VideoTxBuilder::default().fb_cnt(1).build().create(&mtl);
    assert!(matches!(r, Err(SessionError::CreationFailure)));
    // Unknown net device.
    let r = VideoTxBuilder::default().netdev_id(3).build().create(&mtl);
    assert!(matches!(r, Err(SessionError::CreationFailure)));
    // Engine attachment not initialized.
    let raw = MtlBuilder::default().net_devs(vec![]).build().unwrap();
    let r = VideoTxBuilder::default().build().create(&raw);
    assert!(matches!(r, Err(SessionError::CreationFailure)));
    // A codestream layout has no resolution-derived size.
    let r = VideoTxBuilder::default()
        .input_fmt(Some(FrameFmt::JpegxsCodestream))
        .build()
        .create(&mtl);
    assert!(matches!(r, Err(SessionError::UnsupportedFormat)));
}

#[test]
fn tx_create_twice_fails() {
    let mtl = engine();
    let tx = VideoTxBuilder::default().fb_cnt(3).build().create(&mtl).unwrap();
    let r = tx.create(&mtl);
    assert!(matches!(r, Err(SessionError::CreationFailure)));
}

#[test]
fn tx_operations_before_create_report_invalid_handle() {
    let mut tx = VideoTxBuilder::default().build();
    assert_eq!(tx.fill_next_frame(&[0u8; 4]), Err(SessionError::InvalidHandle));
    assert_eq!(tx.on_need_frame(), Err(SessionError::InvalidHandle));
    assert_eq!(tx.on_frame_done(0), Err(SessionError::InvalidHandle));
}

#[test]
fn tx_pipeline_pool_round_trip() {
    let mtl = engine();
    let mut tx = VideoTxBuilder::default()
        .width(64)
        .height(32)
        .input_fmt(Some(FrameFmt::V210))
        .fb_cnt(3)
        .build()
        .create(&mtl)
        .unwrap();
    assert_eq!(tx.frame_size(), 64 * 32 * 16 / 6);
    let mut frame = vec![0u8; tx.frame_size()];
    frame[17] = 99;
    assert_eq!(tx.fill_next_frame(&frame), Ok(()));
    assert_eq!(tx.fill_next_frame(&frame), Ok(()));
    assert_eq!(tx.fill_next_frame(&frame), Ok(()));
    // The engine pool holds at most fb_cnt outstanding frames.
    assert_eq!(tx.fill_next_frame(&frame), Err(SessionError::NoFreeFrames));
    // The engine transmits the oldest submitted frame, byte for byte.
    let sent = tx.notify_frame_done().unwrap();
    assert_eq!(sent, frame);
    assert_eq!(tx.fill_next_frame(&frame), Ok(()));
    // Too short or too long is rejected before anything is copied.
    assert_eq!(tx.fill_next_frame(&frame[1..]), Err(SessionError::SizeMismatch));
}
