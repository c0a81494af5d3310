use imtl::error::SessionError;
use imtl::mtl::{Mtl, MtlBuilder};
use imtl::netdev::{NetDevBuilder, NetProto, PmdType};
use imtl::video::{CompressedVideoRxBuilder, CompressedVideoTxBuilder, FrameFmt};

fn engine() -> Mtl {
    let net_dev = NetDevBuilder::default()
        .port(String::from("0000:4b:01.3"))
        .pmd(PmdType::DpdkAfXdp)
        .net_proto(NetProto::Static)
        .tx_queues_cnt(1)
        .rx_queues_cnt(1)
        .build()
        .unwrap();
    MtlBuilder::default()
        .net_devs(vec![net_dev])
        .build()
        .unwrap()
        .init()
        .unwrap()
}

#[test]
fn compressed_tx_pool_cycle() {
    let mut tx = CompressedVideoTxBuilder::default()
        .width(64)
        .height(32)
        .fb_cnt(2)
        .build()
        .create(&engine())
        .unwrap();
    // Raw input frames in the default network-order 10-bit 4:2:2 layout.
    let size = 64 * 32 * 5 / 2;
    let mut frame = vec![0u8; size];
    frame[9] = 0x5A;
    assert_eq!(tx.fill_next_frame(&frame), Ok(()));
    assert_eq!(tx.fill_next_frame(&frame), Ok(()));
    assert_eq!(tx.fill_next_frame(&frame), Err(SessionError::Timeout));
    let sent = tx.notify_frame_done().unwrap();
    assert_eq!(sent, frame);
    assert_eq!(tx.fill_next_frame(&frame), Ok(()));
    assert_eq!(
        tx.fill_next_frame(&vec![0u8; size + 1]),
        Err(SessionError::SizeMismatch)
    );
}

#[test]
fn compressed_tx_create_checks_format() {
    let mtl = engine();
    let r = CompressedVideoTxBuilder::default()
        .input_fmt(FrameFmt::JpegxsCodestream)
        .build()
        .create(&mtl);
    assert!(matches!(r, Err(SessionError::UnsupportedFormat)));
    let r = CompressedVideoTxBuilder::default().netdev_id(2).build().create(&mtl);
    assert!(matches!(r, Err(SessionError::CreationFailure)));
}

#[test]
fn compressed_rx_pool_cycle() {
    let mut rx = CompressedVideoRxBuilder::default()
        .width(64)
        .height(32)
        .output_fmt(FrameFmt::Uyvy)
        .fb_cnt(2)
        .build()
        .create(&engine())
        .unwrap();
    let size = 64 * 32 * 2;
    let a = vec![3u8; size];
    let b = vec![4u8; size];
    assert_eq!(rx.notify_frame_available(a.clone()), Ok(()));
    assert_eq!(rx.notify_frame_available(b.clone()), Ok(()));
    assert_eq!(
        rx.notify_frame_available(vec![0u8; size]),
        Err(SessionError::Busy)
    );
    let mut out = vec![0u8; size];
    assert_eq!(rx.fill_new_frame(&mut out), Ok(()));
    assert_eq!(out, a);
    assert_eq!(rx.fill_new_frame(&mut out), Ok(()));
    assert_eq!(out, b);
    assert_eq!(rx.fill_new_frame(&mut out), Err(SessionError::Timeout));
    assert_eq!(
        rx.notify_frame_available(vec![0u8; size - 1]),
        Err(SessionError::SizeMismatch)
    );
}

#[test]
fn compressed_operations_before_create_report_invalid_handle() {
    let mut tx = CompressedVideoTxBuilder::default().build();
    assert_eq!(tx.fill_next_frame(&[0u8; 4]), Err(SessionError::InvalidHandle));
    let mut rx = CompressedVideoRxBuilder::default().build();
    let mut out = vec![0u8; 4];
    assert_eq!(rx.fill_new_frame(&mut out), Err(SessionError::InvalidHandle));
}
