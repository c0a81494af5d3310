use imtl::audio::{AudioRxBuilder, AudioTxBuilder, Fmt, PacketTime, Sampling};
use imtl::error::SessionError;
use imtl::mtl::{Mtl, MtlBuilder};
use imtl::netdev::{NetDevBuilder, NetProto, PmdType};

fn engine() -> Mtl {
    let net_dev = NetDevBuilder::default()
        .port(String::from("0000:4b:01.2"))
        .pmd(PmdType::KernelSocket)
        .net_proto(NetProto::Dhcp)
        .tx_queues_cnt(1)
        .rx_queues_cnt(1)
        .build()
        .unwrap();
    MtlBuilder::default()
        .net_devs(vec![net_dev])
        .build()
        .unwrap()
        .init()
        .unwrap()
}

#[test]
fn audio_tx_frame_size_pcm16() {
    let tx = AudioTxBuilder::default()
        .fmt(Fmt::Pcm16)
        .build()
        .create(&engine())
        .unwrap();
    // 10 packets of 48 samples, 2 channels, 2 bytes per sample.
    assert_eq!(tx.frame_size(), 1920);
}

#[test]
fn audio_tx_pool_cycle() {
    let mut tx = AudioTxBuilder::default()
        .fmt(Fmt::Pcm16)
        .fb_cnt(2)
        .build()
        .create(&engine())
        .unwrap();
    let mut frame = vec![0u8; tx.frame_size()];
    frame[100] = 42;
    assert_eq!(tx.fill_next_frame(&frame), Ok(()));
    assert_eq!(tx.fill_next_frame(&frame), Ok(()));
    assert_eq!(tx.fill_next_frame(&frame), Err(SessionError::Timeout));
    let sent = tx.notify_frame_done().unwrap();
    assert_eq!(sent, frame);
    assert_eq!(tx.fill_next_frame(&frame), Ok(()));
    assert_eq!(
        tx.fill_next_frame(&frame[..frame.len() - 1]),
        Err(SessionError::SizeMismatch)
    );
}

#[test]
fn audio_tx_create_rejects_bad_configurations() {
    let mtl = engine();
    let r = AudioTxBuilder::default()
        .sampling(Sampling::S44K)
        .ptime(PacketTime::P1ms)
        .build()
        .create(&mtl);
    assert!(matches!(r, Err(SessionError::UnsupportedFormat)));
    let r = AudioTxBuilder::default().netdev_id(1).build().create(&mtl);
    assert!(matches!(r, Err(SessionError::CreationFailure)));
    let tx = AudioTxBuilder::default().build().create(&mtl).unwrap();
    assert!(matches!(tx.create(&mtl), Err(SessionError::CreationFailure)));
}

#[test]
fn audio_rx_pool_cycle() {
    let mut rx = AudioRxBuilder::default()
        .fmt(Fmt::Am824)
        .sampling(Sampling::S96K)
        .ptime(PacketTime::P250us)
        .channel(4)
        .fb_cnt(2)
        .build()
        .create(&engine())
        .unwrap();
    // 40 packets of 24 samples, 4 channels, 4 bytes per sample.
    assert_eq!(rx.frame_size(), 40 * 24 * 4 * 4);
    let size = rx.frame_size();
    let mut a = vec![0u8; size];
    a[0] = 0xEE;
    let b = vec![5u8; size];
    assert_eq!(rx.notify_frame_available(a.clone()), Ok(()));
    assert_eq!(rx.notify_frame_available(b.clone()), Ok(()));
    assert_eq!(
        rx.notify_frame_available(vec![0u8; size]),
        Err(SessionError::Busy)
    );
    let mut out = vec![0u8; size];
    assert_eq!(rx.fill_new_frame(&mut out), Ok(()));
    assert_eq!(out, a);
    assert_eq!(rx.fill_new_frame(&mut out), Ok(()));
    assert_eq!(out, b);
    assert_eq!(rx.fill_new_frame(&mut out), Err(SessionError::Timeout));
    assert_eq!(
        rx.notify_frame_available(vec![0u8; size - 1]),
        Err(SessionError::SizeMismatch)
    );
}

#[test]
fn audio_operations_before_create_report_invalid_handle() {
    let mut tx = AudioTxBuilder::default().build();
    assert_eq!(tx.fill_next_frame(&[0u8; 4]), Err(SessionError::InvalidHandle));
    assert!(matches!(tx.notify_frame_done(), Err(SessionError::InvalidHandle)));
    let mut rx = AudioRxBuilder::default().build();
    let mut out = vec![0u8; 4];
    assert_eq!(rx.fill_new_frame(&mut out), Err(SessionError::InvalidHandle));
}
