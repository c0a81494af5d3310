use imtl::error::SessionError;
use imtl::mtl::MtlBuilder;
use imtl::netdev::{NetDevBuilder, NetProto, PmdType};
use imtl::session::{RtpSession, RtpSessionBuilder};
use imtl::version::version;

fn net_dev(port: &str) -> imtl::netdev::NetDev {
    NetDevBuilder::default()
        .port(String::from(port))
        .pmd(PmdType::DpdkPmd)
        .net_proto(NetProto::Static)
        .ip(Some([10, 0, 0, 1]))
        .netmask(Some([255, 255, 255, 0]))
        .gateway(Some([10, 0, 0, 254]))
        .tx_queues_cnt(4)
        .rx_queues_cnt(2)
        .build()
        .unwrap()
}

#[test]
fn mtl_init_requires_one_to_eight_netdevs() {
    let r = MtlBuilder::default().net_devs(vec![]).build().unwrap().init();
    assert!(matches!(r, Err(SessionError::CreationFailure)));
    let many: Vec<_> = (0..9).map(|i| net_dev(&format!("0000:4b:0{}.0", i))).collect();
    let r = MtlBuilder::default().net_devs(many).build().unwrap().init();
    assert!(matches!(r, Err(SessionError::CreationFailure)));
    let mtl = MtlBuilder::default()
        .net_devs(vec![net_dev("0000:4b:01.0")])
        .build()
        .unwrap()
        .init()
        .unwrap();
    assert!(mtl.handle().is_some());
    // Initializing twice is refused.
    assert!(matches!(mtl.init(), Err(SessionError::CreationFailure)));
}

#[test]
fn mtl_builder_requires_netdevs() {
    let r = MtlBuilder::default().build();
    assert!(matches!(r, Err(SessionError::CreationFailure)));
}

#[test]
fn netdev_getters_return_configuration() {
    let d = net_dev("0000:4b:01.0");
    assert_eq!(d.get_port(), "0000:4b:01.0");
    assert!(matches!(d.get_pmd(), PmdType::DpdkPmd));
    assert!(matches!(d.get_net_proto(), NetProto::Static));
    assert_eq!(d.get_ip(), Some([10, 0, 0, 1]));
    assert_eq!(d.get_netmask(), Some([255, 255, 255, 0]));
    assert_eq!(d.get_gateway(), Some([10, 0, 0, 254]));
    assert_eq!(d.get_tx_queues_cnt(), 4);
    assert_eq!(d.get_rx_queues_cnt(), 2);
}

#[test]
fn netdev_builder_requires_mandatory_fields() {
    let r = NetDevBuilder::default().port(String::from("x")).build();
    assert!(matches!(r, Err(SessionError::CreationFailure)));
}

#[test]
fn rtp_session_getters_and_default() {
    let s = RtpSessionBuilder::default()
        .ip([239, 19, 96, 1])
        .port(20000)
        .payload_type(112)
        .name(String::from("session under test"))
        .ssrc(Some(7))
        .enable_rtcp(true)
        .mcast_source_ip(Some([192, 168, 0, 7]))
        .build()
        .unwrap();
    assert_eq!(s.ip(), [239, 19, 96, 1]);
    assert_eq!(s.port(), 20000);
    assert_eq!(s.payload_type(), 112);
    assert_eq!(s.name(), Some("session under test"));
    assert_eq!(s.ssrc(), Some(7));
    assert!(s.enable_rtcp());
    assert_eq!(s.mcast_source_ip(), Some([192, 168, 0, 7]));

    let d = RtpSession::default();
    assert_eq!(d.ip(), [239, 0, 0, 1]);
    assert_eq!(d.port(), 0);
    assert_eq!(d.payload_type(), 0);
    assert_eq!(d.name(), None);
    assert!(!d.enable_rtcp());
    assert_eq!(d.ssrc(), None);
    assert_eq!(d.mcast_source_ip(), None);
}

#[test]
fn rtp_session_builder_requires_mandatory_fields() {
    let r = RtpSessionBuilder::default().ip([1, 2, 3, 4]).port(9).build();
    assert!(matches!(r, Err(SessionError::CreationFailure)));
}

#[test]
fn version_is_consistent() {
    let v = version();
    assert_eq!(v.major, imtl::version::VERSION_MAJOR);
    assert_eq!(v.minor, imtl::version::VERSION_MINOR);
    assert_eq!(v.patch, imtl::version::VERSION_LAST);
    assert_eq!(
        v.text(),
        format!("{}.{}.{}", v.major, v.minor, v.patch)
    );
    assert_ne!(v.text().len(), 0);
}
