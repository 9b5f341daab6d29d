use oxycap::UnknownFrame;
use oxycap::addr::Ipv4Address;
use oxycap::arp::Operation;
use oxycap::ethernet::EtherType;
use oxycap::hwaddr::HwAddr;
use oxycap::icmp::BadIpHeader;
use oxycap::icmp::DestUnreachable;
use oxycap::icmp::IcmpMsg;
use oxycap::icmp::RedirectMsg;
use oxycap::icmp::TimeExceeded;
use oxycap::igmp::IgmpMsg;
use oxycap::ipv4::IpProtocol;
use oxycap::llc::SCode;
use oxycap::llc::SapName;
use oxycap::llc::UCode;

#[test]
fn ether_type_rendering() {
    assert_eq!(
        EtherType::IeeeSnap.display_string(),
        "IEEE 802.2 SNAP (< 1500, payload begins with 0xAAAA)"
    );
    assert_eq!(
        EtherType::NovellIeee.display_string(),
        "Novell raw IEEE 802.3 (< 1500, payload begins with 0xFFFF)"
    );
    let payload = [0u8; 4];
    let u = UnknownFrame::from_u8_slice(&payload, 0x88cc);
    assert_eq!(EtherType::Other(u).display_string(), "Other (0x88CC)");
}

#[test]
fn ip_protocol_rendering() {
    let payload = [0u8; 4];
    let u = UnknownFrame::from_u8_slice(&payload, 0x2f);
    assert_eq!(IpProtocol::Other(u).display_string(), "Other (0x2F)");
    let u = UnknownFrame::from_u8_slice(&payload, 0x04);
    assert_eq!(IpProtocol::Other(u).display_string(), "Other (0x04)");
}

#[test]
fn hwaddr_rendering() {
    let a = HwAddr::from_octets([0x00, 0x1b, 0x44, 0x11, 0x3a, 0xb7]);
    assert_eq!(a.display_string(), "00:1B:44:11:3A:B7");
}

#[test]
fn ipv4_address_rendering() {
    let a = Ipv4Address::from_octets([192, 168, 0, 1]);
    assert_eq!(a.display_string(), "192.168.0.1");
    let a = Ipv4Address::from_octets([8, 0, 255, 10]);
    assert_eq!(a.display_string(), "8.0.255.10");
    assert!(Ipv4Address::from_octets([0, 0, 0, 0]).is_unspecified());
    assert!(!Ipv4Address::from_octets([0, 0, 0, 1]).is_unspecified());
}

#[test]
fn sap_rendering() {
    assert_eq!(
        SapName::SpanningTree.display_string(),
        "IEEE 802.1 Bridge Spanning Tree Protocol"
    );
    assert_eq!(SapName::GlobalSap.display_string(), "Global DSAP (broadcast to all)");
    assert_eq!(SapName::from_u8(0xB0).display_string(), "Other (0xB0)");
    assert!(matches!(SapName::from_u8(0xAA), SapName::Snap));
    assert!(matches!(SapName::from_u8(0xFC), SapName::Rpl));
}

#[test]
fn control_code_rendering() {
    assert_eq!(UCode::SABME.display_string(), "SABM extended SABME");
    assert_eq!(UCode::UI.display_string(), "Unnumbered information UI");
    assert_eq!(SCode::SREJ.display_string(), "Selective Reject (SREJ)");
    assert_eq!(Operation::Request.display_string(), "Request");
    assert_eq!(Operation::Reply.display_string(), "Reply");
}

#[test]
fn icmp_rendering() {
    assert_eq!(IcmpMsg::EchoReply.display_string(), "Echo reply");
    assert_eq!(IcmpMsg::Reserved(42).display_string(), "Reserved (42)");
    assert_eq!(IcmpMsg::Reserved(7).display_string(), "Reserved (7)");
    assert_eq!(
        DestUnreachable::FragReq(1500).display_string(),
        "Fragmentation required, and DF flag set"
    );
    assert_eq!(TimeExceeded::TTLExpired.display_string(), "TTL expired in transit");
    assert_eq!(BadIpHeader::BadLen.display_string(), "Bad length");
    let m = RedirectMsg::from(0, Ipv4Address::from_octets([10, 0, 0, 254]));
    assert_eq!(
        m.display_string(),
        "Redirect Datagram for the Network to address 10.0.0.254"
    );
}

#[test]
fn igmp_rendering() {
    assert_eq!(IgmpMsg::GeneralQuery(10).display_string(), "General query");
    assert_eq!(IgmpMsg::Other(0x3c).display_string(), "Unknown message (0x3C)");
}
