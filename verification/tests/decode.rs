use oxycap::DecodeError;
use oxycap::arp::Operation;
use oxycap::ethernet::EtherType;
use oxycap::ethernet::EthernetFrame;
use oxycap::hwaddr::HwAddr;
use oxycap::icmp::DestUnreachable;
use oxycap::icmp::IcmpMsg;
use oxycap::igmp::IgmpMsg;
use oxycap::ipv4::IpProtocol;
use oxycap::llc::LlcControl;
use oxycap::llc::SCode;
use oxycap::llc::SapName;
use oxycap::llc::UCode;

/// Reference one's-complement sum, written independently of the library.
fn ref_sum16(bytes: &[u8]) -> u16 {
    let mut s: u64 = 0;
    let mut i = 0;
    while i + 1 < bytes.len() {
        s += ((bytes[i] as u64) << 8) | bytes[i + 1] as u64;
        i += 2;
    }
    if bytes.len() % 2 == 1 {
        s += (bytes[bytes.len() - 1] as u64) << 8;
    }
    while s > 0xFFFF {
        s = (s & 0xFFFF) + (s >> 16);
    }
    s as u16
}

fn eth(header_and_payload: &[u8]) -> EthernetFrame<'_> {
    EthernetFrame::from_bytes(header_and_payload).unwrap()
}

// E1: Ethernet carrying IPv4 carrying UDP, fields read end to end.
#[test]
fn e1_ethernet_ipv4_udp() {
    let mut frame: Vec<u8> = vec![
        0xff, 0xff, 0xff, 0xff, 0xff, 0xff, // destination MAC (broadcast)
        0x00, 0x11, 0x22, 0x33, 0x44, 0x55, // source MAC
        0x08, 0x00, // EtherType IPv4
        0x45, 0x00, 0x00, 0x20, 0x00, 0x01, 0x00, 0x00, 0x40, 0x11, // IPv4 fixed
        0xf9, 0x78, // header checksum
        0xc0, 0xa8, 0x00, 0x01, // 192.168.0.1
        0xc0, 0xa8, 0x00, 0x02, // 192.168.0.2
        0x04, 0x00, 0x08, 0x00, 0x00, 0x0c, // UDP ports and length
        0xfa, 0xe8, // UDP checksum
        0xaa, 0xbb, 0xcc, 0xdd, // UDP payload
    ];
    let e = eth(&frame);
    assert_eq!(e.src_addr().display_string(), "00:11:22:33:44:55");
    assert!(e.dest_addr().is_broadcast());
    assert_eq!(e.ether_type(), 0x0800);
    let ip = match e.try_next_header().unwrap() {
        EtherType::Ipv4(f) => f,
        _ => panic!("expected IPv4"),
    };
    assert_eq!(ip.ver().value(), 4);
    assert_eq!(ip.ihl().value(), 5);
    assert_eq!(ip.total_len(), 0x0020);
    assert_eq!(ip.src_addr().octets(), [192, 168, 0, 1]);
    assert_eq!(ip.dest_addr().octets(), [192, 168, 0, 2]);
    assert_eq!(ip.protocol(), 0x11);
    assert!(ip.has_integrity());
    let udp = match ip.try_next_header().unwrap() {
        IpProtocol::Udp(f) => f,
        _ => panic!("expected UDP"),
    };
    assert_eq!(udp.src_port(), 0x0400);
    assert_eq!(udp.dest_port(), 0x0800);
    assert_eq!(udp.len(), 0x000c);
    assert_eq!(udp.payload(), &[0xaa, 0xbb, 0xcc, 0xdd]);
    // The checksum was chosen so that the sum over the pseudo-header
    // (c0 a8 00 01 c0 a8 00 02 00 11 00 0c), header and payload folds to
    // all-ones.
    assert!(udp.has_integrity());

    // A wrong UDP checksum is reported (not raised) as missing integrity.
    frame[40] ^= 0x01;
    let e = eth(&frame);
    let ip = match e.try_next_header().unwrap() {
        EtherType::Ipv4(f) => f,
        _ => panic!("expected IPv4"),
    };
    let udp = match ip.try_next_header().unwrap() {
        IpProtocol::Udp(f) => f,
        _ => panic!("expected UDP"),
    };
    assert!(!udp.has_integrity());
}

// E2: IPv4 header with options; integrity covers fixed header and options.
#[test]
fn e2_ipv4_with_options() {
    let bytes: Vec<u8> = vec![
        0x46, 0x00, 0x00, 0x18, 0x00, 0x02, 0x00, 0x00, 0x40, 0x01, 0xf4, 0x89, 0xc0, 0xa8, 0x00,
        0x01, 0xc0, 0xa8, 0x00, 0x02, 0x01, 0x02, 0x03, 0x04,
    ];
    let ip = oxycap::ipv4::Ipv4Frame::from_bytes(&bytes).unwrap();
    assert_eq!(ip.ihl().value(), 6);
    assert_eq!(ip.header_len(), 24);
    let opts = ip.opts().unwrap();
    assert_eq!(opts, &[0x01, 0x02, 0x03, 0x04]);
    assert!(ip.has_integrity());
    // Zeroing an option byte must break integrity: the options are covered.
    let mut broken = bytes.clone();
    broken[20] = 0x00;
    let ip = oxycap::ipv4::Ipv4Frame::from_bytes(&broken).unwrap();
    assert!(!ip.has_integrity());
}

// E3: Ethernet carrying IPv6 carrying TCP.
#[test]
fn e3_ethernet_ipv6_tcp() {
    let mut frame: Vec<u8> = vec![
        0x00, 0x01, 0x02, 0x03, 0x04, 0x05, 0x06, 0x07, 0x08, 0x09, 0x0a, 0x0b, 0x86, 0xdd,
    ];
    frame.extend_from_slice(&[0x60, 0x00, 0x00, 0x00, 0x00, 0x18, 0x06, 0x40]);
    let src: Vec<u8> = (1u8..=16).collect();
    let dst: Vec<u8> = (17u8..=32).collect();
    frame.extend_from_slice(&src);
    frame.extend_from_slice(&dst);
    frame.extend_from_slice(&[
        0xab, 0xcd, 0x00, 0x20, 0x00, 0x00, 0x00, 0x01, 0x00, 0x00, 0x00, 0x02, 0x50, 0x02, 0x10,
        0x00, 0x55, 0x40, 0x00, 0x00, 0xde, 0xad, 0xbe, 0xef,
    ]);
    let e = eth(&frame);
    assert_eq!(e.ether_type(), 0x86DD);
    let ip = match e.try_next_header().unwrap() {
        EtherType::Ipv6(f) => f,
        _ => panic!("expected IPv6"),
    };
    assert_eq!(ip.ver().value(), 6);
    assert_eq!(ip.next_header(), 0x06);
    assert_eq!(ip.payload_len(), 0x18);
    assert_eq!(ip.src_addr().octets().to_vec(), src);
    assert_eq!(ip.dest_addr().octets().to_vec(), dst);
    let tcp = match ip.try_next_header().unwrap() {
        IpProtocol::Tcp(f) => f,
        _ => panic!("expected TCP"),
    };
    assert_eq!(tcp.src_port(), 0xabcd);
    assert_eq!(tcp.dest_port(), 0x0020);
    assert_eq!(tcp.seq_num(), 1);
    assert_eq!(tcp.data_offset().value(), 5);
    assert!(tcp.syn());
    assert!(!tcp.ack());
    assert_eq!(tcp.ack_num(), None);
    assert_eq!(tcp.window_sz(), 0x1000);
    assert_eq!(tcp.checksum(), 0x5540);
    assert!(tcp.has_integrity());
}

// E3 continued: a transport payload longer than 0xFFFF folds its 32-bit
// length into the pseudo-header as two 16-bit words.
#[test]
fn e3_ipv6_tcp_long_payload() {
    let tcp_len: usize = 0x10014; // header (20) + payload, above 16 bits
    let mut v6: Vec<u8> = vec![0x60, 0x00, 0x00, 0x00, 0x00, 0x00, 0x06, 0x40];
    let src: Vec<u8> = (1u8..=16).collect();
    let dst: Vec<u8> = (17u8..=32).collect();
    v6.extend_from_slice(&src);
    v6.extend_from_slice(&dst);
    let mut tcp: Vec<u8> = vec![
        0x00, 0x50, 0x01, 0xbb, 0x00, 0x00, 0x00, 0x07, 0x00, 0x00, 0x00, 0x00, 0x50, 0x10, 0x20,
        0x00, 0x00, 0x00, 0x00, 0x00,
    ];
    tcp.resize(tcp_len, 0x5a);
    // Compute the checksum over the RFC 8200 pseudo-header with the
    // 32-bit length, then write it into the header.
    let mut covered: Vec<u8> = Vec::new();
    covered.extend_from_slice(&src);
    covered.extend_from_slice(&dst);
    covered.extend_from_slice(&(tcp_len as u32).to_be_bytes());
    covered.extend_from_slice(&[0, 0, 0, 6]);
    covered.extend_from_slice(&tcp);
    let c = !ref_sum16(&covered);
    tcp[16] = (c >> 8) as u8;
    tcp[17] = (c & 0xFF) as u8;
    v6.extend_from_slice(&tcp);
    let ip = oxycap::ipv6::Ipv6Frame::from_bytes(&v6).unwrap();
    let t = match ip.try_next_header().unwrap() {
        IpProtocol::Tcp(f) => f,
        _ => panic!("expected TCP"),
    };
    assert!(t.has_integrity());
}

// E4: an ARP request with 6-byte hardware and 4-byte protocol addresses.
#[test]
fn e4_arp_request() {
    let mut frame: Vec<u8> = vec![
        0xff, 0xff, 0xff, 0xff, 0xff, 0xff, 0x00, 0x11, 0x22, 0x33, 0x44, 0x55, 0x08, 0x06,
    ];
    frame.extend_from_slice(&[
        0x00, 0x01, 0x08, 0x00, 0x06, 0x04, 0x00, 0x01, // HTYPE PTYPE HLEN PLEN OPER
        0x00, 0x11, 0x22, 0x33, 0x44, 0x55, // SHA
        0xc0, 0xa8, 0x00, 0x01, // SPA
        0x00, 0x00, 0x00, 0x00, 0x00, 0x00, // THA
        0xc0, 0xa8, 0x00, 0x02, // TPA
    ]);
    let e = eth(&frame);
    let arp = match e.try_next_header().unwrap() {
        EtherType::Arp(f) => f,
        _ => panic!("expected ARP"),
    };
    assert_eq!(arp.htype(), 1);
    assert_eq!(arp.ptype(), 0x0800);
    assert_eq!(arp.hlen(), 6);
    assert_eq!(arp.plen(), 4);
    assert_eq!(arp.oper(), Operation::Request);
    assert_eq!(arp.sha(), &[0x00, 0x11, 0x22, 0x33, 0x44, 0x55]);
    assert_eq!(arp.spa(), &[0xc0, 0xa8, 0x00, 0x01]);
    assert_eq!(arp.tha(), &[0x00, 0x00, 0x00, 0x00, 0x00, 0x00]);
    assert_eq!(arp.tpa(), &[0xc0, 0xa8, 0x00, 0x02]);
}

// P6: address field lengths follow HLEN and PLEN exactly, with nothing
// about 6/4 baked in.
#[test]
fn arp_respects_declared_lengths() {
    let mut arp_bytes: Vec<u8> = vec![0x00, 0x10, 0xbe, 0xef, 2, 3, 0x00, 0x07];
    arp_bytes.extend_from_slice(&[0xa1, 0xa2]); // SHA, 2 bytes
    arp_bytes.extend_from_slice(&[0xb1, 0xb2, 0xb3]); // SPA, 3 bytes
    arp_bytes.extend_from_slice(&[0xc1, 0xc2]); // THA, 2 bytes
    arp_bytes.extend_from_slice(&[0xd1, 0xd2, 0xd3]); // TPA, 3 bytes
    let arp = oxycap::arp::ArpFrame::from_bytes(&arp_bytes).unwrap();
    assert_eq!(arp.oper(), Operation::Reply);
    assert_eq!(arp.sha(), &[0xa1, 0xa2]);
    assert_eq!(arp.spa(), &[0xb1, 0xb2, 0xb3]);
    assert_eq!(arp.tha(), &[0xc1, 0xc2]);
    assert_eq!(arp.tpa(), &[0xd1, 0xd2, 0xd3]);
    // One byte short of the declared lengths is rejected.
    assert!(matches!(
        oxycap::arp::ArpFrame::from_bytes(&arp_bytes[..arp_bytes.len() - 1]),
        Err(DecodeError::BufferTooShort)
    ));
    // OPER is a 16-bit field: 0x0101 is not 1, so it is a reply even
    // though its low byte is 1.
    let mut high_oper = arp_bytes.clone();
    high_oper[6] = 0x01;
    high_oper[7] = 0x01;
    let arp = oxycap::arp::ArpFrame::from_bytes(&high_oper).unwrap();
    assert_eq!(arp.oper(), Operation::Reply);
    // 0x0001 is authoritatively a request.
    high_oper[6] = 0x00;
    let arp = oxycap::arp::ArpFrame::from_bytes(&high_oper).unwrap();
    assert_eq!(arp.oper(), Operation::Request);
}

// E5: an LLC U-frame whose control byte decodes to SABME, command flag
// from SSAP bit 0, poll/final from bit 4.
#[test]
fn e5_llc_uframe_sabme() {
    let mut frame: Vec<u8> = vec![
        0x00, 0x01, 0x02, 0x03, 0x04, 0x05, 0x06, 0x07, 0x08, 0x09, 0x0a, 0x0b, 0x00, 0x03,
    ];
    frame.extend_from_slice(&[0x42, 0x42, 0x7f]); // DSAP, SSAP (bit 0 clear), control
    let e = eth(&frame);
    let llc = match e.try_next_header().unwrap() {
        EtherType::IeeeLlc(f) => f,
        _ => panic!("expected LLC"),
    };
    assert!(matches!(llc.dsap(), SapName::SpanningTree));
    assert!(llc.is_individual());
    assert!(llc.is_command());
    assert_eq!(llc.raw_control(), &[0x7f]);
    let u = match llc.control() {
        LlcControl::UFrame(u) => u,
        _ => panic!("expected U-frame"),
    };
    assert!(u.is_command());
    assert!(u.poll_final());
    assert_eq!(u.ucode(), Ok(UCode::SABME));

    // The same control byte without the poll bit still names SABME.
    frame[16] = 0x6f;
    let e = eth(&frame);
    let llc = match e.try_next_header().unwrap() {
        EtherType::IeeeLlc(f) => f,
        _ => panic!("expected LLC"),
    };
    let u = match llc.control() {
        LlcControl::UFrame(u) => u,
        _ => panic!("expected U-frame"),
    };
    assert!(!u.poll_final());
    assert_eq!(u.ucode(), Ok(UCode::SABME));
}

// An unassigned 5-bit modifier code is a hard decoding failure.
#[test]
fn llc_uframe_unassigned_code_fails() {
    // 0xC3 is a U-frame control whose gathered code (0b00011) is unassigned.
    let mut frame: Vec<u8> = vec![0; 14];
    frame[13] = 0x03;
    frame.extend_from_slice(&[0x42, 0x42, 0xc3]);
    let e = eth(&frame);
    let llc = match e.try_next_header().unwrap() {
        EtherType::IeeeLlc(f) => f,
        _ => panic!("expected LLC"),
    };
    let u = match llc.control() {
        LlcControl::UFrame(u) => u,
        _ => panic!("expected U-frame"),
    };
    assert_eq!(u.ucode(), Err(DecodeError::UnrecognizedCode));
}

// P7 on concrete values: every assigned modifier has exactly one control
// byte encoding per poll/final setting, and decoding recovers it.
#[test]
fn uframe_codes_round_trip() {
    // (5-bit code, command?, expected modifier)
    let cases: [(u8, bool, UCode); 12] = [
        (0b00_001, true, UCode::SNRM),
        (0b11_011, true, UCode::SNRME),
        (0b11_100, true, UCode::SABM),
        (0b11_100, false, UCode::DM),
        (0b11_110, true, UCode::SABME),
        (0b00_000, true, UCode::UI),
        (0b00_110, false, UCode::UA),
        (0b00_010, true, UCode::DISC),
        (0b00_010, false, UCode::RD),
        (0b00_100, true, UCode::UP),
        (0b11_001, true, UCode::RSET),
        (0b11_101, false, UCode::XID),
    ];
    for (code, cmd, expect) in cases {
        // Spread the code to reversed bit positions 0-2 and 4-5, set the
        // U-frame marker at reversed 6-7, then reverse into wire order.
        let spread = (code & 0x07) | ((code & 0x18) << 1) | 0xC0;
        let mut control: u8 = 0;
        for b in 0..8 {
            if spread & (1 << b) != 0 {
                control |= 1 << (7 - b);
            }
        }
        let ssap: u8 = if cmd { 0x42 } else { 0x43 };
        let mut frame: Vec<u8> = vec![0; 14];
        frame[13] = 0x03;
        frame.extend_from_slice(&[0x42, ssap, control]);
        let llc = match eth(&frame).try_next_header().unwrap() {
            EtherType::IeeeLlc(f) => f,
            _ => panic!("expected LLC"),
        };
        let u = match llc.control() {
            LlcControl::UFrame(u) => u,
            _ => panic!("expected U-frame"),
        };
        assert_eq!(u.ucode(), Ok(expect), "code {:05b}", code);
    }
}

// A 16-bit control with low bits 01 in its first byte is a supervisory
// extended frame; its fields sit at the documented bit positions.
#[test]
fn llc_extended_controls() {
    let mut frame: Vec<u8> = vec![0; 14];
    frame[13] = 0x04;
    // control bytes 0x09 0x15: S-ext, scode = bits 10-11 = 0b10 (RNR),
    // N(R) = (0x0915 / 2) % 128, poll/final = lowest bit (1).
    frame.extend_from_slice(&[0x42, 0x43, 0x09, 0x15]);
    let llc = match eth(&frame).try_next_header().unwrap() {
        EtherType::IeeeLlc(f) => f,
        _ => panic!("expected LLC"),
    };
    assert!(!llc.is_command());
    match llc.control() {
        LlcControl::SFrameExt(s) => {
            assert_eq!(s.scode(), SCode::RNR);
            assert_eq!(s.rec_seq().value(), ((0x0915u16 / 2) % 128) as u8);
            assert!(s.poll_final());
            assert!(!s.is_command());
        }
        _ => panic!("expected S-frame extended"),
    }
    // Low bits 00: information extended frame.
    frame[16] = 0x08;
    frame[17] = 0x14;
    let llc = match eth(&frame).try_next_header().unwrap() {
        EtherType::IeeeLlc(f) => f,
        _ => panic!("expected LLC"),
    };
    match llc.control() {
        LlcControl::IFrameExt(i) => {
            assert_eq!(i.send_seq().value(), (0x0814u16 / 512) as u8);
            assert_eq!(i.rec_seq().value(), ((0x0814u16 / 2) % 128) as u8);
            assert!(!i.poll_final());
        }
        _ => panic!("expected I-frame extended"),
    }
}

// The 8-bit information and supervisory control forms expose their
// sequence numbers, code and poll/final bit at the documented positions.
#[test]
fn llc_short_controls() {
    let i = oxycap::llc::IFrame::new(0b101_1_010_0, true);
    assert_eq!(i.rec_seq().value(), 0b101);
    assert_eq!(i.send_seq().value(), 0b010);
    assert!(i.poll_final());
    assert!(i.is_command());
    let s = oxycap::llc::SFrame::new(0b011_0_01_01, false);
    assert_eq!(s.rec_seq().value(), 0b011);
    assert!(!s.poll_final());
    assert_eq!(s.scode(), SCode::REJ);
    assert!(!s.is_command());
    // The SABM code point decodes as DM on the response side.
    let dm = oxycap::llc::UFrame::new(0x2f, false);
    assert_eq!(dm.ucode(), Ok(UCode::DM));
}

// The narrow-integer wrappers hold exactly the value they were built from.
#[test]
fn narrow_integer_values() {
    assert_eq!(oxycap::narrow::U2::new(3).value(), 3);
    assert_eq!(oxycap::narrow::U3::new(7).value(), 7);
    assert_eq!(oxycap::narrow::U4::new(15).value(), 15);
    assert_eq!(oxycap::narrow::U6::new(63).value(), 63);
    assert_eq!(oxycap::narrow::U7::new(127).value(), 127);
    assert_eq!(oxycap::narrow::U13::new(0x1fff).value(), 0x1fff);
    assert_eq!(oxycap::narrow::U20::new(0xf_ffff).value(), 0xf_ffff);
}

// E6: IGMPv2 queries: the unspecified group address makes a general
// query, a set address a group-specific one.
#[test]
fn e6_igmp_queries() {
    let mut ip: Vec<u8> = vec![
        0x45, 0x00, 0x00, 0x1c, 0x00, 0x03, 0x00, 0x00, 0x01, 0x02, 0x00, 0x00, 0xc0, 0xa8, 0x00,
        0x01, 0xe0, 0x00, 0x00, 0x01,
    ];
    ip.extend_from_slice(&[0x11, 0x64, 0xee, 0x9b, 0x00, 0x00, 0x00, 0x00]);
    let f = oxycap::ipv4::Ipv4Frame::from_bytes(&ip).unwrap();
    let igmp = match f.try_next_header().unwrap() {
        IpProtocol::Igmp(g) => g,
        _ => panic!("expected IGMP"),
    };
    assert_eq!(igmp.type_(), 0x11);
    assert_eq!(igmp.mrt(), 0x64);
    assert!(igmp.has_integrity());
    match igmp.get_msg() {
        IgmpMsg::GeneralQuery(mrt) => assert_eq!(mrt, 0x64),
        _ => panic!("expected general query"),
    }

    let mut ip2 = ip.clone();
    ip2[20..28].copy_from_slice(&[0x11, 0x64, 0x0e, 0x9a, 0xe0, 0x00, 0x00, 0x01]);
    let f = oxycap::ipv4::Ipv4Frame::from_bytes(&ip2).unwrap();
    let igmp = match f.try_next_header().unwrap() {
        IpProtocol::Igmp(g) => g,
        _ => panic!("expected IGMP"),
    };
    assert!(igmp.has_integrity());
    match igmp.get_msg() {
        IgmpMsg::SpecialQuery(addr, mrt) => {
            assert_eq!(addr.octets(), [224, 0, 0, 1]);
            assert_eq!(mrt, 0x64);
        }
        _ => panic!("expected group-specific query"),
    }
    // Reports and leaves carry the group address.
    let mut ip3 = ip.clone();
    ip3[20] = 0x16;
    ip3[24..28].copy_from_slice(&[224, 0, 0, 5]);
    let f = oxycap::ipv4::Ipv4Frame::from_bytes(&ip3).unwrap();
    let igmp = match f.try_next_header().unwrap() {
        IpProtocol::Igmp(g) => g,
        _ => panic!("expected IGMP"),
    };
    assert!(matches!(igmp.get_msg(), IgmpMsg::MembershipReport(a) if a.octets() == [224, 0, 0, 5]));
    let mut ip4 = ip.clone();
    ip4[20] = 0x42;
    let f = oxycap::ipv4::Ipv4Frame::from_bytes(&ip4).unwrap();
    let igmp = match f.try_next_header().unwrap() {
        IpProtocol::Igmp(g) => g,
        _ => panic!("expected IGMP"),
    };
    assert!(matches!(igmp.get_msg(), IgmpMsg::Other(0x42)));
}

// P5: EtherType dispatch over the whole discriminant space.
#[test]
fn ethertype_dispatch() {
    let base = |et_hi: u8, et_lo: u8, payload: &[u8]| -> Vec<u8> {
        let mut v = vec![0u8; 12];
        v.push(et_hi);
        v.push(et_lo);
        v.extend_from_slice(payload);
        v
    };
    // 0x0806 with a well-formed ARP payload.
    let arp_payload = [0u8, 1, 8, 0, 1, 1, 0, 1, 0xaa, 0xbb, 0xcc, 0xdd];
    assert!(matches!(
        eth(&base(0x08, 0x06, &arp_payload)).try_next_header(),
        Ok(EtherType::Arp(_))
    ));
    // A value above 1500 outside the known set is carried raw.
    let f = base(0x12, 0x34, &[1, 2, 3]);
    match eth(&f).try_next_header() {
        Ok(EtherType::Other(u)) => {
            assert_eq!(u.type_id(), 0x1234);
            assert_eq!(u.payload(), &[1, 2, 3]);
        }
        _ => panic!("expected Other"),
    }
    // At most 1500: the first two payload bytes decide the 802.3 class.
    assert!(matches!(
        eth(&base(0x00, 0x10, &[0xff, 0xff, 0, 0])).try_next_header(),
        Ok(EtherType::NovellIeee)
    ));
    assert!(matches!(
        eth(&base(0x00, 0x10, &[0xaa, 0xaa, 3, 0])).try_next_header(),
        Ok(EtherType::IeeeSnap)
    ));
    assert!(matches!(
        eth(&base(0x00, 0x10, &[0x42, 0x42, 0x03])).try_next_header(),
        Ok(EtherType::IeeeLlc(_))
    ));
    // 1500 itself is a length, not an EtherType.
    assert!(matches!(
        eth(&base(0x05, 0xdc, &[0x42, 0x42, 0x03])).try_next_header(),
        Ok(EtherType::IeeeLlc(_))
    ));
}

// Error taxonomy: too-short buffers and invalid field combinations are
// decoding failures with the expected kind.
#[test]
fn decode_errors() {
    assert!(matches!(
        EthernetFrame::from_bytes(&[0u8; 10]),
        Err(DecodeError::BufferTooShort)
    ));
    assert!(matches!(
        EthernetFrame::from_link(&[0u8; 64], 2),
        Err(DecodeError::UnknownLinkType)
    ));
    assert!(EthernetFrame::from_link(&[0u8; 64], 1).is_ok());
    // IPv4 with IHL below 5 is an invalid header.
    let mut v = vec![0u8; 14];
    v[12] = 0x08;
    v.extend_from_slice(&[0x44; 20]);
    assert!(matches!(
        eth(&v).try_next_header(),
        Err(DecodeError::InvalidHeader)
    ));
    // IPv4 whose IHL promises more bytes than exist is too short.
    let mut v = vec![0u8; 14];
    v[12] = 0x08;
    v.extend_from_slice(&[0x4F; 20]);
    assert!(matches!(
        eth(&v).try_next_header(),
        Err(DecodeError::BufferTooShort)
    ));
    // IPv6 version nibble other than 6 is an invalid header.
    let mut v = vec![0u8; 14];
    v[12] = 0x86;
    v[13] = 0xdd;
    v.extend_from_slice(&[0x50; 40]);
    assert!(matches!(
        eth(&v).try_next_header(),
        Err(DecodeError::InvalidHeader)
    ));
    // TCP data offset below 5 is an invalid header.
    let mut ip: Vec<u8> = vec![
        0x45, 0x00, 0x00, 0x28, 0x00, 0x00, 0x00, 0x00, 0x40, 0x06, 0x00, 0x00, 1, 2, 3, 4, 5, 6,
        7, 8,
    ];
    ip.extend_from_slice(&[0, 1, 0, 2, 0, 0, 0, 0, 0, 0, 0, 0, 0x40, 0, 0, 0, 0, 0, 0, 0]);
    assert!(matches!(
        oxycap::ipv4::Ipv4Frame::from_bytes(&ip)
            .unwrap()
            .try_next_header(),
        Err(DecodeError::InvalidHeader)
    ));
    // UDP needs its full 8-byte header.
    let mut ip: Vec<u8> = vec![
        0x45, 0x00, 0x00, 0x1a, 0x00, 0x00, 0x00, 0x00, 0x40, 0x11, 0x00, 0x00, 1, 2, 3, 4, 5, 6,
        7, 8,
    ];
    ip.extend_from_slice(&[0, 1, 0, 2, 0, 0]);
    assert!(matches!(
        oxycap::ipv4::Ipv4Frame::from_bytes(&ip)
            .unwrap()
            .try_next_header(),
        Err(DecodeError::BufferTooShort)
    ));
}

fn icmp_ipv4(icmp: &[u8]) -> Vec<u8> {
    let mut ip: Vec<u8> = vec![
        0x45, 0x00, 0x00, 0x00, 0x00, 0x00, 0x00, 0x00, 0x40, 0x01, 0x00, 0x00, 1, 2, 3, 4, 5, 6,
        7, 8,
    ];
    let total = 20 + icmp.len();
    ip[2] = (total >> 8) as u8;
    ip[3] = (total & 0xFF) as u8;
    ip.extend_from_slice(icmp);
    ip
}

fn get_icmp(bytes: &[u8]) -> oxycap::icmp::IcmpFrame<'_> {
    match oxycap::ipv4::Ipv4Frame::from_bytes(bytes)
        .unwrap()
        .try_next_header()
        .unwrap()
    {
        IpProtocol::Icmp(f) => f,
        _ => panic!("expected ICMP"),
    }
}

// ICMP taxonomy: typed sub-messages read the documented fields.
#[test]
fn icmp_messages() {
    // Destination unreachable, code 4: fragmentation required with MTU.
    let v = icmp_ipv4(&[3, 4, 0x12, 0x34, 0x00, 0x00, 0x05, 0xdc]);
    match get_icmp(&v).get_control_msg() {
        Ok(IcmpMsg::DestUnreachable(DestUnreachable::FragReq(mtu))) => assert_eq!(mtu, 1500),
        other => panic!("unexpected {:?}", other.map(|_| ())),
    }
    // Destination unreachable with a code past the sixteen reasons fails.
    let v = icmp_ipv4(&[3, 20, 0, 0, 0, 0, 0, 0]);
    assert!(matches!(
        get_icmp(&v).get_control_msg(),
        Err(DecodeError::UnrecognizedCode)
    ));
    // Redirect carries the gateway address from header bytes 4-7.
    let v = icmp_ipv4(&[5, 1, 0, 0, 10, 0, 0, 1]);
    match get_icmp(&v).get_control_msg() {
        Ok(IcmpMsg::RedirectMsg(m)) => {
            assert_eq!(m.addr().octets(), [10, 0, 0, 1]);
            assert!(matches!(m.kind(), oxycap::icmp::RedirectType::RedirectData4Host));
        }
        _ => panic!("expected redirect"),
    }
    // Timestamp reads identifier, sequence and the originate stamp.
    let v = icmp_ipv4(&[13, 0, 0, 0, 0x00, 0x2a, 0x00, 0x07, 0x01, 0x02, 0x03, 0x04]);
    match get_icmp(&v).get_control_msg() {
        Ok(IcmpMsg::Timestamp(ts)) => {
            assert_eq!(ts.id(), 0x2a);
            assert_eq!(ts.seq_num(), 7);
            assert_eq!(ts.originate_timestamp(), 0x01020304);
        }
        _ => panic!("expected timestamp"),
    }
    // Timestamp with a payload too short for the stamp fails.
    let v = icmp_ipv4(&[13, 0, 0, 0, 0, 0x2a, 0, 7, 1, 2]);
    assert!(matches!(
        get_icmp(&v).get_control_msg(),
        Err(DecodeError::BufferTooShort)
    ));
    // Timestamp reply reads all three stamps.
    let v = icmp_ipv4(&[
        14, 0, 0, 0, 0, 1, 0, 2, 0, 0, 0, 10, 0, 0, 0, 20, 0, 0, 0, 30,
    ]);
    match get_icmp(&v).get_control_msg() {
        Ok(IcmpMsg::TimestampReply(ts)) => {
            assert_eq!(ts.originate_timestamp(), 10);
            assert_eq!(ts.receive_timestamp(), 20);
            assert_eq!(ts.transmit_timestamp(), 30);
        }
        _ => panic!("expected timestamp reply"),
    }
    // Address mask reply reads the mask from the payload.
    let v = icmp_ipv4(&[18, 0, 0, 0, 0, 5, 0, 6, 255, 255, 255, 0]);
    match get_icmp(&v).get_control_msg() {
        Ok(IcmpMsg::AddrMaskReply(a)) => {
            assert_eq!(a.id(), 5);
            assert_eq!(a.seq_num(), 6);
            assert_eq!(a.addr_mask().octets(), [255, 255, 255, 0]);
        }
        _ => panic!("expected address mask reply"),
    }
    // A reserved type is carried raw, not raised.
    let v = icmp_ipv4(&[42, 0, 0, 0, 0, 0, 0, 0]);
    assert!(matches!(
        get_icmp(&v).get_control_msg(),
        Ok(IcmpMsg::Reserved(42))
    ));
    // Echo request and reply.
    let v = icmp_ipv4(&[8, 0, 0, 0, 0, 0, 0, 0]);
    assert!(matches!(get_icmp(&v).get_control_msg(), Ok(IcmpMsg::EchoRequest)));
    let v = icmp_ipv4(&[0, 0, 0, 0, 0, 0, 0, 0]);
    assert!(matches!(get_icmp(&v).get_control_msg(), Ok(IcmpMsg::EchoReply)));
}

// ICMP integrity covers header and payload together.
#[test]
fn icmp_integrity() {
    let mut msg: Vec<u8> = vec![8, 0, 0, 0, 0, 0x2a, 0, 1, 0xde, 0xad];
    let c = !ref_sum16(&msg);
    msg[2] = (c >> 8) as u8;
    msg[3] = (c & 0xFF) as u8;
    let v = icmp_ipv4(&msg);
    assert!(get_icmp(&v).has_integrity());
    let mut bad = v.clone();
    bad[v.len() - 1] ^= 0x40;
    assert!(!get_icmp(&bad).has_integrity());
}

// IPv4 flags: DF is the bit with weight 2, MF the bit with weight 1.
#[test]
fn ipv4_flags_and_offset() {
    let mut h: Vec<u8> = vec![
        0x45, 0x00, 0x00, 0x14, 0x00, 0x00, 0x40, 0x00, 0x40, 0xfd, 0x00, 0x00, 1, 2, 3, 4, 5, 6,
        7, 8,
    ];
    let f = oxycap::ipv4::Ipv4Frame::from_bytes(&h).unwrap();
    assert_eq!(f.flags(), 0b010);
    assert!(f.dont_fragment());
    assert!(!f.more_fragments());
    assert_eq!(f.offset().value(), 0);
    // MF set together with a 13-bit offset.
    h[6] = 0x3f;
    h[7] = 0xff;
    let f = oxycap::ipv4::Ipv4Frame::from_bytes(&h).unwrap();
    assert_eq!(f.flags(), 0b001);
    assert!(!f.dont_fragment());
    assert!(f.more_fragments());
    assert_eq!(f.offset().value(), 0x1fff);
    assert_eq!(f.dscp().value(), 0);
    assert_eq!(f.ecn().value(), 0);
    assert_eq!(f.ttl(), 0x40);
}

// P3 on concrete values: writing the computed checksum restores
// integrity, and flipping any single bit of the header breaks it.
#[test]
fn ipv4_checksum_round_trip_and_bit_flip() {
    let mut h: Vec<u8> = vec![
        0x45, 0x00, 0x00, 0x54, 0x13, 0x37, 0x40, 0x00, 0x40, 0x01, 0x00, 0x00, 10, 0, 0, 1, 10,
        0, 0, 99,
    ];
    let c = !ref_sum16(&h);
    h[10] = (c >> 8) as u8;
    h[11] = (c & 0xFF) as u8;
    let f = oxycap::ipv4::Ipv4Frame::from_bytes(&h).unwrap();
    assert_eq!(f.checksum(), c);
    assert!(f.has_integrity());
    for i in 0..20 {
        for bit in 0..8 {
            let mut flipped = h.clone();
            flipped[i] ^= 1u8 << bit;
            if i == 0 {
                // Flipping a version/IHL bit may make the header unparsable;
                // where it still parses, integrity must fail.
                if let Ok(f) = oxycap::ipv4::Ipv4Frame::from_bytes(&flipped) {
                    if f.header_len() == 20 {
                        assert!(!f.has_integrity());
                    }
                }
            } else {
                let f = oxycap::ipv4::Ipv4Frame::from_bytes(&flipped).unwrap();
                assert!(!f.has_integrity(), "bit {} of byte {}", bit, i);
            }
        }
    }
}

// The hardware address parser accepts the colon and dash forms and
// rejects everything the segment grammar refuses.
#[test]
fn hwaddr_parsing() {
    let a = HwAddr::parse_str("00:11:22:33:44:55").unwrap();
    assert_eq!(a.octets(), [0x00, 0x11, 0x22, 0x33, 0x44, 0x55]);
    let a = HwAddr::parse_str("AA-bb-Cc-dD-01-fF").unwrap();
    assert_eq!(a.octets(), [0xaa, 0xbb, 0xcc, 0xdd, 0x01, 0xff]);
    // Missing trailing segments default to zero; short digits are allowed.
    let a = HwAddr::parse_str("a:b").unwrap();
    assert_eq!(a.octets(), [0x0a, 0x0b, 0, 0, 0, 0]);
    // Leading zeros keep the value in range.
    let a = HwAddr::parse_str("00ff:1").unwrap();
    assert_eq!(a.octets(), [0xff, 0x01, 0, 0, 0, 0]);
    // Rejections: empty input, empty segment, non-hex, out of range,
    // too many segments.
    assert!(HwAddr::parse_str("").is_none());
    assert!(HwAddr::parse_str("aa:").is_none());
    assert!(HwAddr::parse_str("g0:00").is_none());
    assert!(HwAddr::parse_str("100:00").is_none());
    assert!(HwAddr::parse_str("1:2:3:4:5:6:7").is_none());
}

#[test]
fn hwaddr_basics() {
    let a = HwAddr::from_octets([0xff; 6]);
    assert!(a.is_broadcast());
    let b = HwAddr::from_slice(&[0xde, 0xad, 0xbe, 0xef, 0x00, 0x01, 0x99]);
    assert!(!b.is_broadcast());
    assert_eq!(b.octets(), [0xde, 0xad, 0xbe, 0xef, 0x00, 0x01]);
}

#[test]
fn ipv6_header_fields() {
    let mut v6: Vec<u8> = vec![0x6a, 0xbc, 0xde, 0xf1, 0x12, 0x34, 0x3b, 0x7f];
    v6.extend_from_slice(&[0x20, 0x01, 0x0d, 0xb8, 0, 0, 0, 0, 0, 0, 0, 0, 0, 0, 0, 1]);
    v6.extend_from_slice(&[0xfe, 0x80, 0, 0, 0, 0, 0, 0, 0, 0, 0, 0, 0, 0, 0, 2]);
    let f = oxycap::ipv6::Ipv6Frame::from_bytes(&v6).unwrap();
    assert_eq!(f.ver().value(), 6);
    assert_eq!(f.traffic_class(), 0xab);
    assert_eq!(f.flow_label().value(), 0xcdef1);
    assert_eq!(f.payload_len(), 0x1234);
    assert_eq!(f.next_header(), 0x3b);
    assert_eq!(f.hop_limit(), 0x7f);
    assert_eq!(f.src_addr().segments()[0], 0x2001);
    assert_eq!(f.src_addr().segments()[7], 0x0001);
    assert_eq!(f.dest_addr().segments()[0], 0xfe80);
    // An unhandled next header is surfaced raw.
    match f.try_next_header().unwrap() {
        IpProtocol::Other(u) => assert_eq!(u.type_id(), 0x3b),
        _ => panic!("expected Other"),
    }
}

// P4 on concrete values: TCP integrity is a function of the covered
// bytes, independent of where header, options and payload boundaries
// fall: moving bytes between options and payload while keeping the
// concatenation fixed keeps the verdict.
#[test]
fn tcp_integrity_split_independence() {
    // 24-byte header (data offset 6) with 4 option bytes + 4 payload bytes.
    let src = [10, 0, 0, 1];
    let dst = [10, 0, 0, 2];
    let mk_ip = |tcp: &[u8]| -> Vec<u8> {
        let mut ip: Vec<u8> = vec![0x45, 0, 0, 0, 0, 0, 0, 0, 64, 6, 0, 0];
        ip.extend_from_slice(&src);
        ip.extend_from_slice(&dst);
        let total = 20 + tcp.len();
        ip[2] = (total >> 8) as u8;
        ip[3] = (total & 0xFF) as u8;
        ip.extend_from_slice(tcp);
        ip
    };
    let body: [u8; 8] = [0x01, 0x01, 0x01, 0x00, 0xca, 0xfe, 0xba, 0xbe];
    let mut with_opts: Vec<u8> = vec![
        0, 80, 1, 187, 0, 0, 0, 1, 0, 0, 0, 2, 0x60, 0x18, 0x10, 0x00, 0, 0, 0, 0,
    ];
    with_opts.extend_from_slice(&body);
    let mut no_opts = with_opts.clone();
    no_opts[12] = 0x50; // data offset 5: the same bytes, all in the payload
    // Compute a checksum over the covered bytes of the first layout; the
    // data-offset nibble differs between the two, so patch each one's
    // checksum from its own bytes.
    for tcp in [&mut with_opts, &mut no_opts] {
        let mut covered: Vec<u8> = Vec::new();
        covered.extend_from_slice(&src);
        covered.extend_from_slice(&dst);
        covered.extend_from_slice(&[0, 6]);
        covered.extend_from_slice(&(tcp.len() as u16).to_be_bytes());
        covered.extend_from_slice(tcp);
        let c = !ref_sum16(&covered);
        tcp[16] = (c >> 8) as u8;
        tcp[17] = (c & 0xFF) as u8;
    }
    for tcp in [&with_opts, &no_opts] {
        let ip = mk_ip(tcp);
        let f = oxycap::ipv4::Ipv4Frame::from_bytes(&ip).unwrap();
        let t = match f.try_next_header().unwrap() {
            IpProtocol::Tcp(t) => t,
            _ => panic!("expected TCP"),
        };
        assert!(t.has_integrity());
    }
    // The split really differed: one view has options, the other none.
    let ip_with = mk_ip(&with_opts);
    let f = oxycap::ipv4::Ipv4Frame::from_bytes(&ip_with).unwrap();
    match f.try_next_header().unwrap() {
        IpProtocol::Tcp(t) => {
            assert_eq!(t.opts().unwrap(), &body[..4]);
            assert_eq!(t.payload(), &body[4..]);
        }
        _ => panic!("expected TCP"),
    }
    let ip_without = mk_ip(&no_opts);
    let f = oxycap::ipv4::Ipv4Frame::from_bytes(&ip_without).unwrap();
    match f.try_next_header().unwrap() {
        IpProtocol::Tcp(t) => {
            assert!(t.opts().is_none());
            assert_eq!(t.payload().len(), 8);
        }
        _ => panic!("expected TCP"),
    }
}

// TCP flag bits and the conditional accessors.
#[test]
fn tcp_flags() {
    let mut ip: Vec<u8> = vec![
        0x45, 0, 0, 0x28, 0, 0, 0, 0, 64, 6, 0, 0, 10, 0, 0, 1, 10, 0, 0, 2,
    ];
    ip.extend_from_slice(&[
        0, 80, 1, 187, 0, 0, 0, 1, 0xab, 0xcd, 0xef, 0x12, 0x51, 0xff, 0, 0, 0, 0, 0x13, 0x57,
    ]);
    let f = oxycap::ipv4::Ipv4Frame::from_bytes(&ip).unwrap();
    let t = match f.try_next_header().unwrap() {
        IpProtocol::Tcp(t) => t,
        _ => panic!("expected TCP"),
    };
    assert!(t.ns());
    assert!(t.cwr() && t.ece() && t.urg() && t.ack() && t.psh() && t.rst() && t.syn() && t.fin());
    assert_eq!(t.ack_num(), Some(0xabcdef12));
    assert_eq!(t.urg_pnt(), Some(0x1357));
}
