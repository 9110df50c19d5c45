use playit_agent_core::udp_proto::{Endpoint4, Endpoint6, UdpFlow, V4_LEN, V6_LEN};
use playit_agent_core::udp_tunnel::{
    ChannelDetails, SocketAddress, TunnelError, UdpTunnel, UdpTunnelRx,
};

const RELAY: SocketAddress = SocketAddress::V4 { ip: 0xCB00_7105, port: 9000 };

fn details() -> ChannelDetails {
    ChannelDetails { tunnel_addr: RELAY, token: vec![0xAA, 0xBB, 0xCC, 0xDD] }
}

fn flow4() -> UdpFlow {
    UdpFlow::V4 {
        src: Endpoint4 { ip: 0xC633_6407, port: 51000 },
        dst: Endpoint4 { ip: 0x0A00_0001, port: 25565 },
    }
}

fn flow6() -> UdpFlow {
    UdpFlow::V6 {
        src: Endpoint6 { ip: 0x2001_0db8_0000_0000_0000_0000_0000_0001, port: 4000 },
        dst: Endpoint6 { ip: 0xfe80_0000_0000_0000_0000_0000_0000_00ff, port: 443 },
        flow: 0x0001_2345,
    }
}

fn installed() -> UdpTunnel {
    let mut t = UdpTunnel::new(false);
    t.set_udp_tunnel(details()).unwrap();
    t
}

#[test]
fn end_to_end_token_confirms_channel() {
    let mut t = UdpTunnel::new(false);
    assert!(!t.is_setup());
    let out = t.set_udp_tunnel(details()).unwrap().expect("token must be sent");
    assert_eq!(out.to, RELAY);
    assert_eq!(out.bytes, vec![0xAA, 0xBB, 0xCC, 0xDD]);
    assert!(t.is_setup());
    t.record_token_sent(1_000);
    assert_eq!(t.last_send(), 1_000);
    let rx = t.receive_from(&[0xAA, 0xBB, 0xCC, 0xDD], RELAY, 2_000);
    assert_eq!(rx, Ok(UdpTunnelRx::ConfirmedConnection));
    assert_eq!(t.last_confirm(), 2_000);
}

#[test]
fn multiplexed_reply_round_trip() {
    let mut t = installed();
    let f = flow4();
    let mut datagram: Vec<u8> = (1u8..=10).collect();
    f.write_to(&mut datagram);
    assert_eq!(datagram.len(), 10 + V4_LEN);
    let rx = t.receive_from(&datagram, RELAY, 5).unwrap();
    assert_eq!(rx, UdpTunnelRx::ReceivedPacket { bytes: 10, flow: f });

    datagram.truncate(10);
    let to = t.send(&mut datagram, f.flip()).unwrap();
    assert_eq!(to, RELAY);
    assert_eq!(datagram.len(), 10 + V4_LEN);
    assert_eq!(&datagram[..10], &[1, 2, 3, 4, 5, 6, 7, 8, 9, 10]);
    assert_eq!(UdpFlow::from_tail(&datagram), Some(f.flip()));
}

#[test]
fn token_differing_in_one_byte_is_no_confirmation() {
    let mut t = installed();
    let rx = t.receive_from(&[0xAA, 0xBB, 0xCC, 0xDE], RELAY, 7_000);
    assert_ne!(rx, Ok(UdpTunnelRx::ConfirmedConnection));
    assert_eq!(rx, Err(TunnelError::WriteZero));
    let rx = t.receive_from(&[0xAA, 0xBB, 0xCC], RELAY, 7_000);
    assert_ne!(rx, Ok(UdpTunnelRx::ConfirmedConnection));
    assert_eq!(t.last_confirm(), 0);
}

#[test]
fn spoofed_sender_is_rejected() {
    let mut t = installed();
    let other_port = SocketAddress::V4 { ip: 0xCB00_7105, port: 9001 };
    let other_host = SocketAddress::V4 { ip: 0xCB00_7106, port: 9000 };
    assert_eq!(t.receive_from(&[0xAA, 0xBB, 0xCC, 0xDD], other_port, 9_000), Err(TunnelError::InvalidData));
    assert_eq!(t.receive_from(&[0xAA, 0xBB, 0xCC, 0xDD], other_host, 9_000), Err(TunnelError::InvalidData));
    assert_eq!(t.last_confirm(), 0);
    assert_eq!(t.last_send(), 0);
}

#[test]
fn equal_details_send_the_token_once() {
    let mut t = UdpTunnel::new(false);
    assert!(t.set_udp_tunnel(details()).unwrap().is_some());
    t.record_token_sent(100);
    assert!(t.set_udp_tunnel(details()).unwrap().is_none());
    assert_eq!(t.last_send(), 100);
}

#[test]
fn new_details_replace_and_resend() {
    let mut t = installed();
    let mut changed = details();
    changed.token = vec![1, 2, 3];
    let out = t.set_udp_tunnel(changed).unwrap().unwrap();
    assert_eq!(out.bytes, vec![1, 2, 3]);
    assert_eq!(t.receive_from(&[1, 2, 3], RELAY, 50), Ok(UdpTunnelRx::ConfirmedConnection));
}

#[test]
fn resend_timing() {
    let mut t = installed();
    t.receive_from(&[0xAA, 0xBB, 0xCC, 0xDD], RELAY, 100_000).unwrap();
    assert!(t.requires_resend(111_000));
    assert!(!t.requires_resend(109_000));
    assert!(!t.requires_resend(110_000));
    assert!(!t.requires_resend(50_000));
}

#[test]
fn auth_retry_timing() {
    let mut t = installed();
    t.receive_from(&[0xAA, 0xBB, 0xCC, 0xDD], RELAY, 10_000).unwrap();
    t.record_token_sent(20_000);
    assert!(t.requires_auth(26_000));
    assert!(!t.requires_auth(24_000));
    t.receive_from(&[0xAA, 0xBB, 0xCC, 0xDD], RELAY, 21_000).unwrap();
    assert!(!t.requires_auth(26_000));
    assert!(!t.requires_auth(1_000_000));
}

#[test]
fn undersized_datagram_is_write_zero() {
    let mut t = installed();
    let short = vec![0u8; V4_LEN - 1];
    assert_eq!(t.receive_from(&short, RELAY, 1), Err(TunnelError::WriteZero));
    assert_eq!(t.receive_from(&[], RELAY, 1), Err(TunnelError::WriteZero));
}

#[test]
fn unknown_tail_is_invalid_data() {
    let mut t = installed();
    let junk = vec![7u8; 64];
    assert_eq!(t.receive_from(&junk, RELAY, 1), Err(TunnelError::InvalidData));
}

#[test]
fn nothing_installed_is_not_connected() {
    let mut t = UdpTunnel::new(true);
    assert_eq!(t.resend_token().unwrap().map(|d| d.bytes), None);
    let mut data = vec![1u8, 2];
    assert_eq!(t.send(&mut data, flow4()), Err(TunnelError::NotConnected));
    assert_eq!(t.receive_from(&[0xAA], RELAY, 1), Err(TunnelError::NotConnected));
    assert_eq!(t.get_sock(), Err(TunnelError::NotConnected));
}

#[test]
fn ipv6_endpoint_without_socket_is_unsupported() {
    let v6 = SocketAddress::V6 { ip: 0x2001_0db8_0000_0000_0000_0000_0000_0005, port: 9000, flowinfo: 0, scope_id: 0 };
    let mut t = UdpTunnel::new(false);
    let r = t.set_udp_tunnel(ChannelDetails { tunnel_addr: v6, token: vec![9] });
    assert_eq!(r.map(|o| o.is_some()), Err(TunnelError::Unsupported));
    assert!(t.is_setup());
    assert_eq!(t.get_sock(), Err(TunnelError::Unsupported));
    assert_eq!(t.resend_token().map(|o| o.is_some()), Err(TunnelError::Unsupported));
    let mut data = vec![];
    assert_eq!(t.send(&mut data, flow6()), Err(TunnelError::Unsupported));

    let mut t = UdpTunnel::new(true);
    let out = t.set_udp_tunnel(ChannelDetails { tunnel_addr: v6, token: vec![9] }).unwrap().unwrap();
    assert_eq!(out.to, v6);
    assert_eq!(t.receive_from(&[9], v6, 3), Ok(UdpTunnelRx::ConfirmedConnection));
}

#[test]
fn resend_token_sends_installed_token() {
    let t = installed();
    let out = t.resend_token().unwrap().unwrap();
    assert_eq!(out.to, RELAY);
    assert_eq!(out.bytes, vec![0xAA, 0xBB, 0xCC, 0xDD]);
}

#[test]
fn v4_tail_layout() {
    let mut out = vec![];
    flow4().write_to(&mut out);
    assert_eq!(
        out,
        vec![
            0xC6, 0x33, 0x64, 0x07, 0x0A, 0x00, 0x00, 0x01, 0xC7, 0x38, 0x63, 0xDD, 0x5c, 0xb8,
            0x67, 0xcf, 0x78, 0x81, 0x73, 0xb2,
        ]
    );
    assert_eq!(flow4().len(), UdpFlow::len_v4());
}

#[test]
fn v6_tail_round_trip_and_flip() {
    let f = flow6();
    let mut data = vec![0xEE; 3];
    f.write_to(&mut data);
    assert_eq!(data.len(), 3 + V6_LEN);
    assert_eq!(f.len(), UdpFlow::len_v6());
    assert_eq!(UdpFlow::from_tail(&data), Some(f));
    assert_eq!(f.flip().flip(), f);
    assert_ne!(f.flip(), f);
    let mut t = UdpTunnel::new(false);
    t.set_udp_tunnel(details()).unwrap();
    assert_eq!(
        t.receive_from(&data, RELAY, 1),
        Ok(UdpTunnelRx::ReceivedPacket { bytes: 3, flow: f })
    );
}

#[test]
fn tail_of_empty_payload_and_too_short_input() {
    let mut data = vec![];
    flow4().write_to(&mut data);
    assert_eq!(UdpFlow::from_tail(&data), Some(flow4()));
    assert_eq!(UdpFlow::from_tail(&data[1..]), None);
    assert_eq!(UdpFlow::from_tail(&[]), None);
}

use playit_agent_core::control_loop::{liveness_probe_due, ControlSchedule, TickActions};

#[test]
fn ping_every_five_seconds_and_request_udp_until_setup() {
    let mut s = ControlSchedule::new();
    let far = 1_000_000;
    let a = s.on_tick(6_000, far, false);
    assert_eq!(a, TickActions { send_ping: true, request_udp_setup: true, send_keep_alive: false });
    assert_eq!(s.last_ping, 6_000);
    assert!(!s.on_tick(11_000, far, false).send_ping);
    let a = s.on_tick(11_001, far, true);
    assert!(a.send_ping);
    assert!(!a.request_udp_setup);
}

#[test]
fn keep_alive_near_expiry_not_too_often() {
    let mut s = ControlSchedule::new();
    let a = s.on_tick(20_000, 45_000, true);
    assert!(a.send_keep_alive);
    assert_eq!(s.last_keep_alive, 20_000);
    assert!(!s.on_tick(25_000, 45_000, true).send_keep_alive);
    assert!(s.on_tick(30_001, 45_000, true).send_keep_alive);
    assert!(!s.on_tick(50_000, 90_000, true).send_keep_alive);
    assert!(s.on_tick(70_000, 10_000, true).send_keep_alive);
}

#[test]
fn liveness_probe_after_fifteen_seconds() {
    assert!(liveness_probe_due(16_000, 0));
    assert!(!liveness_probe_due(15_000, 0));
    assert!(!liveness_probe_due(5, 100));
}

#[test]
fn channel_details_equality_is_structural() {
    assert!(details() == details());
    let mut other = details();
    other.token[3] = 0xDE;
    assert!(details() != other);
    let mut moved = details();
    moved.tunnel_addr = SocketAddress::V4 { ip: 0xCB00_7105, port: 9001 };
    assert!(details() != moved);
}
