use nymlib::tun_device::{handle_tun_event, TunAction, TunEvent};

fn ipv4_udp_packet() -> Vec<u8> {
    vec![
        0x45, 0x00, 0x00, 0x1c, 0x00, 0x01, 0x00, 0x00, 0x40, 0x11, 0x00, 0x00, // header start
        10, 0, 0, 1, // source
        10, 0, 0, 2, // destination
        0x30, 0x39, 0x00, 0x35, 0x00, 0x08, 0x00, 0x00, // udp header
    ]
}

fn ipv6_udp_packet() -> Vec<u8> {
    let mut p = vec![0x60, 0, 0, 0, 0x00, 0x08, 17, 64];
    p.extend([0xfd, 0, 0, 0, 0, 0, 0, 0, 0, 0, 0, 0, 0, 0, 0, 1]);
    p.extend([0xfd, 0, 0, 0, 0, 0, 0, 0, 0, 0, 0, 0, 0, 0, 0, 2]);
    p.extend([0x30, 0x39, 0x00, 0x35, 0x00, 0x08, 0x00, 0x00]);
    p
}

#[test]
fn read_packet_is_reported_with_its_addresses() {
    match handle_tun_event(TunEvent::Read(ipv4_udp_packet())) {
        Some(TunAction::ReportRead { source, destination, len }) => {
            assert_eq!(source, vec![10, 0, 0, 1]);
            assert_eq!(destination, vec![10, 0, 0, 2]);
            assert_eq!(len, 28);
        }
        other => panic!("unexpected {other:?}"),
    }
}

#[test]
fn read_ipv6_packet_is_reported() {
    match handle_tun_event(TunEvent::Read(ipv6_udp_packet())) {
        Some(TunAction::ReportRead { source, destination, len }) => {
            assert_eq!(source.len(), 16);
            assert_eq!(destination[15], 2);
            assert_eq!(len, 48);
        }
        other => panic!("unexpected {other:?}"),
    }
}

#[test]
fn unreadable_packets_are_not_handled() {
    assert!(handle_tun_event(TunEvent::Read(vec![])).is_none());
    assert!(handle_tun_event(TunEvent::Read(vec![0x45, 0, 0])).is_none());
    assert!(handle_tun_event(TunEvent::Read(vec![0x20; 40])).is_none());
}

#[test]
fn ipv4_packet_is_written_unchanged() {
    match handle_tun_event(TunEvent::Write(ipv4_udp_packet())) {
        Some(TunAction::WritePacket { source, destination, data }) => {
            assert_eq!(source, vec![10, 0, 0, 1]);
            assert_eq!(destination, vec![10, 0, 0, 2]);
            assert_eq!(data, ipv4_udp_packet());
        }
        other => panic!("unexpected {other:?}"),
    }
}

#[test]
fn ipv6_and_garbage_are_not_written() {
    assert!(handle_tun_event(TunEvent::Write(ipv6_udp_packet())).is_none());
    assert!(handle_tun_event(TunEvent::Write(vec![1, 2, 3])).is_none());
}

#[test]
fn read_failure_shuts_down() {
    assert!(matches!(handle_tun_event(TunEvent::ReadFailed), Some(TunAction::Shutdown)));
}
