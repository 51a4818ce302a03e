//! What the TUN device task makes of each thing that happens to it: a packet read
//! from the device is reported with its addresses, a packet handed to it for
//! writing is checked to be IPv4, and a read failure stops the task.

use vstd::prelude::*;

verus! {

/// Length in bytes of the device's read buffer.
pub const TUN_READ_BUFFER_SIZE: usize = 1024;

/// The addresses of an IP packet, as octets (4 for IPv4, 16 for IPv6).
#[derive(Debug)]
pub struct IpEndpoints {
    pub is_ipv6: bool,
    pub source: Vec<u8>,
    pub destination: Vec<u8>,
}

/// What etherparse's `SlicedPacket::from_ip` finds in a packet: whether its IP
/// header is IPv6, then its source and destination addresses; `None` where it does
/// not slice the packet or finds no IP header.
pub uninterp spec fn sliced_ip_endpoints(packet: Seq<u8>) -> Option<(bool, Seq<u8>, Seq<u8>)>;

/// The destination address that boringtun reads from an IP packet: bytes 16..20 of
/// an IPv4 packet of at least 20 bytes, bytes 24..40 of an IPv6 packet of at least
/// 40 bytes, nothing otherwise.
pub open spec fn spec_dst_address(packet: Seq<u8>) -> Option<Seq<u8>> {
    if packet.len() == 0 {
        None
    } else if packet[0] >> 4u8 == 4 && packet.len() >= 20 {
        Some(packet.subrange(16, 20))
    } else if packet[0] >> 4u8 == 6 && packet.len() >= 40 {
        Some(packet.subrange(24, 40))
    } else {
        None
    }
}

/// The destination that boringtun reads is the four bytes at offset 16 of an IPv4
/// packet of at least 20 bytes, the sixteen bytes at offset 24 of an IPv6 packet of
/// at least 40 bytes, and nothing for any other packet.
pub proof fn law_destination_address(packet: Seq<u8>)
    ensures
        packet.len() >= 20 && packet[0] >> 4u8 == 4 ==> spec_dst_address(packet) == Some(packet.subrange(16, 20)),
        packet.len() >= 40 && packet[0] >> 4u8 == 6 ==> spec_dst_address(packet) == Some(packet.subrange(24, 40)),
        spec_dst_address(packet) matches Some(a) ==> (a.len() == 4 || a.len() == 16),
        packet.len() < 20 ==> spec_dst_address(packet) is None,
        packet.len() > 0 && packet[0] >> 4u8 != 4 && packet[0] >> 4u8 != 6 ==> spec_dst_address(packet) is None,
{
}

/// `boringtun::noise::Tunn::dst_address`, with the address given as its octets.
/// Claimed of it: exactly `spec_dst_address`, which is what its source does.
#[verifier::external_body]
pub(crate) fn tunnel_dst_address(packet: &[u8]) -> (res: Option<Vec<u8>>)
    ensures
        match res {
            Some(a) => spec_dst_address(packet@) == Some(a@),
            None => spec_dst_address(packet@) is None,
        },
{
    match boringtun::noise::Tunn::dst_address(packet) {
        Some(core::net::IpAddr::V4(a)) => Some(a.octets().to_vec()),
        Some(core::net::IpAddr::V6(a)) => Some(a.octets().to_vec()),
        None => None,
    }
}

/// `etherparse::SlicedPacket::from_ip`, with the IP header's version and addresses
/// taken out of the sliced packet.
/// Claimed of it: the result is `sliced_ip_endpoints` of the packet, with 4-octet
/// addresses for IPv4 and 16-octet ones for IPv6.
#[verifier::external_body]
pub(crate) fn ip_endpoints(packet: &[u8]) -> (res: Option<IpEndpoints>)
    ensures
        match res {
            Some(e) => sliced_ip_endpoints(packet@) == Some((e.is_ipv6, e.source@, e.destination@)),
            None => sliced_ip_endpoints(packet@) is None,
        },
        res matches Some(e) ==> e.source@.len() == e.destination@.len()
            && e.source@.len() == (if e.is_ipv6 { 16int } else { 4int }),
{
    match etherparse::SlicedPacket::from_ip(packet).map(|sliced| sliced.ip) {
        Ok(Some(etherparse::InternetSlice::Ipv4(h, _))) => Some(IpEndpoints {
            is_ipv6: false,
            source: h.source_addr().octets().to_vec(),
            destination: h.destination_addr().octets().to_vec(),
        }),
        Ok(Some(etherparse::InternetSlice::Ipv6(h, _))) => Some(IpEndpoints {
            is_ipv6: true,
            source: h.source_addr().octets().to_vec(),
            destination: h.destination_addr().octets().to_vec(),
        }),
        _ => None,
    }
}

/// Something that happens to the device task.
pub enum TunEvent {
    /// A packet was read from the device.
    Read(Vec<u8>),
    /// Reading from the device failed.
    ReadFailed,
    /// A packet arrived to be written to the device.
    Write(Vec<u8>),
}

/// What the device task does about it.
#[derive(Debug)]
pub enum TunAction {
    /// Report a packet read from the device (it is not forwarded anywhere yet).
    ReportRead { source: Vec<u8>, destination: Vec<u8>, len: usize },
    /// Report an IPv4 packet and write it to the device.
    WritePacket { source: Vec<u8>, destination: Vec<u8>, data: Vec<u8> },
    /// Stop the task.
    Shutdown,
}

/// The action for an event; `None` where the packet cannot be handled: a read
/// packet whose addresses cannot be read, or a packet to write that does not slice
/// as IP or is IPv6. There the device task stops with an error.
pub fn handle_tun_event(event: TunEvent) -> (res: Option<TunAction>)
    ensures
        match event {
            TunEvent::ReadFailed => res matches Some(TunAction::Shutdown),
            TunEvent::Read(packet) => match (spec_dst_address(packet@), sliced_ip_endpoints(packet@)) {
                (Some(d), Some((_, s, _))) => res matches Some(TunAction::ReportRead { source, destination, len })
                    && source@ == s && destination@ == d && len == packet@.len(),
                _ => res is None,
            },
            TunEvent::Write(data) => match sliced_ip_endpoints(data@) {
                Some((false, s, d)) => res matches Some(TunAction::WritePacket { source, destination, data: out })
                    && source@ == s && destination@ == d && out@ == data@,
                _ => res is None,
            },
        },
{
    match event {
        TunEvent::ReadFailed => Some(TunAction::Shutdown),
        TunEvent::Read(packet) => {
            let destination = match tunnel_dst_address(packet.as_slice()) {
                Some(d) => d,
                None => return None,
            };
            let headers = match ip_endpoints(packet.as_slice()) {
                Some(h) => h,
                None => return None,
            };
            Some(TunAction::ReportRead { source: headers.source, destination, len: packet.len() })
        },
        TunEvent::Write(data) => {
            let headers = match ip_endpoints(data.as_slice()) {
                Some(h) => h,
                None => return None,
            };
            if headers.is_ipv6 {
                return None;
            }
            Some(TunAction::WritePacket { source: headers.source, destination: headers.destination, data })
        },
    }
}

} // verus!
