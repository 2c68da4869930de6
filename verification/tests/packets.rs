use orbita::net::arp::{ArpOp, ArpPacket};
use orbita::net::dhcp::DhcpDiscover;
use orbita::net::dns::DnsQuery;
use orbita::net::ethernet::{EthernetFrame, MacAddress};
use orbita::net::icmp::{IcmpPacket, IcmpType};
use orbita::net::ipv4::{Ipv4Addr, Ipv4Packet, Route, RoutingTable};
use orbita::net::tcp::TcpPacket;
use orbita::net::udp::UdpPacket;

#[test]
fn ethernet_parse_and_serialize() {
    let raw: Vec<u8> = vec![
        1, 2, 3, 4, 5, 6, // destination
        7, 8, 9, 10, 11, 12, // source
        0x08, 0x00, // ethertype
        0xDE, 0xAD, // payload
    ];
    let frame = EthernetFrame::from_bytes(&raw).expect("long enough");
    assert_eq!(frame.destination, MacAddress([1, 2, 3, 4, 5, 6]));
    assert_eq!(frame.source, MacAddress([7, 8, 9, 10, 11, 12]));
    assert_eq!(frame.ethertype, 0x0800);
    assert_eq!(frame.payload, &[0xDE, 0xAD]);

    let mut out = Vec::new();
    frame.serialize(&mut out);
    assert_eq!(out, raw);

    assert!(EthernetFrame::from_bytes(&raw[..13]).is_none());
    assert_eq!(MacAddress::broadcast(), MacAddress([0xFF; 6]));
}

#[test]
fn arp_wire_format() {
    let packet = ArpPacket {
        hw_type: 1,
        proto_type: 0x0800,
        hw_len: 6,
        proto_len: 4,
        op: ArpOp::Request,
        sender_mac: MacAddress([1, 2, 3, 4, 5, 6]),
        sender_ip: Ipv4Addr([10, 0, 0, 1]),
        target_mac: MacAddress([0; 6]),
        target_ip: Ipv4Addr([10, 0, 0, 2]),
    };
    let mut out = Vec::new();
    packet.serialize(&mut out);
    assert_eq!(
        out,
        vec![
            0, 1, 8, 0, 6, 4, 0, 1, // header with op = request
            1, 2, 3, 4, 5, 6, 10, 0, 0, 1, // sender
            0, 0, 0, 0, 0, 0, 10, 0, 0, 2, // target
        ]
    );
    assert_eq!(ArpOp::Reply.code(), 2);
}

#[test]
fn icmp_wire_format() {
    let packet = IcmpPacket {
        icmp_type: IcmpType::EchoRequest,
        code: 0,
        checksum: 0x1234,
        payload: &[9, 9],
    };
    let mut out = Vec::new();
    packet.serialize(&mut out);
    assert_eq!(out, vec![8, 0, 0x12, 0x34, 9, 9]);
    assert_eq!(IcmpType::EchoReply.code(), 0);
}

#[test]
fn udp_wire_format() {
    let packet = UdpPacket { source_port: 53, dest_port: 1024, payload: &[1, 2, 3] };
    let mut out = Vec::new();
    packet.serialize(&mut out);
    assert_eq!(out, vec![0, 53, 4, 0, 0, 11, 0, 0, 1, 2, 3]);
}

#[test]
fn tcp_wire_format() {
    let packet = TcpPacket {
        source_port: 0x1234,
        dest_port: 80,
        seq_number: 0x01020304,
        ack_number: 0,
        flags: 0x0102, // only the low byte goes out
        window_size: 0xFFFF,
        payload: &[0xAA],
    };
    let mut out = Vec::new();
    packet.serialize(&mut out);
    assert_eq!(
        out,
        vec![
            0x12, 0x34, 0, 80, // ports
            1, 2, 3, 4, 0, 0, 0, 0, // seq, ack
            0x50, 0x02, 0xFF, 0xFF, // offset, flags, window
            0, 0, 0, 0, // checksum, urgent
            0xAA,
        ]
    );
}

#[test]
fn ipv4_wire_format() {
    let packet = Ipv4Packet {
        source: Ipv4Addr([192, 168, 0, 1]),
        destination: Ipv4Addr([192, 168, 0, 2]),
        protocol: 17,
        payload: &[5, 6],
        identification: 0x0100,
        flags_fragment: 0x4000,
        ttl: 64,
    };
    let mut out = Vec::new();
    packet.serialize(&mut out);
    assert_eq!(
        out,
        vec![
            0x45, 64, // version/IHL, then the TTL-carrying TOS byte
            0, 22, // total length: 20 + 2
            1, 0, 0x40, 0, // identification, flags/fragment
            64, 17, 0, 0, // ttl, protocol, checksum
            192, 168, 0, 1, 192, 168, 0, 2, // addresses
            5, 6,
        ]
    );
}

#[test]
fn routing_table_keeps_routes() {
    let mut table = RoutingTable::new();
    assert_eq!(table.routes.len(), 0);
    table.add_route(Route {
        network: Ipv4Addr([10, 0, 0, 0]),
        netmask: Ipv4Addr([255, 0, 0, 0]),
        gateway: None,
    });
    table.add_route(Route {
        network: Ipv4Addr([0, 0, 0, 0]),
        netmask: Ipv4Addr([0, 0, 0, 0]),
        gateway: Some(Ipv4Addr([10, 0, 0, 1])),
    });
    assert_eq!(table.routes.len(), 2);
    assert_eq!(table.routes[1].gateway, Some(Ipv4Addr([10, 0, 0, 1])));
}

#[test]
fn dhcp_discover_wire_format() {
    let mac = [0xDE, 0xAD, 0xBE, 0xEF, 0x00, 0x01];
    let discover = DhcpDiscover { transaction_id: 0x01020304, client_mac: &mac };
    let mut out = Vec::new();
    discover.serialize(&mut out);
    assert_eq!(out.len(), 4 + 4 + 4 + 16 + 6 + 10 + 192 + 4);
    assert_eq!(&out[..8], &[1, 1, 6, 0, 1, 2, 3, 4]);
    assert_eq!(&out[8..28], &[0u8; 20][..]);
    assert_eq!(&out[28..34], &mac[..]);
    assert!(out[34..236].iter().all(|b| *b == 0));
    assert_eq!(&out[236..], &[99, 130, 83, 99]);
}

#[test]
fn dns_query_wire_format() {
    let query = DnsQuery { name: String::from("ab.c"), qtype: 1, qclass: 1 };
    let mut out = Vec::new();
    query.serialize(&mut out);
    assert_eq!(out, vec![2, b'a', b'b', 1, b'c', 0, 0, 1, 0, 1]);
}

#[test]
fn dns_query_single_and_empty_labels() {
    let query = DnsQuery { name: String::from("localhost"), qtype: 28, qclass: 1 };
    let mut out = Vec::new();
    query.serialize(&mut out);
    let mut expected = vec![9u8];
    expected.extend_from_slice(b"localhost");
    expected.extend_from_slice(&[0, 0, 28, 0, 1]);
    assert_eq!(out, expected);

    // a trailing separator yields an explicit empty label
    let query = DnsQuery { name: String::from("a."), qtype: 1, qclass: 1 };
    let mut out = Vec::new();
    query.serialize(&mut out);
    assert_eq!(out, vec![1, b'a', 0, 0, 0, 1, 0, 1]);
}
