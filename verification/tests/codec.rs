use socks5_proxy::endpoint::{decode, encode, Endpoint};
use socks5_proxy::error::{error, ErrorKind};
use socks5_proxy::wire::AddressType;

fn round_trip(endpoint: Endpoint) {
    let bytes = encode(&endpoint);
    assert_eq!(bytes.len(), endpoint.address_type().wire_len());
    assert_eq!(decode(&bytes, endpoint.address_type()), Ok(endpoint));
}

#[test]
fn decode_reads_ipv4_with_big_endian_port() {
    let bytes = [127u8, 0, 0, 1, 0x1F, 0x90];
    let endpoint = decode(&bytes, AddressType::IPv4).unwrap();
    assert_eq!(endpoint, Endpoint::V4 { address: [127, 0, 0, 1], port: 8080 });
    assert_eq!(endpoint.port(), 8080);
    assert_eq!(endpoint.address_type(), AddressType::IPv4);
}

#[test]
fn decode_reads_ipv6_with_big_endian_port() {
    let bytes = [
        0x20u8, 0x01, 0x0d, 0xb8, 0, 0, 0, 0, 0, 0, 0, 0, 0, 0, 0, 1, 0x01, 0xBB,
    ];
    let endpoint = decode(&bytes, AddressType::IPv6).unwrap();
    assert_eq!(
        endpoint,
        Endpoint::V6 {
            address: [0x20, 0x01, 0x0d, 0xb8, 0, 0, 0, 0, 0, 0, 0, 0, 0, 0, 0, 1],
            port: 443,
        }
    );
    assert_eq!(endpoint.port(), 443);
    assert_eq!(endpoint.address_type(), AddressType::IPv6);
}

#[test]
fn encode_writes_address_then_port_high_byte_first() {
    let v4 = Endpoint::V4 { address: [192, 168, 1, 20], port: 0x1234 };
    assert_eq!(encode(&v4), vec![192, 168, 1, 20, 0x12, 0x34]);
    let v6 = Endpoint::V6 {
        address: [1, 2, 3, 4, 5, 6, 7, 8, 9, 10, 11, 12, 13, 14, 15, 16],
        port: 0x00FF,
    };
    assert_eq!(
        encode(&v6),
        vec![1, 2, 3, 4, 5, 6, 7, 8, 9, 10, 11, 12, 13, 14, 15, 16, 0x00, 0xFF]
    );
}

#[test]
fn encode_is_not_little_endian() {
    let endpoint = Endpoint::V4 { address: [10, 0, 0, 1], port: 8080 };
    let bytes = encode(&endpoint);
    assert_eq!(&bytes[4..], &[0x1F, 0x90]);
    assert_ne!(&bytes[4..], &[0x90, 0x1F]);
}

#[test]
fn round_trip_ipv4_edges() {
    round_trip(Endpoint::V4 { address: [0, 0, 0, 0], port: 0 });
    round_trip(Endpoint::V4 { address: [0, 0, 0, 0], port: 65535 });
    round_trip(Endpoint::V4 { address: [255, 255, 255, 255], port: 0 });
    round_trip(Endpoint::V4 { address: [255, 255, 255, 255], port: 65535 });
    round_trip(Endpoint::V4 { address: [127, 0, 0, 1], port: 8080 });
    round_trip(Endpoint::V4 { address: [1, 2, 3, 4], port: 256 });
    round_trip(Endpoint::V4 { address: [1, 2, 3, 4], port: 255 });
}

#[test]
fn round_trip_ipv6_edges() {
    round_trip(Endpoint::V6 { address: [0; 16], port: 0 });
    round_trip(Endpoint::V6 { address: [0; 16], port: 65535 });
    round_trip(Endpoint::V6 { address: [255; 16], port: 0 });
    round_trip(Endpoint::V6 { address: [255; 16], port: 65535 });
    round_trip(Endpoint::V6 {
        address: [0, 0, 0, 0, 0, 0, 0, 0, 0, 0, 0, 0, 0, 0, 0, 1],
        port: 1080,
    });
}

#[test]
fn round_trip_every_port() {
    let mut port: u16 = 0;
    loop {
        let endpoint = Endpoint::V4 { address: [9, 8, 7, 6], port };
        let bytes = encode(&endpoint);
        assert_eq!(bytes[4], (port >> 8) as u8);
        assert_eq!(bytes[5], (port & 0xFF) as u8);
        assert_eq!(decode(&bytes, AddressType::IPv4), Ok(endpoint));
        if port == u16::MAX {
            break;
        }
        port += 1;
    }
}

#[test]
fn round_trip_from_bytes() {
    let bytes: Vec<u8> = (1..=6).collect();
    let endpoint = decode(&bytes, AddressType::IPv4).unwrap();
    assert_eq!(encode(&endpoint), bytes);
    let bytes: Vec<u8> = (101..=118).collect();
    let endpoint = decode(&bytes, AddressType::IPv6).unwrap();
    assert_eq!(encode(&endpoint), bytes);
}

#[test]
fn decode_fails_on_truncated_ipv4() {
    let bytes = [127u8, 0, 0, 1, 0x1F];
    assert_eq!(
        decode(&bytes, AddressType::IPv4),
        Err(error(ErrorKind::TruncatedInput))
    );
    assert_eq!(
        decode(&[], AddressType::IPv4),
        Err(error(ErrorKind::TruncatedInput))
    );
}

#[test]
fn decode_fails_on_truncated_ipv6() {
    let bytes = [0u8; 17];
    assert_eq!(
        decode(&bytes, AddressType::IPv6),
        Err(error(ErrorKind::TruncatedInput))
    );
    // Enough for IPv4, not for IPv6.
    let bytes = [127u8, 0, 0, 1, 0x1F, 0x90];
    assert_eq!(
        decode(&bytes, AddressType::IPv6),
        Err(error(ErrorKind::TruncatedInput))
    );
}

#[test]
fn decode_reads_only_the_front() {
    let bytes = [10u8, 0, 0, 7, 0, 80, 99, 98, 97];
    assert_eq!(
        decode(&bytes, AddressType::IPv4),
        Ok(Endpoint::V4 { address: [10, 0, 0, 7], port: 80 })
    );
}

#[test]
fn address_type_codes() {
    assert_eq!(AddressType::IPv4.code(), 1);
    assert_eq!(AddressType::IPv6.code(), 4);
    assert_eq!(AddressType::from_code(1), Some(AddressType::IPv4));
    assert_eq!(AddressType::from_code(4), Some(AddressType::IPv6));
    assert_eq!(AddressType::from_code(3), None);
    assert_eq!(AddressType::from_code(0), None);
    assert_eq!(AddressType::from_code(255), None);
    assert_eq!(AddressType::IPv4.wire_len(), 6);
    assert_eq!(AddressType::IPv6.wire_len(), 18);
}
