//! The address codec: an endpoint to and from its bytes on the wire.

use vstd::prelude::*;
use crate::error::{error, spec_error, Error, ErrorKind};
use crate::wire::AddressType;

verus! {

/// An IP address with a port: where a client wants to go, or where the proxy
/// went out from.
#[derive(Clone, Copy, Debug, PartialEq, Eq)]
#[allow(inconsistent_fields)]
pub enum Endpoint {
    V4 { address: [u8; 4], port: u16 },
    V6 { address: [u8; 16], port: u16 },
}

impl Endpoint {
    /// The kind of address that this endpoint holds.
    pub open spec fn spec_address_type(&self) -> AddressType {
        match *self {
            Endpoint::V4 { .. } => AddressType::IPv4,
            Endpoint::V6 { .. } => AddressType::IPv6,
        }
    }

    /// The kind of address that this endpoint holds.
    #[verifier::when_used_as_spec(spec_address_type)]
    pub fn address_type(&self) -> (kind: AddressType)
        ensures
            kind == self.spec_address_type(),
    {
        match self {
            Endpoint::V4 { .. } => AddressType::IPv4,
            Endpoint::V6 { .. } => AddressType::IPv6,
        }
    }

    /// The port of this endpoint.
    pub open spec fn spec_port(&self) -> u16 {
        match *self {
            Endpoint::V4 { port, .. } => port,
            Endpoint::V6 { port, .. } => port,
        }
    }

    /// The port of this endpoint.
    #[verifier::when_used_as_spec(spec_port)]
    pub fn port(&self) -> (port: u16)
        ensures
            port == self.spec_port(),
    {
        match self {
            Endpoint::V4 { port, .. } => *port,
            Endpoint::V6 { port, .. } => *port,
        }
    }
}

/// The port that two bytes stand for, the high byte first.
pub open spec fn spec_port_from_bytes(high: u8, low: u8) -> u16 {
    (high * 256 + low) as u16
}

/// The two bytes of a port, the high byte first.
pub open spec fn spec_port_to_bytes(port: u16) -> Seq<u8> {
    seq![(port / 256) as u8, (port % 256) as u8]
}

/// The bytes of an endpoint: its address, then its port with the high byte
/// first.
pub open spec fn spec_encode(endpoint: Endpoint) -> Seq<u8> {
    match endpoint {
        Endpoint::V4 { address, port } => address@ + spec_port_to_bytes(port),
        Endpoint::V6 { address, port } => address@ + spec_port_to_bytes(port),
    }
}

/// The endpoint that the front of `bytes` stands for, or `TruncatedInput`
/// where `bytes` is shorter than an address of that kind with its port.
pub open spec fn spec_decode(bytes: Seq<u8>, address_type: AddressType) -> Result<Endpoint, Error> {
    if bytes.len() < address_type.spec_wire_len() {
        Err(spec_error(ErrorKind::TruncatedInput))
    } else {
        match address_type {
            AddressType::IPv4 => Ok(
                Endpoint::V4 {
                    address: [bytes[0], bytes[1], bytes[2], bytes[3]],
                    port: spec_port_from_bytes(bytes[4], bytes[5]),
                },
            ),
            AddressType::IPv6 => Ok(
                Endpoint::V6 {
                    address: [
                        bytes[0],
                        bytes[1],
                        bytes[2],
                        bytes[3],
                        bytes[4],
                        bytes[5],
                        bytes[6],
                        bytes[7],
                        bytes[8],
                        bytes[9],
                        bytes[10],
                        bytes[11],
                        bytes[12],
                        bytes[13],
                        bytes[14],
                        bytes[15],
                    ],
                    port: spec_port_from_bytes(bytes[16], bytes[17]),
                },
            ),
        }
    }
}

/// Reads an endpoint from the front of `bytes`: 4 bytes of address and 2 of
/// port for IPv4, 16 and 2 for IPv6, the port with its high byte first. Bytes
/// after those are not looked at. Fails with `TruncatedInput` where `bytes`
/// ends before that.
pub fn decode(bytes: &[u8], address_type: AddressType) -> (result: Result<Endpoint, Error>)
    ensures
        result == spec_decode(bytes@, address_type),
{
    if bytes.len() < address_type.wire_len() {
        return Err(error(ErrorKind::TruncatedInput));
    }
    match address_type {
        AddressType::IPv4 => {
            let address: [u8; 4] = [bytes[0], bytes[1], bytes[2], bytes[3]];
            let port: u16 = port_from_bytes(bytes[4], bytes[5]);
            Ok(Endpoint::V4 { address, port })
        },
        AddressType::IPv6 => {
            let address: [u8; 16] = [
                bytes[0],
                bytes[1],
                bytes[2],
                bytes[3],
                bytes[4],
                bytes[5],
                bytes[6],
                bytes[7],
                bytes[8],
                bytes[9],
                bytes[10],
                bytes[11],
                bytes[12],
                bytes[13],
                bytes[14],
                bytes[15],
            ];
            let port: u16 = port_from_bytes(bytes[16], bytes[17]);
            Ok(Endpoint::V6 { address, port })
        },
    }
}

/// The port that two bytes stand for, the high byte first.
fn port_from_bytes(high: u8, low: u8) -> (port: u16)
    ensures
        port == spec_port_from_bytes(high, low),
{
    (high as u16) * 256 + (low as u16)
}

/// The two bytes of a port, the high byte first.
fn port_to_bytes(port: u16) -> (bytes: [u8; 2])
    ensures
        bytes@ == spec_port_to_bytes(port),
{
    let bytes: [u8; 2] = [(port / 256) as u8, (port % 256) as u8];
    assert(bytes@ =~= spec_port_to_bytes(port));
    bytes
}

/// Puts a copy of `bytes` at the end of `out`.
pub(crate) fn append(out: &mut Vec<u8>, bytes: &[u8])
    ensures
        final(out)@ == old(out)@ + bytes@,
{
    let mut i: usize = 0;
    while i < bytes.len()
        invariant
            i <= bytes@.len(),
            out@ == old(out)@ + bytes@.subrange(0, i as int),
        decreases bytes@.len() - i,
    {
        out.push(bytes[i]);
        i += 1;
    }
    assert(bytes@.subrange(0, i as int) =~= bytes@);
}

/// Writes an endpoint as the bytes that `decode` reads: the address, then the
/// port with its high byte first; 6 bytes for IPv4, 18 for IPv6.
pub fn encode(endpoint: &Endpoint) -> (bytes: Vec<u8>)
    ensures
        bytes@ == spec_encode(*endpoint),
        bytes@.len() == endpoint.spec_address_type().spec_wire_len(),
{
    let mut bytes: Vec<u8> = Vec::new();
    match endpoint {
        Endpoint::V4 { address, port } => {
            append(&mut bytes, address.as_slice());
            append(&mut bytes, port_to_bytes(*port).as_slice());
        },
        Endpoint::V6 { address, port } => {
            append(&mut bytes, address.as_slice());
            append(&mut bytes, port_to_bytes(*port).as_slice());
        },
    }
    bytes
}

/// The two bytes of a port make that port again.
pub proof fn lemma_port_from_its_bytes(port: u16)
    ensures
        spec_port_to_bytes(port).len() == 2,
        spec_port_from_bytes(spec_port_to_bytes(port)[0], spec_port_to_bytes(port)[1]) == port,
{
}

/// The port that two bytes make has those two bytes.
pub proof fn lemma_bytes_from_their_port(high: u8, low: u8)
    ensures
        spec_port_to_bytes(spec_port_from_bytes(high, low)) == seq![high, low],
{
    assert(spec_port_to_bytes(spec_port_from_bytes(high, low)) =~= seq![high, low]);
}

/// Decoding what `encode` wrote gives the same endpoint back, whatever its
/// address and port, and whatever bytes follow it.
pub proof fn lemma_decode_encode(endpoint: Endpoint, rest: Seq<u8>)
    ensures
        spec_decode(spec_encode(endpoint) + rest, endpoint.spec_address_type()) == Ok::<
            Endpoint,
            Error,
        >(endpoint),
{
    let bytes = spec_encode(endpoint) + rest;
    match endpoint {
        Endpoint::V4 { address, port } => {
            lemma_port_from_its_bytes(port);
            let read: [u8; 4] = [bytes[0], bytes[1], bytes[2], bytes[3]];
            assert(read =~= address);
        },
        Endpoint::V6 { address, port } => {
            lemma_port_from_its_bytes(port);
            let read: [u8; 16] = [
                bytes[0],
                bytes[1],
                bytes[2],
                bytes[3],
                bytes[4],
                bytes[5],
                bytes[6],
                bytes[7],
                bytes[8],
                bytes[9],
                bytes[10],
                bytes[11],
                bytes[12],
                bytes[13],
                bytes[14],
                bytes[15],
            ];
            assert(read =~= address);
        },
    }
}

/// Encoding what `decode` read gives back the bytes that it read: the front
/// of the input, as long as the kind of address says.
pub proof fn lemma_encode_decode(bytes: Seq<u8>, address_type: AddressType)
    requires
        bytes.len() >= address_type.spec_wire_len(),
    ensures
        spec_decode(bytes, address_type) is Ok,
        spec_decode(bytes, address_type).unwrap().spec_address_type() == address_type,
        spec_encode(spec_decode(bytes, address_type).unwrap()) == bytes.subrange(
            0,
            address_type.spec_wire_len() as int,
        ),
{
    let endpoint = spec_decode(bytes, address_type).unwrap();
    match address_type {
        AddressType::IPv4 => {
            lemma_bytes_from_their_port(bytes[4], bytes[5]);
        },
        AddressType::IPv6 => {
            lemma_bytes_from_their_port(bytes[16], bytes[17]);
        },
    }
    assert(spec_encode(endpoint) =~= bytes.subrange(0, address_type.spec_wire_len() as int));
}

} // verus!
