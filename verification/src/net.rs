//! Addresses, ports and the fixed payloads of the session.

use vstd::prelude::*;

verus! {

/// Port of the TCP probe.
pub const HTTP_PORT: u16 = 80;

/// Port of the UDP query, on both ends.
pub const DNS_PORT: u16 = 53;

/// Size of the buffer that each of the two receive calls fills once.
pub const RECEIVE_CAPACITY: usize = 1024;

/// An IP address, as the resolver returns it.
#[derive(Clone, Copy, Debug, PartialEq, Eq)]
pub enum IpAddress {
    V4 { octets: [u8; 4] },
    V6 { segments: [u16; 8] },
}

/// An address and a port.
#[derive(Clone, Copy, Debug, PartialEq, Eq)]
pub struct SocketAddress {
    pub ip: IpAddress,
    pub port: u16,
}

impl IpAddress {
    /// The IPv4 address `a.b.c.d`.
    pub open spec fn v4_of(a: u8, b: u8, c: u8, d: u8) -> IpAddress {
        IpAddress::V4 { octets: [a, b, c, d] }
    }

    /// The IPv4 address `a.b.c.d`.
    pub fn v4(a: u8, b: u8, c: u8, d: u8) -> (ip: IpAddress)
        ensures
            ip == IpAddress::v4_of(a, b, c, d),
    {
        IpAddress::V4 { octets: [a, b, c, d] }
    }
}

/// The local end of the UDP socket: any address, the DNS port.
pub open spec fn wildcard() -> SocketAddress {
    SocketAddress { ip: IpAddress::v4_of(0, 0, 0, 0), port: DNS_PORT }
}

/// The remote end of the UDP query: the public resolver, the DNS port.
pub open spec fn resolver() -> SocketAddress {
    SocketAddress { ip: IpAddress::v4_of(8, 8, 8, 8), port: DNS_PORT }
}

/// The remote end of the TCP probe: the resolved address, the HTTP port.
pub open spec fn probe(ip: IpAddress) -> SocketAddress {
    SocketAddress { ip, port: HTTP_PORT }
}

/// The local end of the UDP socket: `0.0.0.0:53`.
pub fn wildcard_endpoint() -> (addr: SocketAddress)
    ensures
        addr == wildcard(),
{
    SocketAddress { ip: IpAddress::v4(0, 0, 0, 0), port: DNS_PORT }
}

/// The remote end of the UDP query: `8.8.8.8:53`.
pub fn resolver_endpoint() -> (addr: SocketAddress)
    ensures
        addr == resolver(),
{
    SocketAddress { ip: IpAddress::v4(8, 8, 8, 8), port: DNS_PORT }
}

/// The remote end of the TCP probe: the resolved address, port 80.
pub fn probe_endpoint(ip: IpAddress) -> (addr: SocketAddress)
    ensures
        addr == probe(ip),
{
    SocketAddress { ip, port: HTTP_PORT }
}

/// The name that the session resolves.
pub open spec fn probe_hostname() -> Seq<char> {
    "google.com"@
}

/// The name that the session resolves.
pub fn hostname() -> (name: &'static str)
    ensures
        name@ == probe_hostname(),
{
    "google.com"
}

/// The request of the TCP probe: the ASCII bytes of
/// `GET / HTTP/1.0\nHost: google.com\r\n\r\n`.
pub open spec fn http_request_bytes() -> Seq<u8> {
    seq![
        0x47u8, 0x45, 0x54, 0x20, 0x2F, 0x20, 0x48, 0x54, 0x54, 0x50, 0x2F, 0x31, 0x2E, 0x30, 0x0A,
        0x48, 0x6F, 0x73, 0x74, 0x3A, 0x20, 0x67, 0x6F, 0x6F, 0x67, 0x6C, 0x65, 0x2E, 0x63, 0x6F,
        0x6D, 0x0D, 0x0A, 0x0D, 0x0A,
    ]
}

/// The raw query of the UDP round trip: a DNS question for the A record of
/// `www.northeastern.edu`, with identifier `0xdb42` and recursion desired.
pub open spec fn dns_query_bytes() -> Seq<u8> {
    seq![
        0xdbu8, 0x42, 0x01, 0x00, 0x00, 0x01, 0x00, 0x00, 0x00, 0x00, 0x00, 0x00, 0x03, 0x77, 0x77,
        0x77, 0x0C, 0x6E, 0x6F, 0x72, 0x74, 0x68, 0x65, 0x61, 0x73, 0x74, 0x65, 0x72, 0x6E, 0x03,
        0x65, 0x64, 0x75, 0x00, 0x00, 0x01, 0x00, 0x01,
    ]
}

/// The request that the TCP probe writes.
pub fn http_request() -> (payload: Vec<u8>)
    ensures
        payload@ == http_request_bytes(),
{
    let payload: Vec<u8> = vec![
        0x47u8, 0x45, 0x54, 0x20, 0x2F, 0x20, 0x48, 0x54, 0x54, 0x50, 0x2F, 0x31, 0x2E, 0x30, 0x0A,
        0x48, 0x6F, 0x73, 0x74, 0x3A, 0x20, 0x67, 0x6F, 0x6F, 0x67, 0x6C, 0x65, 0x2E, 0x63, 0x6F,
        0x6D, 0x0D, 0x0A, 0x0D, 0x0A,
    ];
    assert(payload@ =~= http_request_bytes());
    payload
}

/// The query that the UDP socket sends.
pub fn dns_query() -> (payload: Vec<u8>)
    ensures
        payload@ == dns_query_bytes(),
{
    let payload: Vec<u8> = vec![
        0xdbu8, 0x42, 0x01, 0x00, 0x00, 0x01, 0x00, 0x00, 0x00, 0x00, 0x00, 0x00, 0x03, 0x77, 0x77,
        0x77, 0x0C, 0x6E, 0x6F, 0x72, 0x74, 0x68, 0x65, 0x61, 0x73, 0x74, 0x65, 0x72, 0x6E, 0x03,
        0x65, 0x64, 0x75, 0x00, 0x00, 0x01, 0x00, 0x01,
    ];
    assert(payload@ =~= dns_query_bytes());
    payload
}

} // verus!
