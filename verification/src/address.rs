//! Network addresses in their text form.

use crate::wire::{decimal_text, push_decimal};
use vstd::prelude::*;
use vstd::string::*;

verus! {

broadcast use vstd::array::group_array_axioms;

/// An address of the network in its text form, such as `/ip4/10.0.0.1/tcp/1500/http`.
#[derive(Clone, Debug, PartialEq, Eq)]
pub struct Multiaddr(pub String);

impl View for Multiaddr {
    type V = Seq<char>;

    open spec fn view(&self) -> Seq<char> {
        self.0@
    }
}

/// An IP address.
#[derive(Clone, Copy, Debug, PartialEq, Eq)]
pub enum IpAddress {
    V4([u8; 4]),
    V6([u8; 16]),
}

/// An IP address and a port.
#[derive(Clone, Copy, Debug, PartialEq, Eq)]
pub struct SocketAddress {
    pub ip: IpAddress,
    pub port: u16,
}

/// The text of the TCP address of `port` on the host `ip`, served over HTTP.
pub open spec fn tcp_address_text(ip: Seq<char>, port: nat) -> Seq<char> {
    "/ip4/"@ + ip + "/tcp/"@ + decimal_text(port) + "/http"@
}

/// The text of the UDP address of `port` on the host `ip`.
pub open spec fn udp_address_text(ip: Seq<char>, port: nat) -> Seq<char> {
    "/ip4/"@ + ip + "/udp/"@ + decimal_text(port)
}

/// The dotted text of an IPv4 address.
pub open spec fn ipv4_text(octets: Seq<u8>) -> Seq<char>
    recommends
        octets.len() == 4,
{
    decimal_text(octets[0] as nat) + "."@ + decimal_text(octets[1] as nat) + "."@ + decimal_text(
        octets[2] as nat,
    ) + "."@ + decimal_text(octets[3] as nat)
}

/// The TCP address of `port` on the host `ip`, served over HTTP.
pub fn make_tcp_addr(ip: &str, port: u16) -> (address: Multiaddr)
    ensures
        address@ == tcp_address_text(ip@, port as nat),
{
    let mut text = "/ip4/".to_owned();
    text.append(ip);
    text.append("/tcp/");
    push_decimal(&mut text, port as u64);
    text.append("/http");
    Multiaddr(text)
}

/// The UDP address of `port` on the host `ip`.
pub fn make_udp_addr(ip: &str, port: u16) -> (address: Multiaddr)
    ensures
        address@ == udp_address_text(ip@, port as nat),
{
    let mut text = "/ip4/".to_owned();
    text.append(ip);
    text.append("/udp/");
    push_decimal(&mut text, port as u64);
    Multiaddr(text)
}

/// The TCP address of `port` on every interface of the host, served over HTTP.
pub fn make_tcp_zero_addr(port: u16) -> (address: Multiaddr)
    ensures
        address@ == tcp_address_text("0.0.0.0"@, port as nat),
{
    make_tcp_addr("0.0.0.0", port)
}

/// The dotted text of an IPv4 address.
pub fn ipv4_to_text(octets: &[u8; 4]) -> (text: String)
    ensures
        text@ == ipv4_text(octets@),
{
    let mut text = String::new();
    push_decimal(&mut text, octets[0] as u64);
    text.append(".");
    push_decimal(&mut text, octets[1] as u64);
    text.append(".");
    push_decimal(&mut text, octets[2] as u64);
    text.append(".");
    push_decimal(&mut text, octets[3] as u64);
    assert(text@ =~= ipv4_text(octets@));
    text
}

} // verus!
