//! lwIP sockets: the native codes of address families, socket types and
//! protocols, and the reading of native results and socket addresses.

use vstd::prelude::*;

verus! {

/// An address family.
#[derive(Debug, Clone, Copy, PartialEq, Eq, Structural)]
pub enum AddressFamily {
    Ipv4,
    Ipv6,
}

/// Native family: IPv4.
pub const AF_INET: i32 = 2;
/// Native family: IPv6.
pub const AF_INET6: i32 = 10;

impl AddressFamily {
    /// The native code of the family.
    pub fn code(self) -> (c: i32)
        ensures
            c == match self {
                AddressFamily::Ipv4 => AF_INET,
                AddressFamily::Ipv6 => AF_INET6,
            },
    {
        match self {
            AddressFamily::Ipv4 => AF_INET,
            AddressFamily::Ipv6 => AF_INET6,
        }
    }
}

/// A socket type.
#[derive(Debug, Clone, Copy, PartialEq, Eq, Structural)]
pub enum SocketType {
    Stream,
    Dgram,
    Raw,
}

impl SocketType {
    /// The native code of the type: 1, 2 and 3 in the order above.
    pub fn code(self) -> (c: i32)
        ensures
            c == match self {
                SocketType::Stream => 1i32,
                SocketType::Dgram => 2i32,
                SocketType::Raw => 3i32,
            },
    {
        match self {
            SocketType::Stream => 1,
            SocketType::Dgram => 2,
            SocketType::Raw => 3,
        }
    }
}

/// A transport protocol.
#[derive(Debug, Clone, Copy, PartialEq, Eq, Structural)]
pub enum Protocol {
    Ip,
    Icmp,
    Tcp,
    Udp,
    Ipv6,
    Icmpv6,
    UdpLite,
    Raw,
}

impl Protocol {
    /// The native protocol number.
    pub fn code(self) -> (c: i32)
        ensures
            c == match self {
                Protocol::Ip => 0i32,
                Protocol::Icmp => 1i32,
                Protocol::Tcp => 6i32,
                Protocol::Udp => 17i32,
                Protocol::Ipv6 => 41i32,
                Protocol::Icmpv6 => 58i32,
                Protocol::UdpLite => 136i32,
                Protocol::Raw => 255i32,
            },
    {
        match self {
            Protocol::Ip => 0,
            Protocol::Icmp => 1,
            Protocol::Tcp => 6,
            Protocol::Udp => 17,
            Protocol::Ipv6 => 41,
            Protocol::Icmpv6 => 58,
            Protocol::UdpLite => 136,
            Protocol::Raw => 255,
        }
    }
}

/// lwIP error: illegal value.
pub const ERR_VAL: i32 = -6;

/// The outcome of a native socket call that returned `v`: a negative value
/// is the error, anything else the result.
pub fn cvt(v: i32) -> (r: Result<i32, i32>)
    ensures
        v < 0 ==> r == Err::<i32, i32>(v),
        v >= 0 ==> r == Ok::<i32, i32>(v),
{
    if v < 0 { Err(v) } else { Ok(v) }
}

/// The kind of a received peer address.
#[derive(Debug, Clone, Copy, PartialEq, Eq, Structural)]
pub enum PeerAddress {
    V4,
    V6,
}

/// Size of an IPv4 socket address.
pub const SOCKADDR_IN_LEN: usize = 16;
/// Size of an IPv6 socket address.
pub const SOCKADDR_IN6_LEN: usize = 28;

/// The kind of the peer address in a received address storage of family
/// `family` and length `len`; `ERR_VAL` for another family. The length must
/// hold the address (the socket layer guarantees it).
pub fn peer_address(family: u32, len: usize) -> (r: Result<PeerAddress, i32>)
    requires
        family == AF_INET ==> len >= SOCKADDR_IN_LEN,
        family == AF_INET6 ==> len >= SOCKADDR_IN6_LEN,
    ensures
        family == AF_INET ==> r == Ok::<PeerAddress, i32>(PeerAddress::V4),
        family == AF_INET6 ==> r == Ok::<PeerAddress, i32>(PeerAddress::V6),
        family != AF_INET && family != AF_INET6 ==> r == Err::<PeerAddress, i32>(ERR_VAL),
{
    if family == 2 {
        Ok(PeerAddress::V4)
    } else if family == 10 {
        Ok(PeerAddress::V6)
    } else {
        Err(ERR_VAL)
    }
}

/// The number of bytes a send of a `buf_len`-byte buffer hands to the
/// native call: all of them, capped at what a native size holds.
pub fn send_len(buf_len: usize, size_max: usize) -> (n: usize)
    ensures
        n == if buf_len < size_max { buf_len } else { size_max },
{
    if buf_len < size_max { buf_len } else { size_max }
}

} // verus!
