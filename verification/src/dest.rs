//! Destination recovery: the logical target of a redirected connection and
//! the decoding of the kernel's redirection record.

use vstd::prelude::*;

verus! {

/// An IPv4 socket address: four address octets and a port number.
#[derive(Clone, Copy, PartialEq, Eq, Debug)]
pub struct InetAddr {
    pub octets: [u8; 4],
    pub port: u16,
}

/// The host part of a destination: either the recovered IPv4 address or a
/// hostname discovered during sniffing.
#[derive(Clone, Debug)]
pub enum Host {
    Ip([u8; 4]),
    Name(String),
}

/// The logical target of the original connection. The port is fixed at
/// recovery time; only the host may be rewritten, and only by the sniffer.
#[derive(Clone, Debug)]
pub struct Destination {
    pub host: Host,
    pub port: u16,
}

/// What the kernel reports for a redirected socket: an IPv4 record with the
/// address octets and the port bytes in network order, or an IPv6 record,
/// which destination recovery does not support.
#[derive(Debug)]
pub enum RedirectReport {
    V4 { octets: [u8; 4], port_hi: u8, port_lo: u8 },
    V6,
}

/// Why destination recovery failed.
#[derive(Debug, PartialEq, Eq, Structural)]
pub enum RecoverError {
    /// The redirection record was for an IPv6 destination.
    Ipv6Unsupported,
    /// The kernel query itself failed; holds the system error number.
    Syscall(i32),
}

impl Destination {
    /// The destination a freshly recovered address stands for.
    pub fn from_addr(a: InetAddr) -> (r: Destination)
        ensures
            r.host == Host::Ip(a.octets),
            r.port == a.port,
    {
        Destination { host: Host::Ip(a.octets), port: a.port }
    }

    /// Rewrite the host to a discovered name. The port never changes.
    pub fn rewrite_host(self, name: String) -> (r: Destination)
        ensures
            r.host == Host::Name(name),
            r.port == self.port,
    {
        Destination { host: Host::Name(name), port: self.port }
    }
}

/// Decode a redirection record into the address it names.
///
/// An IPv4 record yields the address with its port preserved: the port
/// number is exactly the network-order port bytes read big-endian. An IPv6
/// record fails deterministically: IPv6 recovery is not supported.
pub fn recover_dest(report: RedirectReport) -> (r: Result<InetAddr, RecoverError>)
    ensures
        (report matches RedirectReport::V4 { octets, port_hi, port_lo } ==> r == Ok::<
            InetAddr,
            RecoverError,
        >(InetAddr { octets, port: (port_hi * 256 + port_lo) as u16 })),
        report is V6 ==> r == Err::<InetAddr, RecoverError>(RecoverError::Ipv6Unsupported),
{
    match report {
        RedirectReport::V4 { octets, port_hi, port_lo } => Ok(
            InetAddr { octets, port: (port_hi as u16) * 256 + (port_lo as u16) },
        ),
        RedirectReport::V6 => Err(RecoverError::Ipv6Unsupported),
    }
}

} // verus!
