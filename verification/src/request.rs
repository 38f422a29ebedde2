//! What is asked of the kernel and what it answers, as plain values.
//!
//! The kernel's per-interface record pairs a name field with a payload whose
//! meaning depends on the request. A [`Request`] says what goes into that
//! record; a [`Record`] holds what the kernel left in it.

use vstd::prelude::*;
use crate::sys;

verus! {

/// The address family of IPv4 addresses, netmasks and broadcast addresses.
pub const INET: u16 = 2;

/// The family under which a hardware address is written: Ethernet.
pub const ETHER: u16 = 1;

/// The requests about a single interface.
#[derive(Clone, Copy, Debug, PartialEq, Eq)]
pub enum Command {
    /// Resolve the name to the interface's index.
    GetIndex,
    /// Read the administrative flags.
    GetFlags,
    /// Write the administrative flags.
    SetFlags,
    /// Read the IPv4 address.
    GetAddress,
    /// Write the IPv4 address.
    SetAddress,
    /// Read the netmask.
    GetNetmask,
    /// Write the netmask.
    SetNetmask,
    /// Read the broadcast address.
    GetBroadcast,
    /// Read the hardware address.
    GetHardware,
    /// Write the hardware address.
    SetHardware,
}

impl Command {
    /// The number under which the kernel knows the request.
    pub open spec fn number(self) -> u64 {
        match self {
            Command::GetFlags => 0x8913,
            Command::SetFlags => 0x8914,
            Command::GetAddress => 0x8915,
            Command::SetAddress => 0x8916,
            Command::GetBroadcast => 0x8919,
            Command::GetNetmask => 0x891b,
            Command::SetNetmask => 0x891c,
            Command::SetHardware => 0x8924,
            Command::GetHardware => 0x8927,
            Command::GetIndex => 0x8933,
        }
    }

    /// The number under which the kernel knows the request.
    pub fn code(self) -> (code: u64)
        ensures
            code == self.number(),
    {
        match self {
            Command::GetIndex => sys::siocgifindex(),
            Command::GetFlags => sys::siocgifflags(),
            Command::SetFlags => sys::siocsifflags(),
            Command::GetAddress => sys::siocgifaddr(),
            Command::SetAddress => sys::siocsifaddr(),
            Command::GetNetmask => sys::siocgifnetmask(),
            Command::SetNetmask => sys::siocsifnetmask(),
            Command::GetBroadcast => sys::siocgifbrdaddr(),
            Command::GetHardware => sys::siocgifhwaddr(),
            Command::SetHardware => sys::siocsifhwaddr(),
        }
    }
}

/// A socket address as the kernel's record carries it: a family and 14 bytes
/// whose meaning the family decides.
///
/// For the IPv4 family the bytes are a port (two bytes, unused here) followed
/// by the four octets of the address. For a hardware address the first six
/// bytes are the address.
#[derive(Clone, Copy, Debug, PartialEq, Eq)]
pub struct SocketAddress {
    pub family: u16,
    pub data: [u8; 14],
}

impl SocketAddress {
    /// The four octets that an IPv4-family address holds.
    pub open spec fn inet_octets(self) -> [u8; 4] {
        [self.data@[2], self.data@[3], self.data@[4], self.data@[5]]
    }

    /// The six octets that a hardware address holds.
    pub open spec fn link_octets(self) -> [u8; 6] {
        [self.data@[0], self.data@[1], self.data@[2], self.data@[3], self.data@[4], self.data@[5]]
    }

    /// The IPv4-family address of the given octets, with port zero.
    pub open spec fn of_inet(octets: [u8; 4]) -> SocketAddress {
        SocketAddress {
            family: INET,
            data: [0, 0, octets@[0], octets@[1], octets@[2], octets@[3], 0, 0, 0, 0, 0, 0, 0, 0],
        }
    }

    /// The Ethernet hardware address of the given octets.
    pub open spec fn of_link(octets: [u8; 6]) -> SocketAddress {
        SocketAddress {
            family: ETHER,
            data: [
                octets@[0],
                octets@[1],
                octets@[2],
                octets@[3],
                octets@[4],
                octets@[5],
                0,
                0,
                0,
                0,
                0,
                0,
                0,
                0,
            ],
        }
    }

    /// Builds the IPv4-family address of the given octets.
    pub fn inet(octets: [u8; 4]) -> (address: SocketAddress)
        ensures
            address == Self::of_inet(octets),
    {
        let data = [0, 0, octets[0], octets[1], octets[2], octets[3], 0, 0, 0, 0, 0, 0, 0, 0];
        assert(data =~= Self::of_inet(octets).data);
        SocketAddress { family: sys::af_inet(), data }
    }

    /// Builds the Ethernet hardware address of the given octets.
    pub fn link(octets: [u8; 6]) -> (address: SocketAddress)
        ensures
            address == Self::of_link(octets),
    {
        let data = [
            octets[0],
            octets[1],
            octets[2],
            octets[3],
            octets[4],
            octets[5],
            0,
            0,
            0,
            0,
            0,
            0,
            0,
            0,
        ];
        assert(data =~= Self::of_link(octets).data);
        SocketAddress { family: sys::arphrd_ether(), data }
    }

    /// Reads the octets at the place where the IPv4 family keeps them.
    pub fn ipv4(&self) -> (octets: [u8; 4])
        ensures
            octets == self.inet_octets(),
    {
        let octets = [self.data[2], self.data[3], self.data[4], self.data[5]];
        assert(octets =~= self.inet_octets());
        octets
    }

    /// Reads the octets at the place where a hardware address keeps them.
    pub fn physical(&self) -> (octets: [u8; 6])
        ensures
            octets == self.link_octets(),
    {
        let octets = [
            self.data[0],
            self.data[1],
            self.data[2],
            self.data[3],
            self.data[4],
            self.data[5],
        ];
        assert(octets =~= self.link_octets());
        octets
    }
}

/// An address that is written is the address that is read back.
pub proof fn lemma_address_symmetry(inet: [u8; 4], link: [u8; 6])
    ensures
        SocketAddress::of_inet(inet).inet_octets() == inet,
        SocketAddress::of_inet(inet).family == INET,
        SocketAddress::of_link(link).link_octets() == link,
{
    assert(SocketAddress::of_inet(inet).inet_octets() =~= inet);
    assert(SocketAddress::of_link(link).link_octets() =~= link);
}

/// What a request puts into the payload of the kernel's record.
#[derive(Clone, Copy, Debug, PartialEq, Eq)]
pub enum Payload {
    /// Nothing: the payload is all zeros, as for every query.
    Empty,
    /// Administrative flags.
    Flags(u16),
    /// A socket address.
    Address(SocketAddress),
}

/// A request to the kernel.
#[derive(Clone, Copy, Debug, PartialEq, Eq)]
pub enum Request {
    /// A request about the interface called `name`, carried in one
    /// per-interface record.
    Interface { command: Command, name: [u8; 16], payload: Payload },
    /// A request for the size of the records of all interfaces: the kernel
    /// is given no buffer and reports how many bytes its records need.
    Probe,
    /// A request for the records of all interfaces, with a buffer of
    /// `capacity` bytes for the kernel to fill.
    Enumerate { capacity: i32 },
}

impl Request {
    /// The number under which the kernel knows the request.
    pub open spec fn number(self) -> u64 {
        match self {
            Request::Interface { command, .. } => command.number(),
            Request::Probe => 0x8912,
            Request::Enumerate { .. } => 0x8912,
        }
    }

    /// The number under which the kernel knows the request.
    pub fn code(&self) -> (code: u64)
        ensures
            code == self.number(),
    {
        match self {
            Request::Interface { command, .. } => command.code(),
            Request::Probe => sys::siocgifconf(),
            Request::Enumerate { .. } => sys::siocgifconf(),
        }
    }
}

/// A query: the request `command` about `name`, with an empty payload.
pub open spec fn query(command: Command, name: [u8; 16]) -> Request {
    Request::Interface { command, name, payload: Payload::Empty }
}

/// The request that writes `flags` to the interface called `name`.
pub open spec fn flags_update(name: [u8; 16], flags: u16) -> Request {
    Request::Interface { command: Command::SetFlags, name, payload: Payload::Flags(flags) }
}

/// The request that writes `address` to the interface called `name`.
pub open spec fn address_update(
    command: Command,
    name: [u8; 16],
    address: SocketAddress,
) -> Request {
    Request::Interface { command, name, payload: Payload::Address(address) }
}

/// Builds a query: every byte of its payload is zero.
pub fn ask(command: Command, name: [u8; 16]) -> (request: Request)
    ensures
        request == query(command, name),
{
    Request::Interface { command, name, payload: Payload::Empty }
}

/// Builds the request that writes `flags`.
pub fn write_flags(name: [u8; 16], flags: u16) -> (request: Request)
    ensures
        request == flags_update(name, flags),
{
    Request::Interface { command: Command::SetFlags, name, payload: Payload::Flags(flags) }
}

/// Builds the request that writes `address`.
pub fn write_address(
    command: Command,
    name: [u8; 16],
    address: SocketAddress,
) -> (request: Request)
    ensures
        request == address_update(command, name, address),
{
    Request::Interface { command, name, payload: Payload::Address(address) }
}

/// The payload of a per-interface record after the kernel has answered, seen
/// through each of the members that this crate reads.
#[derive(Clone, Copy, Debug, PartialEq, Eq)]
pub struct Record {
    /// The payload read as administrative flags.
    pub flags: u16,
    /// The payload read as an interface index.
    pub index: u32,
    /// The payload read as a socket address.
    pub address: SocketAddress,
}

/// An answer of the kernel.
#[derive(Debug, PartialEq, Eq)]
pub enum Reply {
    /// The answer to a request about one interface.
    Interface(Record),
    /// The answer to a request for the size of the records of all
    /// interfaces, or for the records themselves: `length` is the number of
    /// bytes that the kernel reports, `records` the buffer that it was given
    /// to fill, which is empty where it was given none.
    Enumerate { length: i32, records: Vec<u8> },
}

} // verus!
