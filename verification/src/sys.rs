//! What this crate takes on trust from the platform: the numbers that the C
//! library fixes (request codes, address families, flag bits, the size of the
//! kernel's per-interface record) and the standard library's UTF-8 check.
//!
//! Each function below reads one constant of `libc` or makes one call. Verus
//! does not look into their bodies; the contracts restate what libc's
//! definitions for Linux say.

use vstd::prelude::*;
use vstd::utf8::{encode_utf8, valid_utf8};

verus! {

/// `core::str::from_utf8`: reads a byte slice as text. It succeeds exactly on
/// well-formed UTF-8, and the text it returns is made of the very bytes it
/// was given.
#[verifier::external_body]
pub(crate) fn utf8_text<'a>(bytes: &'a [u8]) -> (text: Option<&'a str>)
    ensures
        text is Some <==> valid_utf8(bytes@),
        text matches Some(s) ==> encode_utf8(s@) == bytes@,
{
    core::str::from_utf8(bytes).ok()
}

/// `libc::SIOCGIFCONF`, the request code that lists the records of all interfaces. libc gives it
/// the value `0x8912` on every Linux target.
#[verifier::external_body]
pub(crate) fn siocgifconf() -> (code: u64)
    ensures
        code == 0x8912,
{
    libc::SIOCGIFCONF as u64
}

/// `libc::SIOCGIFFLAGS`, the request code that reads the administrative flags. libc gives it
/// the value `0x8913` on every Linux target.
#[verifier::external_body]
pub(crate) fn siocgifflags() -> (code: u64)
    ensures
        code == 0x8913,
{
    libc::SIOCGIFFLAGS as u64
}

/// `libc::SIOCSIFFLAGS`, the request code that writes the administrative flags. libc gives it
/// the value `0x8914` on every Linux target.
#[verifier::external_body]
pub(crate) fn siocsifflags() -> (code: u64)
    ensures
        code == 0x8914,
{
    libc::SIOCSIFFLAGS as u64
}

/// `libc::SIOCGIFADDR`, the request code that reads the IPv4 address. libc gives it
/// the value `0x8915` on every Linux target.
#[verifier::external_body]
pub(crate) fn siocgifaddr() -> (code: u64)
    ensures
        code == 0x8915,
{
    libc::SIOCGIFADDR as u64
}

/// `libc::SIOCSIFADDR`, the request code that writes the IPv4 address. libc gives it
/// the value `0x8916` on every Linux target.
#[verifier::external_body]
pub(crate) fn siocsifaddr() -> (code: u64)
    ensures
        code == 0x8916,
{
    libc::SIOCSIFADDR as u64
}

/// `libc::SIOCGIFBRDADDR`, the request code that reads the broadcast address. libc gives it
/// the value `0x8919` on every Linux target.
#[verifier::external_body]
pub(crate) fn siocgifbrdaddr() -> (code: u64)
    ensures
        code == 0x8919,
{
    libc::SIOCGIFBRDADDR as u64
}

/// `libc::SIOCGIFNETMASK`, the request code that reads the netmask. libc gives it
/// the value `0x891b` on every Linux target.
#[verifier::external_body]
pub(crate) fn siocgifnetmask() -> (code: u64)
    ensures
        code == 0x891b,
{
    libc::SIOCGIFNETMASK as u64
}

/// `libc::SIOCSIFNETMASK`, the request code that writes the netmask. libc gives it
/// the value `0x891c` on every Linux target.
#[verifier::external_body]
pub(crate) fn siocsifnetmask() -> (code: u64)
    ensures
        code == 0x891c,
{
    libc::SIOCSIFNETMASK as u64
}

/// `libc::SIOCSIFHWADDR`, the request code that writes the hardware address. libc gives it
/// the value `0x8924` on every Linux target.
#[verifier::external_body]
pub(crate) fn siocsifhwaddr() -> (code: u64)
    ensures
        code == 0x8924,
{
    libc::SIOCSIFHWADDR as u64
}

/// `libc::SIOCGIFHWADDR`, the request code that reads the hardware address. libc gives it
/// the value `0x8927` on every Linux target.
#[verifier::external_body]
pub(crate) fn siocgifhwaddr() -> (code: u64)
    ensures
        code == 0x8927,
{
    libc::SIOCGIFHWADDR as u64
}

/// `libc::SIOCGIFINDEX`, the request code that resolves a name to an interface index. libc gives it
/// the value `0x8933` on every Linux target.
#[verifier::external_body]
pub(crate) fn siocgifindex() -> (code: u64)
    ensures
        code == 0x8933,
{
    libc::SIOCGIFINDEX as u64
}

/// `libc::IFF_UP`, the "interface enabled" bit of the administrative flags.
/// libc defines it as `0x1` on every Linux target.
#[verifier::external_body]
pub(crate) fn iff_up() -> (bit: u16)
    ensures
        bit == 0x1,
{
    libc::IFF_UP as u16
}

/// `libc::AF_INET`, the address family of IPv4. libc defines it as `2` on
/// every Linux target.
#[verifier::external_body]
pub(crate) fn af_inet() -> (family: u16)
    ensures
        family == 2,
{
    libc::AF_INET as u16
}

/// `libc::ARPHRD_ETHER`, the hardware type of Ethernet, which the kernel
/// expects as the family of a hardware address. libc defines it as `1` on
/// every Linux target.
#[verifier::external_body]
pub(crate) fn arphrd_ether() -> (family: u16)
    ensures
        family == 1,
{
    libc::ARPHRD_ETHER
}

/// `libc::SOCK_DGRAM`, the socket type of datagram sockets. Its value depends
/// on the target: libc defines it as `1` for MIPS and as `2` for every other
/// Linux target.
#[verifier::external_body]
pub(crate) fn sock_dgram() -> (kind: i32)
    ensures
        kind == 1 || kind == 2,
{
    libc::SOCK_DGRAM
}

/// `libc::EADDRNOTAVAIL`, the OS error with which the kernel answers a query
/// for an address that the interface does not have. Its value depends on the
/// target: libc defines it as `126` for MIPS, as `49` for SPARC and as `99`
/// for every other Linux target.
#[verifier::external_body]
pub(crate) fn eaddrnotavail() -> (code: i32)
    ensures
        code == 99 || code == 126 || code == 49,
{
    libc::EADDRNOTAVAIL
}

/// `core::mem::size_of::<libc::ifreq>()`, the size in bytes of the kernel's
/// per-interface record. Its value depends on the target. libc lays the
/// record out as a name field of 16 bytes followed by a union; the widest
/// members of the union are a socket address of 16 bytes and a device map of
/// two `c_ulong`, one `c_ushort` and three bytes. That makes 32 bytes where
/// `c_ulong` has four bytes and 40 bytes where it has eight.
#[verifier::external_body]
pub(crate) fn ifreq_size() -> (size: usize)
    ensures
        size == 32 || size == 40,
{
    core::mem::size_of::<libc::ifreq>()
}

} // verus!
