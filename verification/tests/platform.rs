use netif::error::Error;
use netif::request::{
    ask, write_address, write_flags, Command, Payload, Request, SocketAddress, ETHER, INET,
};

#[test]
fn command_codes_are_those_of_the_platform() {
    let cases = [
        (Command::GetIndex, libc::SIOCGIFINDEX, 0x8933u64),
        (Command::GetFlags, libc::SIOCGIFFLAGS, 0x8913),
        (Command::SetFlags, libc::SIOCSIFFLAGS, 0x8914),
        (Command::GetAddress, libc::SIOCGIFADDR, 0x8915),
        (Command::SetAddress, libc::SIOCSIFADDR, 0x8916),
        (Command::GetNetmask, libc::SIOCGIFNETMASK, 0x891b),
        (Command::SetNetmask, libc::SIOCSIFNETMASK, 0x891c),
        (Command::GetBroadcast, libc::SIOCGIFBRDADDR, 0x8919),
        (Command::GetHardware, libc::SIOCGIFHWADDR, 0x8927),
        (Command::SetHardware, libc::SIOCSIFHWADDR, 0x8924),
    ];
    for (command, platform, number) in cases {
        assert_eq!(command.code(), platform as u64);
        assert_eq!(command.code(), number);
    }
}

#[test]
fn enumeration_code_is_that_of_the_platform() {
    assert_eq!(Request::Probe.code(), libc::SIOCGIFCONF as u64);
    assert_eq!(Request::Enumerate { capacity: 0 }.code(), libc::SIOCGIFCONF as u64);
    assert_eq!(Request::Enumerate { capacity: 400 }.code(), 0x8912);
}

#[test]
fn families_are_those_of_the_platform() {
    assert_eq!(INET, libc::AF_INET as u16);
    assert_eq!(ETHER, libc::ARPHRD_ETHER);
    assert_eq!(SocketAddress::inet([1, 2, 3, 4]).family, libc::AF_INET as u16);
    assert_eq!(SocketAddress::link([1, 2, 3, 4, 5, 6]).family, libc::ARPHRD_ETHER);
}

#[test]
fn socket_address_keeps_octets_in_place() {
    let inet = SocketAddress::inet([192, 168, 1, 10]);
    assert_eq!(inet.data, [0, 0, 192, 168, 1, 10, 0, 0, 0, 0, 0, 0, 0, 0]);
    assert_eq!(inet.family, INET);
    assert_eq!(inet.ipv4(), [192, 168, 1, 10]);
    let link = SocketAddress::link([1, 2, 3, 4, 5, 6]);
    assert_eq!(link.data, [1, 2, 3, 4, 5, 6, 0, 0, 0, 0, 0, 0, 0, 0]);
    assert_eq!(link.family, ETHER);
    assert_eq!(link.physical(), [1, 2, 3, 4, 5, 6]);
    let raw = SocketAddress { family: 5, data: [1, 2, 3, 4, 5, 6, 7, 8, 9, 10, 11, 12, 13, 14] };
    assert_eq!(raw.ipv4(), [3, 4, 5, 6]);
    assert_eq!(raw.physical(), [1, 2, 3, 4, 5, 6]);
}

#[test]
fn errors_tell_their_kind_and_code() {
    assert!(Error::TooLong.is_encoding());
    assert!(Error::EmbeddedNul.is_encoding());
    assert!(!Error::Malformed.is_encoding());
    assert!(!Error::Socket { code: 1 }.is_encoding());
    assert!(!Error::Request { code: 1 }.is_encoding());
    assert!(!Error::NotConfigured { code: 99 }.is_encoding());
    assert!(!Error::Release { code: 1, request: None }.is_encoding());
    assert!(!Error::Unexpected.is_encoding());

    assert_eq!(Error::Socket { code: 24 }.code(), Some(24));
    assert_eq!(Error::Request { code: 19 }.code(), Some(19));
    assert_eq!(Error::Release { code: 9, request: Some(19) }.code(), Some(9));
    assert_eq!(Error::TooLong.code(), None);
    assert_eq!(Error::EmbeddedNul.code(), None);
    assert_eq!(Error::Malformed.code(), None);
    assert_eq!(Error::NotConfigured { code: 99 }.code(), Some(99));
    assert_eq!(Error::Unexpected.code(), None);
}

#[test]
fn requests_are_built_around_the_name() {
    let mut name = [0u8; 16];
    name[..4].copy_from_slice(b"eth0");
    assert_eq!(
        ask(Command::GetNetmask, name),
        Request::Interface { command: Command::GetNetmask, name, payload: Payload::Empty }
    );
    assert_eq!(
        write_flags(name, 0x1043),
        Request::Interface { command: Command::SetFlags, name, payload: Payload::Flags(0x1043) }
    );
    let address = SocketAddress::inet([10, 0, 0, 1]);
    assert_eq!(
        write_address(Command::SetNetmask, name, address),
        Request::Interface {
            command: Command::SetNetmask,
            name,
            payload: Payload::Address(address),
        }
    );
}

#[test]
fn errors_tell_what_rejected_the_request() {
    assert_eq!(Error::Request { code: 19 }.request_code(), Some(19));
    assert_eq!(Error::NotConfigured { code: 99 }.request_code(), Some(99));
    assert_eq!(Error::Release { code: 9, request: Some(19) }.request_code(), Some(19));
    assert_eq!(Error::Release { code: 9, request: None }.request_code(), None);
    assert_eq!(Error::Socket { code: 24 }.request_code(), None);
    assert_eq!(Error::TooLong.request_code(), None);
    assert_eq!(Error::Unexpected.request_code(), None);

    assert!(Error::NotConfigured { code: 99 }.is_not_configured());
    assert!(!Error::Request { code: 99 }.is_not_configured());
    assert!(!Error::Socket { code: 99 }.is_not_configured());
    assert!(!Error::Release { code: 9, request: Some(99) }.is_not_configured());
    assert!(!Error::Unexpected.is_not_configured());
}
