use netif::error::Error;
use netif::exchange::{Action, Event, Exchange};
use netif::flags::{is_enabled, lower, raise, UP};
use netif::interface::{not_configured, Attribute, Interface, Operation, Outcome};
use netif::name::encode;
use netif::request::{Command, Payload, Record, Reply, Request, SocketAddress, ETHER, INET};

fn blank() -> Record {
    Record { flags: 0, index: 0, address: SocketAddress { family: 0, data: [0; 14] } }
}

fn with_index(index: u32) -> Reply {
    Reply::Interface(Record { index, ..blank() })
}

fn with_flags(flags: u16) -> Reply {
    Reply::Interface(Record { flags, ..blank() })
}

fn with_address(address: SocketAddress) -> Reply {
    Reply::Interface(Record { address, ..blank() })
}

fn handle(name: &str, index: u32) -> Interface {
    match Interface::open(name).unwrap().resume(Ok(with_index(index))).finish() {
        Some(Ok(Outcome::Handle(handle))) => handle,
        other => panic!("no handle: {:?}", other),
    }
}

fn query(command: Command, name: &str) -> Request {
    Request::Interface { command, name: encode(name).unwrap(), payload: Payload::Empty }
}

/// A stand-in for the kernel with one interface, `lo0`, that keeps what is
/// written to it and counts the calls that reach it.
struct Double {
    flags: u16,
    address: Option<[u8; 4]>,
    sockets: Vec<i32>,
    opened: i32,
    requests: Vec<Request>,
}

impl Double {
    fn new(flags: u16, address: Option<[u8; 4]>) -> Double {
        Double { flags, address, sockets: Vec::new(), opened: 0, requests: Vec::new() }
    }

    fn perform(&mut self, action: Action) -> Event {
        match action {
            Action::Socket { domain, kind, protocol } => {
                assert_eq!((domain, kind, protocol), (libc::AF_INET, libc::SOCK_DGRAM, 0));
                self.opened += 1;
                let socket = 2 + self.opened;
                self.sockets.push(socket);
                Event::Socket { result: socket, errno: 0 }
            }
            Action::Ioctl { socket, code, request } => {
                assert!(self.sockets.contains(&socket));
                assert_eq!(code, request.code());
                self.requests.push(request);
                self.answer(request)
            }
            Action::Close { socket } => {
                let at = self.sockets.iter().position(|open| *open == socket).unwrap();
                self.sockets.remove(at);
                Event::Close { result: 0, errno: 0 }
            }
            Action::Finished => panic!("nothing to perform"),
        }
    }

    fn answer(&mut self, request: Request) -> Event {
        let (command, name, payload) = match request {
            Request::Interface { command, name, payload } => (command, name, payload),
            Request::Probe | Request::Enumerate { .. } => panic!("not served"),
        };
        if name != encode("lo0").unwrap() {
            let reply = Reply::Interface(blank());
            return Event::Ioctl { result: -1, errno: libc::ENODEV, reply };
        }
        let mut record = blank();
        match (command, payload) {
            (Command::GetIndex, Payload::Empty) => record.index = 1,
            (Command::GetFlags, Payload::Empty) => record.flags = self.flags,
            (Command::SetFlags, Payload::Flags(flags)) => self.flags = flags,
            (Command::GetAddress, Payload::Empty) => match self.address {
                Some(octets) => record.address = SocketAddress::inet(octets),
                None => {
                    return Event::Ioctl {
                        result: -1,
                        errno: libc::EADDRNOTAVAIL,
                        reply: Reply::Interface(record),
                    }
                }
            },
            (Command::SetAddress, Payload::Address(address)) => {
                assert_eq!(address.family, INET);
                let octets = address.ipv4();
                self.address = if octets == [0, 0, 0, 0] { None } else { Some(octets) };
            }
            other => panic!("not served: {:?}", other),
        }
        Event::Ioctl { result: 0, errno: 0, reply: Reply::Interface(record) }
    }

    fn transact(&mut self, request: Request) -> Result<Reply, Error> {
        let mut exchange = Exchange::new(request);
        while !exchange.is_finished() {
            let event = self.perform(exchange.action());
            exchange = exchange.step(event);
        }
        exchange.finish().unwrap()
    }

    fn run(&mut self, mut operation: Operation) -> Result<Outcome, Error> {
        while let Some(request) = operation.pending() {
            let outcome = self.transact(request);
            operation = operation.resume(outcome);
        }
        assert!(self.sockets.is_empty());
        operation.finish().unwrap()
    }
}

#[test]
fn open_eth0_with_index_three() {
    let operation = Interface::open("eth0").unwrap();
    let request = operation.pending().unwrap();
    assert_eq!(request, query(Command::GetIndex, "eth0"));
    assert_eq!(request.code(), libc::SIOCGIFINDEX as u64);

    let operation = operation.resume(Ok(with_index(3)));
    assert_eq!(operation.pending(), None);
    let handle = match operation.finish() {
        Some(Ok(Outcome::Handle(handle))) => handle,
        other => panic!("no handle: {:?}", other),
    };
    assert_eq!(handle.name(), "eth0");
    assert_eq!(handle.index(), 3);

    // The flag query that follows is addressed with the stored name.
    assert_eq!(handle.is_up().pending(), Some(query(Command::GetFlags, "eth0")));
    assert_eq!(handle.up().pending(), Some(query(Command::GetFlags, "eth0")));
}

#[test]
fn open_passes_failures_on() {
    let operation = Interface::open("nope0").unwrap();
    let failed = operation.resume(Err(Error::Request { code: libc::ENODEV }));
    assert_eq!(failed.finish(), Some(Err(Error::Request { code: libc::ENODEV })));
    let failed = operation.resume(Err(Error::Socket { code: 24 }));
    assert_eq!(failed.finish(), Some(Err(Error::Socket { code: 24 })));
    let failed = operation.resume(Err(Error::Release { code: 9, request: None }));
    assert_eq!(failed.finish(), Some(Err(Error::Release { code: 9, request: None })));
    let odd = operation.resume(Ok(Reply::Enumerate { length: 0, records: Vec::new() }));
    assert_eq!(odd.finish(), Some(Err(Error::Unexpected)));
}

#[test]
fn resolve_refuses_a_field_without_terminator() {
    let operation = Operation::Resolve { name: [b'x'; 16] };
    assert_eq!(operation.resume(Ok(with_index(2))).finish(), Some(Err(Error::Malformed)));
}

#[test]
fn resolve_takes_any_terminated_field() {
    // A name in Latin-1, as the kernel accepts it: terminated, not UTF-8.
    let mut field = [0u8; 16];
    field[..4].copy_from_slice(b"\xe9th0");
    let operation = Operation::Resolve { name: field };
    let asked = Request::Interface { command: Command::GetIndex, name: field, payload: Payload::Empty };
    assert_eq!(operation.pending(), Some(asked));
    let handle = match operation.resume(Ok(with_index(4))).finish() {
        Some(Ok(Outcome::Handle(handle))) => handle,
        other => panic!("no handle: {:?}", other),
    };
    assert_eq!(handle.name_field(), field);
    assert_eq!(handle.index(), 4);
    assert!(!handle.is_text());

    // Bytes after the terminator are kept as they are.
    let mut field = [7u8; 16];
    field[..3].copy_from_slice(b"lo\0");
    let handle = match (Operation::Resolve { name: field }).resume(Ok(with_index(1))).finish() {
        Some(Ok(Outcome::Handle(handle))) => handle,
        other => panic!("no handle: {:?}", other),
    };
    assert_eq!(handle.name_field(), field);
    assert!(handle.is_text());
    assert_eq!(handle.name(), "lo");
}

#[test]
fn operation_is_unfinished_until_answered() {
    let operation = Interface::open("eth0").unwrap();
    assert_eq!(operation.finish(), None);
    let finished = operation.resume(Ok(with_index(3)));
    assert_eq!(finished.resume(Err(Error::Unexpected)), finished);
    assert_eq!(finished.resume(Ok(with_index(9))), finished);
}

#[test]
fn flags_touch_one_bit() {
    assert_eq!(UP, libc::IFF_UP as u16);
    assert_eq!(raise(0), 0x0001);
    assert_eq!(raise(0x1002), 0x1003);
    assert_eq!(raise(0x1003), 0x1003);
    assert_eq!(raise(0xfffe), 0xffff);
    assert_eq!(lower(0x1003), 0x1002);
    assert_eq!(lower(0x1002), 0x1002);
    assert_eq!(lower(0xffff), 0xfffe);
    assert_eq!(lower(0x0001), 0);
    assert!(is_enabled(0x0001));
    assert!(is_enabled(0xffff));
    assert!(!is_enabled(0xfffe));
    assert!(!is_enabled(0));
}

#[test]
fn up_reads_then_writes_back() {
    let eth0 = handle("eth0", 3);
    let operation = eth0.up();
    assert_eq!(operation, Operation::Toggle { name: encode("eth0").unwrap(), up: true });
    let operation = operation.resume(Ok(with_flags(0x1042)));
    let write = Request::Interface {
        command: Command::SetFlags,
        name: encode("eth0").unwrap(),
        payload: Payload::Flags(0x1043),
    };
    assert_eq!(operation.pending(), Some(write));
    assert_eq!(write.code(), libc::SIOCSIFFLAGS as u64);
    assert_eq!(operation.finish(), None);
    let operation = operation.resume(Ok(with_flags(0)));
    assert_eq!(operation.finish(), Some(Ok(Outcome::Done)));
}

#[test]
fn down_reads_then_writes_back() {
    let eth0 = handle("eth0", 3);
    let operation = eth0.down().resume(Ok(with_flags(0x1043)));
    assert_eq!(
        operation.pending(),
        Some(Request::Interface {
            command: Command::SetFlags,
            name: encode("eth0").unwrap(),
            payload: Payload::Flags(0x1042),
        })
    );
    assert_eq!(operation.resume(Ok(with_flags(0))).finish(), Some(Ok(Outcome::Done)));
}

#[test]
fn toggle_fails_with_the_failure_of_either_request() {
    let eth0 = handle("eth0", 3);
    let unread = eth0.up().resume(Err(Error::Request { code: libc::ENODEV }));
    assert_eq!(unread.pending(), None);
    assert_eq!(unread.finish(), Some(Err(Error::Request { code: libc::ENODEV })));
    let unwritten =
        eth0.up().resume(Ok(with_flags(0))).resume(Err(Error::Request { code: libc::EPERM }));
    assert_eq!(unwritten.finish(), Some(Err(Error::Request { code: libc::EPERM })));
}

#[test]
fn up_then_query_reports_enabled() {
    let mut kernel = Double::new(0x1002, None);
    let lo0 = match kernel.run(Interface::open("lo0").unwrap()) {
        Ok(Outcome::Handle(handle)) => handle,
        other => panic!("no handle: {:?}", other),
    };
    assert_eq!(kernel.run(lo0.is_up()), Ok(Outcome::Enabled(false)));
    assert_eq!(kernel.run(lo0.up()), Ok(Outcome::Done));
    assert_eq!(kernel.flags, 0x1003);
    assert_eq!(kernel.run(lo0.is_up()), Ok(Outcome::Enabled(true)));
    assert_eq!(kernel.run(lo0.down()), Ok(Outcome::Done));
    assert_eq!(kernel.flags, 0x1002);
    assert_eq!(kernel.run(lo0.is_up()), Ok(Outcome::Enabled(false)));
}

#[test]
fn up_twice_is_up_once() {
    let mut kernel = Double::new(0x0040, None);
    let lo0 = handle("lo0", 1);
    assert_eq!(kernel.run(lo0.up()), Ok(Outcome::Done));
    let once = kernel.flags;
    assert_eq!(kernel.run(lo0.up()), Ok(Outcome::Done));
    assert_eq!(kernel.flags, once);
    assert_eq!(once, 0x0041);
    assert_eq!(kernel.run(lo0.down()), Ok(Outcome::Done));
    let once = kernel.flags;
    assert_eq!(kernel.run(lo0.down()), Ok(Outcome::Done));
    assert_eq!(kernel.flags, once);
    assert_eq!(once, 0x0040);
}

#[test]
fn every_operation_opens_one_socket_per_request() {
    let mut kernel = Double::new(0, Some([10, 0, 0, 1]));
    let lo0 = handle("lo0", 1);
    assert_eq!(kernel.run(lo0.ipv4()), Ok(Outcome::Address([10, 0, 0, 1])));
    assert_eq!((kernel.opened, kernel.requests.len()), (1, 1));
    assert_eq!(kernel.run(lo0.up()), Ok(Outcome::Done));
    assert_eq!((kernel.opened, kernel.requests.len()), (3, 3));
    assert_eq!(kernel.requests[1], query(Command::GetFlags, "lo0"));
}

#[test]
fn unknown_interface_fails_with_the_kernel_code() {
    let mut kernel = Double::new(0, None);
    assert_eq!(
        kernel.run(Interface::open("eth9").unwrap()),
        Err(Error::Request { code: libc::ENODEV })
    );
    assert!(kernel.sockets.is_empty());
}

#[test]
fn queries_ask_with_the_right_code() {
    let eth0 = handle("eth0", 3);
    let cases = [
        (eth0.ipv4(), Command::GetAddress, libc::SIOCGIFADDR),
        (eth0.netmask(), Command::GetNetmask, libc::SIOCGIFNETMASK),
        (eth0.broadcast(), Command::GetBroadcast, libc::SIOCGIFBRDADDR),
        (eth0.physical(), Command::GetHardware, libc::SIOCGIFHWADDR),
        (eth0.is_up(), Command::GetFlags, libc::SIOCGIFFLAGS),
        (eth0.remove_ipv4(), Command::GetAddress, libc::SIOCGIFADDR),
    ];
    for (operation, command, code) in cases {
        let request = operation.pending().unwrap();
        assert_eq!(request, query(command, "eth0"));
        assert_eq!(request.code(), code as u64);
    }
}

#[test]
fn address_queries_read_four_octets() {
    let eth0 = handle("eth0", 3);
    let answer = SocketAddress {
        family: INET,
        data: [0x12, 0x34, 192, 168, 1, 10, 7, 7, 7, 7, 7, 7, 7, 7],
    };
    for operation in [eth0.ipv4(), eth0.netmask(), eth0.broadcast()] {
        let finished = operation.resume(Ok(with_address(answer)));
        assert_eq!(finished.finish(), Some(Ok(Outcome::Address([192, 168, 1, 10]))));
    }
    let zero = SocketAddress::inet([0, 0, 0, 0]);
    assert_eq!(
        eth0.ipv4().resume(Ok(with_address(zero))).finish(),
        Some(Ok(Outcome::Address([0, 0, 0, 0])))
    );
}

#[test]
fn physical_reads_six_octets() {
    let eth0 = handle("eth0", 3);
    let answer = SocketAddress {
        family: ETHER,
        data: [0x28, 0xd0, 0xea, 0xf2, 0xb3, 0x54, 9, 9, 9, 9, 9, 9, 9, 9],
    };
    assert_eq!(
        eth0.physical().resume(Ok(with_address(answer))).finish(),
        Some(Ok(Outcome::Hardware([0x28, 0xd0, 0xea, 0xf2, 0xb3, 0x54])))
    );
    // The loopback device has the all-zero address under a family of its own.
    let loopback = SocketAddress { family: 772, data: [0; 14] };
    assert_eq!(
        eth0.physical().resume(Ok(with_address(loopback))).finish(),
        Some(Ok(Outcome::Hardware([0; 6])))
    );
}

#[test]
fn missing_address_is_not_the_zero_address() {
    let eth0 = handle("eth0", 3);
    let rejected = Error::NotConfigured { code: libc::EADDRNOTAVAIL };
    for operation in [eth0.ipv4(), eth0.netmask(), eth0.broadcast()] {
        let absent = operation.resume(Err(Error::Request { code: libc::EADDRNOTAVAIL }));
        assert_eq!(absent.finish(), Some(Err(rejected)));
        // An answer of the kernel is taken as it is, whatever family it names.
        let zero = operation.resume(Ok(with_address(SocketAddress { family: 0, data: [0; 14] })));
        assert_eq!(zero.finish(), Some(Ok(Outcome::Address([0, 0, 0, 0]))));
        let other = operation.resume(Err(Error::Request { code: libc::ENODEV }));
        assert_eq!(other.finish(), Some(Err(Error::Request { code: libc::ENODEV })));
        let transport = operation.resume(Err(Error::Socket { code: libc::EADDRNOTAVAIL }));
        assert_eq!(transport.finish(), Some(Err(Error::Socket { code: libc::EADDRNOTAVAIL })));
    }
    let mut kernel = Double::new(0, None);
    assert_eq!(kernel.run(handle("lo0", 1).ipv4()), Err(rejected));
}

#[test]
fn missing_address_keeps_the_code_of_the_kernel() {
    let eth0 = handle("eth0", 3);
    for operation in [eth0.ipv4(), eth0.netmask(), eth0.broadcast()] {
        // The kernel says that there is no such address.
        let absent = operation
            .resume(Err(Error::Request { code: libc::EADDRNOTAVAIL }))
            .finish()
            .unwrap()
            .unwrap_err();
        assert!(absent.is_not_configured());
        assert_eq!(absent.code(), Some(libc::EADDRNOTAVAIL));
        assert_eq!(absent.request_code(), Some(libc::EADDRNOTAVAIL));

        // No socket could be had: a failure of the transport, with its own code.
        let transport = operation
            .resume(Err(Error::Socket { code: libc::EMFILE }))
            .finish()
            .unwrap()
            .unwrap_err();
        assert!(!transport.is_not_configured());
        assert_eq!(transport.code(), Some(libc::EMFILE));
        assert_eq!(transport.request_code(), None);
        assert_ne!(absent, transport);
    }
}

#[test]
fn missing_address_is_told_from_a_failed_socket_end_to_end() {
    // The same handle on two transports: one has no address to give, the
    // other cannot even create a socket.
    let exchange = |events: Vec<Event>| {
        let operation = handle("eth0", 3).ipv4();
        let mut exchange = Exchange::new(operation.pending().unwrap());
        for event in events {
            exchange = exchange.step(event);
        }
        operation.resume(exchange.finish().unwrap()).finish().unwrap()
    };
    let blank = || Reply::Interface(blank());
    let unconfigured = exchange(vec![
        Event::Socket { result: 3, errno: 0 },
        Event::Ioctl { result: -1, errno: libc::EADDRNOTAVAIL, reply: blank() },
        Event::Close { result: 0, errno: 0 },
    ]);
    let exhausted = exchange(vec![Event::Socket { result: -1, errno: libc::EMFILE }]);
    assert_eq!(unconfigured, Err(Error::NotConfigured { code: libc::EADDRNOTAVAIL }));
    assert_eq!(exhausted, Err(Error::Socket { code: libc::EMFILE }));
    assert_eq!(unconfigured.unwrap_err().code(), Some(libc::EADDRNOTAVAIL));
    assert_eq!(exhausted.unwrap_err().code(), Some(libc::EMFILE));
}

#[test]
fn read_remembers_the_code_for_no_such_address() {
    let eth0 = handle("eth0", 3);
    assert_eq!(
        eth0.ipv4(),
        Operation::Read {
            name: encode("eth0").unwrap(),
            attribute: Attribute::Ipv4,
            absent: libc::EADDRNOTAVAIL,
        }
    );
    assert_eq!(eth0.read(Attribute::Netmask), eth0.netmask());
    assert_eq!(eth0.read(Attribute::Broadcast), eth0.broadcast());
    assert_eq!(eth0.read(Attribute::Hardware), eth0.physical());
    assert_eq!(
        eth0.remove_ipv4(),
        Operation::Remove { name: encode("eth0").unwrap(), absent: libc::EADDRNOTAVAIL }
    );
}

#[test]
fn not_configured_goes_by_the_code_given() {
    assert_eq!(
        not_configured(Error::Request { code: 126 }, 126),
        Error::NotConfigured { code: 126 }
    );
    assert_eq!(
        not_configured(Error::NotConfigured { code: 99 }, 126),
        Error::NotConfigured { code: 99 }
    );
    assert_eq!(not_configured(Error::Request { code: 99 }, 126), Error::Request { code: 99 });
    assert_eq!(not_configured(Error::Socket { code: 126 }, 126), Error::Socket { code: 126 });
    assert_eq!(
        not_configured(Error::Release { code: 9, request: Some(126) }, 126),
        Error::Release { code: 9, request: Some(126) }
    );
    assert_eq!(not_configured(Error::Unexpected, 0), Error::Unexpected);
}

#[test]
fn attribute_reads_octets_in_place() {
    let inet = SocketAddress::inet([1, 2, 3, 4]);
    assert_eq!(Attribute::Ipv4.read(&inet), Outcome::Address([1, 2, 3, 4]));
    assert_eq!(Attribute::Netmask.read(&inet), Outcome::Address([1, 2, 3, 4]));
    assert_eq!(Attribute::Broadcast.read(&inet), Outcome::Address([1, 2, 3, 4]));
    assert_eq!(Attribute::Hardware.read(&inet), Outcome::Hardware([0, 0, 1, 2, 3, 4]));
    let link = SocketAddress::link([1, 2, 3, 4, 5, 6]);
    assert_eq!(Attribute::Hardware.read(&link), Outcome::Hardware([1, 2, 3, 4, 5, 6]));
    // The family of the answer plays no part.
    let unset = SocketAddress { family: 0, data: [0, 0, 255, 255, 255, 0, 0, 0, 0, 0, 0, 0, 0, 0] };
    assert_eq!(Attribute::Ipv4.read(&unset), Outcome::Address([255, 255, 255, 0]));
    assert_eq!(Attribute::Netmask.read(&unset), Outcome::Address([255, 255, 255, 0]));
    assert_eq!(Attribute::Broadcast.read(&unset), Outcome::Address([255, 255, 255, 0]));
    assert_eq!(Attribute::Ipv4.read(&link), Outcome::Address([3, 4, 5, 6]));
    assert_eq!(Attribute::Ipv4.query(), Command::GetAddress);
    assert_eq!(Attribute::Netmask.query(), Command::GetNetmask);
    assert_eq!(Attribute::Broadcast.query(), Command::GetBroadcast);
    assert_eq!(Attribute::Hardware.query(), Command::GetHardware);
}

#[test]
fn setters_write_what_the_queries_read() {
    let eth0 = handle("eth0", 3);
    let name = encode("eth0").unwrap();

    let operation = eth0.set_ipv4([192, 168, 26, 219]);
    let request = operation.pending().unwrap();
    assert_eq!(
        request,
        Request::Interface {
            command: Command::SetAddress,
            name,
            payload: Payload::Address(SocketAddress {
                family: libc::AF_INET as u16,
                data: [0, 0, 192, 168, 26, 219, 0, 0, 0, 0, 0, 0, 0, 0],
            }),
        }
    );
    assert_eq!(request.code(), libc::SIOCSIFADDR as u64);
    assert_eq!(operation.resume(Ok(with_index(0))).finish(), Some(Ok(Outcome::Done)));
    assert_eq!(
        operation.resume(Err(Error::Request { code: libc::EPERM })).finish(),
        Some(Err(Error::Request { code: libc::EPERM }))
    );

    let request = eth0.set_netmask([255, 255, 255, 0]).pending().unwrap();
    assert_eq!(
        request,
        Request::Interface {
            command: Command::SetNetmask,
            name,
            payload: Payload::Address(SocketAddress::inet([255, 255, 255, 0])),
        }
    );
    assert_eq!(request.code(), libc::SIOCSIFNETMASK as u64);

    let request = eth0.set_physical([40, 208, 234, 242, 179, 84]).pending().unwrap();
    assert_eq!(
        request,
        Request::Interface {
            command: Command::SetHardware,
            name,
            payload: Payload::Address(SocketAddress {
                family: libc::ARPHRD_ETHER,
                data: [40, 208, 234, 242, 179, 84, 0, 0, 0, 0, 0, 0, 0, 0],
            }),
        }
    );
    assert_eq!(request.code(), libc::SIOCSIFHWADDR as u64);
}

#[test]
fn remove_ipv4_returns_the_previous_address() {
    let eth0 = handle("eth0", 3);
    let operation = eth0.remove_ipv4().resume(Ok(with_address(SocketAddress::inet([10, 1, 2, 3]))));
    assert_eq!(
        operation.pending(),
        Some(Request::Interface {
            command: Command::SetAddress,
            name: encode("eth0").unwrap(),
            payload: Payload::Address(SocketAddress::inet([0, 0, 0, 0])),
        })
    );
    assert_eq!(
        operation.resume(Ok(with_index(0))).finish(),
        Some(Ok(Outcome::Address([10, 1, 2, 3])))
    );
    assert_eq!(
        operation.resume(Err(Error::Request { code: libc::EPERM })).finish(),
        Some(Err(Error::Request { code: libc::EPERM }))
    );

    let mut kernel = Double::new(0, Some([10, 0, 0, 1]));
    let lo0 = handle("lo0", 1);
    assert_eq!(kernel.run(lo0.remove_ipv4()), Ok(Outcome::Address([10, 0, 0, 1])));
    assert_eq!(kernel.address, None);
    assert_eq!(
        kernel.run(lo0.ipv4()),
        Err(Error::NotConfigured { code: libc::EADDRNOTAVAIL })
    );
}

#[test]
fn remove_ipv4_writes_nothing_without_an_address() {
    let mut kernel = Double::new(0, None);
    assert_eq!(
        kernel.run(handle("lo0", 1).remove_ipv4()),
        Err(Error::NotConfigured { code: libc::EADDRNOTAVAIL })
    );
    assert_eq!(kernel.requests, vec![query(Command::GetAddress, "lo0")]);
}

#[test]
fn set_then_get_round_trips_through_the_double() {
    let mut kernel = Double::new(0, None);
    let lo0 = handle("lo0", 1);
    assert_eq!(kernel.run(lo0.set_ipv4([172, 16, 0, 5])), Ok(Outcome::Done));
    assert_eq!(kernel.run(lo0.ipv4()), Ok(Outcome::Address([172, 16, 0, 5])));
}
