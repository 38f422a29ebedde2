//! Interface handles and the operations on them.
//!
//! An operation is a short conversation with the kernel. [`Operation`] holds
//! how far the conversation has come: it names the request to make next, and
//! takes in the outcome of the [`crate::exchange::Exchange`] that carried it.
//! Most operations need one request; those that change a part of what the
//! kernel holds read it first and write it back with the change made.

use vstd::prelude::*;
use crate::error::Error;
use crate::flags;
use crate::name;
use crate::request::{
    address_update, ask, flags_update, query, write_address, write_flags, Command, Payload, Record,
    Reply, Request, SocketAddress,
};
use crate::sys;

verus! {

/// A network interface of the host: the name under which the kernel knows it
/// and the index that the kernel gave it.
///
/// A handle is plain data. It is made when a name is resolved, is never
/// changed afterwards, and holds no resource of the kernel: the interface may
/// disappear while the handle lives on, and operations on it then fail.
///
/// The name field of a handle is always terminated within its width. The
/// bytes before the terminator are whatever the kernel accepts as a name;
/// they need not be text.
#[derive(Clone, Copy, Debug, PartialEq, Eq)]
pub struct Interface {
    name: [u8; 16],
    index: u32,
}

/// What an operation that succeeded hands back.
#[derive(Clone, Copy, Debug, PartialEq, Eq)]
pub enum Outcome {
    /// The handle of the interface that was resolved.
    Handle(Interface),
    /// The interface was changed as asked.
    Done,
    /// An IPv4 address, netmask or broadcast address.
    Address([u8; 4]),
    /// A hardware address.
    Hardware([u8; 6]),
    /// Whether the interface is administratively enabled.
    Enabled(bool),
}

/// The addresses of an interface that can be read.
#[derive(Clone, Copy, Debug, PartialEq, Eq)]
pub enum Attribute {
    Ipv4,
    Netmask,
    Broadcast,
    Hardware,
}

/// An operation on an interface, at some point of its course.
#[derive(Clone, Copy, Debug, PartialEq, Eq)]
pub enum Operation {
    /// Resolving `name` to a handle.
    Resolve { name: [u8; 16] },
    /// Asking whether the interface is enabled.
    Inspect { name: [u8; 16] },
    /// Enabling (`up`) or disabling the interface: the flags are being read.
    Toggle { name: [u8; 16], up: bool },
    /// Reading an address. `absent` is the OS error with which the kernel
    /// says that the interface has no such address.
    Read { name: [u8; 16], attribute: Attribute, absent: i32 },
    /// Removing the IPv4 address: the present address is being read.
    Remove { name: [u8; 16], absent: i32 },
    /// The last request of an operation: if the kernel accepts it, the
    /// operation succeeds with `outcome`.
    Commit { request: Request, outcome: Outcome },
    /// The operation is over.
    Finished { result: Result<Outcome, Error> },
}

/// The handle for a name field and an index, if the field is terminated.
pub open spec fn assembled(field: [u8; 16], index: u32) -> Result<Interface, Error> {
    if name::terminated(field@) {
        Ok(Interface::of(field, index))
    } else {
        Err(Error::Malformed)
    }
}

/// `code` is one of the numbers under which a Linux platform knows the OS
/// error "no such address".
pub open spec fn names_absence(code: i32) -> bool {
    code == 99 || code == 126 || code == 49
}

/// `operation` is about to read `attribute` of the interface called `name`.
pub open spec fn reads(operation: Operation, name: [u8; 16], attribute: Attribute) -> bool {
    operation matches Operation::Read { name: of, attribute: asked, absent } && of == name
        && asked == attribute && names_absence(absent)
}

impl Attribute {
    /// The request that reads the attribute.
    pub open spec fn command(self) -> Command {
        match self {
            Attribute::Ipv4 => Command::GetAddress,
            Attribute::Netmask => Command::GetNetmask,
            Attribute::Broadcast => Command::GetBroadcast,
            Attribute::Hardware => Command::GetHardware,
        }
    }

    /// What the kernel's answer says about the attribute: the octets at the
    /// place where an answer of that kind keeps them, whatever family the
    /// answer names.
    pub open spec fn value(self, address: SocketAddress) -> Outcome {
        match self {
            Attribute::Hardware => Outcome::Hardware(address.link_octets()),
            _ => Outcome::Address(address.inet_octets()),
        }
    }

    /// The request that reads the attribute.
    pub fn query(self) -> (command: Command)
        ensures
            command == self.command(),
    {
        match self {
            Attribute::Ipv4 => Command::GetAddress,
            Attribute::Netmask => Command::GetNetmask,
            Attribute::Broadcast => Command::GetBroadcast,
            Attribute::Hardware => Command::GetHardware,
        }
    }

    /// Reads the attribute out of the kernel's answer.
    pub fn read(self, address: &SocketAddress) -> (found: Outcome)
        ensures
            found == self.value(*address),
    {
        match self {
            Attribute::Hardware => Outcome::Hardware(address.physical()),
            _ => Outcome::Address(address.ipv4()),
        }
    }
}

impl Operation {
    /// The request that the operation waits on, if it is not over.
    pub open spec fn request(self) -> Option<Request> {
        match self {
            Operation::Resolve { name } => Some(query(Command::GetIndex, name)),
            Operation::Inspect { name } => Some(query(Command::GetFlags, name)),
            Operation::Toggle { name, .. } => Some(query(Command::GetFlags, name)),
            Operation::Read { name, attribute, .. } => Some(query(attribute.command(), name)),
            Operation::Remove { name, .. } => Some(query(Command::GetAddress, name)),
            Operation::Commit { request, .. } => Some(request),
            Operation::Finished { .. } => None,
        }
    }

    /// The result of the operation, once it is over.
    pub open spec fn result(self) -> Option<Result<Outcome, Error>> {
        match self {
            Operation::Finished { result } => Some(result),
            _ => None,
        }
    }

    /// What a failed exchange means for the operation. Where an address was
    /// asked for and the kernel rejected the request with the OS error that
    /// stands for "no such address", the address is not configured, and the
    /// failure says so under that same OS error; every other failure is
    /// passed on as it is.
    pub open spec fn failure(self, error: Error) -> Error {
        match self {
            Operation::Read { absent, .. } | Operation::Remove { absent, .. } => classified(
                error,
                absent,
            ),
            _ => error,
        }
    }

    /// The operation after the kernel answered its request with `record`.
    pub open spec fn answered(self, record: Record) -> Operation {
        match self {
            Operation::Resolve { name } => Operation::Finished {
                result: match assembled(name, record.index) {
                    Ok(handle) => Ok(Outcome::Handle(handle)),
                    Err(error) => Err(error),
                },
            },
            Operation::Inspect { .. } => Operation::Finished {
                result: Ok(Outcome::Enabled(flags::enabled(record.flags))),
            },
            Operation::Toggle { name, up } => Operation::Commit {
                request: flags_update(
                    name,
                    if up {
                        flags::raised(record.flags)
                    } else {
                        flags::lowered(record.flags)
                    },
                ),
                outcome: Outcome::Done,
            },
            Operation::Read { attribute, .. } => Operation::Finished {
                result: Ok(attribute.value(record.address)),
            },
            Operation::Remove { name, .. } => Operation::Commit {
                request: address_update(
                    Command::SetAddress,
                    name,
                    SocketAddress::of_inet([0, 0, 0, 0]),
                ),
                outcome: Attribute::Ipv4.value(record.address),
            },
            Operation::Commit { outcome, .. } => Operation::Finished { result: Ok(outcome) },
            Operation::Finished { .. } => self,
        }
    }

    /// The operation after the exchange that carried its request ended in
    /// `outcome`.
    ///
    /// A failed exchange ends the operation with that failure. So does an
    /// answer that is not a per-interface record. An operation that is over
    /// stays as it is.
    pub open spec fn resumed(self, outcome: Result<Reply, Error>) -> Operation {
        match self {
            Operation::Finished { .. } => self,
            _ => match outcome {
                Err(error) => Operation::Finished { result: Err(self.failure(error)) },
                Ok(Reply::Enumerate { .. }) => Operation::Finished {
                    result: Err(Error::Unexpected),
                },
                Ok(Reply::Interface(record)) => self.answered(record),
            },
        }
    }

    /// The request to make next, or `None` if the operation is over.
    pub fn pending(&self) -> (request: Option<Request>)
        ensures
            request == self.request(),
    {
        match self {
            Operation::Resolve { name } => Some(ask(Command::GetIndex, *name)),
            Operation::Inspect { name } => Some(ask(Command::GetFlags, *name)),
            Operation::Toggle { name, .. } => Some(ask(Command::GetFlags, *name)),
            Operation::Read { name, attribute, .. } => Some(ask(attribute.query(), *name)),
            Operation::Remove { name, .. } => Some(ask(Command::GetAddress, *name)),
            Operation::Commit { request, .. } => Some(*request),
            Operation::Finished { .. } => None,
        }
    }

    /// Takes in the outcome of the exchange that carried the pending request.
    pub fn resume(self, outcome: Result<Reply, Error>) -> (next: Operation)
        ensures
            next == self.resumed(outcome),
    {
        if let Operation::Finished { .. } = self {
            return self;
        }
        match outcome {
            Err(error) => Operation::Finished { result: Err(self.explain(error)) },
            Ok(Reply::Enumerate { .. }) => Operation::Finished { result: Err(Error::Unexpected) },
            Ok(Reply::Interface(record)) => self.answer(&record),
        }
    }

    /// Hands out the result of the operation, if it is over.
    pub fn finish(self) -> (result: Option<Result<Outcome, Error>>)
        ensures
            result == self.result(),
    {
        match self {
            Operation::Finished { result } => Some(result),
            _ => None,
        }
    }

    /// Says what a failed exchange means for the operation.
    fn explain(&self, error: Error) -> (failure: Error)
        ensures
            failure == self.failure(error),
    {
        match self {
            Operation::Read { absent, .. } => not_configured(error, *absent),
            Operation::Remove { absent, .. } => not_configured(error, *absent),
            _ => error,
        }
    }

    /// Takes in the kernel's answer to the pending request.
    fn answer(self, record: &Record) -> (next: Operation)
        ensures
            next == self.answered(*record),
    {
        match self {
            Operation::Resolve { name } => Operation::Finished {
                result: match Interface::assemble(name, record.index) {
                    Ok(handle) => Ok(Outcome::Handle(handle)),
                    Err(error) => Err(error),
                },
            },
            Operation::Inspect { .. } => Operation::Finished {
                result: Ok(Outcome::Enabled(flags::is_enabled(record.flags))),
            },
            Operation::Toggle { name, up } => {
                let flags = if up {
                    flags::raise(record.flags)
                } else {
                    flags::lower(record.flags)
                };
                Operation::Commit { request: write_flags(name, flags), outcome: Outcome::Done }
            },
            Operation::Read { attribute, .. } => Operation::Finished {
                result: Ok(attribute.read(&record.address)),
            },
            Operation::Remove { name, .. } => Operation::Commit {
                request: write_address(
                    Command::SetAddress,
                    name,
                    SocketAddress::inet([0, 0, 0, 0]),
                ),
                outcome: Attribute::Ipv4.read(&record.address),
            },
            Operation::Commit { outcome, .. } => Operation::Finished { result: Ok(outcome) },
            Operation::Finished { result } => Operation::Finished { result },
        }
    }
}

/// The failure of a query for an address, given that `absent` is the OS
/// error which stands for "no such address": a request rejected with that
/// error becomes [`Error::NotConfigured`] and keeps the error's code; every
/// other failure stays as it is.
pub open spec fn classified(error: Error, absent: i32) -> Error {
    if error == (Error::Request { code: absent }) {
        Error::NotConfigured { code: absent }
    } else {
        error
    }
}

/// Turns the rejection of a request with the OS error `absent` into
/// [`Error::NotConfigured`] with that code, and leaves every other failure
/// as it is.
pub fn not_configured(error: Error, absent: i32) -> (failure: Error)
    ensures
        failure == classified(error, absent),
{
    match error {
        Error::Request { code } => if code == absent {
            Error::NotConfigured { code }
        } else {
            error
        },
        _ => error,
    }
}

impl Interface {
    #[verifier::type_invariant]
    spec fn sound(self) -> bool {
        name::terminated(self.name@)
    }

    /// The handle that holds the given name field and index.
    pub closed spec fn of(field: [u8; 16], index: u32) -> Interface {
        Interface { name: field, index }
    }

    /// The name field of the handle.
    pub closed spec fn field(self) -> [u8; 16] {
        self.name
    }

    /// The index of the handle.
    pub closed spec fn number(self) -> u32 {
        self.index
    }

    /// The name field of the handle is terminated. This holds of every
    /// handle that the library hands out.
    pub open spec fn wf(self) -> bool {
        name::terminated(self.field()@)
    }

    /// The name of the interface is text: the bytes before the terminator of
    /// its name field are UTF-8. This holds of every handle that comes from
    /// [`Interface::open`]; a handle that comes from an enumeration holds the
    /// name that the kernel gave, which may be any bytes.
    pub open spec fn readable(self) -> bool {
        name::well_formed(self.field()@)
    }

    /// The name of the interface, as text.
    pub open spec fn text(self) -> Seq<char>
        recommends
            self.readable(),
    {
        name::text(self.field()@)
    }

    /// A handle is its name field and its index, and nothing else.
    pub proof fn lemma_of(field: [u8; 16], index: u32)
        ensures
            Interface::of(field, index).field() == field,
            Interface::of(field, index).number() == index,
    {
    }

    /// Handles with the same name field and the same index are the same.
    pub proof fn lemma_same(self, other: Interface)
        requires
            self.field() == other.field(),
            self.number() == other.number(),
        ensures
            self == other,
    {
    }

    /// Makes the handle for a name field and an index, after checking that
    /// the field is terminated.
    pub(crate) fn assemble(field: [u8; 16], index: u32) -> (r: Result<Interface, Error>)
        ensures
            r == assembled(field, index),
    {
        match name::end(&field) {
            Some(_) => Ok(Interface { name: field, index }),
            None => Err(Error::Malformed),
        }
    }

    /// Begins to resolve `name` to a handle.
    ///
    /// A name that does not fit the kernel's name field, or that holds a
    /// terminator, is rejected here, before anything is asked of the kernel.
    /// Every other name, the empty one included, is put to the kernel.
    pub fn open(name: &str) -> (r: Result<Operation, Error>)
        ensures
            r is Ok <==> name::encodable(name@),
            r matches Ok(operation) ==> operation matches Operation::Resolve { name: field }
                && field@ == name::field_of(name@),
            r matches Err(error) ==> error == name::fault(name@) && error.encoding(),
    {
        match name::encode(name) {
            Ok(field) => Ok(Operation::Resolve { name: field }),
            Err(error) => Err(error),
        }
    }

    /// Begins to enable the interface: its flags are read and written back
    /// with the enabled bit set.
    pub fn up(&self) -> (operation: Operation)
        ensures
            operation == (Operation::Toggle { name: self.field(), up: true }),
    {
        Operation::Toggle { name: self.name, up: true }
    }

    /// Begins to disable the interface: its flags are read and written back
    /// with the enabled bit cleared.
    pub fn down(&self) -> (operation: Operation)
        ensures
            operation == (Operation::Toggle { name: self.field(), up: false }),
    {
        Operation::Toggle { name: self.name, up: false }
    }

    /// Begins to ask whether the interface is enabled.
    pub fn is_up(&self) -> (operation: Operation)
        ensures
            operation == (Operation::Inspect { name: self.field() }),
    {
        Operation::Inspect { name: self.name }
    }

    /// Begins to read `attribute`.
    pub fn read(&self, attribute: Attribute) -> (operation: Operation)
        ensures
            reads(operation, self.field(), attribute),
    {
        Operation::Read { name: self.name, attribute, absent: sys::eaddrnotavail() }
    }

    /// Begins to read the hardware address.
    pub fn physical(&self) -> (operation: Operation)
        ensures
            reads(operation, self.field(), Attribute::Hardware),
    {
        self.read(Attribute::Hardware)
    }

    /// Begins to read the IPv4 address.
    pub fn ipv4(&self) -> (operation: Operation)
        ensures
            reads(operation, self.field(), Attribute::Ipv4),
    {
        self.read(Attribute::Ipv4)
    }

    /// Begins to read the netmask.
    pub fn netmask(&self) -> (operation: Operation)
        ensures
            reads(operation, self.field(), Attribute::Netmask),
    {
        self.read(Attribute::Netmask)
    }

    /// Begins to read the broadcast address.
    pub fn broadcast(&self) -> (operation: Operation)
        ensures
            reads(operation, self.field(), Attribute::Broadcast),
    {
        self.read(Attribute::Broadcast)
    }

    /// Begins to write the hardware address, as that of an Ethernet device.
    pub fn set_physical(&self, address: [u8; 6]) -> (operation: Operation)
        ensures
            operation == (Operation::Commit {
                request: address_update(
                    Command::SetHardware,
                    self.field(),
                    SocketAddress::of_link(address),
                ),
                outcome: Outcome::Done,
            }),
    {
        Operation::Commit {
            request: write_address(Command::SetHardware, self.name, SocketAddress::link(address)),
            outcome: Outcome::Done,
        }
    }

    /// Begins to write the IPv4 address.
    pub fn set_ipv4(&self, address: [u8; 4]) -> (operation: Operation)
        ensures
            operation == (Operation::Commit {
                request: address_update(
                    Command::SetAddress,
                    self.field(),
                    SocketAddress::of_inet(address),
                ),
                outcome: Outcome::Done,
            }),
    {
        Operation::Commit {
            request: write_address(Command::SetAddress, self.name, SocketAddress::inet(address)),
            outcome: Outcome::Done,
        }
    }

    /// Begins to write the netmask.
    pub fn set_netmask(&self, netmask: [u8; 4]) -> (operation: Operation)
        ensures
            operation == (Operation::Commit {
                request: address_update(
                    Command::SetNetmask,
                    self.field(),
                    SocketAddress::of_inet(netmask),
                ),
                outcome: Outcome::Done,
            }),
    {
        Operation::Commit {
            request: write_address(Command::SetNetmask, self.name, SocketAddress::inet(netmask)),
            outcome: Outcome::Done,
        }
    }

    /// Begins to remove the IPv4 address: the present address is read, the
    /// all-zero address is written in its place, and the address that was
    /// read is the result.
    pub fn remove_ipv4(&self) -> (operation: Operation)
        ensures
            operation matches Operation::Remove { name, absent } && name == self.field()
                && names_absence(absent),
    {
        Operation::Remove { name: self.name, absent: sys::eaddrnotavail() }
    }

    /// Tells whether the name of the interface is text, so that
    /// [`Interface::name`] can read it.
    pub fn is_text(&self) -> (yes: bool)
        ensures
            yes == self.readable(),
    {
        name::decode(&self.name).is_some()
    }

    /// The name of the interface. It can be read as text only where it is
    /// text; [`Interface::is_text`] tells, and [`Interface::name_field`]
    /// gives the bytes in every case.
    pub fn name(&self) -> (name: &str)
        requires
            self.readable(),
        ensures
            name@ == self.text(),
    {
        match name::decode(&self.name) {
            Some(name) => name,
            None => "",
        }
    }

    /// The name field of the interface, as the kernel holds it.
    pub fn name_field(&self) -> (field: [u8; 16])
        ensures
            self.wf(),
            field == self.field(),
    {
        proof {
            use_type_invariant(self);
        }
        self.name
    }

    /// The index that the kernel gave the interface.
    pub fn index(&self) -> (index: u32)
        ensures
            index == self.number(),
    {
        self.index
    }
}

/// Resolving a name that can be stored gives a handle whose name is that
/// name, unchanged, and whose index is the one the kernel answered with. A
/// failed exchange gives that failure and no handle.
pub proof fn lemma_open_keeps_name(
    name: Seq<char>,
    field: [u8; 16],
    outcome: Result<Reply, Error>,
)
    requires
        name::encodable(name),
        field@ == name::field_of(name),
    ensures
        ({
            let operation = Operation::Resolve { name: field };
            &&& operation.request() == Some(query(Command::GetIndex, field))
            &&& match outcome {
                Ok(Reply::Interface(record)) => {
                    &&& operation.resumed(outcome).result() matches Some(
                        Ok(Outcome::Handle(handle)),
                    )
                    &&& handle.wf()
                    &&& handle.readable()
                    &&& handle.text() == name
                    &&& handle.field() == field
                    &&& handle.number() == record.index
                },
                Ok(Reply::Enumerate { .. }) => operation.resumed(outcome).result() == Some(
                    Err::<Outcome, Error>(Error::Unexpected),
                ),
                Err(error) => operation.resumed(outcome).result() == Some(
                    Err::<Outcome, Error>(error),
                ),
            }
        }),
{
    name::lemma_round_trip(name);
}

/// Resolving a name field gives a handle exactly if the field is terminated
/// and the kernel answered; the handle then holds that very field, all
/// sixteen bytes of it, and the index of the answer. Whether the bytes of the
/// name are text plays no part.
pub proof fn lemma_resolve_keeps_field(field: [u8; 16], record: Record)
    ensures
        ({
            let operation = Operation::Resolve { name: field };
            let result = operation.resumed(Ok(Reply::Interface(record))).result();
            &&& operation.request() == Some(query(Command::GetIndex, field))
            &&& name::terminated(field@) ==> {
                &&& result matches Some(Ok(Outcome::Handle(handle)))
                &&& handle.wf()
                &&& handle.field() == field
                &&& handle.number() == record.index
                &&& handle.readable() == name::well_formed(field@)
            }
            &&& !name::terminated(field@) ==> result == Some(
                Err::<Outcome, Error>(Error::Malformed),
            )
        }),
{
}

/// Every request of an operation on a handle is addressed to the name that
/// the handle holds.
pub proof fn lemma_addressed_by_name(handle: Interface, operation: Operation)
    requires
        operation == (Operation::Toggle { name: handle.field(), up: true }) || operation == (
        Operation::Toggle { name: handle.field(), up: false }) || operation == (
        Operation::Inspect { name: handle.field() }) || (operation matches Operation::Read {
            name,
            ..
        } && name == handle.field()) || (operation matches Operation::Remove { name, .. } && name
            == handle.field()),
    ensures
        operation.request() matches Some(Request::Interface { name, payload, .. }) && name
            == handle.field() && payload == Payload::Empty,
{
}

/// Enabling or disabling an interface reads its flags and writes them back
/// with the enabled bit set or cleared and every other bit as it was read.
/// If a later query for the state is answered with the flags that were
/// written, it reports the interface enabled after `up` and disabled after
/// `down`.
pub proof fn lemma_toggle_then_inspect(name: [u8; 16], up: bool, read: Record, later: Record)
    ensures
        ({
            let toggle = Operation::Toggle { name, up };
            let written = if up {
                flags::raised(read.flags)
            } else {
                flags::lowered(read.flags)
            };
            let write = toggle.resumed(Ok(Reply::Interface(read)));
            &&& toggle.request() == Some(query(Command::GetFlags, name))
            &&& write.request() == Some(flags_update(name, written))
            &&& written & !flags::UP == read.flags & !flags::UP
            &&& flags::enabled(written) == up
            &&& write.resumed(Ok(Reply::Interface(later))).result() == Some(
                Ok::<Outcome, Error>(Outcome::Done),
            )
            &&& later.flags == written ==> (Operation::Inspect { name }).resumed(
                Ok(Reply::Interface(later)),
            ).result() == Some(Ok::<Outcome, Error>(Outcome::Enabled(up)))
        }),
{
    flags::lemma_toggle_touches_one_bit(read.flags);
}

/// Enabling an interface twice leaves it as enabling it once does: if the
/// second call reads the flags that the first one wrote, it writes those very
/// flags again, and succeeds as the first one did. The same holds of
/// disabling.
pub proof fn lemma_toggle_twice(name: [u8; 16], up: bool, read: Record, again: Record, done: Record)
    requires
        again.flags == (if up {
            flags::raised(read.flags)
        } else {
            flags::lowered(read.flags)
        }),
    ensures
        ({
            let toggle = Operation::Toggle { name, up };
            let first = toggle.resumed(Ok(Reply::Interface(read)));
            let second = toggle.resumed(Ok(Reply::Interface(again)));
            &&& second.request() == first.request()
            &&& second.request() == Some(flags_update(name, again.flags))
            &&& second.resumed(Ok(Reply::Interface(done))).result() == Some(
                Ok::<Outcome, Error>(Outcome::Done),
            )
        }),
{
    flags::lemma_toggle_idempotent(read.flags);
}

/// A query for an address never makes up an address, and never loses the OS
/// error of a failure.
///
/// If the kernel answers the query, the result is the four octets that the
/// answer holds, whatever they are. If the kernel rejects the query with the
/// OS error that stands for "no such address", the result is
/// [`Error::NotConfigured`] with that code, and never the zero address.
/// Every other failed exchange gives its own failure, so that a socket that
/// could not be created is told from an address that is not set.
pub proof fn lemma_absent_address_is_a_failure(
    name: [u8; 16],
    attribute: Attribute,
    absent: i32,
    outcome: Result<Reply, Error>,
)
    requires
        attribute != Attribute::Hardware,
    ensures
        ({
            let result = (Operation::Read { name, attribute, absent }).resumed(outcome).result();
            &&& result is Some
            &&& outcome == Err::<Reply, Error>(Error::Request { code: absent }) ==> {
                &&& result == Some(Err::<Outcome, Error>(Error::NotConfigured { code: absent }))
                &&& result->Some_0->Err_0.unset()
                &&& result->Some_0->Err_0.os_code() == Some(absent)
            }
            &&& outcome matches Err(error) ==> (error != (Error::Request { code: absent })
                ==> result == Some(Err::<Outcome, Error>(error)))
            &&& outcome matches Ok(Reply::Interface(record)) ==> result == Some(
                Ok::<Outcome, Error>(Outcome::Address(record.address.inet_octets())),
            )
            &&& result matches Some(Ok(_)) ==> outcome matches Ok(Reply::Interface(_))
        }),
{
}

/// No operation loses the OS error of a failed exchange: whatever failure
/// the exchange ended in, the operation ends in a failure that carries the
/// same code for the call that failed and the same code for the rejected
/// request, and that is a failure of the same stage unless it is a rejected
/// request found to mean "not set".
pub proof fn lemma_failure_keeps_code(operation: Operation, error: Error)
    requires
        !(operation is Finished),
    ensures
        ({
            let result = operation.resumed(Err(error)).result();
            &&& result matches Some(Err(failure))
            &&& failure.os_code() == error.os_code()
            &&& failure.rejection() == error.rejection()
            &&& failure == error || (error is Request && failure is NotConfigured)
            &&& failure is Socket <==> error is Socket
            &&& failure is Release <==> error is Release
        }),
{
}

/// Removing the IPv4 address reads the present address, writes the all-zero
/// address in its place and, if the kernel accepts that, returns the address
/// that was read. If the address cannot be read, nothing is written.
pub proof fn lemma_remove_returns_previous(
    name: [u8; 16],
    absent: i32,
    read: Result<Reply, Error>,
    written: Result<Reply, Error>,
)
    ensures
        ({
            let remove = Operation::Remove { name, absent };
            let next = remove.resumed(read);
            &&& remove.request() == Some(query(Command::GetAddress, name))
            &&& match read {
                Ok(Reply::Interface(record)) => {
                    &&& next.request() == Some(
                        address_update(
                            Command::SetAddress,
                            name,
                            SocketAddress::of_inet([0, 0, 0, 0]),
                        ),
                    )
                    &&& match written {
                        Ok(Reply::Interface(_)) => next.resumed(written).result() == Some(
                            Ok::<Outcome, Error>(Outcome::Address(record.address.inet_octets())),
                        ),
                        _ => next.resumed(written).result() matches Some(Err(_)),
                    }
                },
                _ => next.request() is None && next.result() matches Some(Err(_)),
            }
        }),
{
}

/// An operation is over after two exchanges at most, and once it is over it
/// asks for nothing and no outcome changes it.
pub proof fn lemma_operation_ends(
    operation: Operation,
    first: Result<Reply, Error>,
    second: Result<Reply, Error>,
)
    ensures
        operation is Finished <==> operation.request() is None,
        operation is Finished <==> operation.result() is Some,
        operation is Finished ==> operation.resumed(first) == operation,
        operation is Commit ==> operation.resumed(first) is Finished,
        operation.resumed(first).resumed(second) is Finished,
        first is Err ==> operation.resumed(first) is Finished,
{
}

} // verus!
