//! One request to the kernel, from the opening of the control socket to its
//! release.
//!
//! An [`Exchange`] performs no system call. It names the next call to make as
//! an [`Action`]; the caller makes it and reports what came back as an
//! [`Event`]. Whatever the kernel answers, an exchange opens one socket,
//! issues one request on it and closes it again; if the socket cannot be had,
//! nothing else is attempted.

use vstd::prelude::*;
use crate::error::Error;
use crate::request::{Reply, Request, INET};
use crate::sys;

verus! {

/// The value with which a system call reports that it failed.
pub const FAILED: i32 = -1;

/// A system call for the caller to make.
#[derive(Clone, Copy, Debug, PartialEq, Eq)]
pub enum Action {
    /// Create a socket: `socket(domain, kind, protocol)`.
    Socket { domain: i32, kind: i32, protocol: i32 },
    /// Issue `request` on `socket`: `ioctl(socket, code, ..)`.
    Ioctl { socket: i32, code: u64, request: Request },
    /// Release the socket: `close(socket)`.
    Close { socket: i32 },
    /// Nothing: the exchange is over.
    Finished,
}

/// What a system call returned: its result, and the OS error that was set if
/// the result says that it failed.
#[derive(Debug, PartialEq, Eq)]
pub enum Event {
    /// `socket` returned.
    Socket { result: i32, errno: i32 },
    /// `ioctl` returned; `reply` is what the kernel left behind.
    Ioctl { result: i32, errno: i32, reply: Reply },
    /// `close` returned.
    Close { result: i32, errno: i32 },
}

/// How far an exchange has come.
#[derive(Debug, PartialEq, Eq)]
pub enum Stage {
    /// No socket yet.
    Open,
    /// The socket is there, the request has not been issued.
    Issue { socket: i32 },
    /// The request has been answered, with a reply or with an OS error; the
    /// socket is still to be released.
    Release { socket: i32, verdict: Result<Reply, i32> },
    /// The exchange is over.
    Finished { outcome: Result<Reply, Error> },
}

/// The outcome of an exchange whose request ended in `verdict` and whose
/// socket was then closed with the given result.
///
/// A failed release is always reported, together with the failure of the
/// request if there was one.
pub open spec fn settled(verdict: Result<Reply, i32>, result: i32, errno: i32) -> Result<
    Reply,
    Error,
> {
    if result == FAILED {
        Err(
            Error::Release {
                code: errno,
                request: match verdict {
                    Ok(_) => None,
                    Err(code) => Some(code),
                },
            },
        )
    } else {
        match verdict {
            Ok(reply) => Ok(reply),
            Err(code) => Err(Error::Request { code }),
        }
    }
}

impl Stage {
    /// Whether `event` reports on the call that this stage waits for.
    pub open spec fn awaits(self, event: Event) -> bool {
        ||| self is Open && event is Socket
        ||| self is Issue && event is Ioctl
        ||| self is Release && event is Close
    }

    /// The stage that follows when `event` arrives. An event that reports on
    /// a call which was not asked for changes nothing.
    pub open spec fn after(self, event: Event) -> Stage {
        match (self, event) {
            (Stage::Open, Event::Socket { result, errno }) => if result == FAILED {
                Stage::Finished { outcome: Err(Error::Socket { code: errno }) }
            } else {
                Stage::Issue { socket: result }
            },
            (Stage::Issue { socket }, Event::Ioctl { result, errno, reply }) => Stage::Release {
                socket,
                verdict: if result == FAILED {
                    Err(errno)
                } else {
                    Ok(reply)
                },
            },
            (Stage::Release { verdict, .. }, Event::Close { result, errno }) => Stage::Finished {
                outcome: settled(verdict, result, errno),
            },
            _ => self,
        }
    }
}

/// One request on its way to the kernel and back.
#[derive(Debug, PartialEq, Eq)]
pub struct Exchange {
    /// What is asked.
    pub request: Request,
    /// The socket type of the control socket, as the platform numbers it.
    pub kind: i32,
    /// How far the exchange has come.
    pub stage: Stage,
}

impl Exchange {
    /// The call that the exchange waits for.
    pub open spec fn next(self) -> Action {
        match self.stage {
            Stage::Open => Action::Socket { domain: INET as i32, kind: self.kind, protocol: 0 },
            Stage::Issue { socket } => Action::Ioctl {
                socket,
                code: self.request.number(),
                request: self.request,
            },
            Stage::Release { socket, .. } => Action::Close { socket },
            Stage::Finished { .. } => Action::Finished,
        }
    }

    /// The exchange after `event`.
    pub open spec fn after(self, event: Event) -> Exchange {
        Exchange { request: self.request, kind: self.kind, stage: self.stage.after(event) }
    }

    /// The exchange after each of `events` in turn.
    pub open spec fn run(self, events: Seq<Event>) -> Exchange
        decreases events.len(),
    {
        if events.len() == 0 {
            self
        } else {
            self.run(events.drop_last()).after(events.last())
        }
    }

    /// The calls that were made in the course of `events`: those that the
    /// exchange asked for and got an answer to.
    pub open spec fn made(self, events: Seq<Event>) -> Seq<Action>
        decreases events.len(),
    {
        if events.len() == 0 {
            seq![]
        } else {
            let before = self.run(events.drop_last());
            let made = self.made(events.drop_last());
            if before.stage.awaits(events.last()) {
                made.push(before.next())
            } else {
                made
            }
        }
    }

    /// The outcome of the exchange, once it is over.
    pub open spec fn outcome(self) -> Option<Result<Reply, Error>> {
        match self.stage {
            Stage::Finished { outcome } => Some(outcome),
            _ => None,
        }
    }

    /// Starts an exchange for `request`. The control socket will be a
    /// datagram socket, under the number that the platform gives that type.
    pub fn new(request: Request) -> (exchange: Exchange)
        ensures
            exchange.request == request,
            exchange.stage == Stage::Open,
            exchange.kind == 1 || exchange.kind == 2,
    {
        Exchange { request, kind: sys::sock_dgram(), stage: Stage::Open }
    }

    /// The call to make next: a socket in the IPv4 family, then the request
    /// on that socket, then the release of that socket.
    pub fn action(&self) -> (action: Action)
        ensures
            action == self.next(),
    {
        match &self.stage {
            Stage::Open => Action::Socket {
                domain: sys::af_inet() as i32,
                kind: self.kind,
                protocol: 0,
            },
            Stage::Issue { socket } => Action::Ioctl {
                socket: *socket,
                code: self.request.code(),
                request: self.request,
            },
            Stage::Release { socket, .. } => Action::Close { socket: *socket },
            Stage::Finished { .. } => Action::Finished,
        }
    }

    /// Takes in what the call returned.
    ///
    /// A socket that could not be created ends the exchange. A request that
    /// failed does not: the socket is released first. An event that does not
    /// report on the call that was asked for is ignored.
    pub fn step(self, event: Event) -> (next: Exchange)
        ensures
            next == self.after(event),
    {
        let Exchange { request, kind, stage } = self;
        let stage = match stage {
            Stage::Open => match event {
                Event::Socket { result, errno } => if result == FAILED {
                    Stage::Finished { outcome: Err(Error::Socket { code: errno }) }
                } else {
                    Stage::Issue { socket: result }
                },
                _ => Stage::Open,
            },
            Stage::Issue { socket } => match event {
                Event::Ioctl { result, errno, reply } => if result == FAILED {
                    Stage::Release { socket, verdict: Err(errno) }
                } else {
                    Stage::Release { socket, verdict: Ok(reply) }
                },
                _ => Stage::Issue { socket },
            },
            Stage::Release { socket, verdict } => match event {
                Event::Close { result, errno } => Stage::Finished {
                    outcome: settle(verdict, result, errno),
                },
                _ => Stage::Release { socket, verdict },
            },
            Stage::Finished { outcome } => Stage::Finished { outcome },
        };
        Exchange { request, kind, stage }
    }

    /// Whether the exchange is over.
    pub fn is_finished(&self) -> (yes: bool)
        ensures
            yes == (self.stage is Finished),
    {
        match &self.stage {
            Stage::Finished { .. } => true,
            _ => false,
        }
    }

    /// Hands out the outcome of the exchange, if it is over.
    pub fn finish(self) -> (outcome: Option<Result<Reply, Error>>)
        ensures
            outcome == self.outcome(),
    {
        match self.stage {
            Stage::Finished { outcome } => Some(outcome),
            _ => None,
        }
    }
}

/// Decides the outcome of an exchange from the verdict on its request and
/// the result of closing its socket.
pub fn settle(verdict: Result<Reply, i32>, result: i32, errno: i32) -> (outcome: Result<
    Reply,
    Error,
>)
    ensures
        outcome == settled(verdict, result, errno),
{
    if result == FAILED {
        let request = match verdict {
            Ok(_) => None,
            Err(code) => Some(code),
        };
        Err(Error::Release { code: errno, request })
    } else {
        match verdict {
            Ok(reply) => Ok(reply),
            Err(code) => Err(Error::Request { code }),
        }
    }
}

/// The calls of an exchange come in one order and each at most once: a
/// socket is created; only if that succeeded the request is issued, once, on
/// that socket; and whatever the request came to, that same socket is then
/// closed. The exchange is over after a socket that could not be created, or
/// after the close, and at no other point.
pub proof fn lemma_calls_in_order(request: Request, kind: i32, events: Seq<Event>)
    ensures
        ({
            let start = Exchange { request, kind, stage: Stage::Open };
            let end = start.run(events);
            let made = start.made(events);
            let socket_call = Action::Socket { domain: INET as i32, kind, protocol: 0 };
            &&& end.request == request
            &&& end.kind == kind
            &&& match end.stage {
                Stage::Open => made == Seq::<Action>::empty(),
                Stage::Issue { socket } => made == seq![socket_call],
                Stage::Release { socket, .. } => made == seq![
                    socket_call,
                    Action::Ioctl { socket, code: request.number(), request },
                ],
                Stage::Finished { outcome } => {
                    ||| made == seq![socket_call] && outcome is Err && outcome->Err_0 is Socket
                    ||| exists|socket: i32|
                        {
                            &&& made == seq![
                                socket_call,
                                Action::Ioctl { socket, code: request.number(), request },
                                Action::Close { socket },
                            ]
                            &&& !(outcome is Err && outcome->Err_0 is Socket)
                        }
                },
            }
        }),
    decreases events.len(),
{
    let start = Exchange { request, kind, stage: Stage::Open };
    if events.len() > 0 {
        lemma_calls_in_order(request, kind, events.drop_last());
        let before = start.run(events.drop_last());
        let made = start.made(events.drop_last());
        let event = events.last();
        let socket_call = Action::Socket { domain: INET as i32, kind, protocol: 0 };
        match before.stage {
            Stage::Open => {
                assert(made.push(socket_call) =~= seq![socket_call]);
            },
            Stage::Issue { socket } => {
                let call = Action::Ioctl { socket, code: request.number(), request };
                assert(seq![socket_call].push(call) =~= seq![socket_call, call]);
            },
            Stage::Release { socket, .. } => {
                let call = Action::Ioctl { socket, code: request.number(), request };
                let close = Action::Close { socket };
                assert(seq![socket_call, call].push(close) =~= seq![socket_call, call, close]);
            },
            Stage::Finished { .. } => {},
        }
    }
}

/// An exchange is over exactly when it has an outcome, and then it asks for
/// no further call and no event changes it.
pub proof fn lemma_finished_is_final(exchange: Exchange, event: Event)
    ensures
        exchange.stage is Finished <==> exchange.outcome() is Some,
        exchange.stage is Finished <==> exchange.next() is Finished,
        exchange.stage is Finished ==> exchange.after(event) == exchange,
{
}

} // verus!
