//! A verified, I/O-free core for configuring Linux network interfaces.
//!
//! The kernel is reached through `ioctl` requests issued on a short-lived
//! control socket. This crate decides *what* to ask and *what the answers
//! mean*; it never performs a system call itself.
//!
//! * [`interface`] holds the handle of an interface and its operations:
//!   resolving a name, enabling and disabling, reading and writing addresses.
//!   Each is an [`interface::Operation`] that names the next request and
//!   takes in its outcome.
//! * [`listing`] enumerates the interfaces of the host in the same manner.
//! * [`exchange`] carries one request: it names the system calls to make
//!   (socket, ioctl, close) as [`exchange::Action`]s and takes in their raw
//!   results as [`exchange::Event`]s.
//! * [`request`], [`name`], [`flags`] and [`error`] hold the values that
//!   pass between them, and [`text`] renders a handle for diagnostics.
//! * `sys` holds what is taken on trust from the platform: the numbers
//!   that the C library fixes and the standard library's UTF-8 check.
//!
//! A caller loops over an operation's requests, and for each request over
//! the actions of an exchange, until the operation hands out its result.

pub mod error;
pub mod exchange;
pub mod flags;
pub mod interface;
pub mod listing;
pub mod name;
pub mod request;
mod sys;
pub mod text;
