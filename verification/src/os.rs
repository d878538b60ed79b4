//! The platform syscall layer, behind trusted declarations.
//!
//! Everything here wraps one OS call each, through the `nix` crate, and is
//! the only code of the library that Verus takes on trust. Failures are
//! reported as the raw OS error number; verified callers classify it with
//! `MioError::from_errno`. Results that depend on the outside world (what
//! a descriptor holds, which registrations became ready) are deliberately
//! left unconstrained: the verified logic states what holds of every
//! outcome.

use nix::sys::epoll::{epoll_create, epoll_ctl, epoll_wait, EpollEvent, EpollFlags, EpollOp};
use crate::socket::SockAddr;
use nix::sys::socket::{accept4, bind, connect, getsockname, listen, socket};
use nix::sys::socket::{AddressFamily, SockFlag, SockProtocol, SockType, SockaddrIn, UnixAddr};
use std::io::Write;
use vstd::prelude::*;

verus! {

/// One readiness notification as the OS reports it: the raw event bits and
/// the 64-bit word the registration was made with.
#[derive(Clone, Copy, Debug)]
pub struct SysEvent {
    pub bits: u32,
    pub data: u64,
}

/// Which change a registration call asks of the poller.
#[derive(Clone, Copy, Debug, PartialEq, Eq, Structural)]
pub enum RegOp {
    Add,
    Modify,
    Delete,
}

/// Relies on nix::sys::epoll::epoll_create: creates a new epoll instance
/// and returns its descriptor, which is never negative on success.
#[verifier::external_body]
pub(crate) fn sys_epoll_create() -> (r: Result<i32, i32>)
    ensures
        r matches Ok(fd) ==> fd >= 0,
{
    epoll_create().map_err(|e| e as i32)
}

/// Relies on nix::sys::epoll::epoll_ctl: adds, modifies or removes one
/// descriptor's registration, carrying `data` and the interest bits built
/// from the flags given; reports the raw OS error otherwise (17 when an
/// added descriptor is already registered, 2 when a modified or removed one
/// is not).
#[verifier::external_body]
pub(crate) fn sys_epoll_ctl(
    epfd: i32,
    op: RegOp,
    fd: i32,
    data: u64,
    readable: bool,
    writable: bool,
    hangup: bool,
    edge: bool,
) -> (r: Result<(), i32>) {
    let mut flags = EpollFlags::empty();
    if readable { flags |= EpollFlags::EPOLLIN; }
    if writable { flags |= EpollFlags::EPOLLOUT; }
    if hangup { flags |= EpollFlags::EPOLLRDHUP; }
    if edge { flags |= EpollFlags::EPOLLET; }
    let nop = match op {
        RegOp::Add => EpollOp::EpollCtlAdd,
        RegOp::Modify => EpollOp::EpollCtlMod,
        RegOp::Delete => EpollOp::EpollCtlDel,
    };
    let mut ev = EpollEvent::new(flags, data);
    epoll_ctl(epfd, nop, fd, &mut ev).map_err(|e| e as i32)
}

/// Relies on nix::sys::epoll::epoll_wait: blocks up to `timeout_ms` and
/// returns at most `max` notifications, each carrying the registered data
/// word and the ready-state bits the kernel reported.
#[verifier::external_body]
pub(crate) fn sys_epoll_wait(epfd: i32, max: usize, timeout_ms: i32) -> (r: Result<
    Vec<SysEvent>,
    i32,
>)
    requires
        timeout_ms >= 0,
    ensures
        r matches Ok(evs) ==> evs@.len() <= max,
{
    let mut buf = vec![EpollEvent::empty(); max];
    match epoll_wait(epfd, &mut buf, timeout_ms as isize) {
        Ok(n) => Ok(
            buf[..n].iter().map(
                |e| SysEvent { bits: e.events().bits() as u32, data: e.data() },
            ).collect(),
        ),
        Err(e) => Err(e as i32),
    }
}

/// Relies on nix::unistd::pipe2: creates a unidirectional byte pipe whose
/// two ends are both non-blocking, returned as (read end, write end).
#[verifier::external_body]
pub(crate) fn sys_pipe() -> (r: Result<(i32, i32), i32>) {
    nix::unistd::pipe2(nix::fcntl::OFlag::O_NONBLOCK | nix::fcntl::OFlag::O_CLOEXEC).map_err(
        |e| e as i32,
    )
}

/// Relies on nix::unistd::close: closes the descriptor; the peer end of a
/// pipe or stream observes a hang-up.
#[verifier::external_body]
pub(crate) fn sys_close(fd: i32) -> (r: Result<(), i32>) {
    nix::unistd::close(fd).map_err(|e| e as i32)
}

/// Relies on nix::unistd::read: reads at most `max` bytes from the
/// descriptor; which bytes arrive depends on the outside world. Reports 11
/// when the read would block.
#[verifier::external_body]
pub(crate) fn sys_read(fd: i32, max: usize) -> (r: Result<Vec<u8>, i32>)
    ensures
        r matches Ok(chunk) ==> chunk@.len() <= max,
{
    let mut buf = vec![0u8; max];
    match nix::unistd::read(fd, &mut buf) {
        Ok(n) => {
            buf.truncate(n);
            Ok(buf)
        },
        Err(e) => Err(e as i32),
    }
}

/// Relies on nix::unistd::write: writes a prefix of `bytes` to the
/// descriptor and returns how many bytes the OS accepted, never more than
/// were offered. Reports 11 when the write would block.
#[verifier::external_body]
pub(crate) fn sys_write(fd: i32, bytes: &[u8]) -> (r: Result<usize, i32>)
    ensures
        r matches Ok(n) ==> n <= bytes@.len(),
{
    nix::unistd::write(fd, bytes).map_err(|e| e as i32)
}

/// The two address families the library's stream sockets use.
#[derive(Clone, Copy, Debug, PartialEq, Eq, Structural)]
pub enum SocketFamily {
    Inet,
    Unix,
}

/// Relies on nix::sys::socket::socket: creates a non-blocking stream socket
/// of the given family.
#[verifier::external_body]
pub(crate) fn sys_socket_stream(family: SocketFamily) -> (r: Result<i32, i32>) {
    let af = match family {
        SocketFamily::Inet => AddressFamily::Inet,
        SocketFamily::Unix => AddressFamily::Unix,
    };
    let flags = SockFlag::SOCK_NONBLOCK | SockFlag::SOCK_CLOEXEC;
    socket(af, SockType::Stream, flags, Option::<SockProtocol>::None).map_err(|e| e as i32)
}

/// Relies on nix::sys::socket::connect: starts connecting the socket to
/// `addr` (an IPv4 endpoint, or an abstract-namespace Unix-domain name).
/// Returns whether the connect completed immediately; an in-progress
/// non-blocking connect (errno 115) is a success that has not completed
/// yet.
#[verifier::external_body]
pub(crate) fn sys_connect(fd: i32, addr: &SockAddr) -> (r: Result<bool, i32>) {
    let res = match addr {
        SockAddr::Inet { a, b, c, d, port } => connect(fd, &SockaddrIn::new(*a, *b, *c, *d, *port)),
        SockAddr::Unix { name } => match UnixAddr::new_abstract(name) {
            Ok(ua) => connect(fd, &ua),
            Err(e) => return Err(e as i32),
        },
    };
    match res {
        Ok(()) => Ok(true),
        Err(nix::errno::Errno::EINPROGRESS) => Ok(false),
        Err(e) => Err(e as i32),
    }
}

/// Relies on nix::sys::socket::bind: binds the socket to `addr` (an IPv4
/// endpoint, or an abstract-namespace Unix-domain name).
#[verifier::external_body]
pub(crate) fn sys_bind(fd: i32, addr: &SockAddr) -> (r: Result<(), i32>) {
    let res = match addr {
        SockAddr::Inet { a, b, c, d, port } => bind(fd, &SockaddrIn::new(*a, *b, *c, *d, *port)),
        SockAddr::Unix { name } => match UnixAddr::new_abstract(name) {
            Ok(ua) => bind(fd, &ua),
            Err(e) => return Err(e as i32),
        },
    };
    res.map_err(|e| e as i32)
}

/// Relies on nix::sys::socket::listen: marks the socket as accepting
/// connections, with the given backlog.
#[verifier::external_body]
pub(crate) fn sys_listen(fd: i32, backlog: usize) -> (r: Result<(), i32>) {
    listen(fd, backlog).map_err(|e| e as i32)
}

/// Relies on nix::sys::socket::accept4: takes one pending connection off a
/// listening socket and returns its descriptor, made non-blocking. Reports
/// 11 when no connection is pending.
#[verifier::external_body]
pub(crate) fn sys_accept(fd: i32) -> (r: Result<i32, i32>) {
    accept4(fd, SockFlag::SOCK_NONBLOCK | SockFlag::SOCK_CLOEXEC).map_err(|e| e as i32)
}

/// Relies on std::io::Stdout::write_fmt: reports an error-readiness event
/// on standard output, as the dispatch path does for the error kind.
#[verifier::external_body]
pub(crate) fn report_error_event() {
    let _ = writeln!(std::io::stdout(), " + ERROR");
}

/// Relies on nix::sys::socket::getsockname: the IPv4 address the socket is
/// bound to, as (host-order address word, port).
#[verifier::external_body]
pub(crate) fn sys_getsockname(fd: i32) -> (r: Result<(u32, u16), i32>) {
    match getsockname::<SockaddrIn>(fd) {
        Ok(sa) => Ok((sa.ip(), sa.port())),
        Err(e) => Err(e as i32),
    }
}

} // verus!
