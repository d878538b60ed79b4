//! Socket-like handles: IPv4 and Unix-domain stream sockets, acceptors, and
//! the plain-value address type the connect/bind/listen helpers work with.

use crate::buf::ByteBuf;
use crate::error::MioError;
use crate::error::MioResult;
use crate::io::read_desc;
use crate::io::write_desc;
use crate::io::IoAcceptor;
use crate::io::IoDesc;
use crate::io::IoHandle;
use crate::io::IoReader;
use crate::io::IoWriter;
use crate::io::NonBlock;
use crate::os;
use vstd::prelude::*;

verus! {

/// A socket address as plain values: either an IPv4 endpoint (four octets
/// and a port) or an abstract-namespace Unix-domain name.
#[derive(Clone, Debug)]
pub enum SockAddr {
    Inet { a: u8, b: u8, c: u8, d: u8, port: u16 },
    Unix { name: Vec<u8> },
}

impl SockAddr {
    /// An IPv4 address from its four octets and port.
    pub fn v4(a: u8, b: u8, c: u8, d: u8, port: u16) -> (s: SockAddr)
        ensures
            s == (SockAddr::Inet { a, b, c, d, port }),
    {
        SockAddr::Inet { a, b, c, d, port }
    }

    /// An abstract-namespace Unix-domain address of the given name.
    pub fn unix(name: &[u8]) -> (s: SockAddr)
        ensures
            s matches SockAddr::Unix { name: n } && n@ == name@,
    {
        SockAddr::Unix { name: vstd::slice::slice_to_vec(name) }
    }

    /// An IPv4 address from a host-order 32-bit word and port: the octets
    /// are the word's bytes, most significant first.
    pub fn from_parts(ip: u32, port: u16) -> (s: SockAddr)
        ensures
            s == (SockAddr::Inet {
                a: ((ip >> 24) & 0xff) as u8,
                b: ((ip >> 16) & 0xff) as u8,
                c: ((ip >> 8) & 0xff) as u8,
                d: (ip & 0xff) as u8,
                port,
            }),
    {
        proof {
            assert((ip >> 24) & 0xff < 256 && (ip >> 16) & 0xff < 256 && (ip >> 8) & 0xff < 256
                && ip & 0xff < 256) by (bit_vector);
        }
        SockAddr::Inet {
            a: ((ip >> 24) & 0xff) as u8,
            b: ((ip >> 16) & 0xff) as u8,
            c: ((ip >> 8) & 0xff) as u8,
            d: (ip & 0xff) as u8,
            port,
        }
    }
}

/// A connectable handle: what the reactor's `connect` helper accepts.
pub trait Socket: IoHandle {

}

/// A non-blocking IPv4 stream socket.
pub struct TcpSocket {
    desc: IoDesc,
}

impl IoHandle for TcpSocket {
    fn desc(&self) -> &IoDesc {
        &self.desc
    }
}

impl Socket for TcpSocket {

}

impl TcpSocket {
    /// Creates a non-blocking IPv4 stream socket.
    pub fn v4() -> (r: MioResult<TcpSocket>) {
        match os::sys_socket_stream(os::SocketFamily::Inet) {
            Ok(fd) => Ok(TcpSocket { desc: IoDesc { fd } }),
            Err(code) => Err(MioError::from_errno(code)),
        }
    }

    /// Binds the socket to `addr` and turns it into an acceptor, ready for
    /// the reactor's `listen` helper.
    pub fn bind(self, addr: &SockAddr) -> (r: MioResult<TcpAcceptor>) {
        match os::sys_bind(self.desc.fd, addr) {
            Ok(()) => Ok(TcpAcceptor { desc: self.desc }),
            Err(code) => Err(MioError::from_errno(code)),
        }
    }
}

impl IoReader for TcpSocket {
    fn read(&mut self, buf: &mut ByteBuf) -> MioResult<NonBlock<usize>> {
        read_desc(&self.desc, buf)
    }
}

impl IoWriter for TcpSocket {
    fn write(&mut self, buf: &mut ByteBuf) -> MioResult<NonBlock<usize>> {
        write_desc(&self.desc, buf)
    }
}

/// A bound IPv4 stream socket that accepts connections once the reactor's
/// `listen` helper has marked it listening.
pub struct TcpAcceptor {
    desc: IoDesc,
}

impl IoHandle for TcpAcceptor {
    fn desc(&self) -> &IoDesc {
        &self.desc
    }
}

impl TcpAcceptor {
    /// The address the acceptor is bound to — useful after binding port 0,
    /// which asks the OS to pick a free port.
    pub fn local_addr(&self) -> (r: MioResult<SockAddr>)
        ensures
            r matches Ok(s) ==> s is Inet,
    {
        match os::sys_getsockname(self.desc.fd) {
            Ok((ip, port)) => Ok(SockAddr::from_parts(ip, port)),
            Err(code) => Err(MioError::from_errno(code)),
        }
    }
}

impl IoAcceptor<TcpSocket> for TcpAcceptor {
    /// One pending connection as a fresh non-blocking socket, or
    /// `WouldBlock` when none is pending.
    fn accept(&mut self) -> MioResult<NonBlock<TcpSocket>> {
        match os::sys_accept(self.desc.fd) {
            Ok(fd) => Ok(NonBlock::Ready(TcpSocket { desc: IoDesc { fd } })),
            Err(code) => {
                let e = MioError::from_errno(code);
                if e == MioError::WouldBlock {
                    Ok(NonBlock::WouldBlock)
                } else {
                    Err(e)
                }
            },
        }
    }
}

/// A non-blocking Unix-domain stream socket.
pub struct UnixSocket {
    desc: IoDesc,
}

impl IoHandle for UnixSocket {
    fn desc(&self) -> &IoDesc {
        &self.desc
    }
}

impl Socket for UnixSocket {

}

impl UnixSocket {
    /// Creates a non-blocking Unix-domain stream socket.
    pub fn stream() -> (r: MioResult<UnixSocket>) {
        match os::sys_socket_stream(os::SocketFamily::Unix) {
            Ok(fd) => Ok(UnixSocket { desc: IoDesc { fd } }),
            Err(code) => Err(MioError::from_errno(code)),
        }
    }

    /// Binds the socket to `addr` and turns it into an acceptor, ready for
    /// the reactor's `listen` helper.
    pub fn bind(self, addr: &SockAddr) -> (r: MioResult<UnixAcceptor>) {
        match os::sys_bind(self.desc.fd, addr) {
            Ok(()) => Ok(UnixAcceptor { desc: self.desc }),
            Err(code) => Err(MioError::from_errno(code)),
        }
    }
}

impl IoReader for UnixSocket {
    fn read(&mut self, buf: &mut ByteBuf) -> MioResult<NonBlock<usize>> {
        read_desc(&self.desc, buf)
    }
}

impl IoWriter for UnixSocket {
    fn write(&mut self, buf: &mut ByteBuf) -> MioResult<NonBlock<usize>> {
        write_desc(&self.desc, buf)
    }
}

/// A bound Unix-domain stream socket that accepts connections once the
/// reactor's `listen` helper has marked it listening.
pub struct UnixAcceptor {
    desc: IoDesc,
}

impl IoHandle for UnixAcceptor {
    fn desc(&self) -> &IoDesc {
        &self.desc
    }
}

impl IoAcceptor<UnixSocket> for UnixAcceptor {
    /// One pending connection as a fresh non-blocking socket, or
    /// `WouldBlock` when none is pending.
    fn accept(&mut self) -> MioResult<NonBlock<UnixSocket>> {
        match os::sys_accept(self.desc.fd) {
            Ok(fd) => Ok(NonBlock::Ready(UnixSocket { desc: IoDesc { fd } })),
            Err(code) => {
                let e = MioError::from_errno(code);
                if e == MioError::WouldBlock {
                    Ok(NonBlock::WouldBlock)
                } else {
                    Err(e)
                }
            },
        }
    }
}

} // verus!
