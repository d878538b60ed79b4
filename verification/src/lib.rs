//! A lightweight, readiness-based I/O core: a single-threaded reactor that
//! multiplexes many non-blocking I/O handles through one OS polling primitive
//! and dispatches readable/writable notifications to a caller-supplied
//! handler, correlated by opaque tokens.

pub mod buf;
pub mod error;
pub mod handler;
pub mod io;
pub mod os;
pub mod poll;
pub mod reactor;
pub mod slab;
pub mod socket;

pub use buf::ByteBuf;
pub use error::MioError;
pub use error::MioResult;
pub use handler::Handler;
pub use handler::Token;
pub use io::pipe;
pub use io::IoAcceptor;
pub use io::IoReader;
pub use io::IoWriter;
pub use io::NonBlock;
pub use io::PipeReader;
pub use io::PipeWriter;
pub use poll::IoEvent;
pub use poll::IoEventKind;
pub use poll::Poll;
pub use reactor::Reactor;
pub use reactor::ReactorConfig;
pub use reactor::ReactorError;
pub use reactor::ReactorResult;
pub use slab::Slab;
pub use socket::SockAddr;
pub use socket::Socket;
pub use socket::TcpAcceptor;
pub use socket::TcpSocket;
pub use socket::UnixAcceptor;
pub use socket::UnixSocket;
