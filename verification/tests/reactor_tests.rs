use std::str;
use std::sync::atomic::AtomicIsize;
use std::sync::atomic::Ordering::SeqCst;
use std::sync::Arc;

use mio::buf;
use mio::buf::ByteBuf;
use mio::error::MioError;
use mio::io;
use mio::io::NonBlock;
use mio::io::PipeReader;
use mio::slab::Slab;
use mio::Handler;
use mio::IoAcceptor;
use mio::IoReader;
use mio::IoWriter;
use mio::Reactor;
use mio::SockAddr;
use mio::TcpSocket;
use mio::UnixAcceptor;
use mio::UnixSocket;

struct Funtimes {
    rcount: Arc<AtomicIsize>,
    wcount: Arc<AtomicIsize>,
}

impl Funtimes {
    fn new(rcount: Arc<AtomicIsize>, wcount: Arc<AtomicIsize>) -> Funtimes {
        Funtimes { rcount, wcount }
    }
}

impl Handler<u64> for Funtimes {
    fn readable(&mut self, _reactor: &mut Reactor<u64>, token: u64) {
        (*self.rcount).fetch_add(1, SeqCst);
        assert_eq!(token, 10u64);
    }
}

#[test]
fn test_readable() {
    let mut reactor = Reactor::<u64>::new().ok().expect("Couldn't make reactor");

    let (mut reader, mut writer) = io::pipe().unwrap();

    let rcount = Arc::new(AtomicIsize::new(0));
    let wcount = Arc::new(AtomicIsize::new(0));
    let handler = Funtimes::new(rcount.clone(), wcount.clone());

    writer.write(&mut buf::wrap("hello".as_bytes())).unwrap();
    reactor.register(&reader, 10u64).unwrap();

    let _ = reactor.run_once(handler);
    let mut b = ByteBuf::new(16);

    assert_eq!((*rcount).load(SeqCst), 1);

    reader.read(&mut b).unwrap();
    b.flip();

    assert_eq!(str::from_utf8(b.bytes()).unwrap(), "hello");
}

struct HelloHandler {
    reader: PipeReader,
    buf: ByteBuf,
    rcount: usize,
}

impl Handler<u64> for HelloHandler {
    fn readable(&mut self, _reactor: &mut Reactor<u64>, token: u64) {
        assert_eq!(token, 7u64);
        self.rcount += 1;
        self.reader.read(&mut self.buf).unwrap();
    }
}

#[test]
fn pipe_delivers_exactly_one_readable_with_the_bytes() {
    let mut reactor = Reactor::<u64>::new().unwrap();
    let (reader, mut writer) = io::pipe().unwrap();

    writer.write(&mut buf::wrap("hello".as_bytes())).unwrap();
    reactor.register(&reader, 7u64).unwrap();

    let handler = HelloHandler { reader, buf: ByteBuf::new(32), rcount: 0 };
    let handler = reactor.run_once(handler).ok().expect("tick failed");

    assert_eq!(handler.rcount, 1);
    let mut b = handler.buf;
    b.flip();
    assert_eq!(b.bytes(), b"hello");
}

struct StopHandler {
    hits: usize,
}

impl Handler<u64> for StopHandler {
    fn readable(&mut self, reactor: &mut Reactor<u64>, _token: u64) {
        self.hits += 1;
        reactor.shutdown();
    }
}

#[test]
fn shutdown_during_a_tick_stops_run_and_returns_the_handler() {
    let mut reactor = Reactor::<u64>::new().unwrap();
    let (reader, mut writer) = io::pipe().unwrap();

    writer.write(&mut buf::wrap(b"x")).unwrap();
    reactor.register(&reader, 3u64).unwrap();

    let handler = reactor.run(StopHandler { hits: 0 }).ok().expect("run failed");
    assert_eq!(handler.hits, 1);
}

#[test]
fn tcp_bind_reports_the_bound_address() {
    let srv = TcpSocket::v4().unwrap();
    let acceptor = srv.bind(&SockAddr::v4(127, 0, 0, 1, 0)).unwrap();
    match acceptor.local_addr().unwrap() {
        SockAddr::Inet { a, b, c, d, port } => {
            assert_eq!((a, b, c, d), (127, 0, 0, 1));
            assert_ne!(port, 0);
        },
        other => panic!("expected an IPv4 address, got {:?}", other),
    }
}

#[test]
fn double_registration_is_reported() {
    let mut reactor = Reactor::<u64>::new().unwrap();
    let (reader, _writer) = io::pipe().unwrap();
    reactor.register(&reader, 1u64).unwrap();
    assert_eq!(reactor.register(&reader, 2u64).unwrap_err(), MioError::AlreadyRegistered);
}

#[derive(Default)]
struct ConnectWatcher {
    client_writable: usize,
    errors: usize,
}

impl Handler<u64> for ConnectWatcher {
    fn writable(&mut self, _reactor: &mut Reactor<u64>, token: u64) {
        if token == 2u64 {
            self.client_writable += 1;
        }
    }

    fn readable(&mut self, _reactor: &mut Reactor<u64>, _token: u64) {
    }
}

#[test]
fn connect_to_loopback_reports_through_the_tick_path() {
    let mut reactor = Reactor::<u64>::new().unwrap();

    let srv = UnixSocket::stream().unwrap();
    let addr = SockAddr::unix(b"mio-test-connect-path");
    let acceptor = srv.bind(&addr).unwrap();
    reactor.listen(&acceptor, 256, 1u64).unwrap();

    let client = UnixSocket::stream().unwrap();
    // `connect` returns no completion flag: even an immediately-successful
    // loopback connect is observed as a writable event in a later tick.
    reactor.connect(&client, &addr, 2u64).unwrap();

    let mut handler = ConnectWatcher::default();
    for _ in 0..5 {
        handler = reactor.run_once(handler).ok().expect("tick failed");
        if handler.client_writable + handler.errors > 0 {
            break;
        }
    }
    assert!(handler.client_writable + handler.errors >= 1);
}

struct AcceptHandler {
    acceptor: UnixAcceptor,
    conns: Slab<UnixSocket>,
    server_readable: usize,
    accepted: Option<u64>,
    conn_readable: Vec<u64>,
    conn_writable: Vec<u64>,
    client_writable: usize,
}

impl Handler<u64> for AcceptHandler {
    fn readable(&mut self, reactor: &mut Reactor<u64>, token: u64) {
        if token == 1u64 {
            self.server_readable += 1;
            let sock = self.acceptor.accept().unwrap().unwrap();
            let tok = self.conns.insert(sock);
            assert_ne!(tok, 1u64);
            let sock_ref = self.conns.get(tok).unwrap();
            reactor.register(sock_ref, tok).unwrap();
            self.accepted = Some(tok);
        } else if token != 99u64 {
            self.conn_readable.push(token);
        }
    }

    fn writable(&mut self, _reactor: &mut Reactor<u64>, token: u64) {
        if token == 99u64 {
            self.client_writable += 1;
        } else if token != 1u64 {
            self.conn_writable.push(token);
        }
    }
}

#[test]
fn accepted_connection_fires_under_its_own_token() {
    let mut reactor = Reactor::<u64>::new().unwrap();

    let srv = UnixSocket::stream().unwrap();
    let addr = SockAddr::unix(b"mio-test-accept-scenario");
    let acceptor = srv.bind(&addr).unwrap();
    reactor.listen(&acceptor, 256, 1u64).unwrap();

    let mut client = UnixSocket::stream().unwrap();
    reactor.connect(&client, &addr, 99u64).unwrap();

    let mut handler = AcceptHandler {
        acceptor,
        conns: Slab::new(),
        server_readable: 0,
        accepted: None,
        conn_readable: Vec::new(),
        conn_writable: Vec::new(),
        client_writable: 0,
    };

    for _ in 0..6 {
        handler = reactor.run_once(handler).ok().expect("tick failed");
        if let Some(t) = handler.accepted {
            if handler.conn_writable.contains(&t) && handler.client_writable > 0 {
                break;
            }
        }
    }
    let accepted = handler.accepted.expect("no connection was accepted");
    assert_eq!(handler.server_readable, 1);
    assert!(handler.client_writable >= 1);
    // The fresh token is distinct from the listener's.
    assert_ne!(accepted, 1u64);
    // The accepted connection fires writable under its own token.
    assert!(handler.conn_writable.contains(&accepted));

    // Bytes from the client surface as readable under the fresh token only.
    let sent = client.write(&mut buf::wrap(b"hi")).unwrap().unwrap();
    assert_eq!(sent, 2);
    for _ in 0..6 {
        handler = reactor.run_once(handler).ok().expect("tick failed");
        if !handler.conn_readable.is_empty() {
            break;
        }
    }
    assert!(handler.conn_readable.contains(&accepted));
    assert_eq!(handler.server_readable, 1);
}

struct EofHandler {
    reader: Option<PipeReader>,
    wakeups: usize,
    saw_eof: bool,
}

impl Handler<u64> for EofHandler {
    fn readable(&mut self, _reactor: &mut Reactor<u64>, token: u64) {
        assert_eq!(token, 4u64);
        self.wakeups += 1;
        if let Some(reader) = self.reader.as_mut() {
            let mut b = ByteBuf::new(8);
            if let Ok(NonBlock::Ready(0)) = reader.read(&mut b) {
                self.saw_eof = true;
            }
        }
    }
}

#[test]
fn hangup_wakes_the_handler_through_the_readable_path() {
    let mut reactor = Reactor::<u64>::new().unwrap();
    let (reader, writer) = io::pipe().unwrap();
    reactor.register(&reader, 4u64).unwrap();

    // Closing the write end of an empty pipe leaves only a hang-up to
    // report; the handler must still be woken so it can clean up.
    writer.close().unwrap();

    let mut handler = EofHandler { reader: Some(reader), wakeups: 0, saw_eof: false };
    handler = reactor.run_once(handler).ok().expect("tick failed");
    assert_eq!(handler.wakeups, 1);
    assert!(handler.saw_eof);
}
