use mio::buf;
use mio::error::MioError;
use mio::io;
use mio::io::NonBlock;
use mio::poll::Interest;
use mio::poll::Poll;
use mio::IoReader;
use mio::IoWriter;

#[test]
fn poll_returns_registered_token_when_ready() {
    let mut poll = Poll::<u64>::new().unwrap();
    let (reader, mut writer) = io::pipe().unwrap();

    poll.register(&reader, 42u64).unwrap();
    writer.write(&mut buf::wrap(b"ping")).unwrap();

    let n = poll.poll(1000).unwrap();
    assert_eq!(n, 1);
    let e = poll.event(0);
    assert_eq!(e.token, 42u64);
    assert!(e.is_readable());
    assert!(!e.is_writable());
}

#[test]
fn nonblocking_poll_with_nothing_ready_returns_empty_batch() {
    let mut poll = Poll::<u64>::new().unwrap();
    let (reader, _writer) = io::pipe().unwrap();
    poll.register(&reader, 5u64).unwrap();
    let n = poll.poll(0).unwrap();
    assert_eq!(n, 0);
    assert_eq!(poll.events_len(), 0);
}

#[test]
fn reregister_of_unknown_handle_is_reported() {
    let mut poll = Poll::<u64>::new().unwrap();
    let (reader, _writer) = io::pipe().unwrap();
    let e = poll.reregister(&reader, 5u64, Interest::all(), true).unwrap_err();
    assert_eq!(e, MioError::NoSuchRegistration);
    let e = poll.deregister(&reader).unwrap_err();
    assert_eq!(e, MioError::NoSuchRegistration);
}

#[test]
fn deregistered_handle_fires_no_more_events() {
    let mut poll = Poll::<u64>::new().unwrap();
    let (reader, mut writer) = io::pipe().unwrap();
    poll.register(&reader, 8u64).unwrap();
    writer.write(&mut buf::wrap(b"data")).unwrap();
    poll.deregister(&reader).unwrap();
    let n = poll.poll(0).unwrap();
    assert_eq!(n, 0);
}

#[test]
fn read_on_empty_pipe_would_block() {
    let (mut reader, _writer) = io::pipe().unwrap();
    let mut b = mio::buf::ByteBuf::new(8);
    match reader.read(&mut b) {
        Ok(NonBlock::WouldBlock) => {},
        other => panic!("expected a would-block signal, got {:?}", other.map(|n| n.is_ready())),
    }
    assert_eq!(b.position(), 0);
}
