use mio::buf::wrap;
use mio::buf::ByteBuf;

#[test]
fn fresh_buffer_is_filling() {
    let b = ByteBuf::new(16);
    assert_eq!(b.capacity(), 16);
    assert_eq!(b.position(), 0);
    assert_eq!(b.limit(), 16);
    assert_eq!(b.remaining(), 16);
}

#[test]
fn remaining_is_limit_minus_position_after_every_operation() {
    let mut b = ByteBuf::new(8);
    assert_eq!(b.remaining(), b.limit() - b.position());
    let n = b.write(b"abc");
    assert_eq!(n, 3);
    assert_eq!(b.remaining(), b.limit() - b.position());
    b.flip();
    assert_eq!(b.remaining(), b.limit() - b.position());
    b.advance(1);
    assert_eq!(b.remaining(), b.limit() - b.position());
    b.clear();
    assert_eq!(b.remaining(), b.limit() - b.position());
    assert!(b.position() <= b.limit());
    assert!(b.limit() <= b.capacity());
}

#[test]
fn write_flip_read_round_trip() {
    let mut b = ByteBuf::new(16);
    let n = b.write(b"hello");
    assert_eq!(n, 5);
    assert_eq!(b.position(), 5);
    b.flip();
    assert_eq!(b.position(), 0);
    assert_eq!(b.limit(), 5);
    assert_eq!(b.remaining(), 5);
    assert_eq!(b.bytes(), b"hello");
    let mut dst = vec![0u8; 5];
    let got = b.read_into(&mut dst);
    assert_eq!(got, 5);
    assert_eq!(&dst, b"hello");
    assert_eq!(b.remaining(), 0);
}

#[test]
fn flip_then_clear_restores_filling_mode() {
    let mut b = ByteBuf::new(12);
    b.write(b"abcdef");
    b.flip();
    b.clear();
    assert_eq!(b.position(), 0);
    assert_eq!(b.limit(), 12);
    assert_eq!(b.remaining(), 12);
}

#[test]
fn write_truncates_at_limit() {
    let mut b = ByteBuf::new(3);
    let n = b.write(b"hello");
    assert_eq!(n, 3);
    assert_eq!(b.remaining(), 0);
    b.flip();
    assert_eq!(b.bytes(), b"hel");
    // A second write after the window is exhausted takes nothing.
    b.clear();
    b.write(b"xyz");
    let n2 = b.write(b"q");
    assert_eq!(n2, 0);
}

#[test]
fn wrap_exposes_given_bytes_for_draining() {
    let mut b = wrap(b"hello");
    assert_eq!(b.remaining(), 5);
    assert_eq!(b.bytes(), b"hello");
    b.advance(2);
    assert_eq!(b.bytes(), b"llo");
}

#[test]
fn read_into_consumes_in_order() {
    let mut b = wrap(b"hello");
    let mut first = vec![0u8; 3];
    assert_eq!(b.read_into(&mut first), 3);
    assert_eq!(&first, b"hel");
    let mut second = vec![9u8; 5];
    assert_eq!(b.read_into(&mut second), 2);
    assert_eq!(&second, &[b'l', b'o', 9u8, 9u8, 9u8]);
    assert_eq!(b.remaining(), 0);
}
