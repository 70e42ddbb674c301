use devpod_desktop::transport::{TransportStream, HANDSHAKE_BYTE};

// The handshake byte goes on the wire first on every new connection,
// before any HTTP bytes.
#[test]
fn handshake_byte_leads_every_connection() {
    let mut t = TransportStream::connect();
    assert_eq!(t.written, vec![HANDSHAKE_BYTE]);
    assert_eq!(HANDSHAKE_BYTE, 0x01);

    t.write(b"GET /status HTTP/1.1\r\n\r\n");
    assert_eq!(t.written[0], 0x01);
    assert_eq!(&t.written[1..], b"GET /status HTTP/1.1\r\n\r\n");
}

#[test]
fn unflushed_bytes_drain_in_order() {
    let mut t = TransportStream::connect();
    t.write(b"abc");
    let first = t.take_unflushed();
    assert_eq!(first, vec![0x01, b'a', b'b', b'c']);

    t.write(b"de");
    let second = t.take_unflushed();
    assert_eq!(second, vec![b'd', b'e']);

    let third = t.take_unflushed();
    assert!(third.is_empty());
}
