use secure_tunnel_core::connect_proxy::{
    MAX_CONNECT_REQUEST_BYTES, connect_authority, request_complete,
};

#[test]
fn connect_request_yields_authority() {
    let request = b"CONNECT 127.0.0.1:8443 HTTP/1.1\r\nHost: 127.0.0.1:8443\r\n\r\n";
    assert!(request_complete(request));
    assert_eq!(connect_authority(request), Some("127.0.0.1:8443".to_owned()));
}

#[test]
fn connect_request_accepts_http_1_0_and_extra_words() {
    assert_eq!(
        connect_authority(b"  CONNECT \t host:1   HTTP/1.0 trailing\r\n\r\n"),
        Some("host:1".to_owned())
    );
    assert_eq!(
        connect_authority("CONNECT\u{3000}h:2\u{2003}HTTP/1.1\r\n\r\n".as_bytes()),
        Some("h:2".to_owned())
    );
}

#[test]
fn non_connect_requests_yield_nothing() {
    assert_eq!(connect_authority(b"GET / HTTP/1.1\r\n\r\n"), None);
    assert_eq!(connect_authority(b"CONNECT host:1 HTTP/2\r\n\r\n"), None);
    assert_eq!(connect_authority(b"CONNECT host:1\r\nHTTP/1.1\r\n\r\n"), None);
    assert_eq!(connect_authority(b"connect host:1 HTTP/1.1\r\n\r\n"), None);
    assert_eq!(connect_authority(&[0x43, 0xff, 0x20]), None);
    assert_eq!(connect_authority(b""), None);
}

#[test]
fn request_completes_only_at_blank_line() {
    assert!(!request_complete(b"CONNECT a HTTP/1.1\r\n"));
    assert!(!request_complete(b"\r\n\r"));
    assert!(request_complete(b"\r\n\r\n"));
    assert_eq!(MAX_CONNECT_REQUEST_BYTES, 8192);
}
