use script_dom::webtransport::{
    check_protocols, is_https, DatagramPromise, NewConnection, ParsedUrl, WebTransport,
    WebTransportCongestionControl, WebTransportDatagramDuplexStream, WebTransportDatagramsWritable,
    WebTransportError, WebTransportOptions, WebTransportState,
};

fn options_with(allow_pooling: bool, hashes: usize, protocols: Vec<Vec<u8>>) -> WebTransportOptions {
    WebTransportOptions {
        allow_pooling,
        require_unreliable: true,
        server_certificate_hashes: vec![vec![1u8; 32]; hashes],
        congestion_control: WebTransportCongestionControl::LowLatency,
        protocols,
        anticipated_concurrent_incoming_unidirectional_streams: Some(3),
        anticipated_concurrent_incoming_bidirectional_streams: None,
    }
}

fn options(allow_pooling: bool, hashes: usize) -> WebTransportOptions {
    options_with(allow_pooling, hashes, vec![])
}

fn url(scheme: &str, has_fragment: bool) -> ParsedUrl {
    ParsedUrl { scheme: scheme.as_bytes().to_vec(), has_fragment }
}

fn message(e: WebTransportError) -> (String, String) {
    match e {
        WebTransportError::Syntax(m) => ("Syntax".to_string(), m),
        WebTransportError::NotSupported(m) => ("NotSupported".to_string(), m),
        WebTransportError::InvalidState(m) => ("InvalidState".to_string(), m),
        WebTransportError::Type(m) => ("Type".to_string(), m),
    }
}

fn limits(size: u64, buffered: u64) -> WebTransportDatagramDuplexStream {
    WebTransportDatagramDuplexStream { outgoing_max_datagram_size: size, outgoing_max_buffered_datagrams: buffered }
}

#[test]
fn constructor_accepts_https() {
    let protocols = vec![b"chat".to_vec(), b"superchat".to_vec()];
    let settings =
        WebTransport::Constructor(Some(&url("https", false)), &options_with(false, 2, protocols)).unwrap();
    assert_eq!(settings.new_connection, NewConnection::YesAndDedicated);
    assert!(settings.require_unreliable);
    assert_eq!(settings.congestion_control, WebTransportCongestionControl::Default);
    assert_eq!(settings.anticipated_concurrent_incoming_unidirectional_streams, Some(3));
    assert_eq!(settings.anticipated_concurrent_incoming_bidirectional_streams, None);
    let pooled = WebTransport::Constructor(Some(&url("https", false)), &options(true, 0)).unwrap();
    assert_eq!(pooled.new_connection, NewConnection::No);
}

#[test]
fn constructor_rejects_unparsed_url() {
    let e = WebTransport::Constructor(None, &options(false, 0)).err().unwrap();
    assert_eq!(message(e), ("Syntax".to_string(), "Failed to paring url with baseURL".to_string()));
}

#[test]
fn constructor_rejects_other_schemes() {
    for scheme in ["http", "wss", "httpss", "HTTPS", ""] {
        let e = WebTransport::Constructor(Some(&url(scheme, false)), &options(false, 0)).err().unwrap();
        assert_eq!(message(e), ("Syntax".to_string(), "URL's scheme is not https".to_string()));
    }
}

#[test]
fn constructor_rejects_fragment() {
    let e = WebTransport::Constructor(Some(&url("https", true)), &options(false, 0)).err().unwrap();
    assert_eq!(message(e), ("Syntax".to_string(), "URL's fragment is not null".to_string()));
}

#[test]
fn constructor_rejects_pooling_with_hashes() {
    let e = WebTransport::Constructor(Some(&url("https", false)), &options(true, 1)).err().unwrap();
    assert_eq!(
        message(e),
        (
            "NotSupported".to_string(),
            "newConnection is \"no\" and serverCertificateHashes is not empty".to_string()
        )
    );
}

#[test]
fn constructor_rejects_invalid_protocols() {
    let cases = vec![
        vec![b"chat".to_vec(), b"chat".to_vec()],
        vec![b"a".to_vec(), b"b".to_vec(), b"a".to_vec()],
        vec![Vec::new()],
        vec![vec![b'x'; 513]],
    ];
    for protocols in cases {
        let e = WebTransport::Constructor(Some(&url("https", false)), &options_with(false, 0, protocols))
            .err()
            .unwrap();
        assert_eq!(message(e), ("Syntax".to_string(), "Invalid protocols".to_string()));
    }
    assert!(check_protocols(&vec![vec![b'x'; 512], b"y".to_vec()]));
    assert!(check_protocols(&vec![]));
}

#[test]
fn https_scheme_detection() {
    assert!(is_https(b"https"));
    assert!(!is_https(b"http"));
    assert!(!is_https(b"httpx"));
}

#[test]
fn send_group_belongs_to_its_transport() {
    let t = WebTransport::new(7);
    assert_eq!(t.id(), 7);
    assert_eq!(t.state(), WebTransportState::Connecting);
    let g = t.CreateSendGroup().unwrap();
    assert_eq!(g.transport(), 7);
}

#[test]
fn create_send_group_refused_when_closed_or_failed() {
    let mut t = WebTransport::new(7);
    for state in [WebTransportState::Closed, WebTransportState::Failed] {
        t.set_state(state);
        let e = t.CreateSendGroup().err().unwrap();
        assert_eq!(message(e), ("InvalidState".to_string(), "WebTransport is closed or failed".to_string()));
    }
    for state in [WebTransportState::Connected, WebTransportState::Draining] {
        t.set_state(state);
        assert!(t.CreateSendGroup().is_ok());
    }
}

#[test]
fn datagrams_writable_starts_empty() {
    let t = WebTransport::new(1);
    let w = WebTransportDatagramsWritable::create(&t);
    assert_eq!(w.SendOrder(), 0);
    assert!(w.GetSendGroup().is_none());
    assert_eq!(w.outgoing_datagrams_queue().len(), 0);
}

#[test]
fn set_send_group_accepts_own_transport() {
    let t = WebTransport::new(1);
    let mut w = WebTransportDatagramsWritable::create(&t);
    let g = t.CreateSendGroup().unwrap();
    assert!(w.SetSendGroup(Some(g)).is_ok());
    assert_eq!(w.GetSendGroup(), Some(g));
    assert!(w.SetSendGroup(None).is_ok());
    assert_eq!(w.GetSendGroup(), None);
}

#[test]
fn set_send_group_rejects_other_transport() {
    let t = WebTransport::new(1);
    let other = WebTransport::new(2);
    let mut w = WebTransportDatagramsWritable::create(&t);
    let g = t.CreateSendGroup().unwrap();
    w.SetSendGroup(Some(g)).unwrap();
    let e = w.SetSendGroup(Some(other.CreateSendGroup().unwrap())).err().unwrap();
    assert_eq!(message(e), ("InvalidState".to_string(), "WebTransport mismatch".to_string()));
    assert_eq!(w.GetSendGroup(), Some(g));
}

#[test]
fn send_order_round_trip() {
    let t = WebTransport::new(1);
    let mut w = WebTransportDatagramsWritable::create(&t);
    w.SetSendOrder(-42);
    assert_eq!(w.SendOrder(), -42);
    w.SetSendOrder(i64::MAX);
    assert_eq!(w.SendOrder(), i64::MAX);
}

#[test]
fn write_datagrams_enqueues_at_the_back() {
    let t = WebTransport::new(1);
    let mut w = WebTransportDatagramsWritable::create(&t);
    let d = limits(1024, 2);
    assert_eq!(w.write_datagrams(&d, Some(vec![1, 2, 3]), 10, 100).unwrap(), DatagramPromise::Resolve);
    assert_eq!(w.write_datagrams(&d, Some(vec![4]), 20, 101).unwrap(), DatagramPromise::Pending);
    let q = w.outgoing_datagrams_queue();
    assert_eq!(q.len(), 2);
    assert_eq!(q[0].bytes, vec![1, 2, 3]);
    assert_eq!(q[0].timestamp, 10);
    assert_eq!(q[0].promise, 100);
    assert_eq!(q[1].bytes, vec![4]);
    assert_eq!(q[1].promise, 101);
}

#[test]
fn write_datagrams_drops_oversize_data() {
    let t = WebTransport::new(1);
    let mut w = WebTransportDatagramsWritable::create(&t);
    let d = limits(3, 10);
    assert_eq!(w.write_datagrams(&d, Some(vec![0; 4]), 10, 100).unwrap(), DatagramPromise::Resolve);
    assert_eq!(w.outgoing_datagrams_queue().len(), 0);
    assert_eq!(w.write_datagrams(&d, Some(vec![0; 3]), 11, 101).unwrap(), DatagramPromise::Resolve);
    assert_eq!(w.outgoing_datagrams_queue().len(), 1);
}

#[test]
fn write_datagrams_rejects_non_buffer_source() {
    let t = WebTransport::new(1);
    let mut w = WebTransportDatagramsWritable::create(&t);
    let e = w.write_datagrams(&limits(10, 10), None, 10, 100).err().unwrap();
    assert_eq!(message(e), ("Type".to_string(), "The data is not a BufferSource".to_string()));
    assert_eq!(w.outgoing_datagrams_queue().len(), 0);
}
