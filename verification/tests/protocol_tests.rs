use lumi::protocol::error::LmpError;
use lumi::protocol::frame::{FrameEvent, FrameReader, LmpHeader, LmpMessage, PacketType, StreamIds};
use lumi::protocol::lns::LnsResolver;
use lumi::protocol::package::LumiPackage;
use lumi::protocol::uri::LumiUri;

/// Reads one frame from `bytes` the way a stream reader does: as many
/// bytes as each step asks for. Returns the reader, the header bytes seen
/// at `HeaderReady`, and how many bytes were used; `None` when the bytes
/// run out first.
fn read_frame(bytes: &[u8]) -> Option<Result<(FrameReader, Vec<u8>, usize), LmpError>> {
    let mut reader = FrameReader::new();
    let mut pos = 0;
    let mut header = Vec::new();
    while !reader.is_complete() {
        let n = reader.bytes_needed();
        if pos + n > bytes.len() {
            return None;
        }
        match reader.feed(&bytes[pos..pos + n]) {
            Ok(FrameEvent::HeaderReady) => header = reader.header_bytes().to_vec(),
            Ok(_) => {}
            Err(e) => return Some(Err(e)),
        }
        pos += n;
    }
    Some(Ok((reader, header, pos)))
}

fn header_json(uri: &str) -> Vec<u8> {
    let mut m = serde_json::Map::new();
    m.insert("uri".to_string(), serde_json::Value::String(uri.to_string()));
    m.insert("method".to_string(), serde_json::Value::String("GET".to_string()));
    serde_json::to_vec(&serde_json::Value::Object(m)).unwrap()
}

#[test]
fn test_lns_resolution() {
    let resolver = LnsResolver::new();
    assert_eq!(resolver.resolve("docs.lumi").unwrap(), "127.0.0.1:9001");
    assert_eq!(resolver.resolve("search.lumi").unwrap(), "127.0.0.1:9001");
    assert!(resolver.resolve("nonexistent.invalid").is_err());
}

#[test]
fn lns_default_knows_the_default_hosts() {
    let resolver = LnsResolver::default();
    assert_eq!(resolver.resolve("gallery.home").unwrap(), "127.0.0.1:9001");
    assert_eq!(resolver.resolve("store.lumi").unwrap(), "127.0.0.1:9001");
    assert!(resolver.resolve("store.home").is_err());
    for host in ["games.lumi", "wiki.lumi", "welcome.home", "search.home"] {
        assert!(resolver.resolve(host).is_err());
    }
}

#[test]
fn lns_passes_addresses_through() {
    let resolver = LnsResolver::new();
    assert_eq!(resolver.resolve("10.0.0.2:7878").unwrap(), "10.0.0.2:7878");
    assert_eq!(resolver.resolve("welcome.lumi").unwrap(), "127.0.0.1:9001");
    match resolver.resolve("nowhere.lumi") {
        Err(e) => assert_eq!(e.message(), "LNS resolution failed for host: nowhere.lumi"),
        Ok(a) => panic!("resolved to {}", a),
    }
}

#[test]
fn test_lmp_framing_and_malformed_packet_protection() {
    let msg = LmpMessage::new_request("lumi://docs.lumi", 42);
    let json = header_json(&msg.header.uri);
    let buf = msg.encode_frame(&json);

    let (reader, header, used) = read_frame(&buf).unwrap().unwrap();
    assert_eq!(used, buf.len());
    assert_eq!(header, json);
    let decoded = reader.into_message(LmpHeader::default());
    assert_eq!(decoded.stream_id, 42);
    assert_eq!(decoded.packet_type, PacketType::Request);
    let value: serde_json::Value = serde_json::from_slice(&header).unwrap();
    assert_eq!(value["uri"], "lumi://docs.lumi");

    let mut bad_buf = buf.clone();
    bad_buf[0] = b'X';
    assert!(matches!(read_frame(&bad_buf), Some(Err(LmpError::InvalidMagic))));
}

#[test]
fn frame_layout_and_payload() {
    let msg = LmpMessage::new_response(7, "text/plain", b"Hello".to_vec());
    let buf = msg.encode_frame(b"{}");
    assert_eq!(&buf[0..4], b"LUMI");
    assert_eq!(buf[4], 1);
    assert_eq!(buf[5], 2);
    assert_eq!(&buf[6..10], &[0, 0, 0, 7]);
    assert_eq!(&buf[10..14], &[0, 0, 0, 2]);
    assert_eq!(&buf[14..18], &[0, 0, 0, 5]);
    assert_eq!(&buf[18..], b"{}Hello");
    let (reader, _, _) = read_frame(&buf).unwrap().unwrap();
    let m = reader.into_message(LmpHeader::default());
    assert_eq!(m.payload, b"Hello".to_vec());
    assert_eq!(m.packet_type, PacketType::Response);
    assert!(read_frame(&buf[..buf.len() - 1]).is_none());
}

#[test]
fn frame_rejections() {
    let mut buf = LmpMessage::new_request("x", 1).encode_frame(b"{}");
    buf[4] = 2;
    match read_frame(&buf) {
        Some(Err(e)) => assert_eq!(e.message(), "Unsupported LMP protocol version: 2"),
        _ => panic!("version accepted"),
    }
    buf[4] = 1;
    buf[5] = 9;
    match read_frame(&buf) {
        Some(Err(e)) => assert_eq!(e.message(), "Serialization error: Invalid packet type"),
        _ => panic!("packet type accepted"),
    }
    let mut big = b"LUMI".to_vec();
    big.extend_from_slice(&[1, 3, 0, 0, 0, 1, 0, 0, 0, 0, 0x06, 0x40, 0x00, 0x01]);
    match read_frame(&big) {
        Some(Err(LmpError::PayloadTooLarge(n))) => assert_eq!(n, 104857601),
        _ => panic!("oversized payload accepted"),
    }
    let mut big_header = b"LUMI".to_vec();
    big_header.extend_from_slice(&[1, 4, 0, 0, 0, 1, 0x00, 0xa0, 0x00, 0x01, 0, 0, 0, 3]);
    match read_frame(&big_header) {
        Some(Err(e)) => assert_eq!(e.message(), "Packet frame payload too large: 3 bytes"),
        _ => panic!("oversized header accepted"),
    }
}

#[test]
fn packet_type_codes() {
    for t in [
        PacketType::Request,
        PacketType::Response,
        PacketType::Ping,
        PacketType::Pong,
        PacketType::Error,
    ] {
        assert_eq!(PacketType::from_u8(t.to_u8()), Some(t));
    }
    assert_eq!(PacketType::Pong.to_u8(), 4);
    assert_eq!(PacketType::from_u8(0), None);
    assert_eq!(PacketType::from_u8(6), None);
}

#[test]
fn message_constructors() {
    let r = LmpMessage::new_request("lumi://docs.lumi", 3);
    assert_eq!(r.header.method, "GET");
    assert_eq!(r.header.status_code, 200);
    assert_eq!(r.header.content_type, "text/lumiml");
    assert!(r.payload.is_empty());
    let e = LmpMessage::new_error(5, 404, "Not here");
    assert_eq!(e.packet_type, PacketType::Error);
    assert_eq!(e.header.status_code, 404);
    assert_eq!(e.header.status_message, "Not here");
    assert_eq!(e.header.content_type, "text/plain");
    assert_eq!(e.payload, b"Not here".to_vec());
    let ok = LmpMessage::new_response(9, "text/markdown", vec![1, 2]);
    assert_eq!(ok.header.status_message, "OK");
    assert_eq!(ok.header.content_type, "text/markdown");
    assert!(ok.header.uri.is_empty());
}

#[test]
fn package_defaults() {
    let pkg = LumiPackage::new("TestSite", "page {}");
    assert_eq!(pkg.name, "TestSite");
    assert_eq!(pkg.version, "0.1.0");
    assert_eq!(pkg.index_lml, "page {}");
    assert!(pkg.assets.is_empty());
}

#[test]
fn uri_parsing() {
    let u = LumiUri::parse("  lumi://docs.lumi:7878/rfc/1  ").unwrap();
    assert_eq!(u.host, "docs.lumi");
    assert_eq!(u.port, 7878);
    assert_eq!(u.path, "/rfc/1");
    assert_eq!(u.to_string_uri(), "lumi://docs.lumi/rfc/1");

    let d = LumiUri::parse("lumi://welcome.lumi").unwrap();
    assert_eq!(d.port, 9001);
    assert_eq!(d.path, "/");
    assert_eq!(LumiUri::parse("lumi://h:+80/").unwrap().port, 80);
    assert_eq!(LumiUri::parse("lumi://h:70000/").unwrap().port, 9001);
    assert_eq!(LumiUri::parse("lumi://h:x1/").unwrap().port, 9001);
    assert_eq!(LumiUri::parse("lumi://h:/").unwrap().port, 9001);
    assert_eq!(LumiUri::parse("lumi://h:65535").unwrap().port, 65535);
    assert_eq!(LumiUri::parse("lumi://:1/a").unwrap().host, "");
    assert!(matches!(LumiUri::parse("http://x"), Err(LmpError::InvalidScheme)));
    assert!(matches!(LumiUri::parse("lumi:/"), Err(LmpError::InvalidScheme)));
}

#[test]
fn uri_text_roundtrip() {
    let u = LumiUri::parse("lumi://gallery.lumi/a/b").unwrap();
    let again = LumiUri::parse(&u.to_string_uri()).unwrap();
    assert_eq!(again.host, u.host);
    assert_eq!(again.port, u.port);
    assert_eq!(again.path, u.path);
}

#[test]
fn error_messages() {
    assert_eq!(
        LmpError::InvalidScheme.message(),
        "Invalid scheme in URI. Expected 'lumi://'"
    );
    assert_eq!(LmpError::UnsupportedVersion(17).message(), "Unsupported LMP protocol version: 17");
    assert_eq!(LmpError::PayloadTooLarge(0).message(), "Packet frame payload too large: 0 bytes");
    assert_eq!(LmpError::Io("broken".to_string()).message(), "IO error: broken");
}

#[test]
fn stream_ids_increase_per_connection() {
    let mut ids = StreamIds::new();
    assert_eq!(ids.issue(), Some(1));
    assert_eq!(ids.issue(), Some(2));
    assert_eq!(ids.issue(), Some(3));
    let mut fresh = StreamIds::new();
    assert_eq!(fresh.issue(), Some(1));
}

#[test]
fn two_frames_back_to_back() {
    let mut buf = LmpMessage::new_request("lumi://a.lumi", 1).encode_frame(b"{}");
    let second = LmpMessage::new_response(2, "text/plain", b"hi".to_vec()).encode_frame(b"[]");
    buf.extend_from_slice(&second);
    let (r1, h1, used) = read_frame(&buf).unwrap().unwrap();
    assert_eq!(h1, b"{}".to_vec());
    assert_eq!(used, buf.len() - second.len());
    let (r2, h2, used2) = read_frame(&buf[used..]).unwrap().unwrap();
    assert_eq!(h2, b"[]".to_vec());
    assert_eq!(used2, second.len());
    let m1 = r1.into_message(LmpHeader::default());
    let m2 = r2.into_message(LmpHeader::default());
    assert_eq!((m1.stream_id, m2.stream_id), (1, 2));
    assert_eq!(m2.payload, b"hi".to_vec());
    let m3 = m2.clone();
    assert_eq!(m3.payload, m2.payload);
}

#[test]
fn parsed_uris_round_trip_on_the_default_port() {
    let u = LumiUri::parse("  lumi://docs.lumi:7878/rfc/1  ").unwrap();
    let again = LumiUri::parse(&u.to_string_uri()).unwrap();
    assert_eq!(again, LumiUri { port: 9001, ..u.clone() });
    assert_ne!(again, u);
    let v = LumiUri::parse("lumi://x.lumi").unwrap();
    assert_eq!(LumiUri::parse(&v.to_string_uri()).unwrap(), v);
}
