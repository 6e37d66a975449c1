use stream_httparse::header::{HeaderKey, HeaderValue};
use stream_httparse::{Chunk, Headers, Method, Response, StatusCode};

#[test]
fn headers_append_keeps_duplicates_and_set_replaces() {
    let mut headers = Headers::new();
    headers.append("Set-Cookie", "a=1");
    headers.append("Set-Cookie", "b=2");
    assert_eq!(2, headers.get_header_count());
    assert_eq!(Some(&HeaderValue::StrRef("a=1")), headers.get("set-cookie"));

    headers.set("SET-COOKIE", "c=3");
    assert_eq!(2, headers.get_header_count());
    assert_eq!(Some(&HeaderValue::StrRef("b=2")), headers.get("Set-Cookie"));
    let mut buf = Vec::new();
    headers.serialize(&mut buf);
    assert_eq!(b"Set-Cookie: b=2\r\nSET-COOKIE: c=3\r\n".to_vec(), buf);
}

#[test]
fn max_value_size_tracks_largest_value() {
    let mut headers = Headers::with_capacity(4);
    assert_eq!(0, headers.get_max_value_size());
    headers.set("a", "12345");
    headers.set("b", 1234567usize);
    headers.set("c", "x");
    assert_eq!(7, headers.get_max_value_size());
    headers.remove("b");
    assert_eq!(7, headers.get_max_value_size());
    assert_eq!(2, headers.get_header_count());
}

#[test]
fn headers_to_owned_keeps_text() {
    let mut headers = Headers::new();
    headers.set("k", "v");
    headers.set("n", 42usize);
    let owned = headers.to_owned();
    assert_eq!(Some(&HeaderValue::Str("v".to_owned())), owned.get("K"));
    assert_eq!(Some(&HeaderValue::NumberUsize(42)), owned.get("n"));
    assert_eq!(headers.get_max_value_size(), owned.get_max_value_size());
}

#[test]
fn value_length_and_text() {
    assert_eq!(1, HeaderValue::NumberUsize(0).length());
    assert_eq!(5, HeaderValue::NumberUsize(12345).length());
    assert_eq!(usize::MAX.to_string().len(), HeaderValue::NumberUsize(usize::MAX).length());
    assert_eq!(2, HeaderValue::StrRef("\u{e9}").length());
    assert_eq!("12345", HeaderValue::NumberUsize(12345).to_string());
    assert_eq!(None, HeaderValue::NumberUsize(1).try_as_str_ref());
    assert_eq!(Some("ab"), HeaderValue::Str("ab".to_owned()).try_as_str_ref());
    assert!(!HeaderValue::NumberUsize(1).eq_ignore_case(&HeaderValue::StrRef("1")));
    assert!(HeaderValue::StrRef("a") == "a".to_owned());
    assert!(HeaderValue::NumberUsize(1) != "1".to_owned());
}

#[test]
fn key_to_owned_and_compare() {
    let key = HeaderKey::StrRef("Host");
    let owned = key.to_owned();
    assert_eq!("Host", owned.as_str());
    assert!(HeaderKey::StrRef("a") < HeaderKey::StrRef("ab"));
    assert!(HeaderKey::StrRef("B") < HeaderKey::StrRef("a"));
}

#[test]
fn chunk_serializes_size_in_lower_hex() {
    let chunk = Chunk::new(255, vec![0u8; 255]);
    let mut buf = Vec::new();
    chunk.serialize(&mut buf);
    assert_eq!(b"ff\r\n".to_vec(), buf[..4].to_vec());
    assert_eq!(255 + 6, buf.len());
    assert_eq!(255, chunk.size());
}

#[test]
fn response_set_body_updates_content_length() {
    let mut resp = Response::new("HTTP/1.1", StatusCode::Created, Headers::new(), Vec::new());
    resp.set_body(b"hello".to_vec());
    resp.add_header("X", "y");
    let (head, body) = resp.serialize();
    assert_eq!(b"HTTP/1.1 201 Created\r\nContent-Length: 5\r\nX: y\r\n\r\n".to_vec(), head);
    assert_eq!(b"hello".as_slice(), body);
}

#[test]
fn method_and_status_wasm_round_trip() {
    for index in 0..8 {
        let method = Method::wasm_deserialize(index).unwrap();
        assert_eq!(index, method.wasm_serialize());
        assert_eq!(Some(method.clone()), Method::parse(method.serialize()));
    }
    assert_eq!(None, Method::wasm_deserialize(8));
    assert_eq!(Some(StatusCode::NotFound), StatusCode::wasm_deserialize(404));
    assert_eq!(418, StatusCode::ImATeapot.wasms_serialize());
    assert_eq!(None, StatusCode::wasm_deserialize(306));
    assert_eq!(Some(StatusCode::OK), StatusCode::parse("200 OK"));
}

#[test]
fn request_accessors_and_mutation() {
    let body = b"payload".to_vec();
    let mut req = stream_httparse::Request::new("HTTP/1.0", Method::POST, "/a", Headers::default(), &body);
    req.header_mut().set("Connection", "keep-alive");
    assert!(req.is_keep_alive());
    req.header_mut().set("connection", 5usize);
    assert!(!req.is_keep_alive());
    req.set_path_owned("/b".to_owned());
    assert_eq!("/b", req.path());
    assert_eq!("HTTP/1.0", req.protocol());
    assert_eq!(&Method::POST, req.method());
    assert_eq!(b"payload".as_slice(), req.body());
    let (head, _) = req.serialize();
    assert_eq!(b"POST /b HTTP/1.0\r\nconnection: 5\r\n\r\n".to_vec(), head);
}

#[test]
fn response_accessors() {
    let mut headers = Headers::new();
    headers.set("transfer-encoding", "CHUNKED");
    let resp = Response::new("HTTP/1.1", StatusCode::NoContent, headers, Vec::new());
    assert!(resp.is_chunked());
    assert_eq!(&StatusCode::NoContent, resp.status_code());
    assert_eq!(1, resp.headers().get_header_count());
    assert_eq!(b"".as_slice(), resp.body());
    assert_eq!("HTTP/1.1", resp.protocol());
}

#[test]
fn empty_chunk_and_string_container() {
    let mut buf = Vec::new();
    Chunk::new(0, Vec::new()).serialize(&mut buf);
    assert_eq!(b"0\r\n\r\n".to_vec(), buf);
    let a = stream_httparse::StringContainer::Ref("x");
    let b = stream_httparse::StringContainer::Owned("x".to_owned());
    assert!(a == b);
    assert_eq!("x", b.as_str());
}

#[test]
fn status_code_parse_needs_three_digits() {
    assert_eq!(None, StatusCode::parse("20"));
    assert_eq!(None, StatusCode::parse("2x0"));
    assert_eq!(Some(StatusCode::HTTPVersionNotSupported), StatusCode::parse("5050"));
    assert_eq!(None, StatusCode::parse("\u{20ac}\u{20ac}"));
}
