use stream_httparse::header::{HeaderKey, HeaderValue};
use stream_httparse::streaming_parser::{ParseError, ReqParser, RespParser};
use stream_httparse::{Method, StatusCode};

const SIMPLE_REQUEST: &[u8] = b"GET /test HTTP/1.1\r\ntest-1: value-1\r\n\r\n";

fn header_pairs(headers: &stream_httparse::Headers) -> Vec<(String, String)> {
    headers
        .pairs()
        .iter()
        .map(|h| (h.key.as_str().to_owned(), h.value.to_string()))
        .collect()
}

#[test]
fn request_fed_whole() {
    let mut parser = ReqParser::new_capacity(64);
    let (done, consumed) = parser.block_parse(SIMPLE_REQUEST);
    assert!(done);
    assert_eq!(SIMPLE_REQUEST.len(), consumed);

    let req = parser.finish().unwrap();
    assert_eq!(&Method::GET, req.method());
    assert_eq!("/test", req.path());
    assert_eq!("HTTP/1.1", req.protocol());
    assert_eq!(
        vec![("test-1".to_owned(), "value-1".to_owned())],
        header_pairs(req.headers())
    );
    assert_eq!(b"".as_slice(), req.body());
}

#[test]
fn request_fed_byte_by_byte() {
    let mut parser = ReqParser::new_capacity(64);
    for (index, byte) in SIMPLE_REQUEST.iter().enumerate() {
        let (done, consumed) = parser.block_parse(&[*byte]);
        assert_eq!(1, consumed);
        assert_eq!(index == SIMPLE_REQUEST.len() - 1, done);
    }
    let req = parser.finish().unwrap();
    assert_eq!(&Method::GET, req.method());
    assert_eq!("/test", req.path());
    assert_eq!("HTTP/1.1", req.protocol());
    assert_eq!(
        vec![("test-1".to_owned(), "value-1".to_owned())],
        header_pairs(req.headers())
    );
    assert_eq!(b"".as_slice(), req.body());
}

#[test]
fn request_every_split_point_gives_same_result() {
    let message: &[u8] =
        b"POST /upload HTTP/1.1\r\nHost: example\r\nTransfer-Encoding: chunked\r\n\r\n4\r\nWiki\r\n5;ext=1\r\npedia\r\n0\r\nTrailer: x\r\n\r\n";
    let mut whole = ReqParser::new_capacity(16);
    assert_eq!((true, message.len()), whole.block_parse(message));
    let expected = whole.finish().unwrap();
    assert_eq!(b"Wikipedia".as_slice(), expected.body());

    for a in 1..message.len() {
        for b in a..message.len() {
            let mut parser = ReqParser::new_capacity(16);
            let mut total = 0;
            for part in [&message[..a], &message[a..b], &message[b..]] {
                let (_, consumed) = parser.block_parse(part);
                total += consumed;
            }
            assert_eq!(message.len(), total);
            let req = parser.finish().unwrap();
            assert_eq!(expected.serialize(), req.serialize());
        }
    }
}

#[test]
fn pipelined_bytes_are_not_consumed() {
    let mut bytes = SIMPLE_REQUEST.to_vec();
    bytes.extend_from_slice(b"GET /next HTTP/1.1\r\n\r\n");
    let mut parser = ReqParser::new_capacity(64);
    let (done, consumed) = parser.block_parse(&bytes);
    assert!(done);
    assert_eq!(SIMPLE_REQUEST.len(), consumed);

    let mut split = ReqParser::new_capacity(64);
    let (done_a, consumed_a) = split.block_parse(&bytes[..30]);
    let (done_b, consumed_b) = split.block_parse(&bytes[30..]);
    assert!(!done_a);
    assert!(done_b);
    assert_eq!(SIMPLE_REQUEST.len(), consumed_a + consumed_b);
}

#[test]
fn feeding_after_done_changes_nothing() {
    let mut parser = ReqParser::new_capacity(64);
    parser.block_parse(SIMPLE_REQUEST);
    assert_eq!((true, 0), parser.block_parse(b"more bytes"));
    assert_eq!((true, 0), parser.block_parse(b""));
    let req = parser.finish().unwrap();
    assert_eq!("/test", req.path());
}

#[test]
fn response_with_content_length() {
    let message: &[u8] = b"HTTP/1.1 200 OK\r\nContent-Length: 4\r\n\r\nbody";
    let mut parser = RespParser::new_capacity(64);
    assert_eq!((true, message.len()), parser.block_parse(message));
    let resp = parser.finish().unwrap();
    assert_eq!(&StatusCode::OK, resp.status_code());
    assert_eq!("HTTP/1.1", resp.protocol());
    assert_eq!(b"body".as_slice(), resp.body());
}

#[test]
fn response_with_truncated_body_is_incomplete() {
    let message: &[u8] = b"HTTP/1.1 200 OK\r\nContent-Length: 4\r\n\r\nbo";
    let mut parser = RespParser::new_capacity(64);
    assert_eq!((false, message.len()), parser.block_parse(message));
    assert_eq!(Err(ParseError::MissingHeaders), parser.finish().map(|_| ()));
}

#[test]
fn response_with_chunked_body() {
    let message: &[u8] =
        b"HTTP/1.1 200 OK\r\nTransfer-Encoding: chunked\r\n\r\n4\r\nWiki\r\n0\r\n\r\n";
    let mut parser = RespParser::new_capacity(64);
    assert_eq!((true, message.len()), parser.block_parse(message));
    let resp = parser.finish().unwrap();
    assert_eq!(b"Wiki".as_slice(), resp.body());
}

#[test]
fn chunked_detection_ignores_ascii_case() {
    let message: &[u8] =
        b"HTTP/1.1 200 OK\r\ntransfer-encoding: CHUNKED\r\n\r\nA\r\n0123456789\r\n0\r\n\r\n";
    let mut parser = RespParser::new_capacity(64);
    assert_eq!((true, message.len()), parser.block_parse(message));
    assert_eq!(b"0123456789".as_slice(), parser.finish().unwrap().body());
}

#[test]
fn unknown_method_fails() {
    let mut parser = ReqParser::new_capacity(64);
    let (done, consumed) = parser.block_parse(b"FOO /x HTTP/1.1\r\n\r\n");
    assert!(done);
    assert_eq!(4, consumed);
    assert_eq!((true, 0), parser.block_parse(b"GET / HTTP/1.1\r\n\r\n"));
    assert_eq!(Err(ParseError::MissingMethod), parser.finish().map(|_| ()));
}

#[test]
fn empty_path_fails() {
    let mut parser = ReqParser::new_capacity(64);
    parser.block_parse(b"GET  HTTP/1.1\r\n\r\n");
    assert_eq!(Err(ParseError::MissingPath), parser.finish().map(|_| ()));
}

#[test]
fn missing_protocol_fails() {
    let mut parser = ReqParser::new_capacity(64);
    assert_eq!((true, 7), parser.block_parse(b"GET /x\r\n\r\n"));
    assert_eq!(Err(ParseError::MissingProtocol), parser.finish().map(|_| ()));
}

#[test]
fn header_line_without_colon_fails() {
    let mut parser = ReqParser::new_capacity(64);
    let (done, _) = parser.block_parse(b"GET / HTTP/1.1\r\nno colon here\r\n\r\n");
    assert!(done);
    assert_eq!(Err(ParseError::MissingHeaders), parser.finish().map(|_| ()));
}

#[test]
fn missing_status_code_fails() {
    let mut parser = RespParser::new_capacity(64);
    parser.block_parse(b"HTTP/1.1 \r\n\r\n");
    assert_eq!(Err(ParseError::MissingStatusCode), parser.finish().map(|_| ()));
}

#[test]
fn unknown_status_code_fails() {
    let mut parser = RespParser::new_capacity(64);
    parser.block_parse(b"HTTP/1.1 999 Nope\r\n\r\n");
    assert_eq!(Err(ParseError::InvalidStatusCode), parser.finish().map(|_| ()));
}

#[test]
fn bad_chunk_size_fails() {
    let mut parser = RespParser::new_capacity(64);
    let (done, _) = parser.block_parse(b"HTTP/1.1 200 OK\r\nTransfer-Encoding: chunked\r\n\r\nzz\r\n");
    assert!(done);
    assert_eq!(Err(ParseError::MissingHeaders), parser.finish().map(|_| ()));
}

#[test]
fn chunk_data_without_crlf_fails() {
    let mut parser = RespParser::new_capacity(64);
    let (done, _) = parser.block_parse(b"HTTP/1.1 200 OK\r\nTransfer-Encoding: chunked\r\n\r\n2\r\nabX");
    assert!(done);
    assert_eq!(Err(ParseError::MissingHeaders), parser.finish().map(|_| ()));
}

#[test]
fn finish_before_anything_reports_the_first_stage() {
    assert_eq!(Err(ParseError::MissingMethod), ReqParser::new_capacity(0).finish().map(|_| ()));
    assert_eq!(Err(ParseError::MissingProtocol), RespParser::new_capacity(0).finish().map(|_| ()));
}

#[test]
fn request_without_headers_is_complete() {
    let mut parser = ReqParser::new_capacity(64);
    assert_eq!((true, 19), parser.block_parse(b"HEAD / HTTP/1.0\r\n\r\n"));
    let req = parser.finish().unwrap();
    assert_eq!(&Method::HEAD, req.method());
    assert_eq!(0, req.headers().get_header_count());
}

#[test]
fn header_keys_are_trimmed_and_values_lose_leading_space() {
    let mut parser = ReqParser::new_capacity(64);
    parser.block_parse(b"GET / HTTP/1.1\r\n  Host \t:   a b \r\n\r\n");
    let req = parser.finish().unwrap();
    assert_eq!(
        vec![("Host".to_owned(), "a b ".to_owned())],
        header_pairs(req.headers())
    );
    assert_eq!(Some(&HeaderValue::StrRef("a b ")), req.headers().get("host"));
}

#[test]
fn invalid_content_length_means_no_body() {
    let mut parser = ReqParser::new_capacity(64);
    let head: &[u8] = b"POST / HTTP/1.1\r\nContent-Length: 12x\r\n\r\n";
    let mut bytes = head.to_vec();
    bytes.extend_from_slice(b"abc");
    assert_eq!((true, head.len()), parser.block_parse(&bytes));
    assert_eq!(b"".as_slice(), parser.finish().unwrap().body());
}

#[test]
fn non_utf8_path_fails_at_finish() {
    let mut parser = ReqParser::new_capacity(64);
    let (done, _) = parser.block_parse(b"GET /\xff HTTP/1.1\r\n\r\n");
    assert!(done);
    assert_eq!(Err(ParseError::MissingPath), parser.finish().map(|_| ()));
}

#[test]
fn utf8_path_is_decoded() {
    let mut parser = ReqParser::new_capacity(64);
    parser.block_parse("GET /caf\u{e9} HTTP/1.1\r\n\r\n".as_bytes());
    assert_eq!("/caf\u{e9}", parser.finish().unwrap().path());
}

#[test]
fn parsed_request_serializes_back_to_its_bytes() {
    let message: &[u8] = b"PUT /item HTTP/1.1\r\nHost: a\r\nContent-Length: 3\r\n\r\nxyz";
    let mut parser = ReqParser::new_capacity(64);
    parser.block_parse(message);
    let req = parser.finish().unwrap();
    let (head, body) = req.serialize();
    let mut bytes = head;
    bytes.extend_from_slice(body);
    assert_eq!(message.to_vec(), bytes);
}

#[test]
fn parsed_response_serializes_back_to_its_bytes() {
    let message: &[u8] = b"HTTP/1.1 404 Not Found\r\nContent-Length: 2\r\n\r\nno";
    let mut parser = RespParser::new_capacity(64);
    parser.block_parse(message);
    let resp = parser.finish().unwrap();
    let (head, body) = resp.serialize();
    let mut bytes = head;
    bytes.extend_from_slice(body);
    assert_eq!(message.to_vec(), bytes);
}

#[test]
fn header_keys_match_with_unicode_case_folding() {
    assert_eq!(HeaderKey::StrRef("STRASSE"), HeaderKey::StrRef("stra\u{df}e"));
    assert_ne!(HeaderKey::StrRef("key-a"), HeaderKey::StrRef("key-b"));
}

#[test]
fn error_descriptions() {
    assert_eq!("Missing Method", ParseError::MissingMethod.describe());
    assert_eq!("Invalid StatusCode", ParseError::InvalidStatusCode.describe());
}
