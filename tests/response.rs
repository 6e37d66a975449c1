use stream_httparse::{Headers, Response, StatusCode};

#[test]
fn response_serialize_valid() {
    let mut headers = Headers::new();
    headers.set("test-1", "value-1");

    let req = Response::new(
        "HTTP/1.1",
        StatusCode::OK,
        headers,
        "body".as_bytes().to_vec(),
    );
    let raw_resp_header = "HTTP/1.1 200 OK\r\ntest-1: value-1\r\n\r\n";
    let resp_header = raw_resp_header.as_bytes().to_vec();
    let resp_body = "body".as_bytes();

    assert_eq!(req.serialize(), (resp_header, resp_body));
}

#[test]
fn response_serialize_valid_no_body() {
    let mut headers = Headers::new();
    headers.set("test-1", "value-1");

    let req = Response::new("HTTP/1.1", StatusCode::OK, headers, "".as_bytes().to_vec());
    let raw_resp_header = "HTTP/1.1 200 OK\r\ntest-1: value-1\r\n\r\n";
    let resp_header = raw_resp_header.as_bytes().to_vec();
    let resp_body = "".as_bytes();

    assert_eq!(req.serialize(), (resp_header, resp_body));
}

#[test]
fn is_chunked_not_set() {
    let mut headers = Headers::new();
    headers.set("test-1", "value-1");

    let resp = Response::new("HTTP/1.1", StatusCode::OK, headers, "".as_bytes().to_vec());

    assert_eq!(false, resp.is_chunked());
}

#[test]
fn is_chunked_set() {
    let mut headers = Headers::new();
    headers.set("Transfer-Encoding", "Chunked");

    let resp = Response::new("HTTP/1.1", StatusCode::OK, headers, "".as_bytes().to_vec());

    assert_eq!(true, resp.is_chunked());
}

#[test]
fn is_chunked_set_differently() {
    let mut headers = Headers::new();
    headers.set("Transfer-Encoding", "compress");

    let resp = Response::new("HTTP/1.1", StatusCode::OK, headers, "".as_bytes().to_vec());

    assert_eq!(false, resp.is_chunked());
}
