use stream_httparse::header::{HeaderKey, HeaderValue};
use stream_httparse::Header;

#[test]
fn compare() {
    assert_eq!(
        Header {
            key: HeaderKey::StrRef("test"),
            value: HeaderValue::StrRef("value"),
        },
        Header {
            key: HeaderKey::StrRef("test"),
            value: HeaderValue::StrRef("some other value"),
        }
    );
}

#[test]
fn header_serialize() {
    let header = Header {
        key: HeaderKey::StrRef("test-key"),
        value: HeaderValue::StrRef("test-value"),
    };

    let mut buf: Vec<u8> = Vec::new();
    header.serialize(&mut buf);
    assert_eq!("test-key: test-value\r\n".as_bytes(), &buf);
}
