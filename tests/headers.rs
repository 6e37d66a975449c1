use stream_httparse::header::{HeaderKey, HeaderValue};
use stream_httparse::{Header, Headers};

#[test]
fn headers_add_new() {
    let mut headers = Headers::new();
    headers.set("test-key", "test-value");

    assert_eq!(
        vec![Header {
            key: HeaderKey::StrRef("test-key"),
            value: HeaderValue::StrRef("test-value")
        }],
        headers.pairs().to_vec()
    );
}

#[test]
fn headers_add_already_exists() {
    let mut headers = Headers::new();
    headers.set("test-key", "test-value");

    assert_eq!(
        vec![Header {
            key: HeaderKey::StrRef("test-key"),
            value: HeaderValue::StrRef("test-value")
        }],
        headers.pairs().to_vec()
    );

    headers.set("test-key", "other value");
    assert_eq!(
        vec![Header {
            key: HeaderKey::StrRef("test-key"),
            value: HeaderValue::StrRef("other value")
        }],
        headers.pairs().to_vec()
    );
}

#[test]
fn headers_remove_existing() {
    let mut headers = Headers::new();
    headers.set("test-key", "test-value");

    assert_eq!(
        vec![Header {
            key: HeaderKey::StrRef("test-key"),
            value: HeaderValue::StrRef("test-value")
        }],
        headers.pairs().to_vec()
    );

    headers.remove("test-key");
    assert_eq!(Vec::<Header>::new(), headers.pairs().to_vec());
}

#[test]
fn headers_remove_non_existing() {
    let mut headers = Headers::new();
    headers.set("test-key", "test-value");

    assert_eq!(
        vec![Header {
            key: HeaderKey::StrRef("test-key"),
            value: HeaderValue::StrRef("test-value")
        }],
        headers.pairs().to_vec()
    );

    headers.remove("other-key");
    assert_eq!(
        vec![Header {
            key: HeaderKey::StrRef("test-key"),
            value: HeaderValue::StrRef("test-value")
        }],
        headers.pairs().to_vec()
    );
}

#[test]
fn headers_get_existing() {
    let mut headers = Headers::new();
    headers.set("test-key", "test-value");

    assert_eq!(
        vec![Header {
            key: HeaderKey::StrRef("test-key"),
            value: HeaderValue::StrRef("test-value")
        }],
        headers.pairs().to_vec()
    );

    assert_eq!(
        Some(&HeaderValue::StrRef("test-value")),
        headers.get("test-key")
    );
}

#[test]
fn headers_get_not_existing() {
    let mut headers = Headers::new();
    headers.set("test-key", "test-value");

    assert_eq!(
        vec![Header {
            key: HeaderKey::StrRef("test-key"),
            value: HeaderValue::StrRef("test-value")
        }],
        headers.pairs().to_vec()
    );

    assert_eq!(None, headers.get("other-key"));
}

#[test]
fn headers_serialize() {
    let mut headers = Headers::new();
    headers.set("test-key", "test-value");

    assert_eq!(
        vec![Header {
            key: HeaderKey::StrRef("test-key"),
            value: HeaderValue::StrRef("test-value")
        }],
        headers.pairs().to_vec()
    );

    let result = "test-key: test-value\r\n".as_bytes();
    let mut tmp: Vec<u8> = Vec::new();
    headers.serialize(&mut tmp);
    assert_eq!(result, &tmp);
}
