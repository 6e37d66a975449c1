use stream_httparse::header::HeaderKey;

#[test]
fn key_equals_ignore_case() {
    assert_eq!(HeaderKey::StrRef("test"), HeaderKey::StrRef("test"));
    assert_eq!(HeaderKey::StrRef("TEST"), HeaderKey::StrRef("test"));
    assert_eq!(HeaderKey::StrRef("TeSt"), HeaderKey::StrRef("test"));
}

#[test]
fn key_serialize_str() {
    let mut result: Vec<u8> = Vec::new();
    HeaderKey::Str("test-key".to_owned()).serialize(&mut result);

    assert_eq!("test-key".as_bytes(), &result);
}

#[test]
fn key_serialize_str_ref() {
    let mut result: Vec<u8> = Vec::new();
    HeaderKey::StrRef("test-key").serialize(&mut result);

    assert_eq!("test-key".as_bytes(), &result);
}

#[test]
fn partial_ord() {
    assert_eq!(
        "first" < "second",
        HeaderKey::StrRef("first") < HeaderKey::StrRef("second")
    );
}
