use vstd::prelude::*;
use vstd::utf8::{decode_utf8, valid_utf8};

use crate::general::{COLON, CR, LF, SP};
use crate::header::Header;
use crate::headers::headers_bytes;
use crate::method::{lemma_method_bytes, Method};
use crate::request::request_head;
use crate::response::response_head;
use crate::status_code::{lemma_status_text, StatusCode};

use super::fields::{content_length, is_chunked, is_ws, trim, FieldsModel, FieldsState};
use super::machine::{lemma_split, run, ByteMachine};
use super::req::{headers_from_fields, ReqLine, ReqModel};
use super::resp::{RespLine, RespModel};

verus! {

/// No byte of `s` is `a`, `b` or `c`.
pub open spec fn avoids(s: Seq<u8>, a: u8, b: u8, c: u8) -> bool {
    forall|i: int| 0 <= i < s.len() ==> #[trigger] s[i] != a && s[i] != b && s[i] != c
}

/// A header field's line on the wire: key, colon, space, value, CRLF.
pub open spec fn field_line(f: (Seq<u8>, Seq<u8>)) -> Seq<u8> {
    f.0 + seq![COLON, SP] + f.1 + seq![CR, LF]
}

/// The header fields' lines, one after the other.
pub open spec fn fields_bytes(fs: Seq<(Seq<u8>, Seq<u8>)>) -> Seq<u8>
    decreases fs.len(),
{
    if fs.len() == 0 {
        Seq::empty()
    } else {
        fields_bytes(fs.drop_last()) + field_line(fs.last())
    }
}

/// A request on the wire, written the way `Request::serialize` writes one,
/// followed by its body.
pub open spec fn request_bytes(
    m: Method,
    path: Seq<u8>,
    protocol: Seq<u8>,
    fs: Seq<(Seq<u8>, Seq<u8>)>,
    body: Seq<u8>,
) -> Seq<u8> {
    m.spec_bytes() + seq![SP] + path + seq![SP] + protocol + seq![CR, LF] + fields_bytes(fs) + seq![
        CR,
        LF,
    ] + body
}

/// A header field already in the form the parser gives back: a key without
/// colon or surrounding blanks, a value that does not start with a blank,
/// neither with a line break, both UTF-8.
pub open spec fn canonical_field(f: (Seq<u8>, Seq<u8>)) -> bool {
    &&& avoids(f.0, COLON, CR, LF)
    &&& trim(f.0) == f.0
    &&& avoids(f.1, CR, LF, CR)
    &&& (f.1.len() == 0 || !is_ws(f.1[0]))
    &&& valid_utf8(f.0)
    &&& valid_utf8(f.1)
}

/// The header fields frame the body exactly: not chunked, and a
/// `Content-Length` equal to the body's length, or none with no body.
pub open spec fn frames_body(fs: Seq<(Seq<u8>, Seq<u8>)>, body: Seq<u8>) -> bool {
    &&& !is_chunked(fs)
    &&& match content_length(fs) {
        Some(n) => n == body.len(),
        None => body.len() == 0,
    }
}

/// A request whose parts are already canonical: a non-empty path without
/// blanks or line breaks, a non-empty protocol without line breaks, both
/// UTF-8, canonical header fields, and a body that they frame.
pub open spec fn canonical_request(
    path: Seq<u8>,
    protocol: Seq<u8>,
    fs: Seq<(Seq<u8>, Seq<u8>)>,
    body: Seq<u8>,
) -> bool {
    &&& path.len() > 0
    &&& avoids(path, SP, CR, LF)
    &&& valid_utf8(path)
    &&& protocol.len() > 0
    &&& avoids(protocol, CR, LF, CR)
    &&& valid_utf8(protocol)
    &&& forall|i: int| 0 <= i < fs.len() ==> canonical_field(#[trigger] fs[i])
    &&& frames_body(fs, body)
}

proof fn lemma_run_one<S: ByteMachine>(s: S, x: u8)
    requires
        !s.is_terminal(),
    ensures
        run(s, seq![x]) == s.step(x),
{
    assert(seq![x].drop_first() =~= Seq::<u8>::empty());
    assert(seq![x][0] == x);
    assert(run(s.step(x), Seq::<u8>::empty()) == s.step(x));
}

proof fn lemma_run_two<S: ByteMachine>(s: S, x: u8, y: u8)
    requires
        !s.is_terminal(),
        !s.step(x).is_terminal(),
    ensures
        run(s, seq![x, y]) == s.step(x).step(y),
{
    assert(seq![x, y].drop_first() =~= seq![y]);
    lemma_run_one(s.step(x), y);
}

proof fn lemma_method_token(r: ReqModel, t: Seq<u8>)
    requires
        r.line is Method,
        avoids(t, SP, CR, LF),
    ensures
        run(r, t) == (ReqModel { method: r.method + t, ..r }),
    decreases t.len(),
{
    if t.len() == 0 {
        assert(r.method + t =~= r.method);
    } else {
        let r1 = r.step(t[0]);
        lemma_method_token(r1, t.drop_first());
        assert(r1.method + t.drop_first() =~= r.method + t);
    }
}

proof fn lemma_path_token(r: ReqModel, t: Seq<u8>)
    requires
        r.line is Path,
        avoids(t, SP, CR, LF),
    ensures
        run(r, t) == (ReqModel { path: r.path + t, ..r }),
    decreases t.len(),
{
    if t.len() == 0 {
        assert(r.path + t =~= r.path);
    } else {
        let r1 = r.step(t[0]);
        lemma_path_token(r1, t.drop_first());
        assert(r1.path + t.drop_first() =~= r.path + t);
    }
}

proof fn lemma_protocol_token(r: ReqModel, t: Seq<u8>)
    requires
        r.line is Protocol,
        avoids(t, CR, LF, CR),
    ensures
        run(r, t) == (ReqModel { protocol: r.protocol + t, ..r }),
    decreases t.len(),
{
    if t.len() == 0 {
        assert(r.protocol + t =~= r.protocol);
    } else {
        let r1 = r.step(t[0]);
        lemma_protocol_token(r1, t.drop_first());
        assert(r1.protocol + t.drop_first() =~= r.protocol + t);
    }
}

proof fn lemma_in_fields(r: ReqModel, bs: Seq<u8>)
    requires
        r.line is Fields,
    ensures
        run(r, bs) == (ReqModel { fields: run(r.fields, bs), ..r }),
    decreases bs.len(),
{
    if bs.len() > 0 && !r.fields.is_terminal() {
        lemma_in_fields(r.step(bs[0]), bs.drop_first());
    }
}

proof fn lemma_key_token(f: FieldsModel, t: Seq<u8>)
    requires
        f.state is Key,
        avoids(t, COLON, CR, LF),
    ensures
        run(f, t) == (FieldsModel { key: f.key + t, ..f }),
    decreases t.len(),
{
    if t.len() == 0 {
        assert(f.key + t =~= f.key);
    } else {
        let f1 = f.step(t[0]);
        lemma_key_token(f1, t.drop_first());
        assert(f1.key + t.drop_first() =~= f.key + t);
    }
}

proof fn lemma_value_token(f: FieldsModel, t: Seq<u8>)
    requires
        f.state is Value,
        avoids(t, CR, LF, CR),
        f.value.len() > 0 || t.len() == 0 || !is_ws(t[0]),
    ensures
        run(f, t) == (FieldsModel { value: f.value + t, ..f }),
    decreases t.len(),
{
    if t.len() == 0 {
        assert(f.value + t =~= f.value);
    } else {
        let f1 = f.step(t[0]);
        lemma_value_token(f1, t.drop_first());
        assert(f1.value + t.drop_first() =~= f.value + t);
    }
}

proof fn lemma_field_line(f: FieldsModel, fl: (Seq<u8>, Seq<u8>))
    requires
        f.state is Key,
        f.key.len() == 0,
        f.value.len() == 0,
        canonical_field(fl),
    ensures
        run(f, field_line(fl)) == (FieldsModel { fields: f.fields.push(fl), ..f }),
{
    let k = fl.0;
    let v = fl.1;
    lemma_key_token(f, k);
    let f1 = run(f, k);
    assert(f.key + k =~= k);
    lemma_run_two(f1, COLON, SP);
    let f2 = f1.step(COLON).step(SP);
    assert(f2 == (FieldsModel { state: FieldsState::Value, key: k, ..f }));
    lemma_value_token(f2, v);
    let f3 = run(f2, v);
    assert(f2.value + v =~= v);
    lemma_run_two(f3, CR, LF);
    lemma_split(f, k, seq![COLON, SP]);
    lemma_split(f, k + seq![COLON, SP], v);
    lemma_split(f, k + seq![COLON, SP] + v, seq![CR, LF]);
    assert(f.key =~= Seq::<u8>::empty());
    assert(f.value =~= Seq::<u8>::empty());
    assert(f3.key == k);
    assert(f3.value == v);
    assert(f3.step(CR).step(LF) == (FieldsModel { fields: f.fields.push(fl), ..f }));
}

proof fn lemma_field_lines(f: FieldsModel, fs: Seq<(Seq<u8>, Seq<u8>)>)
    requires
        f.state is Key,
        f.key.len() == 0,
        f.value.len() == 0,
        forall|i: int| 0 <= i < fs.len() ==> canonical_field(#[trigger] fs[i]),
    ensures
        run(f, fields_bytes(fs)) == (FieldsModel { fields: f.fields + fs, ..f }),
    decreases fs.len(),
{
    if fs.len() == 0 {
        assert(f.fields + fs =~= f.fields);
    } else {
        let init = fs.drop_last();
        lemma_field_lines(f, init);
        let f1 = run(f, fields_bytes(init));
        assert(canonical_field(fs[fs.len() - 1]));
        lemma_field_line(f1, fs.last());
        lemma_split(f, fields_bytes(init), field_line(fs.last()));
        assert(f1.fields.push(fs.last()) =~= f.fields + fs);
    }
}

proof fn lemma_fixed_body(f: FieldsModel, t: Seq<u8>)
    requires
        t.len() >= 1,
        f.state == (FieldsState::Fixed { remaining: t.len() as usize }),
        t.len() <= usize::MAX,
    ensures
        run(f, t) == (FieldsModel { state: FieldsState::Done, body: f.body + t, ..f }),
    decreases t.len(),
{
    let f1 = f.step(t[0]);
    if t.len() == 1 {
        assert(t.drop_first() =~= Seq::<u8>::empty());
        assert(f.body + t =~= f.body.push(t[0]));
    } else {
        lemma_fixed_body(f1, t.drop_first());
        assert(f1.body + t.drop_first() =~= f.body + t);
    }
}

/// The header lines of headers that hold the fields as text are the
/// fields' lines.
pub proof fn lemma_headers_bytes<'a>(hs: Seq<Header<'a>>, fs: Seq<(Seq<u8>, Seq<u8>)>)
    requires
        headers_from_fields(hs, fs),
        forall|i: int| 0 <= i < fs.len() ==> canonical_field(#[trigger] fs[i]),
    ensures
        headers_bytes(hs) == fields_bytes(fs),
    decreases fs.len(),
{
    if fs.len() > 0 {
        let n = fs.len() - 1;
        assert(headers_from_fields(hs.drop_last(), fs.drop_last())) by {
            assert forall|i: int| 0 <= i < hs.drop_last().len() implies {
                &&& (#[trigger] hs.drop_last()[i]).key@ == decode_utf8(fs.drop_last()[i].0)
                &&& hs.drop_last()[i].value is StrRef
                &&& hs.drop_last()[i].value@ == decode_utf8(fs.drop_last()[i].1)
            } by {
                assert(hs.drop_last()[i] == hs[i]);
            }
        }
        lemma_headers_bytes(hs.drop_last(), fs.drop_last());
        assert(canonical_field(fs[n]));
        assert(hs[n] == hs.last());
        vstd::utf8::decode_utf8_encode_utf8(fs[n].0);
        vstd::utf8::decode_utf8_encode_utf8(fs[n].1);
        assert(hs.last().spec_bytes() =~= field_line(fs.last()));
    }
}

/// Round trip: parsing the bytes of a canonical request gives back its
/// parts, with no error, and serializing a request made of those parts
/// (as `finish` makes it) gives back the same bytes.
pub proof fn lemma_request_round_trip(
    m: Method,
    path: Seq<u8>,
    protocol: Seq<u8>,
    fs: Seq<(Seq<u8>, Seq<u8>)>,
    body: Seq<u8>,
)
    requires
        canonical_request(path, protocol, fs, body),
    ensures
        ({
            let r = run(ReqModel::initial(), request_bytes(m, path, protocol, fs, body));
            &&& r.error() is None
            &&& Method::from_bytes(r.method) == Some(m)
            &&& r.path == path
            &&& r.protocol == protocol
            &&& r.fields.fields == fs
            &&& r.fields.body == body
        }),
        forall|hs: Seq<Header>| #[trigger]
            headers_from_fields(hs, fs) ==> request_head(
                m,
                decode_utf8(path),
                decode_utf8(protocol),
                hs,
            ) + body == request_bytes(m, path, protocol, fs, body),
{
    let s0 = ReqModel::initial();
    let mb = m.spec_bytes();
    lemma_method_bytes(m);
    assert(avoids(mb, SP, CR, LF)) by {
        assert forall|i: int| 0 <= i < mb.len() implies #[trigger] mb[i] != SP && mb[i] != CR
            && mb[i] != LF by {
            assert(65 <= mb[i] <= 90);
        }
    }
    lemma_method_token(s0, mb);
    let s1 = run(s0, mb);
    assert(s0.method + mb =~= mb);
    lemma_run_one(s1, SP);
    let s2 = s1.step(SP);
    lemma_path_token(s2, path);
    let s3 = run(s2, path);
    assert(s2.path + path =~= path);
    lemma_run_one(s3, SP);
    let s4 = s3.step(SP);
    lemma_protocol_token(s4, protocol);
    let s5 = run(s4, protocol);
    assert(s4.protocol + protocol =~= protocol);
    lemma_run_two(s5, CR, LF);
    let s6 = s5.step(CR).step(LF);
    assert(s6.line is Fields);

    let a1 = mb;
    let a2 = a1 + seq![SP];
    let a3 = a2 + path;
    let a4 = a3 + seq![SP];
    let a5 = a4 + protocol;
    let a6 = a5 + seq![CR, LF];
    lemma_split(s0, a1, seq![SP]);
    lemma_split(s0, a2, path);
    lemma_split(s0, a3, seq![SP]);
    lemma_split(s0, a4, protocol);
    lemma_split(s0, a5, seq![CR, LF]);
    assert(run(s0, a6) == s6);

    let rest = fields_bytes(fs) + seq![CR, LF] + body;
    lemma_fields_and_body(s6.fields, fs, body);
    lemma_in_fields(s6, rest);
    lemma_split(s0, a6, rest);
    assert(request_bytes(m, path, protocol, fs, body) =~= a6 + rest);

    assert forall|hs: Seq<Header>| #[trigger]
        headers_from_fields(hs, fs) implies request_head(
        m,
        decode_utf8(path),
        decode_utf8(protocol),
        hs,
    ) + body == request_bytes(m, path, protocol, fs, body) by {
        lemma_headers_bytes(hs, fs);
        vstd::utf8::decode_utf8_encode_utf8(path);
        vstd::utf8::decode_utf8_encode_utf8(protocol);
        assert(request_head(m, decode_utf8(path), decode_utf8(protocol), hs) + body
            =~= request_bytes(m, path, protocol, fs, body));
    }
}

/// A response on the wire, written the way `Response::serialize` writes
/// one, followed by its body.
pub open spec fn response_bytes(
    protocol: Seq<u8>,
    c: StatusCode,
    fs: Seq<(Seq<u8>, Seq<u8>)>,
    body: Seq<u8>,
) -> Seq<u8> {
    protocol + seq![SP] + vstd::utf8::encode_utf8(c.spec_text()) + seq![CR, LF] + fields_bytes(fs)
        + seq![CR, LF] + body
}

/// A response whose parts are already canonical: a non-empty UTF-8
/// protocol without blanks or line breaks, canonical header fields, and a
/// body that they frame.
pub open spec fn canonical_response(
    protocol: Seq<u8>,
    fs: Seq<(Seq<u8>, Seq<u8>)>,
    body: Seq<u8>,
) -> bool {
    &&& protocol.len() > 0
    &&& avoids(protocol, SP, CR, LF)
    &&& valid_utf8(protocol)
    &&& forall|i: int| 0 <= i < fs.len() ==> canonical_field(#[trigger] fs[i])
    &&& frames_body(fs, body)
}

proof fn lemma_resp_protocol_token(r: RespModel, t: Seq<u8>)
    requires
        r.line is Protocol,
        avoids(t, SP, CR, LF),
    ensures
        run(r, t) == (RespModel { protocol: r.protocol + t, ..r }),
    decreases t.len(),
{
    if t.len() == 0 {
        assert(r.protocol + t =~= r.protocol);
    } else {
        let r1 = r.step(t[0]);
        lemma_resp_protocol_token(r1, t.drop_first());
        assert(r1.protocol + t.drop_first() =~= r.protocol + t);
    }
}

proof fn lemma_resp_code_token(r: RespModel, t: Seq<u8>)
    requires
        r.line is Code,
        avoids(t, SP, CR, LF),
    ensures
        run(r, t) == (RespModel { code: r.code + t, ..r }),
    decreases t.len(),
{
    if t.len() == 0 {
        assert(r.code + t =~= r.code);
    } else {
        let r1 = r.step(t[0]);
        lemma_resp_code_token(r1, t.drop_first());
        assert(r1.code + t.drop_first() =~= r.code + t);
    }
}

proof fn lemma_resp_reason(r: RespModel, t: Seq<u8>)
    requires
        r.line is Reason,
        avoids(t, CR, LF, CR),
    ensures
        run(r, t) == r,
    decreases t.len(),
{
    if t.len() > 0 {
        lemma_resp_reason(r.step(t[0]), t.drop_first());
    }
}

proof fn lemma_resp_in_fields(r: RespModel, bs: Seq<u8>)
    requires
        r.line is Fields,
    ensures
        run(r, bs) == (RespModel { fields: run(r.fields, bs), ..r }),
    decreases bs.len(),
{
    if bs.len() > 0 && !r.fields.is_terminal() {
        lemma_resp_in_fields(r.step(bs[0]), bs.drop_first());
    }
}

/// From the blank line's start, the header fields and a body that they
/// frame are read to the end of the message.
proof fn lemma_fields_and_body(f0: FieldsModel, fs: Seq<(Seq<u8>, Seq<u8>)>, body: Seq<u8>)
    requires
        f0 == FieldsModel::initial(),
        forall|i: int| 0 <= i < fs.len() ==> canonical_field(#[trigger] fs[i]),
        frames_body(fs, body),
    ensures
        ({
            let f = run(f0, fields_bytes(fs) + seq![CR, LF] + body);
            &&& f.state is Done
            &&& f.fields == fs
            &&& f.body == body
        }),
{
    lemma_field_lines(f0, fs);
    let f1 = run(f0, fields_bytes(fs));
    assert(f0.fields + fs =~= fs);
    lemma_run_two(f1, CR, LF);
    let f2 = f1.step(CR).step(LF);
    lemma_split(f0, fields_bytes(fs), seq![CR, LF]);
    let head_rest = fields_bytes(fs) + seq![CR, LF];
    if body.len() == 0 {
        assert(head_rest + body =~= head_rest);
    } else {
        lemma_fixed_body(f2, body);
        lemma_split(f0, head_rest, body);
    }
    assert(run(f0, head_rest + body).body =~= body);
}

/// Round trip: parsing the bytes of a canonical response gives back its
/// parts, with no error, and serializing a response made of those parts
/// (as `finish` makes it) gives back the same bytes.
pub proof fn lemma_response_round_trip(
    protocol: Seq<u8>,
    c: StatusCode,
    fs: Seq<(Seq<u8>, Seq<u8>)>,
    body: Seq<u8>,
)
    requires
        canonical_response(protocol, fs, body),
    ensures
        ({
            let r = run(RespModel::initial(), response_bytes(protocol, c, fs, body));
            &&& r.error() is None
            &&& StatusCode::from_bytes(r.code) == Some(c)
            &&& r.protocol == protocol
            &&& r.fields.fields == fs
            &&& r.fields.body == body
        }),
        forall|hs: Seq<Header>| #[trigger]
            headers_from_fields(hs, fs) ==> response_head(decode_utf8(protocol), c, hs) + body
                == response_bytes(protocol, c, fs, body),
{
    let s0 = RespModel::initial();
    lemma_status_text(c);
    let tb = vstd::utf8::encode_utf8(c.spec_text());
    let code = tb.take(3);
    let reason = tb.skip(4);
    assert(avoids(code, SP, CR, LF)) by {
        assert forall|i: int| 0 <= i < code.len() implies #[trigger] code[i] != SP && code[i] != CR
            && code[i] != LF by {
            assert(code[i] == tb[i]);
        }
    }
    assert(avoids(reason, CR, LF, CR)) by {
        assert forall|i: int| 0 <= i < reason.len() implies #[trigger] reason[i] != CR && reason[i]
            != LF by {
            assert(reason[i] == tb[i + 4]);
        }
    }
    assert(tb =~= code + seq![SP] + reason);

    lemma_resp_protocol_token(s0, protocol);
    let s1 = run(s0, protocol);
    assert(s0.protocol + protocol =~= protocol);
    lemma_run_one(s1, SP);
    let s2 = s1.step(SP);
    lemma_resp_code_token(s2, code);
    let s3 = run(s2, code);
    assert(s2.code + code =~= code);
    lemma_run_one(s3, SP);
    let s4 = s3.step(SP);
    lemma_resp_reason(s4, reason);
    lemma_run_two(s4, CR, LF);
    let s5 = s4.step(CR).step(LF);
    assert(s5.line is Fields);

    let a1 = protocol;
    let a2 = a1 + seq![SP];
    let a3 = a2 + code;
    let a4 = a3 + seq![SP];
    let a5 = a4 + reason;
    let a6 = a5 + seq![CR, LF];
    lemma_split(s0, a1, seq![SP]);
    lemma_split(s0, a2, code);
    lemma_split(s0, a3, seq![SP]);
    lemma_split(s0, a4, reason);
    lemma_split(s0, a5, seq![CR, LF]);
    assert(run(s0, a6) == s5);

    let rest = fields_bytes(fs) + seq![CR, LF] + body;
    lemma_fields_and_body(s5.fields, fs, body);
    lemma_resp_in_fields(s5, rest);
    lemma_split(s0, a6, rest);
    assert(response_bytes(protocol, c, fs, body) =~= a6 + rest);

    assert forall|hs: Seq<Header>| #[trigger]
        headers_from_fields(hs, fs) implies response_head(decode_utf8(protocol), c, hs) + body
        == response_bytes(protocol, c, fs, body) by {
        lemma_headers_bytes(hs, fs);
        vstd::utf8::decode_utf8_encode_utf8(protocol);
        assert(response_head(decode_utf8(protocol), c, hs) + body =~= response_bytes(
            protocol,
            c,
            fs,
            body,
        ));
    }
}

} // verus!
