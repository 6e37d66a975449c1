//! The parsers that deal with parsing the Data in multiple chunks and do not
//! need all of it right away.

mod error;
pub use error::ParseError;

mod machine;
pub use machine::{
    concat_all, consumed, consumed_chunks, is_one_message, lemma_consumed_accounting,
    lemma_consumed_prefix, lemma_split, lemma_split_invariance, lemma_terminal_idempotent, run,
    run_chunks, ByteMachine,
};

mod fields;
pub use fields::{FieldsModel, FieldsParser, FieldsState};

mod req;
pub use req::{fields_valid_utf8, headers_from_fields, ReqLine, ReqModel, ReqParser};

mod resp;
pub use resp::{RespLine, RespModel, RespParser};

mod round_trip;
pub use round_trip::{
    avoids, canonical_field, canonical_request, canonical_response, field_line, fields_bytes,
    frames_body, lemma_headers_bytes, lemma_request_round_trip, lemma_response_round_trip,
    request_bytes, response_bytes,
};
