//! A small fluent layer over an HTTP client: a cookie-keeping client context,
//! a one-shot request builder, and a typed reading of responses.

mod client;
mod error;
mod header;
mod request;
mod response;
mod transport;

pub use crate::client::{Client, ClientView};
pub use crate::error::RequestError;
pub use crate::header::{
    append_header, header_fault, header_key, header_map_of, header_name_char, header_name_valid,
    header_value_char, header_value_valid, header_values, lemma_header_map_size,
    lemma_header_values_size, HeaderFault,
};
pub use crate::request::{law_plain_request_adds_nothing, law_query_pairs_kept, Method, Request, RequestView};
pub use crate::response::{
    decode_typed, failure_outcome, law_expected_status_decides, law_unset_expectation_reads_error,
    settle_text, success_outcome, takes_success_path, ResponseResult,
};
pub use crate::transport::{
    builder_settings, header_map_entries, header_name_text, header_value_text, holds_request,
    initial_headers, no_header_values, no_headers, outgoing, parsed_url, transport_settings,
    OutgoingRequest, ParsedAddress, TransportSettings,
};
