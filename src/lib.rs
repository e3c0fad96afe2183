//! Client library for the ZenSend SMS HTTP API.
//!
//! Requests are described as values (method, path, form-encoded parameters)
//! and responses are decoded from their JSON envelope; moving the bytes over
//! the network is left to the caller.
pub mod form;
pub mod json;
pub mod request;
pub mod response;
pub mod text;

pub use json::{JsonNode, Number};
pub use request::{
    ApiRequest, Client, CreateKeywordRequest, Message, Method, OriginatorType, SmsEncoding,
    API_KEY_HEADER, DEFAULT_URL,
};
pub use response::{
    check_balance_result, check_response, classify_envelope, is_json_content_type, create_keyword_result, decode_envelope,
    get_prices_result, lookup_operator_result, send_sms_result, ApiResponse, CreateKeywordResult,
    Envelope, Error, OperatorLookupResult, SmsResult, ZenSendError,
};
