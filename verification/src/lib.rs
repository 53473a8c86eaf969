//! Client-side logic for a remote text-generation HTTP API.
//!
//! The library builds the JSON request body for a generation call and
//! interprets the JSON response: it walks the response's `output` list and
//! collects the text of every `output_text` content entry of every assistant
//! `message` chunk, in source order. Transport (the HTTP POST itself) is left
//! to the caller; everything here works on plain values and is verified.

pub mod extract;
pub mod json;
pub mod request;
pub mod response;

pub use extract::extract_responses;
pub use json::JsonValue;
pub use request::{authorization_value, build_request, request_url, ApiKey, Options};
pub use response::{handle_response, interpret_response, GenerateError};
