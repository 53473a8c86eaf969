//! Building a generation request.
//!
//! `Options` gathers what a call needs: the endpoint, the model name, an
//! optional bound on the output length, and the API key. The request body is
//! a JSON object with members `model` and `input`, and `max_output_tokens`
//! only when the bound is set.

use vstd::prelude::*;
use vstd::string::StringExecFns;

use crate::json::{spec_member, JsonValue};

verus! {

/// The character of a single decimal digit.
pub open spec fn spec_digit_char(d: nat) -> char {
    ((48 + d) as u8) as char
}

/// The decimal text of `n`: no sign, no leading zero, `0` for zero.
pub open spec fn spec_decimal(n: nat) -> Seq<char>
    decreases n,
{
    if n < 10 {
        seq![spec_digit_char(n)]
    } else {
        spec_decimal(n / 10).push(spec_digit_char(n % 10))
    }
}

/// Relies on usize's `to_string`: the decimal digits of `n`.
#[verifier::external_body]
fn usize_to_decimal(n: usize) -> (r: String)
    ensures
        r@ == spec_decimal(n as nat),
{
    n.to_string()
}

/// An API key: a secret the library writes out only into the authorization
/// header value. The type has no `Debug` form, so it cannot end up in a log
/// or an error message by accident.
#[derive(Clone)]
pub struct ApiKey {
    value: String,
}

impl View for ApiKey {
    type V = Seq<char>;

    closed spec fn view(&self) -> Seq<char> {
        self.value@
    }
}

impl ApiKey {
    /// Wraps a secret.
    pub fn new(value: String) -> (r: ApiKey)
        ensures
            r@ == value@,
    {
        ApiKey { value }
    }

    /// The secret itself, for building the authorization header; it belongs
    /// nowhere else.
    pub fn expose(&self) -> (r: &str)
        ensures
            r@ == self@,
    {
        self.value.as_str()
    }
}

/// What a generation call needs.
#[derive(Clone)]
pub struct Options {
    /// Base URL of the API; the fixed path is appended to it.
    pub endpoint: String,
    /// Model identifier sent in the request.
    pub model: String,
    /// Bound on the output length; omitted from the request when absent.
    pub max_tokens: Option<usize>,
    /// The bearer token.
    pub api_key: ApiKey,
}

/// The endpoint used when none is given.
pub open spec fn spec_default_endpoint() -> Seq<char> {
    "https://api.x.ai"@
}

/// The model used when none is given.
pub open spec fn spec_default_model() -> Seq<char> {
    "grok-3-mini"@
}

impl Options {
    /// Options for `api_key`, with the default endpoint and model and no
    /// bound on the output length.
    pub fn new(api_key: ApiKey) -> (r: Options)
        ensures
            r.endpoint@ == spec_default_endpoint(),
            r.model@ == spec_default_model(),
            r.max_tokens is None,
            r.api_key@ == api_key@,
    {
        Options {
            endpoint: ("https://api.x.ai").to_owned(),
            model: ("grok-3-mini").to_owned(),
            max_tokens: None,
            api_key,
        }
    }

    /// The same options with another endpoint.
    pub fn with_endpoint(self, endpoint: String) -> (r: Options)
        ensures
            r.endpoint@ == endpoint@,
            r.model == self.model,
            r.max_tokens == self.max_tokens,
            r.api_key@ == self.api_key@,
    {
        Options { endpoint, ..self }
    }

    /// The same options with another model.
    pub fn with_model(self, model: String) -> (r: Options)
        ensures
            r.endpoint == self.endpoint,
            r.model@ == model@,
            r.max_tokens == self.max_tokens,
            r.api_key@ == self.api_key@,
    {
        Options { model, ..self }
    }

    /// The same options with a bound on the output length.
    pub fn with_max_tokens(self, max_tokens: usize) -> (r: Options)
        ensures
            r.endpoint == self.endpoint,
            r.model == self.model,
            r.max_tokens == Some(max_tokens),
            r.api_key@ == self.api_key@,
    {
        Options { max_tokens: Some(max_tokens), ..self }
    }
}

/// The full request URL: the endpoint followed by the fixed path.
pub fn request_url(options: &Options) -> (r: String)
    ensures
        r@ == options.endpoint@ + "/v1/responses"@,
{
    let mut url = options.endpoint.clone();
    url.append("/v1/responses");
    url
}

/// The `Authorization` header value for the call.
pub fn authorization_value(options: &Options) -> (r: String)
    ensures
        r@ == "Bearer "@ + options.api_key@,
{
    let mut h = ("Bearer ").to_owned();
    h.append(options.api_key.expose());
    h
}

/// Whether `r` is the request body for `model`, `input` and `max_tokens`: an
/// object holding exactly `model`, `input`, and — only when the bound is set
/// — `max_output_tokens` with its decimal value.
pub open spec fn spec_is_request_body(
    r: JsonValue,
    model: Seq<char>,
    input: Seq<char>,
    max_tokens: Option<usize>,
) -> bool {
    &&& r matches JsonValue::Object(pairs)
    &&& pairs@.len() == if max_tokens is Some {
        3int
    } else {
        2int
    }
    &&& pairs@[0].0@ == "model"@
    &&& pairs@[0].1 matches JsonValue::Text(m) && m@ == model
    &&& pairs@[1].0@ == "input"@
    &&& pairs@[1].1 matches JsonValue::Text(t) && t@ == input
    &&& (max_tokens matches Some(n) ==> pairs@[2].0@ == "max_output_tokens"@ && (pairs@[2].1
        matches JsonValue::Number(d) && d@ == spec_decimal(n as nat)))
}

/// Without a bound on the output length the request body has no
/// `max_output_tokens` member at all, not a null one.
pub proof fn lemma_unbounded_request_has_no_max_member(
    r: JsonValue,
    model: Seq<char>,
    input: Seq<char>,
)
    requires
        spec_is_request_body(r, model, input, None),
    ensures
        r matches JsonValue::Object(pairs) && spec_member(pairs@, "max_output_tokens"@) is None,
{
    reveal_strlit("model");
    reveal_strlit("input");
    reveal_strlit("max_output_tokens");
    match r {
        JsonValue::Object(pairs) => {
            let key = "max_output_tokens"@;
            assert(key.len() == 17);
            assert(pairs@[0].0@.len() == 5);
            assert(pairs@[1].0@.len() == 5);
            assert(pairs@[0].0@ != key);
            assert(pairs@.drop_first()[0] == pairs@[1]);
            assert(pairs@.drop_first().len() == 1);
            assert(pairs@.drop_first()[0].0@ != key);
            assert(pairs@.drop_first().drop_first().len() == 0);
            assert(spec_member(pairs@.drop_first().drop_first(), key) is None);
            assert(spec_member(pairs@.drop_first(), key) is None);
            assert(spec_member(pairs@, key) is None);
        },
        _ => {
            assert(false);
        },
    }
}

/// Builds the body of the request that asks `options.model` to answer
/// `input`. The `max_output_tokens` member is present exactly when
/// `options.max_tokens` is set.
pub fn build_request(options: &Options, input: &str) -> (r: JsonValue)
    ensures
        spec_is_request_body(r, options.model@, input@, options.max_tokens),
{
    let mut pairs: Vec<(String, JsonValue)> = Vec::new();
    pairs.push((("model").to_owned(), JsonValue::Text(options.model.clone())));
    pairs.push((("input").to_owned(), JsonValue::Text(input.to_owned())));
    if let Some(n) = options.max_tokens {
        pairs.push((("max_output_tokens").to_owned(), JsonValue::Number(usize_to_decimal(n))));
    }
    JsonValue::Object(pairs)
}

} // verus!
