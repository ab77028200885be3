//! The request that a call of the proxy sends to the backend.

use crate::json::{empty_object, empty_object_text, json_text, to_text};
use crate::method::HttpMethod;
use vstd::prelude::*;

verus! {

/// Where the backend listens. Every endpoint is appended to this address.
pub const BASE_URL: &'static str = "http://localhost:5000/api";

/// The address that a call to `endpoint` goes to: the base address, a slash
/// and the endpoint as given, with no slash added, dropped or escaped.
pub open spec fn target_url(endpoint: Seq<char>) -> Seq<char> {
    BASE_URL@ + "/"@ + endpoint
}

/// The JSON text that is sent for `body`: the body's own text, or that of
/// the empty object where the caller gave none.
pub open spec fn payload_text(body: Option<serde_json::Value>) -> Seq<char> {
    match body {
        Some(value) => json_text(value),
        None => empty_object_text(),
    }
}

/// One request to the backend.
#[derive(Debug, PartialEq)]
pub struct BackendRequest {
    pub method: HttpMethod,
    pub url: String,
    pub body: serde_json::Value,
}

/// What a [`BackendRequest`] puts on the wire.
pub struct RequestView {
    pub method: HttpMethod,
    pub url: Seq<char>,
    pub payload: Seq<char>,
}

impl View for BackendRequest {
    type V = RequestView;

    open spec fn view(&self) -> RequestView {
        RequestView { method: self.method, url: self.url@, payload: json_text(self.body) }
    }
}

/// The request that a valid call stands for.
pub open spec fn request_for(
    endpoint: Seq<char>,
    method: HttpMethod,
    body: Option<serde_json::Value>,
) -> RequestView {
    RequestView { method, url: target_url(endpoint), payload: payload_text(body) }
}

/// Builds the address for `endpoint`.
pub fn build_url(endpoint: &str) -> (url: String)
    ensures
        url@ == target_url(endpoint@),
{
    let mut url = BASE_URL.to_owned();
    url.append("/");
    url.append(endpoint);
    url
}

impl BackendRequest {
    /// The request for `endpoint` with `method`; a missing body is replaced
    /// by the empty object, whatever the method.
    pub fn new(endpoint: &str, method: HttpMethod, body: Option<serde_json::Value>) -> (r: Self)
        ensures
            r@ == request_for(endpoint@, method, body),
            body matches Some(value) ==> r.body == value,
    {
        let body = match body {
            Some(value) => value,
            None => empty_object(),
        };
        BackendRequest { method, url: build_url(endpoint), body }
    }

    /// The request payload, as JSON text.
    pub fn payload(&self) -> (r: String)
        ensures
            r@ == self@.payload,
    {
        to_text(&self.body)
    }
}

/// A missing body and the empty object make the same request: the payload
/// sent is the same text.
pub proof fn law_missing_body_is_empty_object(
    endpoint: Seq<char>,
    method: HttpMethod,
    value: serde_json::Value,
)
    ensures
        json_text(value) == empty_object_text() ==> request_for(endpoint, method, None)
            == request_for(endpoint, method, Some(value)),
{
}

} // verus!
