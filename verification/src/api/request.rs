//! The request that an endpoint asks the transport to send.
use crate::api::json::{Json, JsonView};
use vstd::prelude::*;

verus! {

/// The HTTP methods that the endpoints use.
#[derive(Debug, Clone, Copy, PartialEq, Eq, Structural)]
pub enum HttpMethod {
    Get,
    Post,
    Patch,
    Delete,
}

/// One HTTP call: the method, the full URL, and the JSON body if there is
/// one.
#[derive(Debug, PartialEq, Eq)]
pub struct ApiRequest {
    pub method: HttpMethod,
    pub url: String,
    pub body: Option<Json>,
}

/// The mathematical value of an [`ApiRequest`].
pub struct ApiRequestView {
    pub method: HttpMethod,
    pub url: Seq<char>,
    pub body: Option<JsonView>,
}

impl View for ApiRequest {
    type V = ApiRequestView;

    open spec fn view(&self) -> ApiRequestView {
        ApiRequestView {
            method: self.method,
            url: self.url@,
            body: match self.body {
                Some(body) => Some(body@),
                None => None,
            },
        }
    }
}

} // verus!
