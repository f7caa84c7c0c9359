//! The transport-level request that every finished payload converts to.

use vstd::prelude::*;

verus! {

/// The HTTP method of a request. Every endpoint of this API takes a `POST`.
#[derive(Debug, Clone, Copy, PartialEq, Eq, Structural)]
pub enum Method {
    Post,
}

/// A request as the transport sends it: method, target URL and body.
#[derive(Debug, PartialEq, Eq)]
pub struct Request {
    pub method: Method,
    pub url: String,
    pub body: Vec<u8>,
}

/// The mathematical model of a [`Request`].
pub struct RequestModel {
    pub method: Method,
    pub url: Seq<char>,
    pub body: Seq<u8>,
}

impl View for Request {
    type V = RequestModel;

    open spec fn view(&self) -> RequestModel {
        RequestModel { method: self.method, url: self.url@, body: self.body@ }
    }
}

/// A finished payload that knows its endpoint. The conversion cannot fail and
/// depends on nothing but the payload.
pub trait IntoRequest: Sized {
    /// The request that this payload converts to.
    spec fn request(&self) -> RequestModel;

    fn into_request(self) -> (request: Request)
        ensures
            request@ == self.request(),
    ;
}

} // verus!
