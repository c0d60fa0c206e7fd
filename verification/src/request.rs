//! An HTTP request.

use crate::body::Body;
use crate::config::{ConfigOption, Configurable, Options};
use vstd::prelude::*;

verus! {

/// The head of a request: everything but the body.
pub struct Parts {
    /// The method of the request, such as `GET`.
    pub method: String,
    /// The target of the request.
    pub uri: String,
    /// The headers of the request.
    pub headers: http::HeaderMap<http::HeaderValue>,
    /// The configuration options that were set for this one request. They shadow the
    /// defaults of the client that sends the request.
    pub options: Options,
}

/// An HTTP request: a method, a target, headers, options and a body.
pub struct Request {
    /// The method of the request, such as `GET`.
    pub method: String,
    /// The target of the request.
    pub uri: String,
    /// The headers of the request.
    pub headers: http::HeaderMap<http::HeaderValue>,
    /// The configuration options that were set for this one request. They shadow the
    /// defaults of the client that sends the request.
    pub options: Options,
    /// The body of the request.
    pub body: Body,
}

impl Request {
    /// The head of this request.
    pub open spec fn parts(self) -> Parts {
        Parts { method: self.method, uri: self.uri, headers: self.headers, options: self.options }
    }

    /// Creates a request without headers and without options.
    pub fn new(method: String, uri: String, body: Body) -> (request: Request)
        ensures
            request.method == method,
            request.uri == uri,
            request.body == body,
            request.options == Options::empty(),
            crate::headers::header_fields(request.headers) == crate::headers::no_fields(),
    {
        Request {
            method,
            uri,
            headers: crate::headers::header_map_new(),
            options: Options::new(),
            body,
        }
    }

    /// Takes this request apart into its head and its body.
    pub fn into_parts(self) -> (parts: (Parts, Body))
        ensures
            parts.0 == self.parts(),
            parts.1 == self.body,
    {
        (
            Parts {
                method: self.method,
                uri: self.uri,
                headers: self.headers,
                options: self.options,
            },
            self.body,
        )
    }

    /// Puts a head and a body together.
    pub fn from_parts(parts: Parts, body: Body) -> (request: Request)
        ensures
            request.parts() == parts,
            request.body == body,
    {
        Request {
            method: parts.method,
            uri: parts.uri,
            headers: parts.headers,
            options: parts.options,
            body,
        }
    }
}

impl Configurable for Request {
    open spec fn configured(self, option: ConfigOption) -> Request {
        Request { options: self.options.with(option), ..self }
    }

    fn configure(self, option: ConfigOption) -> (configured: Request) {
        let mut configured = self;
        configured.options.insert(option);
        configured
    }
}

} // verus!
