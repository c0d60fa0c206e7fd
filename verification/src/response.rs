//! An HTTP response, and what can be read from it.

use crate::body::{Body, BodyView};
use crate::headers::{field_key, first_text, first_value, header_fields, header_get};
use crate::text::{parse_u64, parsed_u64};
use vstd::prelude::*;

verus! {

/// A JSON value of the `serde_json` crate. Nothing is known of what it holds.
#[verifier::external_type_specification]
#[verifier::external_body]
pub struct ExJsonValue(serde_json::Value);

/// An error of the `serde_json` crate. Nothing is known of what it holds.
#[verifier::external_type_specification]
#[verifier::external_body]
pub struct ExJsonSyntaxError(serde_json::Error);

/// Whether the bytes are a JSON text, as `serde_json` reads it.
pub uninterp spec fn is_json(bytes: Seq<u8>) -> bool;

/// Calls `serde_json::from_slice` for a `serde_json::Value`, which gives the value of the
/// bytes where they are a JSON text, and an error where they are not.
#[verifier::external_body]
fn json_from_slice(bytes: &[u8]) -> (result: Result<serde_json::Value, serde_json::Error>)
    ensures
        result is Ok <==> is_json(bytes@),
{
    serde_json::from_slice(bytes)
}

/// Why a response body could not be read as JSON.
#[derive(Debug)]
pub enum DecodeError {
    /// The body could not be read.
    Io(std::io::Error),
    /// The body is not a JSON text.
    Syntax(serde_json::Error),
}

/// Numbers on the progress of a transfer.
#[derive(Clone, Copy, Debug, PartialEq, Eq, Structural)]
pub struct Metrics {
    /// The number of bytes that are expected to be uploaded.
    pub upload_total: u64,
    /// The number of bytes that were uploaded.
    pub upload_now: u64,
    /// The number of bytes that are expected to be downloaded.
    pub download_total: u64,
    /// The number of bytes that were downloaded.
    pub download_now: u64,
}

/// An HTTP response with a body of the type `T`.
#[derive(Debug)]
pub struct Response<T> {
    /// The status code.
    pub status: u16,
    /// The headers of the response.
    pub headers: http::HeaderMap<http::HeaderValue>,
    /// The URI that the response came from, which is not the URI of the request where a
    /// redirect was followed.
    pub effective_uri: Option<String>,
    /// The address of the local end of the connection.
    pub local_addr: Option<String>,
    /// The address of the remote end of the connection.
    pub remote_addr: Option<String>,
    /// The metrics of the transfer, where they were asked for.
    pub metrics: Option<Metrics>,
    /// The body of the response.
    pub body: T,
}

impl<T> Response<T> {
    /// The same response with another body.
    pub open spec fn with_body<U>(self, body: U) -> Response<U> {
        Response {
            status: self.status,
            headers: self.headers,
            effective_uri: self.effective_uri,
            local_addr: self.local_addr,
            remote_addr: self.remote_addr,
            metrics: self.metrics,
            body,
        }
    }

    /// Takes the body out of this response and puts another in its place.
    pub fn replace_body<U>(self, body: U) -> (parts: (Response<U>, T))
        ensures
            parts.0 == self.with_body(body),
            parts.1 == self.body,
    {
        (
            Response {
                status: self.status,
                headers: self.headers,
                effective_uri: self.effective_uri,
                local_addr: self.local_addr,
                remote_addr: self.remote_addr,
                metrics: self.metrics,
                body,
            },
            self.body,
        )
    }

    /// The length that the `Content-Length` header announces.
    pub open spec fn announced_length(self) -> Option<u64> {
        match first_text(header_fields(self.headers), field_key("content-length"@)) {
            Some(text) => parsed_u64(text),
            None => None,
        }
    }

    /// The number of bytes of the body, where it is known before the body is read: the
    /// length that the `Content-Length` header announces, unless the response has a
    /// `Content-Encoding` header. The bytes of a coded content are counted as they are
    /// sent, and the driver hands over those of the decoded content.
    pub open spec fn known_length(self) -> Option<u64> {
        if first_value(header_fields(self.headers), field_key("content-encoding"@)) is Some {
            None
        } else {
            self.announced_length()
        }
    }
}

/// Provides extension methods for working with HTTP responses.
pub trait ResponseExt<T> {
    /// The length that the `Content-Length` header of this response announces.
    spec fn spec_content_length(&self) -> Option<u64>;

    /// The URI that this response came from.
    spec fn spec_effective_uri(&self) -> Option<String>;

    /// The metrics of the transfer.
    spec fn spec_metrics(&self) -> Option<Metrics>;

    /// The body of this response.
    spec fn spec_body(&self) -> Body;

    /// Get the length of the response body as the `Content-Length` header announces it:
    /// the first value of that header, read as a decimal number. There is no length where
    /// the header is missing or its first value is not such a number.
    fn content_length(&self) -> (length: Option<u64>)
        ensures
            length == self.spec_content_length(),
    ;

    /// Get the effective URI of this response. This value differs from the URI of the
    /// request if at least one redirect was followed.
    ///
    /// This information is only available if populated by the HTTP client that produced the
    /// response.
    fn effective_uri(&self) -> (uri: Option<&String>)
        ensures
            match uri {
                Some(uri) => self.spec_effective_uri() == Some(*uri),
                None => self.spec_effective_uri() is None,
            },
    ;

    /// If request metrics are enabled for this particular transfer, return the metrics of
    /// the transfer.
    ///
    /// By default metrics are disabled and `None` will be returned.
    fn metrics(&self) -> (metrics: Option<Metrics>)
        ensures
            metrics == self.spec_metrics(),
    ;

    /// Reads the response body to its end and returns its bytes, as [`Body::drain`] does:
    /// the body has yielded as many bytes more as are returned, and a body that lies in
    /// memory gives all the bytes that were not read before.
    fn bytes(&mut self) -> (result: Result<Vec<u8>, std::io::Error>)
        ensures
            result matches Ok(bytes) ==> final(self).spec_body()@ == old(self).spec_body()@.advanced(bytes@.len()),
            exists|n: nat| final(self).spec_body()@ == old(self).spec_body()@.advanced(n),
            !(old(self).spec_body()@ is Reader) ==> (result matches Ok(bytes) && bytes@ == old(self).spec_body()@.remaining()),
    ;

    /// Reads the response body to its end and throws the bytes away. Returns the number of
    /// bytes that were read.
    fn consume(&mut self) -> (result: Result<u64, std::io::Error>)
        ensures
            result matches Ok(n) ==> final(self).spec_body()@ == old(self).spec_body()@.advanced(n as nat),
            exists|n: nat| final(self).spec_body()@ == old(self).spec_body()@.advanced(n),
            !(old(self).spec_body()@ is Reader) ==> (result matches Ok(n) && n == old(self).spec_body()@.remaining().len()),
    ;

    /// Reads the response body to its end and reads its bytes as JSON, as [`decode`] does.
    ///
    /// A body that lies in memory is read without failure, and the result is a value exactly
    /// where the bytes that were not read before are a JSON text. Of a stream, a failure to
    /// read it is handed on; where it is read to its end, the result is a value exactly
    /// where the bytes that it has yielded are a JSON text.
    fn json(&mut self) -> (result: Result<serde_json::Value, DecodeError>)
        ensures
            exists|n: nat| final(self).spec_body()@ == old(self).spec_body()@.advanced(n),
            !(result matches Err(DecodeError::Io(_))) ==> exists|bytes: Seq<u8>|
                {
                    &&& final(self).spec_body()@ == old(self).spec_body()@.advanced(bytes.len())
                    &&& result is Ok <==> #[trigger] is_json(bytes)
                },
            !(old(self).spec_body()@ is Reader) ==> {
                &&& result is Ok <==> is_json(old(self).spec_body()@.remaining())
                &&& result matches Err(e) ==> e is Syntax
            },
    ;
}

/// Reads the bytes as JSON: the result is a value where the bytes are a JSON text, and the
/// error of the parser where they are not.
pub fn decode(bytes: &[u8]) -> (result: Result<serde_json::Value, DecodeError>)
    ensures
        result is Ok <==> is_json(bytes@),
        result matches Err(e) ==> e is Syntax,
{
    match json_from_slice(bytes) {
        Ok(value) => Ok(value),
        Err(e) => Err(DecodeError::Syntax(e)),
    }
}

impl ResponseExt<Body> for Response<Body> {
    open spec fn spec_content_length(&self) -> Option<u64> {
        self.announced_length()
    }

    open spec fn spec_effective_uri(&self) -> Option<String> {
        self.effective_uri
    }

    open spec fn spec_metrics(&self) -> Option<Metrics> {
        self.metrics
    }

    open spec fn spec_body(&self) -> Body {
        self.body
    }

    fn content_length(&self) -> (length: Option<u64>) {
        content_length(&self.headers)
    }

    fn effective_uri(&self) -> (uri: Option<&String>) {
        self.effective_uri.as_ref()
    }

    fn metrics(&self) -> (metrics: Option<Metrics>) {
        self.metrics
    }

    fn bytes(&mut self) -> (result: Result<Vec<u8>, std::io::Error>) {
        self.body.drain()
    }

    fn consume(&mut self) -> (result: Result<u64, std::io::Error>) {
        self.body.skip_to_end()
    }

    fn json(&mut self) -> (result: Result<serde_json::Value, DecodeError>) {
        let bytes = match self.body.drain() {
            Ok(bytes) => bytes,
            Err(e) => {
                return Err(DecodeError::Io(e));
            },
        };
        let result = decode(bytes.as_slice());
        assert(result is Ok <==> is_json(bytes@));
        result
    }
}

/// Works out the number of bytes of the body of a response with the given headers, where
/// it is known before the body is read: the length that the `Content-Length` header
/// announces, unless there is a `Content-Encoding` header.
pub fn body_length(headers: &http::HeaderMap<http::HeaderValue>) -> (length: Option<u64>)
    ensures
        length == if first_value(header_fields(*headers), field_key("content-encoding"@))
            is Some {
            None
        } else {
            match first_text(header_fields(*headers), field_key("content-length"@)) {
                Some(text) => parsed_u64(text),
                None => None,
            }
        },
{
    match header_get(headers, "content-encoding") {
        Some(_) => None,
        None => content_length(headers),
    }
}

/// Reads the `Content-Length` header: its first value as a decimal number. There is no
/// length where the header is missing or its first value is not such a number.
pub fn content_length(headers: &http::HeaderMap<http::HeaderValue>) -> (length: Option<u64>)
    ensures
        length == match first_text(header_fields(*headers), field_key("content-length"@)) {
            Some(text) => parsed_u64(text),
            None => None,
        },
{
    match header_get(headers, "content-length") {
        Some(Some(text)) => parse_u64(text.as_str()),
        _ => None,
    }
}

} // verus!
