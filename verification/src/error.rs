//! Types for error handling.

use vstd::prelude::*;
use vstd::std_specs::convert::FromSpecImpl;

verus! {

/// An error of a transfer handle of the `curl` crate. Nothing is known of what it holds.
#[verifier::external_type_specification]
#[verifier::external_body]
pub struct ExCurlError(curl::Error);

/// An error of the multi handle of the `curl` crate. Nothing is known of what it holds.
#[verifier::external_type_specification]
#[verifier::external_body]
pub struct ExCurlMultiError(curl::MultiError);

/// An error of the `http` crate. Nothing is known of what it holds.
#[verifier::external_type_specification]
#[verifier::external_body]
pub struct ExHttpError(http::Error);

/// An I/O error of the standard library. Nothing is known of what it holds.
#[verifier::external_type_specification]
#[verifier::external_body]
pub struct ExIoError(std::io::Error);

/// An error of the `json` crate. Nothing is known of what it holds.
#[verifier::external_type_specification]
#[verifier::external_body]
pub struct ExJsonError(json::Error);

/// The error of the standard library for bytes that are not UTF-8. Nothing is known of
/// what it holds.
#[verifier::external_type_specification]
#[verifier::external_body]
pub struct ExFromUtf8Error(std::string::FromUtf8Error);

/// Result code of the transfer driver: there is a problem with the local client certificate.
pub const CODE_SSL_CERTPROBLEM: u32 = 58;

/// Result code of the transfer driver: the CA certificate bundle could not be read.
pub const CODE_SSL_CACERT_BADFILE: u32 = 77;

/// Result code of the transfer driver: the peer's certificate or fingerprint did not verify.
/// The driver reports a CA certificate that does not verify under the same number.
pub const CODE_PEER_FAILED_VERIFICATION: u32 = 60;

/// Result code of the transfer driver: could not connect to the host or the proxy.
pub const CODE_COULDNT_CONNECT: u32 = 7;

/// Result code of the transfer driver: the host name did not resolve.
pub const CODE_COULDNT_RESOLVE_HOST: u32 = 6;

/// Result code of the transfer driver: the proxy name did not resolve.
pub const CODE_COULDNT_RESOLVE_PROXY: u32 = 5;

/// Result code of the transfer driver: unrecognized content encoding.
pub const CODE_BAD_CONTENT_ENCODING: u32 = 61;

/// Result code of the transfer driver: character conversion failed.
pub const CODE_CONV_FAILED: u32 = 75;

/// Result code of the transfer driver: the server denied the login.
pub const CODE_LOGIN_DENIED: u32 = 67;

/// Result code of the transfer driver: the server returned nothing.
pub const CODE_GOT_NOTHING: u32 = 52;

/// Result code of the transfer driver: the server does not support or accept range requests.
pub const CODE_RANGE_ERROR: u32 = 33;

/// Result code of the transfer driver: reading the request body failed.
pub const CODE_READ_ERROR: u32 = 26;

/// Result code of the transfer driver: a callback aborted the transfer.
pub const CODE_ABORTED_BY_CALLBACK: u32 = 42;

/// Result code of the transfer driver: writing the received data failed.
pub const CODE_WRITE_ERROR: u32 = 23;

/// Result code of the transfer driver: the transfer ended before the announced size was reached.
pub const CODE_PARTIAL_FILE: u32 = 18;

/// Result code of the transfer driver: the secure handshake failed.
pub const CODE_SSL_CONNECT_ERROR: u32 = 35;

/// Result code of the transfer driver: the secure socket engine failed to initialize.
pub const CODE_SSL_ENGINE_INITFAILED: u32 = 66;

/// Result code of the transfer driver: the secure socket engine was not found.
pub const CODE_SSL_ENGINE_NOTFOUND: u32 = 53;

/// Result code of the transfer driver: the secure socket engine could not be made the default.
pub const CODE_SSL_ENGINE_SETFAILED: u32 = 54;

/// Result code of the transfer driver: the operation timed out.
pub const CODE_OPERATION_TIMEDOUT: u32 = 28;

/// Result code of the transfer driver: the redirect limit was reached.
pub const CODE_TOO_MANY_REDIRECTS: u32 = 47;

/// All possible types of errors that can be returned from the client.
#[derive(Debug)]
pub enum ClientError {
    /// A problem occurred with the local certificate.
    BadClientCertificate(Option<String>),
    /// The server certificate could not be validated.
    BadServerCertificate(Option<String>),
    /// The request was canceled before it could be completed.
    Canceled,
    /// Failed to connect to the server.
    ConnectFailed,
    /// Couldn't resolve host name.
    CouldntResolveHost,
    /// Couldn't resolve proxy host name.
    CouldntResolveProxy,
    /// An unrecognized error reported by the transfer driver.
    Curl(String),
    /// An internal error occurred in the client.
    Internal,
    /// Unrecognized or bad content encoding returned by the server.
    InvalidContentEncoding(Option<String>),
    /// Provided credentials were rejected by the server.
    InvalidCredentials,
    /// Validation error when constructing the request or parsing the response.
    InvalidHttpFormat(http::Error),
    /// JSON syntax error when constructing or parsing JSON values.
    InvalidJson,
    /// Invalid UTF-8 string error.
    InvalidUtf8,
    /// An unknown I/O error.
    Io(std::io::Error),
    /// The server did not send a response.
    NoResponse,
    /// The server does not support or accept range requests.
    RangeRequestUnsupported,
    /// An error occurred while writing the request body.
    RequestBodyError(Option<String>),
    /// An error occurred while reading the response body.
    ResponseBodyError(Option<String>),
    /// Failed to connect over a secure socket.
    SSLConnectFailed(Option<String>),
    /// An error ocurred in the secure socket engine.
    SSLEngineError(Option<String>),
    /// An ongoing request took longer than the configured timeout time.
    Timeout,
    /// Returned when making more simultaneous requests would exceed the configured connection
    /// limit.
    TooManyConnections,
    /// Number of redirects hit the maximum amount.
    TooManyRedirects,
}

/// The kind of a [`ClientError`], without what it carries.
#[derive(Clone, Copy, Debug, PartialEq, Eq, Structural)]
pub enum ErrorKind {
    BadClientCertificate,
    BadServerCertificate,
    Canceled,
    ConnectFailed,
    CouldntResolveHost,
    CouldntResolveProxy,
    Curl,
    Internal,
    InvalidContentEncoding,
    InvalidCredentials,
    InvalidHttpFormat,
    InvalidJson,
    InvalidUtf8,
    Io,
    NoResponse,
    RangeRequestUnsupported,
    RequestBodyError,
    ResponseBodyError,
    SSLConnectFailed,
    SSLEngineError,
    Timeout,
    TooManyConnections,
    TooManyRedirects,
}

/// What the transfer driver reports of a transfer that failed.
#[derive(Clone, Debug, PartialEq, Eq)]
pub struct TransferFailure {
    /// The driver's result code.
    pub code: u32,
    /// The driver's general description of the code.
    pub description: String,
    /// Further detail on this one failure, where the driver recorded any.
    pub extra: Option<String>,
}

/// The kinds of I/O failure that the client tells apart.
#[derive(Clone, Copy, Debug, PartialEq, Eq, Structural)]
pub enum IoErrorKind {
    ConnectionRefused,
    TimedOut,
    Interrupted,
    BrokenPipe,
    /// Any other kind.
    Other,
}

/// The kinds of failure of the `json` parser.
#[derive(Clone, Copy, Debug, PartialEq, Eq, Structural)]
pub enum JsonErrorKind {
    UnexpectedCharacter,
    UnexpectedEndOfJson,
    ExceededDepthLimit,
    FailedUtf8Parsing,
    WrongType,
}

/// The result code that an error of the driver wraps.
pub uninterp spec fn curl_code(error: curl::Error) -> u32;

/// The detail on the one failure that is stored in an error of the driver, where any is.
pub uninterp spec fn curl_extra(error: curl::Error) -> Option<String>;

/// The kind of an I/O error, as the client tells the kinds apart: every kind that has no
/// name of its own in [`IoErrorKind`] is `Other`.
pub uninterp spec fn io_kind_of(error: std::io::Error) -> IoErrorKind;

/// The kind of a failure of the `json` parser.
pub uninterp spec fn json_kind_of(error: json::Error) -> JsonErrorKind;

/// The text that an error of the `http` crate is written as.
pub uninterp spec fn http_error_text(error: http::Error) -> Seq<char>;

/// Calls `curl::Error::code`, which returns the result code that the error wraps.
#[verifier::external_body]
fn curl_error_code(error: &curl::Error) -> (code: u32)
    ensures
        code == curl_code(*error),
{
    error.code()
}

/// Calls `curl::Error::description`, which asks the driver for its text on the error's code.
#[verifier::external_body]
fn curl_error_description(error: &curl::Error) -> String {
    error.description().to_owned()
}

/// Calls `curl::Error::extra_description`, which returns the detail stored in the error, if
/// any.
#[verifier::external_body]
fn curl_error_extra(error: &curl::Error) -> (extra: Option<String>)
    ensures
        extra == curl_extra(*error),
{
    error.extra_description().map(str::to_owned)
}

/// Calls `curl::MultiError::description`, which asks the driver for its text on the error's
/// code.
#[verifier::external_body]
fn multi_error_description(error: &curl::MultiError) -> String {
    error.description().to_owned()
}

/// Calls `std::io::Error::kind` and names the kinds that the client tells apart; every other
/// kind is given as `Other`.
#[verifier::external_body]
pub(crate) fn io_error_kind(error: &std::io::Error) -> (kind: IoErrorKind)
    ensures
        kind == io_kind_of(*error),
{
    match error.kind() {
        std::io::ErrorKind::ConnectionRefused => IoErrorKind::ConnectionRefused,
        std::io::ErrorKind::TimedOut => IoErrorKind::TimedOut,
        std::io::ErrorKind::Interrupted => IoErrorKind::Interrupted,
        std::io::ErrorKind::BrokenPipe => IoErrorKind::BrokenPipe,
        _ => IoErrorKind::Other,
    }
}

/// The I/O error that `std::io::Error::from` makes of the kind of the standard library that
/// has the same name as `kind`: an error of that kind that carries nothing else.
pub uninterp spec fn io_error_from(kind: IoErrorKind) -> std::io::Error;

/// Calls `std::io::Error::from` on the kind of the standard library that has the same name;
/// `Other` gives `std::io::ErrorKind::Other`. The error that is made is of that kind.
#[verifier::external_body]
pub(crate) fn io_error_of_kind(kind: IoErrorKind) -> (error: std::io::Error)
    ensures
        error == io_error_from(kind),
        io_kind_of(error) == kind,
{
    std::io::Error::from(
        match kind {
            IoErrorKind::ConnectionRefused => std::io::ErrorKind::ConnectionRefused,
            IoErrorKind::TimedOut => std::io::ErrorKind::TimedOut,
            IoErrorKind::Interrupted => std::io::ErrorKind::Interrupted,
            IoErrorKind::BrokenPipe => std::io::ErrorKind::BrokenPipe,
            IoErrorKind::Other => std::io::ErrorKind::Other,
        },
    )
}

/// Calls `to_string` on an I/O error, which writes the error as its `Display` says.
#[verifier::external_body]
fn io_error_description(error: &std::io::Error) -> String {
    error.to_string()
}

/// Calls `to_string` on an error of the `http` crate, which writes the error as its
/// `Display` says.
#[verifier::external_body]
fn http_error_description(error: &http::Error) -> (text: String)
    ensures
        text@ == http_error_text(*error),
{
    error.to_string()
}

/// Tells the variants of `json::Error` apart.
#[verifier::external_body]
fn json_error_kind(error: &json::Error) -> (kind: JsonErrorKind)
    ensures
        kind == json_kind_of(*error),
{
    match error {
        json::Error::UnexpectedCharacter { .. } => JsonErrorKind::UnexpectedCharacter,
        json::Error::UnexpectedEndOfJson => JsonErrorKind::UnexpectedEndOfJson,
        json::Error::ExceededDepthLimit => JsonErrorKind::ExceededDepthLimit,
        json::Error::FailedUtf8Parsing => JsonErrorKind::FailedUtf8Parsing,
        json::Error::WrongType(_) => JsonErrorKind::WrongType,
    }
}

impl TransferFailure {
    /// Reads the code, the description and the extra detail out of an error of the driver.
    /// The description is the text that the driver has for the code, and is not known here.
    pub fn read(error: &curl::Error) -> (failure: TransferFailure)
        ensures
            failure.code == curl_code(*error),
            failure.extra == curl_extra(*error),
    {
        TransferFailure {
            code: curl_error_code(error),
            description: curl_error_description(error),
            extra: curl_error_extra(error),
        }
    }

    /// The error that a failure of the driver becomes.
    ///
    /// Failures are told apart by their code alone. The extra detail is kept where the error
    /// has room for it; a code that the client does not know becomes `Curl` with the driver's
    /// description.
    pub open spec fn classify(self) -> ClientError {
        if self.code == CODE_SSL_CERTPROBLEM || self.code == CODE_SSL_CACERT_BADFILE {
            ClientError::BadClientCertificate(self.extra)
        } else if self.code == CODE_PEER_FAILED_VERIFICATION {
            ClientError::BadServerCertificate(self.extra)
        } else if self.code == CODE_COULDNT_CONNECT {
            ClientError::ConnectFailed
        } else if self.code == CODE_COULDNT_RESOLVE_HOST {
            ClientError::CouldntResolveHost
        } else if self.code == CODE_COULDNT_RESOLVE_PROXY {
            ClientError::CouldntResolveProxy
        } else if self.code == CODE_BAD_CONTENT_ENCODING || self.code == CODE_CONV_FAILED {
            ClientError::InvalidContentEncoding(self.extra)
        } else if self.code == CODE_LOGIN_DENIED {
            ClientError::InvalidCredentials
        } else if self.code == CODE_GOT_NOTHING {
            ClientError::NoResponse
        } else if self.code == CODE_RANGE_ERROR {
            ClientError::RangeRequestUnsupported
        } else if self.code == CODE_READ_ERROR || self.code == CODE_ABORTED_BY_CALLBACK {
            ClientError::RequestBodyError(self.extra)
        } else if self.code == CODE_WRITE_ERROR || self.code == CODE_PARTIAL_FILE {
            ClientError::ResponseBodyError(self.extra)
        } else if self.code == CODE_SSL_CONNECT_ERROR {
            ClientError::SSLConnectFailed(self.extra)
        } else if self.code == CODE_SSL_ENGINE_INITFAILED || self.code == CODE_SSL_ENGINE_NOTFOUND
            || self.code == CODE_SSL_ENGINE_SETFAILED {
            ClientError::SSLEngineError(self.extra)
        } else if self.code == CODE_OPERATION_TIMEDOUT {
            ClientError::Timeout
        } else if self.code == CODE_TOO_MANY_REDIRECTS {
            ClientError::TooManyRedirects
        } else {
            ClientError::Curl(self.description)
        }
    }
}

impl From<TransferFailure> for ClientError {
    fn from(failure: TransferFailure) -> (error: ClientError) {
        let code = failure.code;
        if code == CODE_SSL_CERTPROBLEM || code == CODE_SSL_CACERT_BADFILE {
            ClientError::BadClientCertificate(failure.extra)
        } else if code == CODE_PEER_FAILED_VERIFICATION {
            ClientError::BadServerCertificate(failure.extra)
        } else if code == CODE_COULDNT_CONNECT {
            ClientError::ConnectFailed
        } else if code == CODE_COULDNT_RESOLVE_HOST {
            ClientError::CouldntResolveHost
        } else if code == CODE_COULDNT_RESOLVE_PROXY {
            ClientError::CouldntResolveProxy
        } else if code == CODE_BAD_CONTENT_ENCODING || code == CODE_CONV_FAILED {
            ClientError::InvalidContentEncoding(failure.extra)
        } else if code == CODE_LOGIN_DENIED {
            ClientError::InvalidCredentials
        } else if code == CODE_GOT_NOTHING {
            ClientError::NoResponse
        } else if code == CODE_RANGE_ERROR {
            ClientError::RangeRequestUnsupported
        } else if code == CODE_READ_ERROR || code == CODE_ABORTED_BY_CALLBACK {
            ClientError::RequestBodyError(failure.extra)
        } else if code == CODE_WRITE_ERROR || code == CODE_PARTIAL_FILE {
            ClientError::ResponseBodyError(failure.extra)
        } else if code == CODE_SSL_CONNECT_ERROR {
            ClientError::SSLConnectFailed(failure.extra)
        } else if code == CODE_SSL_ENGINE_INITFAILED || code == CODE_SSL_ENGINE_NOTFOUND || code
            == CODE_SSL_ENGINE_SETFAILED {
            ClientError::SSLEngineError(failure.extra)
        } else if code == CODE_OPERATION_TIMEDOUT {
            ClientError::Timeout
        } else if code == CODE_TOO_MANY_REDIRECTS {
            ClientError::TooManyRedirects
        } else {
            ClientError::Curl(failure.description)
        }
    }
}

impl FromSpecImpl<TransferFailure> for ClientError {
    open spec fn obeys_from_spec() -> bool {
        true
    }

    open spec fn from_spec(failure: TransferFailure) -> ClientError {
        failure.classify()
    }
}

impl From<curl::Error> for ClientError {
    /// The error is read with [`TransferFailure::read`] and becomes what
    /// [`TransferFailure::classify`] says of its code and its extra detail, and of the
    /// description that the driver has for the code.
    fn from(error: curl::Error) -> (result: ClientError)
        ensures
            exists|description: String|
                result == #[trigger] ClientError::of_curl(error, description),
    {
        let failure = TransferFailure::read(&error);
        let result = ClientError::from(failure);
        assert(result == ClientError::of_curl(error, failure.description));
        result
    }
}

impl FromSpecImpl<curl::Error> for ClientError {
    open spec fn obeys_from_spec() -> bool {
        false
    }

    open spec fn from_spec(error: curl::Error) -> ClientError {
        ClientError::Internal
    }
}

impl From<curl::MultiError> for ClientError {
    fn from(error: curl::MultiError) -> (result: ClientError)
        ensures
            result is Curl,
    {
        ClientError::Curl(multi_error_description(&error))
    }
}

impl FromSpecImpl<curl::MultiError> for ClientError {
    open spec fn obeys_from_spec() -> bool {
        false
    }

    open spec fn from_spec(error: curl::MultiError) -> ClientError {
        ClientError::Internal
    }
}

impl From<http::Error> for ClientError {
    fn from(error: http::Error) -> (result: ClientError) {
        ClientError::InvalidHttpFormat(error)
    }
}

impl FromSpecImpl<http::Error> for ClientError {
    open spec fn obeys_from_spec() -> bool {
        true
    }

    open spec fn from_spec(error: http::Error) -> ClientError {
        ClientError::InvalidHttpFormat(error)
    }
}

impl From<std::io::Error> for ClientError {
    /// The error becomes what [`ClientError::of_io`] says of it and of its kind.
    fn from(error: std::io::Error) -> (result: ClientError) {
        let kind = io_error_kind(&error);
        ClientError::from_io(kind, error)
    }
}

impl FromSpecImpl<std::io::Error> for ClientError {
    open spec fn obeys_from_spec() -> bool {
        true
    }

    open spec fn from_spec(error: std::io::Error) -> ClientError {
        ClientError::of_io(io_kind_of(error), error)
    }
}

impl From<std::string::FromUtf8Error> for ClientError {
    fn from(error: std::string::FromUtf8Error) -> (result: ClientError) {
        ClientError::InvalidUtf8
    }
}

impl FromSpecImpl<std::string::FromUtf8Error> for ClientError {
    open spec fn obeys_from_spec() -> bool {
        true
    }

    open spec fn from_spec(error: std::string::FromUtf8Error) -> ClientError {
        ClientError::InvalidUtf8
    }
}

impl From<json::Error> for ClientError {
    /// The error becomes what [`ClientError::of_json`] says of its kind.
    fn from(error: json::Error) -> (result: ClientError) {
        let kind = json_error_kind(&error);
        ClientError::from_json(kind)
    }
}

impl FromSpecImpl<json::Error> for ClientError {
    open spec fn obeys_from_spec() -> bool {
        true
    }

    open spec fn from_spec(error: json::Error) -> ClientError {
        ClientError::of_json(json_kind_of(error))
    }
}

impl ClientError {
    /// The error that an error of the driver becomes, where `description` is the text that
    /// the driver has for the code of the error.
    pub open spec fn of_curl(error: curl::Error, description: String) -> ClientError {
        (TransferFailure { code: curl_code(error), description, extra: curl_extra(error) }).classify()
    }

    /// The kind of this error.
    pub open spec fn spec_kind(&self) -> ErrorKind {
        match self {
            ClientError::BadClientCertificate(_) => ErrorKind::BadClientCertificate,
            ClientError::BadServerCertificate(_) => ErrorKind::BadServerCertificate,
            ClientError::Canceled => ErrorKind::Canceled,
            ClientError::ConnectFailed => ErrorKind::ConnectFailed,
            ClientError::CouldntResolveHost => ErrorKind::CouldntResolveHost,
            ClientError::CouldntResolveProxy => ErrorKind::CouldntResolveProxy,
            ClientError::Curl(_) => ErrorKind::Curl,
            ClientError::Internal => ErrorKind::Internal,
            ClientError::InvalidContentEncoding(_) => ErrorKind::InvalidContentEncoding,
            ClientError::InvalidCredentials => ErrorKind::InvalidCredentials,
            ClientError::InvalidHttpFormat(_) => ErrorKind::InvalidHttpFormat,
            ClientError::InvalidJson => ErrorKind::InvalidJson,
            ClientError::InvalidUtf8 => ErrorKind::InvalidUtf8,
            ClientError::Io(_) => ErrorKind::Io,
            ClientError::NoResponse => ErrorKind::NoResponse,
            ClientError::RangeRequestUnsupported => ErrorKind::RangeRequestUnsupported,
            ClientError::RequestBodyError(_) => ErrorKind::RequestBodyError,
            ClientError::ResponseBodyError(_) => ErrorKind::ResponseBodyError,
            ClientError::SSLConnectFailed(_) => ErrorKind::SSLConnectFailed,
            ClientError::SSLEngineError(_) => ErrorKind::SSLEngineError,
            ClientError::Timeout => ErrorKind::Timeout,
            ClientError::TooManyConnections => ErrorKind::TooManyConnections,
            ClientError::TooManyRedirects => ErrorKind::TooManyRedirects,
        }
    }

    /// Returns the kind of this error.
    #[verifier::when_used_as_spec(spec_kind)]
    pub fn kind(&self) -> (kind: ErrorKind)
        ensures
            kind == self.spec_kind(),
    {
        match self {
            ClientError::BadClientCertificate(_) => ErrorKind::BadClientCertificate,
            ClientError::BadServerCertificate(_) => ErrorKind::BadServerCertificate,
            ClientError::Canceled => ErrorKind::Canceled,
            ClientError::ConnectFailed => ErrorKind::ConnectFailed,
            ClientError::CouldntResolveHost => ErrorKind::CouldntResolveHost,
            ClientError::CouldntResolveProxy => ErrorKind::CouldntResolveProxy,
            ClientError::Curl(_) => ErrorKind::Curl,
            ClientError::Internal => ErrorKind::Internal,
            ClientError::InvalidContentEncoding(_) => ErrorKind::InvalidContentEncoding,
            ClientError::InvalidCredentials => ErrorKind::InvalidCredentials,
            ClientError::InvalidHttpFormat(_) => ErrorKind::InvalidHttpFormat,
            ClientError::InvalidJson => ErrorKind::InvalidJson,
            ClientError::InvalidUtf8 => ErrorKind::InvalidUtf8,
            ClientError::Io(_) => ErrorKind::Io,
            ClientError::NoResponse => ErrorKind::NoResponse,
            ClientError::RangeRequestUnsupported => ErrorKind::RangeRequestUnsupported,
            ClientError::RequestBodyError(_) => ErrorKind::RequestBodyError,
            ClientError::ResponseBodyError(_) => ErrorKind::ResponseBodyError,
            ClientError::SSLConnectFailed(_) => ErrorKind::SSLConnectFailed,
            ClientError::SSLEngineError(_) => ErrorKind::SSLEngineError,
            ClientError::Timeout => ErrorKind::Timeout,
            ClientError::TooManyConnections => ErrorKind::TooManyConnections,
            ClientError::TooManyRedirects => ErrorKind::TooManyRedirects,
        }
    }

    /// The error that an I/O error of the given kind becomes: a refused connection and a
    /// timeout have errors of their own, every other I/O error is carried along.
    pub open spec fn of_io(kind: IoErrorKind, error: std::io::Error) -> ClientError {
        match kind {
            IoErrorKind::ConnectionRefused => ClientError::ConnectFailed,
            IoErrorKind::TimedOut => ClientError::Timeout,
            _ => ClientError::Io(error),
        }
    }

    /// Turns an I/O error of the given kind into an error of the client.
    pub fn from_io(kind: IoErrorKind, error: std::io::Error) -> (result: ClientError)
        ensures
            result == ClientError::of_io(kind, error),
    {
        match kind {
            IoErrorKind::ConnectionRefused => ClientError::ConnectFailed,
            IoErrorKind::TimedOut => ClientError::Timeout,
            _ => ClientError::Io(error),
        }
    }

    /// The error that a failure of the `json` parser becomes.
    pub open spec fn of_json(kind: JsonErrorKind) -> ClientError {
        if kind == JsonErrorKind::FailedUtf8Parsing {
            ClientError::InvalidUtf8
        } else {
            ClientError::InvalidJson
        }
    }

    /// Turns a failure of the `json` parser into an error of the client.
    pub fn from_json(kind: JsonErrorKind) -> (result: ClientError)
        ensures
            result == ClientError::of_json(kind),
    {
        match kind {
            JsonErrorKind::FailedUtf8Parsing => ClientError::InvalidUtf8,
            _ => ClientError::InvalidJson,
        }
    }

    /// The kind of I/O error that stands for this error, where this error does not carry an
    /// I/O error itself.
    pub open spec fn spec_io_kind(&self) -> IoErrorKind {
        match self {
            ClientError::ConnectFailed => IoErrorKind::ConnectionRefused,
            ClientError::Timeout => IoErrorKind::TimedOut,
            _ => IoErrorKind::Other,
        }
    }

    /// Returns the kind of I/O error that stands for this error, where this error does not
    /// carry an I/O error itself: a failure to connect is a refused connection, a timeout is
    /// a timeout, and every other error is of the kind `Other`.
    #[verifier::when_used_as_spec(spec_io_kind)]
    pub fn io_kind(&self) -> (kind: IoErrorKind)
        ensures
            kind == self.spec_io_kind(),
    {
        match self {
            ClientError::ConnectFailed => IoErrorKind::ConnectionRefused,
            ClientError::Timeout => IoErrorKind::TimedOut,
            _ => IoErrorKind::Other,
        }
    }

    /// The I/O error that this error becomes: the I/O error that it carries, or the error
    /// that the standard library makes of the kind that stands for it.
    pub open spec fn as_io(self) -> std::io::Error {
        match self {
            ClientError::Io(inner) => inner,
            _ => io_error_from(self.spec_io_kind()),
        }
    }

    /// An I/O error that has become an error of the client becomes an I/O error of the same
    /// kind again: a refused connection and a timeout come back as the errors that the
    /// standard library makes of these kinds, and every other error comes back as it was.
    pub proof fn lemma_io_kind_kept(kind: IoErrorKind, error: std::io::Error)
        ensures
            ClientError::of_io(kind, error).as_io() == if kind == IoErrorKind::ConnectionRefused
                || kind == IoErrorKind::TimedOut {
                io_error_from(kind)
            } else {
                error
            },
    {
    }

    /// Turns this error into an I/O error.
    ///
    /// An I/O error that this error carries is handed back as it is. Any other error becomes
    /// a new I/O error, made from the kind that [`ClientError::io_kind`] gives, and of that
    /// kind. So an I/O error that has become an error of the client comes back with the
    /// kind that it had.
    pub fn into_io(self) -> (result: std::io::Error)
        ensures
            result == self.as_io(),
            io_kind_of(result) == match self {
                ClientError::Io(inner) => io_kind_of(inner),
                _ => self.spec_io_kind(),
            },
    {
        match self {
            ClientError::Io(e) => e,
            other => io_error_of_kind(other.io_kind()),
        }
    }

    /// The detail that this error carries, if it is of a kind that has room for one.
    pub open spec fn detail(&self) -> Option<String> {
        match self {
            ClientError::BadClientCertificate(detail) => *detail,
            ClientError::BadServerCertificate(detail) => *detail,
            ClientError::InvalidContentEncoding(detail) => *detail,
            ClientError::RequestBodyError(detail) => *detail,
            ClientError::ResponseBodyError(detail) => *detail,
            ClientError::SSLConnectFailed(detail) => *detail,
            ClientError::SSLEngineError(detail) => *detail,
            ClientError::Curl(text) => Some(*text),
            _ => None,
        }
    }

    /// The fixed text that describes errors of a kind.
    pub open spec fn fixed_description(kind: ErrorKind) -> Seq<char> {
        match kind {
            ErrorKind::ConnectFailed => "failed to connect to the server"@,
            ErrorKind::CouldntResolveHost => "couldn't resolve host name"@,
            ErrorKind::CouldntResolveProxy => "couldn't resolve proxy host name"@,
            ErrorKind::Internal => "internal error"@,
            ErrorKind::InvalidCredentials => "credentials were rejected by the server"@,
            ErrorKind::InvalidJson => "body is not valid JSON"@,
            ErrorKind::InvalidUtf8 => "bytes are not valid UTF-8"@,
            ErrorKind::NoResponse => "server did not send a response"@,
            ErrorKind::RangeRequestUnsupported => "server does not support or accept range requests"@,
            ErrorKind::Timeout => "request took longer than the configured timeout"@,
            ErrorKind::TooManyConnections => "max connection limit exceeded"@,
            ErrorKind::TooManyRedirects => "max redirect limit exceeded"@,
            _ => "unknown error"@,
        }
    }

    /// Whether `text` describes this error.
    ///
    /// An error that carries a detail is described by the detail, any other by the fixed text
    /// of its kind. An error that carries an error of the `http` crate is described by the
    /// text that the error is written as. Of an error that carries an I/O error the
    /// description is that error's own, which may be the text that the operating system
    /// has for it, and nothing is said of it here.
    pub open spec fn described_by(&self, text: Seq<char>) -> bool {
        match self {
            ClientError::Io(_) => true,
            ClientError::InvalidHttpFormat(inner) => text == http_error_text(*inner),
            _ => match self.detail() {
                Some(detail) => text == detail@,
                None => text == ClientError::fixed_description(self.spec_kind()),
            },
        }
    }

    /// Returns a short description of this error.
    pub fn description(&self) -> (text: String)
        ensures
            self.described_by(text@),
    {
        match self {
            ClientError::BadClientCertificate(Some(e)) => e.clone(),
            ClientError::BadServerCertificate(Some(e)) => e.clone(),
            ClientError::ConnectFailed => "failed to connect to the server".to_owned(),
            ClientError::CouldntResolveHost => "couldn't resolve host name".to_owned(),
            ClientError::CouldntResolveProxy => "couldn't resolve proxy host name".to_owned(),
            ClientError::Curl(e) => e.clone(),
            ClientError::Internal => "internal error".to_owned(),
            ClientError::InvalidContentEncoding(Some(e)) => e.clone(),
            ClientError::InvalidCredentials => "credentials were rejected by the server".to_owned(
            ),
            ClientError::InvalidHttpFormat(e) => http_error_description(e),
            ClientError::InvalidJson => "body is not valid JSON".to_owned(),
            ClientError::InvalidUtf8 => "bytes are not valid UTF-8".to_owned(),
            ClientError::Io(e) => io_error_description(e),
            ClientError::NoResponse => "server did not send a response".to_owned(),
            ClientError::RangeRequestUnsupported => "server does not support or accept range requests".to_owned(),
            ClientError::RequestBodyError(Some(e)) => e.clone(),
            ClientError::ResponseBodyError(Some(e)) => e.clone(),
            ClientError::SSLConnectFailed(Some(e)) => e.clone(),
            ClientError::SSLEngineError(Some(e)) => e.clone(),
            ClientError::Timeout => "request took longer than the configured timeout".to_owned(),
            ClientError::TooManyConnections => "max connection limit exceeded".to_owned(),
            ClientError::TooManyRedirects => "max redirect limit exceeded".to_owned(),
            _ => "unknown error".to_owned(),
        }
    }
}

} // verus!
