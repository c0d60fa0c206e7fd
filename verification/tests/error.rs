use isahc::error::{
    ClientError, ErrorKind, IoErrorKind, JsonErrorKind, TransferFailure, CODE_ABORTED_BY_CALLBACK,
    CODE_BAD_CONTENT_ENCODING, CODE_CONV_FAILED, CODE_COULDNT_CONNECT, CODE_COULDNT_RESOLVE_HOST,
    CODE_COULDNT_RESOLVE_PROXY, CODE_GOT_NOTHING, CODE_LOGIN_DENIED, CODE_OPERATION_TIMEDOUT,
    CODE_PARTIAL_FILE, CODE_PEER_FAILED_VERIFICATION, CODE_RANGE_ERROR, CODE_READ_ERROR,
    CODE_SSL_CACERT_BADFILE, CODE_SSL_CERTPROBLEM, CODE_SSL_CONNECT_ERROR,
    CODE_SSL_ENGINE_INITFAILED, CODE_SSL_ENGINE_NOTFOUND, CODE_SSL_ENGINE_SETFAILED,
    CODE_TOO_MANY_REDIRECTS, CODE_WRITE_ERROR,
};
use std::io;

fn failure(code: u32) -> TransferFailure {
    TransferFailure {
        code,
        description: String::from("what the driver says"),
        extra: Some(String::from("detail")),
    }
}

fn kind_of(code: u32) -> ErrorKind {
    ClientError::from(failure(code)).kind()
}

#[test]
fn codes_are_those_of_the_driver() {
    assert!(curl::Error::new(CODE_SSL_CERTPROBLEM).is_ssl_certproblem());
    assert!(curl::Error::new(CODE_SSL_CACERT_BADFILE).is_ssl_cacert_badfile());
    assert!(curl::Error::new(CODE_PEER_FAILED_VERIFICATION).is_peer_failed_verification());
    assert!(curl::Error::new(CODE_PEER_FAILED_VERIFICATION).is_ssl_cacert());
    assert!(curl::Error::new(CODE_COULDNT_CONNECT).is_couldnt_connect());
    assert!(curl::Error::new(CODE_COULDNT_RESOLVE_HOST).is_couldnt_resolve_host());
    assert!(curl::Error::new(CODE_COULDNT_RESOLVE_PROXY).is_couldnt_resolve_proxy());
    assert!(curl::Error::new(CODE_BAD_CONTENT_ENCODING).is_bad_content_encoding());
    assert!(curl::Error::new(CODE_CONV_FAILED).is_conv_failed());
    assert!(curl::Error::new(CODE_LOGIN_DENIED).is_login_denied());
    assert!(curl::Error::new(CODE_GOT_NOTHING).is_got_nothing());
    assert!(curl::Error::new(CODE_RANGE_ERROR).is_range_error());
    assert!(curl::Error::new(CODE_READ_ERROR).is_read_error());
    assert!(curl::Error::new(CODE_ABORTED_BY_CALLBACK).is_aborted_by_callback());
    assert!(curl::Error::new(CODE_WRITE_ERROR).is_write_error());
    assert!(curl::Error::new(CODE_PARTIAL_FILE).is_partial_file());
    assert!(curl::Error::new(CODE_SSL_CONNECT_ERROR).is_ssl_connect_error());
    assert!(curl::Error::new(CODE_SSL_ENGINE_INITFAILED).is_ssl_engine_initfailed());
    assert!(curl::Error::new(CODE_SSL_ENGINE_NOTFOUND).is_ssl_engine_notfound());
    assert!(curl::Error::new(CODE_SSL_ENGINE_SETFAILED).is_ssl_engine_setfailed());
    assert!(curl::Error::new(CODE_OPERATION_TIMEDOUT).is_operation_timedout());
    assert!(curl::Error::new(CODE_TOO_MANY_REDIRECTS).is_too_many_redirects());
}

#[test]
fn failures_are_told_apart_by_their_code() {
    assert_eq!(kind_of(58), ErrorKind::BadClientCertificate);
    assert_eq!(kind_of(77), ErrorKind::BadClientCertificate);
    assert_eq!(kind_of(60), ErrorKind::BadServerCertificate);
    assert_eq!(kind_of(7), ErrorKind::ConnectFailed);
    assert_eq!(kind_of(6), ErrorKind::CouldntResolveHost);
    assert_eq!(kind_of(5), ErrorKind::CouldntResolveProxy);
    assert_eq!(kind_of(61), ErrorKind::InvalidContentEncoding);
    assert_eq!(kind_of(75), ErrorKind::InvalidContentEncoding);
    assert_eq!(kind_of(67), ErrorKind::InvalidCredentials);
    assert_eq!(kind_of(52), ErrorKind::NoResponse);
    assert_eq!(kind_of(33), ErrorKind::RangeRequestUnsupported);
    assert_eq!(kind_of(26), ErrorKind::RequestBodyError);
    assert_eq!(kind_of(42), ErrorKind::RequestBodyError);
    assert_eq!(kind_of(23), ErrorKind::ResponseBodyError);
    assert_eq!(kind_of(18), ErrorKind::ResponseBodyError);
    assert_eq!(kind_of(35), ErrorKind::SSLConnectFailed);
    assert_eq!(kind_of(66), ErrorKind::SSLEngineError);
    assert_eq!(kind_of(53), ErrorKind::SSLEngineError);
    assert_eq!(kind_of(54), ErrorKind::SSLEngineError);
    assert_eq!(kind_of(28), ErrorKind::Timeout);
    assert_eq!(kind_of(47), ErrorKind::TooManyRedirects);
    assert_eq!(kind_of(0), ErrorKind::Curl);
    assert_eq!(kind_of(1), ErrorKind::Curl);
    assert_eq!(kind_of(3), ErrorKind::Curl);
    assert_eq!(kind_of(u32::MAX), ErrorKind::Curl);
}

#[test]
fn detail_is_kept_where_there_is_room_for_it() {
    match ClientError::from(failure(58)) {
        ClientError::BadClientCertificate(detail) => assert_eq!(detail.as_deref(), Some("detail")),
        other => panic!("{:?}", other),
    }
    match ClientError::from(failure(23)) {
        ClientError::ResponseBodyError(detail) => assert_eq!(detail.as_deref(), Some("detail")),
        other => panic!("{:?}", other),
    }
    match ClientError::from(TransferFailure { code: 35, description: String::new(), extra: None }) {
        ClientError::SSLConnectFailed(detail) => assert_eq!(detail, None),
        other => panic!("{:?}", other),
    }
    match ClientError::from(failure(2)) {
        ClientError::Curl(text) => assert_eq!(text, "what the driver says"),
        other => panic!("{:?}", other),
    }
}

#[test]
fn error_of_the_driver_is_read_and_classified() {
    let mut error = curl::Error::new(28);
    error.set_extra(String::from("after 200 ms"));
    let read = TransferFailure::read(&error);
    assert_eq!(read.code, 28);
    assert_eq!(read.extra.as_deref(), Some("after 200 ms"));
    assert_eq!(read.description, error.description());
    assert!(!read.description.is_empty());
    assert_eq!(ClientError::from(error).kind(), ErrorKind::Timeout);
    assert_eq!(ClientError::from(curl::Error::new(47)).kind(), ErrorKind::TooManyRedirects);
    assert_eq!(TransferFailure::read(&curl::Error::new(7)).extra, None);
    let unknown = curl::Error::new(1);
    match ClientError::from(unknown.clone()) {
        ClientError::Curl(text) => assert_eq!(text, unknown.description()),
        other => panic!("{:?}", other),
    }
    let mut detailed = curl::Error::new(60);
    detailed.set_extra(String::from("self signed"));
    match ClientError::from(detailed) {
        ClientError::BadServerCertificate(detail) => {
            assert_eq!(detail.as_deref(), Some("self signed"))
        }
        other => panic!("{:?}", other),
    }
}

#[test]
fn error_of_the_multi_driver_keeps_its_description() {
    let error = curl::MultiError::new(2);
    match ClientError::from(error.clone()) {
        ClientError::Curl(text) => assert_eq!(text, error.description()),
        other => panic!("{:?}", other),
    }
}

#[test]
fn http_error_is_carried() {
    let error: http::Error = http::StatusCode::from_u16(9999).unwrap_err().into();
    let text = error.to_string();
    let error = ClientError::from(error);
    assert_eq!(error.kind(), ErrorKind::InvalidHttpFormat);
    assert_eq!(error.description(), text);
    assert_eq!(text, "invalid status code");
}

#[test]
fn io_error_is_described_by_itself() {
    let error = ClientError::Io(io::Error::from(io::ErrorKind::NotFound));
    assert_eq!(error.description(), "entity not found");
}

#[test]
fn io_errors_are_mapped_by_their_kind() {
    let refused = ClientError::from(io::Error::from(io::ErrorKind::ConnectionRefused));
    assert_eq!(refused.kind(), ErrorKind::ConnectFailed);
    let timed_out = ClientError::from(io::Error::from(io::ErrorKind::TimedOut));
    assert_eq!(timed_out.kind(), ErrorKind::Timeout);
    match ClientError::from(io::Error::new(io::ErrorKind::NotFound, "no such file")) {
        ClientError::Io(inner) => {
            assert_eq!(inner.kind(), io::ErrorKind::NotFound);
            assert_eq!(inner.to_string(), "no such file");
        }
        other => panic!("{:?}", other),
    }
    let interrupted = ClientError::from(io::Error::from(io::ErrorKind::Interrupted));
    assert_eq!(interrupted.kind(), ErrorKind::Io);
    let other = io::Error::from(io::ErrorKind::Other);
    assert_eq!(
        ClientError::from_io(IoErrorKind::ConnectionRefused, other).kind(),
        ErrorKind::ConnectFailed
    );
    let other = io::Error::from(io::ErrorKind::Other);
    assert_eq!(ClientError::from_io(IoErrorKind::TimedOut, other).kind(), ErrorKind::Timeout);
    let other = io::Error::from(io::ErrorKind::Other);
    assert_eq!(ClientError::from_io(IoErrorKind::BrokenPipe, other).kind(), ErrorKind::Io);
}

#[test]
fn errors_become_io_errors() {
    assert_eq!(ClientError::ConnectFailed.into_io().kind(), io::ErrorKind::ConnectionRefused);
    assert_eq!(ClientError::Timeout.into_io().kind(), io::ErrorKind::TimedOut);
    assert_eq!(ClientError::Canceled.into_io().kind(), io::ErrorKind::Other);
    assert_eq!(ClientError::Curl(String::from("x")).into_io().kind(), io::ErrorKind::Other);
    let inner = io::Error::new(io::ErrorKind::PermissionDenied, "closed door");
    let back = ClientError::Io(inner).into_io();
    assert_eq!(back.kind(), io::ErrorKind::PermissionDenied);
    assert_eq!(back.to_string(), "closed door");
}

#[test]
fn utf8_error_becomes_invalid_utf8() {
    let error = String::from_utf8(vec![0xff, 0xfe]).unwrap_err();
    assert_eq!(ClientError::from(error).kind(), ErrorKind::InvalidUtf8);
}

#[test]
fn json_errors_are_mapped_by_their_kind() {
    assert_eq!(ClientError::from(json::Error::FailedUtf8Parsing).kind(), ErrorKind::InvalidUtf8);
    assert_eq!(ClientError::from(json::Error::UnexpectedEndOfJson).kind(), ErrorKind::InvalidJson);
    assert_eq!(ClientError::from(json::Error::ExceededDepthLimit).kind(), ErrorKind::InvalidJson);
    assert_eq!(ClientError::from(json::Error::wrong_type("x")).kind(), ErrorKind::InvalidJson);
    let error = json::parse("{").unwrap_err();
    assert_eq!(ClientError::from(error).kind(), ErrorKind::InvalidJson);
    let error = json::parse("[1,]").unwrap_err();
    assert_eq!(ClientError::from(error).kind(), ErrorKind::InvalidJson);
    assert_eq!(ClientError::from_json(JsonErrorKind::FailedUtf8Parsing).kind(), ErrorKind::InvalidUtf8);
    assert_eq!(ClientError::from_json(JsonErrorKind::UnexpectedCharacter).kind(), ErrorKind::InvalidJson);
    assert_eq!(ClientError::from_json(JsonErrorKind::WrongType).kind(), ErrorKind::InvalidJson);
}

#[test]
fn every_error_has_its_kind() {
    assert_eq!(ClientError::BadClientCertificate(None).kind(), ErrorKind::BadClientCertificate);
    assert_eq!(ClientError::BadServerCertificate(None).kind(), ErrorKind::BadServerCertificate);
    assert_eq!(ClientError::Canceled.kind(), ErrorKind::Canceled);
    assert_eq!(ClientError::ConnectFailed.kind(), ErrorKind::ConnectFailed);
    assert_eq!(ClientError::CouldntResolveHost.kind(), ErrorKind::CouldntResolveHost);
    assert_eq!(ClientError::CouldntResolveProxy.kind(), ErrorKind::CouldntResolveProxy);
    assert_eq!(ClientError::Curl(String::new()).kind(), ErrorKind::Curl);
    assert_eq!(ClientError::Internal.kind(), ErrorKind::Internal);
    assert_eq!(ClientError::InvalidContentEncoding(None).kind(), ErrorKind::InvalidContentEncoding);
    assert_eq!(ClientError::InvalidCredentials.kind(), ErrorKind::InvalidCredentials);
    assert_eq!(ClientError::InvalidJson.kind(), ErrorKind::InvalidJson);
    assert_eq!(ClientError::InvalidUtf8.kind(), ErrorKind::InvalidUtf8);
    assert_eq!(ClientError::NoResponse.kind(), ErrorKind::NoResponse);
    assert_eq!(ClientError::RangeRequestUnsupported.kind(), ErrorKind::RangeRequestUnsupported);
    assert_eq!(ClientError::RequestBodyError(None).kind(), ErrorKind::RequestBodyError);
    assert_eq!(ClientError::ResponseBodyError(None).kind(), ErrorKind::ResponseBodyError);
    assert_eq!(ClientError::SSLConnectFailed(None).kind(), ErrorKind::SSLConnectFailed);
    assert_eq!(ClientError::SSLEngineError(None).kind(), ErrorKind::SSLEngineError);
    assert_eq!(ClientError::Timeout.kind(), ErrorKind::Timeout);
    assert_eq!(ClientError::TooManyConnections.kind(), ErrorKind::TooManyConnections);
    assert_eq!(ClientError::TooManyRedirects.kind(), ErrorKind::TooManyRedirects);
}

#[test]
fn errors_are_described() {
    let detail = || Some(String::from("the detail"));
    assert_eq!(ClientError::BadClientCertificate(detail()).description(), "the detail");
    assert_eq!(ClientError::BadServerCertificate(detail()).description(), "the detail");
    assert_eq!(ClientError::InvalidContentEncoding(detail()).description(), "the detail");
    assert_eq!(ClientError::RequestBodyError(detail()).description(), "the detail");
    assert_eq!(ClientError::ResponseBodyError(detail()).description(), "the detail");
    assert_eq!(ClientError::SSLConnectFailed(detail()).description(), "the detail");
    assert_eq!(ClientError::SSLEngineError(detail()).description(), "the detail");
    assert_eq!(ClientError::Curl(String::from("from the driver")).description(), "from the driver");
    assert_eq!(ClientError::BadClientCertificate(None).description(), "unknown error");
    assert_eq!(ClientError::SSLEngineError(None).description(), "unknown error");
    assert_eq!(ClientError::Canceled.description(), "unknown error");
    assert_eq!(ClientError::ConnectFailed.description(), "failed to connect to the server");
    assert_eq!(ClientError::CouldntResolveHost.description(), "couldn't resolve host name");
    assert_eq!(ClientError::CouldntResolveProxy.description(), "couldn't resolve proxy host name");
    assert_eq!(ClientError::Internal.description(), "internal error");
    assert_eq!(
        ClientError::InvalidCredentials.description(),
        "credentials were rejected by the server"
    );
    assert_eq!(ClientError::InvalidJson.description(), "body is not valid JSON");
    assert_eq!(ClientError::InvalidUtf8.description(), "bytes are not valid UTF-8");
    assert_eq!(ClientError::NoResponse.description(), "server did not send a response");
    assert_eq!(
        ClientError::RangeRequestUnsupported.description(),
        "server does not support or accept range requests"
    );
    assert_eq!(
        ClientError::Timeout.description(),
        "request took longer than the configured timeout"
    );
    assert_eq!(ClientError::TooManyConnections.description(), "max connection limit exceeded");
    assert_eq!(ClientError::TooManyRedirects.description(), "max redirect limit exceeded");
}

#[test]
fn kind_of_io_error_that_stands_for_an_error() {
    assert_eq!(ClientError::ConnectFailed.io_kind(), IoErrorKind::ConnectionRefused);
    assert_eq!(ClientError::Timeout.io_kind(), IoErrorKind::TimedOut);
    assert_eq!(ClientError::Canceled.io_kind(), IoErrorKind::Other);
    assert_eq!(ClientError::Internal.io_kind(), IoErrorKind::Other);
    assert_eq!(ClientError::TooManyRedirects.io_kind(), IoErrorKind::Other);
    let inner = io::Error::from(io::ErrorKind::BrokenPipe);
    assert_eq!(ClientError::Io(inner).io_kind(), IoErrorKind::Other);
}

#[test]
fn io_error_keeps_its_kind_there_and_back() {
    let kinds = [
        io::ErrorKind::ConnectionRefused,
        io::ErrorKind::TimedOut,
        io::ErrorKind::Interrupted,
        io::ErrorKind::BrokenPipe,
        io::ErrorKind::UnexpectedEof,
        io::ErrorKind::Other,
    ];
    for kind in kinds {
        let error = ClientError::from(io::Error::new(kind, "text"));
        assert_eq!(error.into_io().kind(), kind);
    }
    let back = ClientError::from(io::Error::new(io::ErrorKind::NotFound, "no file")).into_io();
    assert_eq!(back.to_string(), "no file");
}
