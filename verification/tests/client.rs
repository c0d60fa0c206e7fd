use curl::easy::{Easy2, Handler};
use http::header::HeaderValue;
use isahc::auth::{Authentication, Credentials};
use isahc::body::{Body, Source};
use isahc::client::{header_lines, method_plan, HttpClient, HttpClientBuilder};
use isahc::config::{
    CaCertificate, ClientCertificate, ConfigOption, Configurable, DnsCache, HttpVersion, Options,
    PrivateKey, RedirectPolicy, Setting, SslOption, VersionNegotiation,
};
use isahc::error::ErrorKind;
use isahc::middleware::Middleware;
use isahc::request::{Parts, Request};
use isahc::response::{Response, ResponseExt};
use std::io;
use std::time::Duration;

struct Quiet;

impl Handler for Quiet {}

fn is_send<T: Send>() {}

fn is_sync<T: Sync>() {}

fn text(s: &str) -> String {
    String::from(s)
}

fn parts(method: &str, uri: &str) -> Parts {
    Request::new(text(method), text(uri), Body::empty()).into_parts().0
}

fn general() -> Vec<Setting> {
    vec![Setting::Verbose(false), Setting::Signal(false)]
}

fn no_authentication() -> Setting {
    Setting::HttpAuth { basic: false, digest: false }
}

struct Zeros {
    left: usize,
}

impl Source for Zeros {
    fn read(&mut self, buf: &mut [u8]) -> io::Result<usize> {
        let n = buf.len().min(self.left);
        for byte in buf[..n].iter_mut() {
            *byte = 0;
        }
        self.left -= n;
        Ok(n)
    }
}

/// Puts its mark behind the value of the header `x-trace`.
struct Mark(&'static str);

impl Middleware for Mark {
    fn filtered_request(&self, request: Request) -> Request {
        self.filter_request(request)
    }

    fn filtered_response(&self, response: Response<Body>) -> Response<Body> {
        self.filter_response(response)
    }

    fn filter_request(&self, mut request: Request) -> Request {
        let before = request
            .headers
            .get("x-trace")
            .map(|value| value.to_str().unwrap().to_owned())
            .unwrap_or_default();
        let value = HeaderValue::from_str(&format!("{}{}", before, self.0)).unwrap();
        request.headers.insert("x-trace", value);
        request
    }

    fn filter_response(&self, mut response: Response<Body>) -> Response<Body> {
        let before = response
            .headers
            .get("x-trace")
            .map(|value| value.to_str().unwrap().to_owned())
            .unwrap_or_default();
        let value = HeaderValue::from_str(&format!("{}{}", before, self.0)).unwrap();
        response.headers.insert("x-trace", value);
        response
    }
}

#[test]
fn traits() {
    is_send::<HttpClient>();
    is_sync::<HttpClient>();

    is_send::<HttpClientBuilder>();
}

#[test]
fn new_client_has_no_limits_and_one_default() {
    let client = HttpClient::new().unwrap();
    assert_eq!(client.max_connections(), 0);
    assert_eq!(client.max_connections_per_host(), 0);
    assert_eq!(client.connection_cache_size(), None);
    assert_eq!(
        client.defaults(),
        &Options::new().authentication(Authentication::none())
    );
    let agent = client.agent();
    assert_eq!(agent.active_count(), 0);
    assert_eq!(agent.pending_count(), 0);
    assert_eq!(agent.limits().max_connections, 0);
    assert_eq!(agent.limits().max_connections_per_host, 0);
    assert_eq!(agent.limits().max_pending, 0);
}

#[test]
fn builder_sets_limits_and_defaults() {
    let client = HttpClient::builder()
        .max_connections(8)
        .max_connections_per_host(2)
        .connection_cache_size(0)
        .timeout(Duration::from_secs(60))
        .connect_timeout(Duration::from_secs(5))
        .redirect_policy(RedirectPolicy::Limit(10))
        .auto_referer()
        .version_negotiation(VersionNegotiation::http11())
        .tcp_keepalive(Duration::from_secs(30))
        .tcp_nodelay()
        .proxy(None)
        .proxy_blacklist(vec![text("a.com"), text("b.org")])
        .max_upload_speed(1000)
        .max_download_speed(2000)
        .metrics(true)
        .build()
        .unwrap();
    assert_eq!(client.max_connections(), 8);
    assert_eq!(client.max_connections_per_host(), 2);
    assert_eq!(client.connection_cache_size(), Some(0));
    let defaults = client.defaults();
    assert_eq!(defaults.close_connection, Some(true));
    assert_eq!(defaults.timeout, Some(Duration::from_secs(60)));
    assert_eq!(defaults.connect_timeout, Some(Duration::from_secs(5)));
    assert_eq!(defaults.redirect_policy, Some(RedirectPolicy::Limit(10)));
    assert!(defaults.auto_referer);
    assert_eq!(defaults.version_negotiation, Some(VersionNegotiation::http11()));
    assert_eq!(defaults.tcp_keepalive, Some(Duration::from_secs(30)));
    assert!(defaults.tcp_nodelay);
    assert_eq!(defaults.proxy, Some(None));
    assert_eq!(defaults.proxy_blacklist.as_ref().map(|list| list.skip()), Some("a.com,b.org"));
    assert_eq!(defaults.max_upload_speed, Some(1000));
    assert_eq!(defaults.max_download_speed, Some(2000));
    assert_eq!(defaults.metrics, Some(true));
    let agent = client.agent();
    assert_eq!(agent.limits().max_connections, 8);
    assert_eq!(agent.limits().max_connections_per_host, 2);
    let cached = HttpClientBuilder::new().connection_cache_size(4).build().unwrap();
    assert_eq!(cached.connection_cache_size(), Some(4));
    assert_eq!(cached.defaults().close_connection, Some(false));
    assert_eq!(
        HttpClientBuilder::default().build().unwrap().defaults(),
        &Options::new().authentication(Authentication::none())
    );
}

#[test]
fn kind_of_transfer_follows_the_method() {
    assert_eq!(method_plan("GET", false), vec![Setting::Get(true)]);
    assert_eq!(
        method_plan("GET", true),
        vec![Setting::Upload(true), Setting::CustomRequest(text("GET"))]
    );
    assert_eq!(
        method_plan("HEAD", false),
        vec![Setting::Upload(false), Setting::NoBody(true), Setting::CustomRequest(text("HEAD"))]
    );
    assert_eq!(
        method_plan("HEAD", true),
        vec![Setting::Upload(true), Setting::NoBody(true), Setting::CustomRequest(text("HEAD"))]
    );
    assert_eq!(method_plan("POST", false), vec![Setting::Post(true)]);
    assert_eq!(method_plan("POST", true), vec![Setting::Post(true)]);
    assert_eq!(method_plan("PUT", false), vec![Setting::Upload(true)]);
    assert_eq!(method_plan("PUT", true), vec![Setting::Upload(true)]);
    assert_eq!(
        method_plan("DELETE", false),
        vec![Setting::Upload(false), Setting::CustomRequest(text("DELETE"))]
    );
    assert_eq!(
        method_plan("PATCH", true),
        vec![Setting::Upload(true), Setting::CustomRequest(text("PATCH"))]
    );
    assert_eq!(
        method_plan("get", false),
        vec![Setting::Upload(false), Setting::CustomRequest(text("get"))]
    );
}

#[test]
fn headers_are_written_as_lines() {
    assert_eq!(header_lines(&vec![]), Some(vec![]));
    assert_eq!(
        header_lines(&vec![
            (text("accept"), Some(text("*/*"))),
            (text("x-empty"), Some(text(""))),
            (text("x-a"), Some(text("b: c"))),
        ]),
        Some(vec![text("accept: */*"), text("x-empty: "), text("x-a: b: c")])
    );
    assert_eq!(
        header_lines(&vec![(text("accept"), Some(text("*/*"))), (text("x-bin"), None)]),
        None
    );
    assert_eq!(
        header_lines(&vec![(text("x-bin"), None), (text("accept"), Some(text("*/*")))]),
        None
    );
}

#[test]
fn small_get_is_a_plain_download() {
    let client = HttpClient::new().unwrap();
    let mut parts = parts("GET", "http://host/hello");
    let settings = client.transfer_settings(&mut parts, false, Some(0), false).unwrap();
    let mut expected = general();
    expected.push(no_authentication());
    expected.push(Setting::AcceptEncoding(text("")));
    expected.push(Setting::Get(true));
    expected.push(Setting::Url(text("http://host/hello")));
    expected.push(Setting::HttpHeaders(vec![]));
    assert_eq!(settings, expected);
    assert_eq!(parts.uri, "http://host/hello");
    assert_eq!(parts.method, "GET");
    assert!(parts.headers.is_empty());
}

#[test]
fn post_without_length_is_sent_in_chunks() {
    let client = HttpClient::new().unwrap();
    let body = Body::from_reader(Zeros { left: 10000 });
    let request = Request::new(text("POST"), text("http://host/upload"), body);
    let (mut parts, mut body) = request.into_parts();
    let has_body = !body.is_empty();
    let length = body.len();
    assert!(has_body);
    assert_eq!(length, None);
    let settings = client.transfer_settings(&mut parts, has_body, length, false).unwrap();
    let mut expected = general();
    expected.push(no_authentication());
    expected.push(Setting::AcceptEncoding(text("")));
    expected.push(Setting::Post(true));
    expected.push(Setting::Url(text("http://host/upload")));
    expected.push(Setting::HttpHeaders(vec![text("transfer-encoding: chunked")]));
    assert_eq!(settings, expected);
    assert_eq!(parts.headers.get("transfer-encoding").unwrap(), "chunked");
    let sent = body.drain().unwrap();
    assert_eq!(sent.len(), 10000);
    assert!(sent.iter().all(|byte| *byte == 0));
}

#[test]
fn chunked_replaces_another_transfer_encoding() {
    let client = HttpClient::new().unwrap();
    let mut parts = parts("PUT", "http://host/");
    parts.headers.append("Transfer-Encoding", HeaderValue::from_static("gzip"));
    parts.headers.append("Transfer-Encoding", HeaderValue::from_static("identity"));
    let settings = client.transfer_settings(&mut parts, true, None, false).unwrap();
    assert_eq!(
        settings.last(),
        Some(&Setting::HttpHeaders(vec![text("transfer-encoding: chunked")]))
    );
    assert_eq!(parts.headers.get_all("transfer-encoding").iter().count(), 1);
}

#[test]
fn length_of_the_body_is_announced() {
    let client = HttpClient::new().unwrap();
    let mut post = parts("POST", "http://host/");
    let settings = client.transfer_settings(&mut post, true, Some(5), false).unwrap();
    assert_eq!(
        &settings[3..],
        &[
            Setting::AcceptEncoding(text("")),
            Setting::Post(true),
            Setting::Url(text("http://host/")),
            Setting::PostFieldSize(5),
            Setting::HttpHeaders(vec![]),
        ]
    );
    let mut put = parts("PUT", "http://host/");
    let settings = client.transfer_settings(&mut put, true, Some(5), false).unwrap();
    assert_eq!(
        &settings[3..],
        &[
            Setting::AcceptEncoding(text("")),
            Setting::Upload(true),
            Setting::Url(text("http://host/")),
            Setting::InFileSize(5),
            Setting::HttpHeaders(vec![]),
        ]
    );
    let mut patch = parts("PATCH", "http://host/");
    let settings = client.transfer_settings(&mut patch, true, Some(0), false).unwrap();
    assert_eq!(
        &settings[3..],
        &[
            Setting::AcceptEncoding(text("")),
            Setting::Upload(true),
            Setting::CustomRequest(text("PATCH")),
            Setting::Url(text("http://host/")),
            Setting::InFileSize(0),
            Setting::HttpHeaders(vec![]),
        ]
    );
    assert!(put.headers.get("transfer-encoding").is_none());
}

#[test]
fn length_in_the_header_goes_before_the_length_of_the_body() {
    let client = HttpClient::new().unwrap();
    let mut parts = parts("POST", "http://host/");
    parts.headers.insert("content-length", HeaderValue::from_static("12"));
    let settings = client.transfer_settings(&mut parts, true, Some(5), false).unwrap();
    assert!(settings.contains(&Setting::PostFieldSize(12)));
    assert!(!settings.contains(&Setting::PostFieldSize(5)));
    let mut parts = self::parts("PUT", "http://host/");
    parts.headers.insert("Content-Length", HeaderValue::from_static("12"));
    let settings = client.transfer_settings(&mut parts, true, None, false).unwrap();
    assert!(settings.contains(&Setting::InFileSize(12)));
    assert!(parts.headers.get("transfer-encoding").is_none());
    let mut parts = self::parts("PUT", "http://host/");
    parts.headers.insert("content-length", HeaderValue::from_static("twelve"));
    let settings = client.transfer_settings(&mut parts, true, Some(5), false).unwrap();
    assert!(settings.contains(&Setting::InFileSize(5)));
    let mut parts = self::parts("PUT", "http://host/");
    parts.headers.insert("content-length", HeaderValue::from_static("twelve"));
    client.transfer_settings(&mut parts, true, None, false).unwrap();
    assert_eq!(parts.headers.get("transfer-encoding").unwrap(), "chunked");
    let mut parts = self::parts("GET", "http://host/");
    parts.headers.insert("content-length", HeaderValue::from_static("12"));
    let settings = client.transfer_settings(&mut parts, false, None, false).unwrap();
    assert!(!settings.contains(&Setting::InFileSize(12)));
    assert!(parts.headers.get("transfer-encoding").is_none());
}

#[test]
fn content_encodings_of_the_request_are_kept() {
    let client = HttpClient::new().unwrap();
    let mut parts = parts("GET", "http://host/");
    parts.headers.insert("accept-encoding", HeaderValue::from_static("br"));
    let settings = client.transfer_settings(&mut parts, false, None, false).unwrap();
    assert_eq!(settings[2], no_authentication());
    assert_eq!(settings[3], Setting::AcceptEncoding(text("br")));
    assert_eq!(settings[6], Setting::HttpHeaders(vec![text("accept-encoding: br")]));
}

#[test]
fn header_that_is_not_text_is_refused() {
    let client = HttpClient::new().unwrap();
    let mut parts = parts("GET", "http://host/");
    parts.headers.insert("x-bin", HeaderValue::from_bytes(&[0xfa, 0xfb]).unwrap());
    let error = client.transfer_settings(&mut parts, false, None, false).unwrap_err();
    assert_eq!(error.kind(), ErrorKind::InvalidUtf8);
}

#[test]
fn options_of_the_request_and_defaults_are_applied() {
    let client = HttpClient::builder()
        .timeout(Duration::from_secs(60))
        .redirect_policy(RedirectPolicy::Limit(5))
        .build()
        .unwrap();
    let request = Request::new(text("GET"), text("http://host/"), Body::empty())
        .timeout(Duration::from_millis(200))
        .version_negotiation(VersionNegotiation::http10());
    let (mut parts, _) = request.into_parts();
    let settings = client.transfer_settings(&mut parts, false, None, false).unwrap();
    let mut expected = general();
    expected.push(Setting::Timeout(Duration::from_millis(200)));
    expected.push(Setting::FollowLocation(true));
    expected.push(Setting::MaxRedirections(5));
    expected.push(no_authentication());
    expected.push(Setting::HttpVersion { version: HttpVersion::V10, strict: true });
    expected.push(Setting::AcceptEncoding(text("")));
    expected.push(Setting::Get(true));
    expected.push(Setting::Url(text("http://host/")));
    expected.push(Setting::HttpHeaders(vec![]));
    assert_eq!(settings, expected);
    assert_eq!(parts.options.timeout, Some(Duration::from_millis(200)));
}

#[test]
fn every_header_is_sent_once_for_each_value() {
    let client = HttpClient::new().unwrap();
    let mut parts = parts("GET", "http://host/");
    parts.headers.append("Accept", HeaderValue::from_static("text/html"));
    parts.headers.append("x-a", HeaderValue::from_static("1"));
    parts.headers.append("accept", HeaderValue::from_static("text/plain"));
    let settings = client.transfer_settings(&mut parts, false, None, false).unwrap();
    match settings.last().unwrap() {
        Setting::HttpHeaders(lines) => {
            assert_eq!(lines.len(), 3);
            let accept: Vec<&String> =
                lines.iter().filter(|line| line.starts_with("accept: ")).collect();
            assert_eq!(accept, vec!["accept: text/html", "accept: text/plain"]);
            assert!(lines.contains(&text("x-a: 1")));
        }
        other => panic!("{:?}", other),
    }
}

#[test]
fn transfer_handle_is_configured() {
    let client = HttpClient::builder().timeout(Duration::from_secs(1)).build().unwrap();
    let mut easy = Easy2::new(Quiet);
    let mut get = parts("GET", "http://host/hello");
    assert!(client.create_easy_handle(&mut easy, &mut get, false, None, false).is_ok());
    let mut post = parts("POST", "http://host/upload");
    assert!(client.create_easy_handle(&mut easy, &mut post, true, None, false).is_ok());
    assert_eq!(post.headers.get("transfer-encoding").unwrap(), "chunked");
    let mut odd = parts("GET", "http://ho\0st/");
    let error = client.create_easy_handle(&mut easy, &mut odd, false, None, false).unwrap_err();
    assert_eq!(error.kind(), ErrorKind::InvalidContentEncoding);
    let mut binary = parts("GET", "http://host/");
    binary.headers.insert("x-bin", HeaderValue::from_bytes(&[0xfa]).unwrap());
    let error = client.create_easy_handle(&mut easy, &mut binary, false, None, false).unwrap_err();
    assert_eq!(error.kind(), ErrorKind::InvalidUtf8);
}

#[test]
fn request_without_user_agent_gets_the_default() {
    let client = HttpClient::builder().user_agent(text("curl/8 isahc/1")).build().unwrap();
    let mut headers = http::HeaderMap::new();
    assert!(client.set_user_agent(&mut headers));
    assert_eq!(headers.get("user-agent").unwrap(), "curl/8 isahc/1");
    assert_eq!(headers.len(), 1);
    let mut headers = http::HeaderMap::new();
    headers.insert("User-Agent", HeaderValue::from_static("mine"));
    assert!(client.set_user_agent(&mut headers));
    assert_eq!(headers.get("user-agent").unwrap(), "mine");
    let plain = HttpClient::new().unwrap();
    let mut headers = http::HeaderMap::new();
    assert!(plain.set_user_agent(&mut headers));
    assert_eq!(headers.get("user-agent").unwrap(), "isahc");
}

#[test]
fn user_agent_that_is_no_header_value_is_refused() {
    let client = HttpClient::builder().user_agent(text("two\nlines")).build().unwrap();
    let mut headers = http::HeaderMap::new();
    headers.insert("accept", HeaderValue::from_static("*/*"));
    assert!(!client.set_user_agent(&mut headers));
    assert_eq!(headers.len(), 1);
    let request = Request::new(text("GET"), text("http://host/"), Body::empty());
    match client.prepare(request) {
        Err(error) => assert_eq!(error.kind(), ErrorKind::Internal),
        Ok(_) => panic!("the request was prepared"),
    }
    let mut request = Request::new(text("GET"), text("http://host/"), Body::empty());
    request.headers.insert("user-agent", HeaderValue::from_static("mine"));
    assert!(client.prepare(request).is_ok());
}

#[test]
fn request_passes_the_middleware_from_the_outermost_layer_in() {
    let client = HttpClient::builder()
        .middleware(Box::new(Mark("a")))
        .middleware(Box::new(Mark("b")))
        .middleware(Box::new(Mark("c")))
        .build()
        .unwrap();
    let request = Request::new(text("GET"), text("http://host/"), Body::from("body"));
    let mut prepared = client.prepare(request).unwrap();
    assert_eq!(prepared.headers.get("x-trace").unwrap(), "cba");
    assert_eq!(prepared.headers.get("user-agent").unwrap(), "isahc");
    assert_eq!(prepared.method, "GET");
    assert_eq!(prepared.uri, "http://host/");
    assert_eq!(prepared.body.drain().unwrap(), b"body");
}

#[test]
fn response_passes_the_middleware_from_the_innermost_layer_out() {
    let client = HttpClient::builder()
        .middleware(Box::new(Mark("a")))
        .middleware(Box::new(Mark("b")))
        .middleware(Box::new(Mark("c")))
        .build()
        .unwrap();
    let mut headers = http::HeaderMap::new();
    headers.insert("content-length", HeaderValue::from_static("5"));
    let response = Response {
        status: 200,
        headers,
        effective_uri: Some(text("http://host/hello")),
        local_addr: None,
        remote_addr: None,
        metrics: None,
        body: isahc::body::Cursor::new(b"hello".to_vec()),
    };
    let mut response = client.complete(response);
    assert_eq!(response.headers.get("x-trace").unwrap(), "abc");
    assert_eq!(response.status, 200);
    assert_eq!(response.effective_uri.as_deref(), Some("http://host/hello"));
    assert_eq!(response.content_length(), Some(5));
    assert_eq!(response.body.len(), Some(5));
    assert!(response.body.is_stream());
    assert_eq!(response.body.drain().unwrap(), b"hello");
}

#[test]
fn body_of_a_coded_response_has_no_length_and_yields_every_byte() {
    let client = HttpClient::new().unwrap();
    let mut headers = http::HeaderMap::new();
    headers.insert("content-length", HeaderValue::from_static("3"));
    headers.insert("content-encoding", HeaderValue::from_static("gzip"));
    let response = Response {
        status: 200,
        headers,
        effective_uri: None,
        local_addr: None,
        remote_addr: None,
        metrics: None,
        body: isahc::body::Cursor::new(b"hello, world".to_vec()),
    };
    let mut response = client.complete(response);
    assert_eq!(response.content_length(), Some(3));
    assert_eq!(response.body.len(), None);
    assert_eq!(response.bytes().unwrap(), b"hello, world");
    assert_eq!(response.bytes().unwrap(), b"");
}

#[test]
fn body_of_a_response_has_the_length_that_is_announced() {
    let client = HttpClient::new().unwrap();
    let make = |length: &'static str| {
        let mut headers = http::HeaderMap::new();
        headers.insert("content-length", HeaderValue::from_static(length));
        Response {
            status: 200,
            headers,
            effective_uri: None,
            local_addr: None,
            remote_addr: None,
            metrics: None,
            body: isahc::body::Cursor::new(b"hello, world".to_vec()),
        }
    };
    let mut response = client.complete(make("12"));
    assert_eq!(response.body.len(), Some(12));
    assert_eq!(response.bytes().unwrap(), b"hello, world");
    let mut response = client.complete(make("3"));
    assert_eq!(response.body.len(), Some(3));
    assert_eq!(response.bytes().unwrap(), b"hel");
    let mut response = client.complete(make("twelve"));
    assert_eq!(response.body.len(), None);
    assert_eq!(response.bytes().unwrap(), b"hello, world");
    let response = client.complete(make("0"));
    assert_eq!(response.body.len(), Some(0));
    assert_eq!(isahc::response::body_length(&response.headers), Some(0));
}

#[test]
fn preferred_version_is_asked_for_without_insisting() {
    let client = HttpClient::builder()
        .preferred_http_version(HttpVersion::V11)
        .build()
        .unwrap();
    assert_eq!(client.defaults().version_negotiation.map(|n| n.version()), Some(HttpVersion::V11));
    assert_eq!(client.defaults().version_negotiation.map(|n| n.is_strict()), Some(false));
    let mut parts = parts("GET", "http://host/");
    let settings = client.transfer_settings(&mut parts, false, None, false).unwrap();
    assert!(settings.contains(&Setting::HttpVersion { version: HttpVersion::V11, strict: false }));
    let any = HttpClient::builder().preferred_http_version(HttpVersion::Any).build().unwrap();
    let mut easy = Easy2::new(Quiet);
    let mut parts = self::parts("GET", "http://host/");
    assert!(any.create_easy_handle(&mut easy, &mut parts, false, None, false).is_ok());
    assert!(Setting::HttpVersion { version: HttpVersion::Any, strict: true }
        .apply(&mut easy)
        .is_ok());
}

#[test]
fn user_agent_with_a_control_character_is_refused() {
    let client = HttpClientBuilder::new().user_agent(text("bad\nagent")).build().unwrap();
    let request = Request::new(text("GET"), text("http://host/"), Body::empty());
    match client.prepare(request) {
        Err(error) => assert_eq!(error.kind(), ErrorKind::Internal),
        Ok(_) => panic!("the request was taken"),
    }
    let mut request = Request::new(text("GET"), text("http://host/"), Body::empty());
    request.headers.insert("user-agent", HeaderValue::from_static("mine"));
    let prepared = client.prepare(request).ok().unwrap();
    assert_eq!(prepared.headers.get("user-agent").unwrap(), "mine");
    let client = HttpClientBuilder::new().user_agent(text("tab\tand s\u{fc}\u{df}")).build().unwrap();
    let request = Request::new(text("GET"), text("http://host/"), Body::empty());
    let prepared = client.prepare(request).ok().unwrap();
    assert_eq!(prepared.headers.get("user-agent").unwrap().as_bytes(), "tab\tand s\u{fc}\u{df}".as_bytes());
    let client = HttpClientBuilder::new().user_agent(text("")).build().unwrap();
    let request = Request::new(text("GET"), text("http://host/"), Body::empty());
    let prepared = client.prepare(request).ok().unwrap();
    assert_eq!(prepared.headers.get("user-agent").unwrap(), "");
    let client = HttpClientBuilder::new().user_agent(text("del\u{7f}")).build().unwrap();
    let request = Request::new(text("GET"), text("http://host/"), Body::empty());
    assert!(client.prepare(request).is_err());
}

#[test]
fn body_of_unknown_length_is_always_sent_in_chunks() {
    let client = HttpClient::new().unwrap();
    let mut parts = parts("POST", "http://host/");
    for i in 0..200 {
        let name = http::header::HeaderName::from_bytes(format!("x-{}", i).as_bytes()).unwrap();
        parts.headers.insert(name, HeaderValue::from_static("v"));
    }
    parts.headers.append("transfer-encoding", HeaderValue::from_static("gzip"));
    let settings = client.transfer_settings(&mut parts, true, None, false).unwrap();
    assert!(settings.contains(&Setting::Post(true)));
    assert!(!settings.iter().any(|s| matches!(s, Setting::PostFieldSize(_) | Setting::InFileSize(_))));
    assert_eq!(parts.headers.get("transfer-encoding").unwrap(), "chunked");
    assert_eq!(parts.headers.get_all("transfer-encoding").iter().count(), 1);
    assert_eq!(parts.headers.keys_len(), 201);
}

#[test]
fn driver_writes_down_what_it_does_where_the_caller_asks_for_it() {
    let client = HttpClient::new().unwrap();
    let mut parts = parts("GET", "http://host/");
    let settings = client.transfer_settings(&mut parts, false, None, true).unwrap();
    assert_eq!(&settings[..2], &[Setting::Verbose(true), Setting::Signal(false)]);
    let mut parts = self::parts("GET", "http://host/");
    let settings = client.transfer_settings(&mut parts, false, None, false).unwrap();
    assert_eq!(&settings[..2], &[Setting::Verbose(false), Setting::Signal(false)]);
    let mut easy = Easy2::new(Quiet);
    let mut parts = self::parts("GET", "http://host/");
    assert!(client.create_easy_handle(&mut easy, &mut parts, false, None, true).is_ok());
}

#[test]
fn refused_head_leaves_the_reason_in_the_error() {
    let client = HttpClient::new().unwrap();
    let mut easy = Easy2::new(Quiet);
    let mut binary = parts("GET", "http://host/");
    binary.headers.insert("x-bin", HeaderValue::from_bytes(&[0xc3, 0x28]).unwrap());
    let error = client.create_easy_handle(&mut easy, &mut binary, false, None, false).unwrap_err();
    assert_eq!(error.kind(), ErrorKind::InvalidUtf8);
    assert_eq!(binary.headers.len(), 1);
    let mut odd = parts("GET", "http://ho\0st/");
    let error = client.create_easy_handle(&mut easy, &mut odd, true, None, false).unwrap_err();
    assert_ne!(error.kind(), ErrorKind::Internal);
    assert_ne!(error.kind(), ErrorKind::InvalidUtf8);
    assert_eq!(odd.headers.get("transfer-encoding").unwrap(), "chunked");
}

#[test]
fn response_without_content_length_has_a_body_of_unknown_length() {
    let client = HttpClient::new().unwrap();
    let response = Response {
        status: 204,
        headers: http::HeaderMap::new(),
        effective_uri: None,
        local_addr: None,
        remote_addr: None,
        metrics: None,
        body: Zeros { left: 3 },
    };
    let mut response = client.complete(response);
    assert_eq!(response.body.len(), None);
    assert_eq!(response.body.drain().unwrap(), vec![0, 0, 0]);
    assert!(response.headers.is_empty());
}

#[test]
fn request_is_taken_apart_and_put_together() {
    let request = Request::new(text("PUT"), text("http://host/x"), Body::from("abc"))
        .configure(ConfigOption::TcpNoDelay);
    let (parts, body) = request.into_parts();
    assert_eq!(parts.method, "PUT");
    assert_eq!(parts.uri, "http://host/x");
    assert!(parts.options.tcp_nodelay);
    assert!(parts.headers.is_empty());
    let mut request = Request::from_parts(parts, body);
    assert_eq!(request.method, "PUT");
    assert_eq!(request.uri, "http://host/x");
    assert!(request.options.tcp_nodelay);
    assert_eq!(request.body.drain().unwrap(), b"abc");
}

#[test]
fn new_client_allows_no_authentication_scheme() {
    let client = HttpClient::new().unwrap();
    assert_eq!(client.defaults().authentication, Some(Authentication::none()));
    assert_eq!(client.defaults().credentials, None);
    let builder = HttpClientBuilder::default().build().unwrap();
    assert_eq!(builder.defaults().to_vec(), vec![ConfigOption::Authentication(Authentication::none())]);
}

#[test]
fn defaults_on_who_the_client_is_reach_the_transfer() {
    let client = HttpClient::builder()
        .authentication(Authentication::basic() | Authentication::digest())
        .credentials(Credentials::new(text("clark"), text("qwerty")))
        .proxy(Some(text("http://proxy:3128")))
        .proxy_authentication(Authentication::basic())
        .proxy_credentials(Credentials::new(text("lois"), text("asdf")))
        .build()
        .unwrap();
    let mut parts = parts("GET", "http://host/");
    let settings = client.transfer_settings(&mut parts, false, None, false).unwrap();
    let mut expected = general();
    expected.push(Setting::HttpAuth { basic: true, digest: true });
    expected.push(Setting::Username(text("clark")));
    expected.push(Setting::Password(text("qwerty")));
    expected.push(Setting::Proxy(text("http://proxy:3128")));
    expected.push(Setting::ProxyAuth { basic: true, digest: false });
    expected.push(Setting::ProxyUsername(text("lois")));
    expected.push(Setting::ProxyPassword(text("asdf")));
    expected.push(Setting::AcceptEncoding(text("")));
    expected.push(Setting::Get(true));
    expected.push(Setting::Url(text("http://host/")));
    expected.push(Setting::HttpHeaders(vec![]));
    assert_eq!(settings, expected);
}

#[test]
fn credentials_of_the_request_go_before_those_of_the_client() {
    let client = HttpClient::builder()
        .authentication(Authentication::basic())
        .credentials(Credentials::new(text("clark"), text("qwerty")))
        .build()
        .unwrap();
    let request = Request::new(text("GET"), text("http://host/"), Body::empty())
        .credentials(Credentials::new(text("bruce"), text("alfred")));
    let (mut parts, _) = request.into_parts();
    let settings = client.transfer_settings(&mut parts, false, None, false).unwrap();
    assert_eq!(
        &settings[2..5],
        &[
            Setting::HttpAuth { basic: true, digest: false },
            Setting::Username(text("bruce")),
            Setting::Password(text("alfred")),
        ]
    );
}

#[test]
fn defaults_on_names_and_tls_reach_the_transfer() {
    let key = PrivateKey::pem_file(text("key.pem"), Some(text("secret")));
    let client = HttpClient::builder()
        .dns_cache(DnsCache::Disable)
        .dns_servers(vec![text("8.8.8.8:53"), text("8.8.4.4:53")])
        .ssl_ciphers(vec![text("AES128-SHA"), text("AES256-SHA")])
        .ssl_client_certificate(ClientCertificate::pem_file(text("client.pem"), Some(key)))
        .ssl_ca_certificate(CaCertificate::file(text("ca.pem")))
        .ssl_options(
            SslOption::danger_accept_invalid_certs() | SslOption::danger_accept_revoked_certs(),
        )
        .build()
        .unwrap();
    let mut parts = parts("GET", "https://host/");
    let settings = client.transfer_settings(&mut parts, false, None, false).unwrap();
    let mut expected = general();
    expected.push(no_authentication());
    expected.push(Setting::DnsCacheTimeout(Duration::from_secs(0)));
    expected.push(Setting::DnsServers(text("8.8.8.8:53,8.8.4.4:53")));
    expected.push(Setting::SslCipherList(text("AES128-SHA:AES256-SHA")));
    expected.push(Setting::SslCertType(text("PEM")));
    expected.push(Setting::SslCert(text("client.pem")));
    expected.push(Setting::SslKeyType(text("PEM")));
    expected.push(Setting::SslKey(text("key.pem")));
    expected.push(Setting::KeyPassword(text("secret")));
    expected.push(Setting::CaInfo(text("ca.pem")));
    expected.push(Setting::SslNoRevoke(true));
    expected.push(Setting::SslVerifyPeer(false));
    expected.push(Setting::SslVerifyHost(true));
    expected.push(Setting::AcceptEncoding(text("")));
    expected.push(Setting::Get(true));
    expected.push(Setting::Url(text("https://host/")));
    expected.push(Setting::HttpHeaders(vec![]));
    assert_eq!(settings, expected);
}

#[test]
fn header_map_with_few_fields_takes_the_fields_of_the_client() {
    let client = HttpClient::new().unwrap();
    for capacity in [0usize, 100, 5000, 24000] {
        let mut request = Request::new(text("POST"), text("http://host/"), Body::empty());
        request.headers = http::HeaderMap::with_capacity(capacity);
        for i in 0..4095 {
            let name = http::header::HeaderName::from_bytes(format!("x-{}", i).as_bytes()).unwrap();
            request.headers.insert(name, HeaderValue::from_static("v"));
        }
        assert_eq!(request.headers.keys_len(), 4095);
        let prepared = client.prepare(request).ok().unwrap();
        assert_eq!(prepared.headers.get("user-agent").unwrap(), "isahc");
        let (mut parts, _) = prepared.into_parts();
        assert!(client.transfer_settings(&mut parts, true, None, false).is_ok());
        assert_eq!(parts.headers.get("transfer-encoding").unwrap(), "chunked");
        assert_eq!(parts.headers.keys_len(), 4097);
    }
}
