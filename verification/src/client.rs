//! The HTTP client implementation.
//!
//! A client keeps the defaults for the options of its requests and a chain of middleware.
//! For a request it works out the settings of the transfer that carries the request, and
//! makes them on a transfer handle. The transfer itself is run elsewhere; when the headers
//! of the response are there, the client finishes the response.

use crate::agent::{Agent, AgentView, Limits};
use crate::body::{Body, BodyView, Source};
use crate::auth::{Authentication, Credentials};
use crate::config::{
    apply_settings, joined, joined_with, lemma_setting_views_add, setting_views, text_views,
    CaCertificate, Ciphers, ClientCertificate, ConfigOption, DnsCache, HttpVersion, Options,
    ProxyBlacklist,
    RedirectPolicy, Servers, SetOpt, Setting, SettingView, SslOption, VersionNegotiation,
};
use crate::error::{ClientError, TransferFailure};
use crate::headers::{
    field_key, first_text, first_value, header_count, header_entries, header_fields, header_get,
    header_insert, is_value_text, lemma_own_fields_accepted, lists_fields, readable, HEADER_ROOM,
};
use crate::middleware::{filter_request, filter_response, request_through, response_through, Middleware};
use crate::request::{Parts, Request};
use crate::response::Response;
use crate::text::{parse_u64, parsed_u64, same_text};
use std::time::Duration;
use vstd::prelude::*;
use vstd::string::*;

verus! {

/// The settings that choose the kind of transfer for a method: a plain download for a
/// `GET` without body, a transfer without response body for `HEAD`, a form-like upload for
/// `POST`, an upload for `PUT`, and for every other request an upload exactly where there
/// is a body, under the request's own method.
pub open spec fn method_settings(method: Seq<char>, has_body: bool) -> Seq<SettingView> {
    if method == "GET"@ && !has_body {
        seq![SettingView::Get(true)]
    } else if method == "HEAD"@ {
        seq![
            SettingView::Upload(has_body),
            SettingView::NoBody(true),
            SettingView::CustomRequest("HEAD"@),
        ]
    } else if method == "POST"@ {
        seq![SettingView::Post(true)]
    } else if method == "PUT"@ {
        seq![SettingView::Upload(true)]
    } else {
        seq![SettingView::Upload(has_body), SettingView::CustomRequest(method)]
    }
}

/// The length of the request body that is announced to the server: the number in the
/// `Content-Length` header where there is one, else the length that the body knows of
/// itself.
pub open spec fn upload_length(
    fields: Map<Seq<char>, Seq<Option<Seq<char>>>>,
    body_length: Option<u64>,
) -> Option<u64> {
    match first_text(fields, field_key("Content-Length"@)) {
        Some(text) => match parsed_u64(text) {
            Some(length) => Some(length),
            None => body_length,
        },
        None => body_length,
    }
}

/// Whether the request body is sent in chunks: there is a body, and its length is not
/// known.
pub open spec fn is_chunked(
    fields: Map<Seq<char>, Seq<Option<Seq<char>>>>,
    has_body: bool,
    body_length: Option<u64>,
) -> bool {
    has_body && upload_length(fields, body_length) is None
}

/// The settings that announce the length of the request body.
pub open spec fn size_settings(method: Seq<char>, has_body: bool, length: Option<u64>) -> Seq<
    SettingView,
> {
    if !has_body {
        Seq::empty()
    } else {
        match length {
            Some(length) => if method == "POST"@ {
                seq![SettingView::PostFieldSize(length)]
            } else {
                seq![SettingView::InFileSize(length)]
            },
            None => Seq::empty(),
        }
    }
}

/// The header fields that go out with a request: those of the request, and
/// `Transfer-Encoding: chunked` in place of any other transfer encoding where the body is
/// sent in chunks.
pub open spec fn sent_fields(
    fields: Map<Seq<char>, Seq<Option<Seq<char>>>>,
    has_body: bool,
    body_length: Option<u64>,
) -> Map<Seq<char>, Seq<Option<Seq<char>>>> {
    if is_chunked(fields, has_body, body_length) {
        fields.insert(field_key("Transfer-Encoding"@), seq![readable("chunked"@)])
    } else {
        fields
    }
}

/// The content encodings that are asked for: those of the `Accept-Encoding` header of the
/// request, and where the request has none, the empty text, which stands for all the
/// encodings that the driver supports.
pub open spec fn accepted_encodings(fields: Map<Seq<char>, Seq<Option<Seq<char>>>>) -> Seq<char> {
    match first_text(fields, field_key("Accept-Encoding"@)) {
        Some(text) => text,
        None => Seq::empty(),
    }
}

/// The line that stands for a header in a request.
pub open spec fn header_line(name: Seq<char>, value: Seq<char>) -> Seq<char> {
    name + seq![':', ' '] + value
}

/// The lines that stand for a list of headers, where every value is text.
pub open spec fn lines_of(entries: Seq<(String, Option<String>)>) -> Option<Seq<Seq<char>>>
    decreases entries.len(),
{
    if entries.len() == 0 {
        Some(Seq::empty())
    } else {
        match (lines_of(entries.drop_last()), entries.last().1) {
            (Some(lines), Some(value)) => Some(
                lines.push(header_line(entries.last().0@, value@)),
            ),
            _ => None,
        }
    }
}

/// The settings of the transfer that carries a request, in the order in which they are
/// made: the general ones, those of the options, the content encodings, the kind of
/// transfer, the URL, the length of the body, and the header lines. The driver writes down
/// what it does where `verbose` is set.
pub open spec fn transfer_plan(
    method: Seq<char>,
    uri: Seq<char>,
    fields: Map<Seq<char>, Seq<Option<Seq<char>>>>,
    options: Options,
    has_body: bool,
    body_length: Option<u64>,
    lines: Seq<Seq<char>>,
    verbose: bool,
) -> Seq<SettingView> {
    seq![SettingView::Verbose(verbose), SettingView::Signal(false)] + options.settings()
        + seq![SettingView::AcceptEncoding(accepted_encodings(fields))] + method_settings(
        method,
        has_body,
    ) + seq![SettingView::Url(uri)] + size_settings(
        method,
        has_body,
        upload_length(fields, body_length),
    ) + seq![SettingView::HttpHeaders(lines)]
}

/// Writes each header as a line. Returns `None` where a value is not text.
pub fn header_lines(entries: &Vec<(String, Option<String>)>) -> (lines: Option<Vec<String>>)
    ensures
        match lines {
            Some(lines) => lines_of(entries@) == Some(text_views(lines@)),
            None => lines_of(entries@) is None,
        },
{
    let mut lines: Vec<String> = Vec::new();
    let mut i: usize = 0;
    proof {
        assert(entries@.take(0) =~= Seq::empty());
        assert(text_views(lines@) =~= Seq::empty());
    }
    while i < entries.len()
        invariant
            i <= entries.len(),
            lines_of(entries@.take(i as int)) == Some(text_views(lines@)),
        decreases entries.len() - i,
    {
        proof {
            assert(entries@.take(i + 1).drop_last() =~= entries@.take(i as int));
            reveal_strlit(": ");
        }
        match &entries[i].1 {
            Some(value) => {
                let mut line = entries[i].0.clone();
                line.append(": ");
                line.append(value.as_str());
                proof {
                    assert(": "@ =~= seq![':', ' ']);
                    assert(line@ =~= header_line(entries@[i as int].0@, value@));
                    assert(text_views(lines@.push(line)) =~= text_views(lines@).push(line@));
                }
                lines.push(line);
            },
            None => {
                proof {
                    lemma_lines_of_none(entries@, i as int + 1);
                }
                return None;
            },
        }
        i = i + 1;
    }
    proof {
        assert(entries@.take(entries.len() as int) =~= entries@);
    }
    Some(lines)
}

/// Where the first `k` headers of a list cannot be written as lines, the whole list cannot.
pub proof fn lemma_lines_of_none(entries: Seq<(String, Option<String>)>, k: int)
    requires
        0 <= k <= entries.len(),
        lines_of(entries.take(k)) is None,
    ensures
        lines_of(entries) is None,
    decreases entries.len(),
{
    if k == entries.len() {
        assert(entries.take(k) =~= entries);
    } else {
        assert(entries.drop_last().take(k) =~= entries.take(k));
        lemma_lines_of_none(entries.drop_last(), k);
    }
}

/// Works out the settings that choose the kind of transfer for a method.
pub fn method_plan(method: &str, has_body: bool) -> (settings: Vec<Setting>)
    ensures
        setting_views(settings@) == method_settings(method@, has_body),
{
    let mut settings: Vec<Setting> = Vec::new();
    if same_text(method, "GET") && !has_body {
        settings.push(Setting::Get(true));
    } else if same_text(method, "HEAD") {
        settings.push(Setting::Upload(has_body));
        settings.push(Setting::NoBody(true));
        settings.push(Setting::CustomRequest("HEAD".to_owned()));
    } else if same_text(method, "POST") {
        settings.push(Setting::Post(true));
    } else if same_text(method, "PUT") {
        settings.push(Setting::Upload(true));
    } else {
        settings.push(Setting::Upload(has_body));
        settings.push(Setting::CustomRequest(method.to_owned()));
    }
    assert(setting_views(settings@) =~= method_settings(method@, has_body));
    settings
}

/// An HTTP client as a mathematical value.
pub struct ClientView {
    /// The number of connections that the client keeps open at most; zero stands for no
    /// limit.
    pub max_connections: usize,
    /// The number of connections that the client keeps open to one host at most; zero
    /// stands for no limit.
    pub max_connections_per_host: usize,
    /// The number of idle connections that are kept for later requests, where it was set.
    pub connection_cache_size: Option<usize>,
    /// The options that hold for every request that does not set them itself.
    pub defaults: Options,
    /// The middleware, innermost layer first.
    pub middleware: Seq<Box<dyn Middleware>>,
    /// The value of the `User-Agent` header of requests that come without one.
    pub user_agent: Seq<char>,
}

/// An HTTP client builder, capable of creating custom [`HttpClient`] instances with
/// customized behavior.
pub struct HttpClientBuilder {
    max_connections: usize,
    max_connections_per_host: usize,
    connection_cache_size: Option<usize>,
    defaults: Options,
    middleware: Vec<Box<dyn Middleware>>,
    user_agent: String,
}

impl View for HttpClientBuilder {
    type V = ClientView;

    closed spec fn view(&self) -> ClientView {
        ClientView {
            max_connections: self.max_connections,
            max_connections_per_host: self.max_connections_per_host,
            connection_cache_size: self.connection_cache_size,
            defaults: self.defaults,
            middleware: self.middleware@,
            user_agent: self.user_agent@,
        }
    }
}

impl Default for HttpClientBuilder {
    fn default() -> (builder: Self)
        ensures
            builder@ == HttpClientBuilder::initial(),
    {
        Self::new()
    }
}

impl HttpClientBuilder {
    /// The builder that [`HttpClientBuilder::new`] returns: no limits, no middleware, the
    /// user agent `isahc`, and one default, which allows no authentication scheme: a driver
    /// that is told nothing attempts HTTP Basic authentication.
    pub open spec fn initial() -> ClientView {
        ClientView {
            max_connections: 0,
            max_connections_per_host: 0,
            connection_cache_size: None,
            defaults: Options::empty().with(
                ConfigOption::Authentication(Authentication::of((false, false))),
            ),
            middleware: Seq::empty(),
            user_agent: "isahc"@,
        }
    }

    /// Create a new builder for building a custom client. All configuration will start out
    /// with the default values.
    ///
    /// This is equivalent to the [`Default`] implementation.
    pub fn new() -> (builder: Self)
        ensures
            builder@ == HttpClientBuilder::initial(),
    {
        let schemes = Authentication::default();
        proof {
            schemes.lemma_known_by_view();
        }
        let mut defaults = Options::new();
        defaults.insert(ConfigOption::Authentication(schemes));
        Self {
            max_connections: 0,
            max_connections_per_host: 0,
            connection_cache_size: None,
            defaults,
            middleware: Vec::new(),
            user_agent: "isahc".to_owned(),
        }
    }

    /// Set the value of the `User-Agent` header for requests that come without one.
    pub fn user_agent(self, user_agent: String) -> (builder: Self)
        ensures
            builder@ == (ClientView { user_agent: user_agent@, ..self@ }),
    {
        Self { user_agent, ..self }
    }

    /// Add a middleware layer to the client. The layer that is added last is the outermost:
    /// it sees a request first and a response last.
    pub fn middleware(self, middleware: Box<dyn Middleware>) -> (builder: Self)
        ensures
            builder@ == (ClientView { middleware: self@.middleware.push(middleware), ..self@ }),
    {
        let mut builder = self;
        builder.middleware.push(middleware);
        builder
    }

    /// Set a maximum number of simultaneous connections that this client is allowed to keep
    /// open at one time.
    ///
    /// If set to a value greater than zero, no more than `max` connections will be opened at
    /// one time. If executing a new request would require opening a new connection, then the
    /// request will stay in a "pending" state until an existing connection can be used or an
    /// active request completes and can be closed, making room for a new connection.
    ///
    /// Setting this value to `0` disables the limit entirely. By default this value is `0`
    /// and no limit is enforced.
    pub fn max_connections(self, max: usize) -> (builder: Self)
        ensures
            builder@ == (ClientView { max_connections: max, ..self@ }),
    {
        Self { max_connections: max, ..self }
    }

    /// Set a maximum number of simultaneous connections that this client is allowed to keep
    /// open to individual hosts at one time.
    ///
    /// Setting this value to `0` disables the limit entirely. By default this value is `0`
    /// and no limit is enforced.
    pub fn max_connections_per_host(self, max: usize) -> (builder: Self)
        ensures
            builder@ == (ClientView { max_connections_per_host: max, ..self@ }),
    {
        Self { max_connections_per_host: max, ..self }
    }

    /// Set the size of the connection cache.
    ///
    /// After requests are completed, if the underlying connection is reusable, it is added
    /// to the connection cache to be reused to reduce latency for future requests.
    ///
    /// Setting the size to `0` disables connection caching for all requests using this
    /// client: every connection is then closed when its request completes.
    pub fn connection_cache_size(self, size: usize) -> (builder: Self)
        ensures
            builder@ == (ClientView {
                connection_cache_size: Some(size),
                defaults: self@.defaults.with(ConfigOption::CloseConnection(size == 0)),
                ..self@
            }),
    {
        let mut builder = self;
        builder.connection_cache_size = Some(size);
        builder.defaults.insert(ConfigOption::CloseConnection(size == 0));
        builder
    }

    /// Puts a default in its place.
    fn default_option(self, option: ConfigOption) -> (builder: Self)
        ensures
            builder@ == (ClientView { defaults: self@.defaults.with(option), ..self@ }),
    {
        let mut builder = self;
        builder.defaults.insert(option);
        builder
    }

    /// Set a timeout for the maximum time allowed for a request-response cycle.
    ///
    /// If not set, no timeout will be enforced.
    pub fn timeout(self, timeout: Duration) -> (builder: Self)
        ensures
            builder@ == (ClientView {
                defaults: self@.defaults.with(ConfigOption::Timeout(timeout)),
                ..self@
            }),
    {
        self.default_option(ConfigOption::Timeout(timeout))
    }

    /// Set a timeout for the initial connection phase.
    ///
    /// If not set, a connect timeout of 300 seconds will be used.
    pub fn connect_timeout(self, timeout: Duration) -> (builder: Self)
        ensures
            builder@ == (ClientView {
                defaults: self@.defaults.with(ConfigOption::ConnectTimeout(timeout)),
                ..self@
            }),
    {
        self.default_option(ConfigOption::ConnectTimeout(timeout))
    }

    /// Set a policy for automatically following server redirects.
    ///
    /// The default is to not follow redirects.
    pub fn redirect_policy(self, policy: RedirectPolicy) -> (builder: Self)
        ensures
            builder@ == (ClientView {
                defaults: self@.defaults.with(ConfigOption::RedirectPolicy(policy)),
                ..self@
            }),
    {
        self.default_option(ConfigOption::RedirectPolicy(policy))
    }

    /// Update the `Referer` header automatically when following redirects.
    pub fn auto_referer(self) -> (builder: Self)
        ensures
            builder@ == (ClientView {
                defaults: self@.defaults.with(ConfigOption::AutoReferer),
                ..self@
            }),
    {
        self.default_option(ConfigOption::AutoReferer)
    }

    /// Configure how the use of HTTP versions should be negotiated with the server.
    ///
    /// The default is [`VersionNegotiation::latest_compatible`].
    pub fn version_negotiation(self, negotiation: VersionNegotiation) -> (builder: Self)
        ensures
            builder@ == (ClientView {
                defaults: self@.defaults.with(ConfigOption::VersionNegotiation(negotiation)),
                ..self@
            }),
    {
        self.default_option(ConfigOption::VersionNegotiation(negotiation))
    }

    /// Set a preferred HTTP version the client should attempt to use to communicate to the
    /// server with.
    ///
    /// This is treated as a suggestion. A different version may be used if the server does
    /// not support it or negotiates a different version.
    pub fn preferred_http_version(self, version: HttpVersion) -> (builder: Self)
        ensures
            exists|negotiation: VersionNegotiation|
                negotiation@ == (version, false) && builder@ == (ClientView {
                    defaults: self@.defaults.with(ConfigOption::VersionNegotiation(negotiation)),
                    ..self@
                }),
    {
        let negotiation = VersionNegotiation::preferred(version);
        self.default_option(ConfigOption::VersionNegotiation(negotiation))
    }

    /// Enable TCP keepalive with a given probe interval.
    pub fn tcp_keepalive(self, interval: Duration) -> (builder: Self)
        ensures
            builder@ == (ClientView {
                defaults: self@.defaults.with(ConfigOption::TcpKeepAlive(interval)),
                ..self@
            }),
    {
        self.default_option(ConfigOption::TcpKeepAlive(interval))
    }

    /// Enables the `TCP_NODELAY` option on connect.
    pub fn tcp_nodelay(self) -> (builder: Self)
        ensures
            builder@ == (ClientView {
                defaults: self@.defaults.with(ConfigOption::TcpNoDelay),
                ..self@
            }),
    {
        self.default_option(ConfigOption::TcpNoDelay)
    }

    /// Set a proxy to use for requests.
    ///
    /// The proxy protocol is specified by the URI scheme. By default the system proxy will
    /// be used. Setting to `None` explicitly disables the use of a proxy.
    pub fn proxy(self, proxy: Option<String>) -> (builder: Self)
        ensures
            builder@ == (ClientView {
                defaults: self@.defaults.with(ConfigOption::Proxy(proxy)),
                ..self@
            }),
    {
        self.default_option(ConfigOption::Proxy(proxy))
    }

    /// Disable proxy usage to use for the provided list of hosts.
    pub fn proxy_blacklist(self, hosts: Vec<String>) -> (builder: Self)
        ensures
            exists|list: ProxyBlacklist|
                list.spec_skip() == joined(text_views(hosts@)) && builder@ == (ClientView {
                    defaults: self@.defaults.with(ConfigOption::ProxyBlacklist(list)),
                    ..self@
                }),
    {
        let list = ProxyBlacklist::from_iter(hosts);
        self.default_option(ConfigOption::ProxyBlacklist(list))
    }

    /// Set a maximum upload speed for the request body, in bytes per second.
    ///
    /// The default is unlimited.
    pub fn max_upload_speed(self, max: u64) -> (builder: Self)
        ensures
            builder@ == (ClientView {
                defaults: self@.defaults.with(ConfigOption::MaxUploadSpeed(max)),
                ..self@
            }),
    {
        self.default_option(ConfigOption::MaxUploadSpeed(max))
    }

    /// Set a maximum download speed for the response body, in bytes per second.
    ///
    /// The default is unlimited.
    pub fn max_download_speed(self, max: u64) -> (builder: Self)
        ensures
            builder@ == (ClientView {
                defaults: self@.defaults.with(ConfigOption::MaxDownloadSpeed(max)),
                ..self@
            }),
    {
        self.default_option(ConfigOption::MaxDownloadSpeed(max))
    }

    /// Enable comprehensive per-request metrics collection.
    ///
    /// By default metrics are disabled.
    pub fn metrics(self, enable: bool) -> (builder: Self)
        ensures
            builder@ == (ClientView {
                defaults: self@.defaults.with(ConfigOption::EnableMetrics(enable)),
                ..self@
            }),
    {
        self.default_option(ConfigOption::EnableMetrics(enable))
    }

    /// Set one or more default HTTP authentication methods to attempt to use when
    /// authenticating with the server.
    ///
    /// Depending on the authentication schemes enabled, you will also need to set
    /// credentials to use for authentication using [`HttpClientBuilder::credentials`].
    pub fn authentication(self, authentication: Authentication) -> (builder: Self)
        ensures
            builder@ == (ClientView {
                defaults: self@.defaults.with(ConfigOption::Authentication(authentication)),
                ..self@
            }),
    {
        self.default_option(ConfigOption::Authentication(authentication))
    }

    /// Set the default credentials to use for HTTP authentication on all requests.
    ///
    /// This setting will do nothing unless you also set one or more authentication methods
    /// using [`HttpClientBuilder::authentication`].
    pub fn credentials(self, credentials: Credentials) -> (builder: Self)
        ensures
            builder@ == (ClientView {
                defaults: self@.defaults.with(ConfigOption::Credentials(credentials)),
                ..self@
            }),
    {
        self.default_option(ConfigOption::Credentials(credentials))
    }

    /// Set one or more default HTTP authentication methods to attempt to use when
    /// authenticating with a proxy.
    ///
    /// Depending on the authentication schemes enabled, you will also need to set
    /// credentials to use for authentication using
    /// [`HttpClientBuilder::proxy_credentials`].
    pub fn proxy_authentication(self, authentication: Authentication) -> (builder: Self)
        ensures
            builder@ == (ClientView {
                defaults: self@.defaults.with(ConfigOption::ProxyAuthentication(authentication)),
                ..self@
            }),
    {
        self.default_option(ConfigOption::ProxyAuthentication(authentication))
    }

    /// Set the default credentials to use for proxy authentication on all requests.
    ///
    /// This setting will do nothing unless you also set one or more proxy authentication
    /// methods using [`HttpClientBuilder::proxy_authentication`].
    pub fn proxy_credentials(self, credentials: Credentials) -> (builder: Self)
        ensures
            builder@ == (ClientView {
                defaults: self@.defaults.with(ConfigOption::ProxyCredentials(credentials)),
                ..self@
            }),
    {
        self.default_option(ConfigOption::ProxyCredentials(credentials))
    }

    /// Configure DNS caching.
    ///
    /// By default, DNS entries are cached by the client executing the request and are used
    /// until the entry expires. Calling this method allows you to change the entry timeout
    /// duration or disable caching completely.
    ///
    /// Note that DNS entry TTLs are not respected, regardless of this setting.
    ///
    /// By default caching is enabled with a 60 second timeout.
    ///
    /// The cache is shared between all requests of the client, so this option is not
    /// offered for a single request.
    pub fn dns_cache(self, cache: DnsCache) -> (builder: Self)
        ensures
            builder@ == (ClientView {
                defaults: self@.defaults.with(ConfigOption::DnsCache(cache)),
                ..self@
            }),
    {
        self.default_option(ConfigOption::DnsCache(cache))
    }

    /// Set a list of specific DNS servers to be used for DNS resolution, each given as an
    /// address with its port.
    ///
    /// By default this option is not set and the system's built-in DNS resolver is used.
    pub fn dns_servers(self, servers: Vec<String>) -> (builder: Self)
        ensures
            exists|list: Servers|
                list.spec_list() == joined(text_views(servers@)) && builder@ == (ClientView {
                    defaults: self@.defaults.with(ConfigOption::DnsServers(list)),
                    ..self@
                }),
    {
        let list = Servers::from_iter(servers);
        self.default_option(ConfigOption::DnsServers(list))
    }

    /// Set a custom SSL/TLS client certificate to use for all client connections.
    ///
    /// If a format is not supported by the underlying SSL/TLS engine, an error will be
    /// returned when attempting to send a request using the offending certificate.
    ///
    /// The default value is none.
    pub fn ssl_client_certificate(self, certificate: ClientCertificate) -> (builder: Self)
        ensures
            builder@ == (ClientView {
                defaults: self@.defaults.with(ConfigOption::SslClientCertificate(certificate)),
                ..self@
            }),
    {
        self.default_option(ConfigOption::SslClientCertificate(certificate))
    }

    /// Set a custom SSL/TLS CA certificate bundle to use for all client connections.
    ///
    /// The default value is none.
    pub fn ssl_ca_certificate(self, certificate: CaCertificate) -> (builder: Self)
        ensures
            builder@ == (ClientView {
                defaults: self@.defaults.with(ConfigOption::SslCaCertificate(certificate)),
                ..self@
            }),
    {
        self.default_option(ConfigOption::SslCaCertificate(certificate))
    }

    /// Set a list of ciphers to use for SSL/TLS connections.
    pub fn ssl_ciphers(self, ciphers: Vec<String>) -> (builder: Self)
        ensures
            exists|list: Ciphers|
                list.spec_list() == joined_with(text_views(ciphers@), seq![':']) && builder@ == (
                ClientView {
                    defaults: self@.defaults.with(ConfigOption::SslCiphers(list)),
                    ..self@
                }),
    {
        let list = Ciphers::from_iter(ciphers);
        self.default_option(ConfigOption::SslCiphers(list))
    }

    /// Set various options that control SSL/TLS behavior.
    ///
    /// Most options are for disabling security checks that introduce security risks, but
    /// may be required as a last resort. Note that the most secure options are already the
    /// default and do not need to be specified.
    ///
    /// The default value is the empty set.
    ///
    /// # Warning
    ///
    /// You should think very carefully before using this method. Using *any* options that
    /// alter how certificates are validated can introduce significant security
    /// vulnerabilities.
    pub fn ssl_options(self, options: SslOption) -> (builder: Self)
        ensures
            builder@ == (ClientView {
                defaults: self@.defaults.with(ConfigOption::SslOptions(options)),
                ..self@
            }),
    {
        self.default_option(ConfigOption::SslOptions(options))
    }

    /// Build an [`HttpClient`] using the configured options.
    pub fn build(self) -> (result: Result<HttpClient, ClientError>)
        ensures
            result matches Ok(client) && client@ == self@,
    {
        Ok(
            HttpClient {
                max_connections: self.max_connections,
                max_connections_per_host: self.max_connections_per_host,
                connection_cache_size: self.connection_cache_size,
                defaults: self.defaults,
                middleware: self.middleware,
                user_agent: self.user_agent,
            },
        )
    }
}

/// An HTTP client for making requests.
///
/// An [`HttpClient`] instance acts as a session for executing one or more HTTP requests,
/// and also allows you to set common protocol settings that should be applied to all
/// requests made with the client.
pub struct HttpClient {
    max_connections: usize,
    max_connections_per_host: usize,
    connection_cache_size: Option<usize>,
    /// Map of config values that should be used to configure execution if not specified in
    /// a request.
    defaults: Options,
    /// Any middleware implementations that requests should pass through.
    middleware: Vec<Box<dyn Middleware>>,
    user_agent: String,
}

impl View for HttpClient {
    type V = ClientView;

    closed spec fn view(&self) -> ClientView {
        ClientView {
            max_connections: self.max_connections,
            max_connections_per_host: self.max_connections_per_host,
            connection_cache_size: self.connection_cache_size,
            defaults: self.defaults,
            middleware: self.middleware@,
            user_agent: self.user_agent@,
        }
    }
}

impl HttpClient {
    /// Create a new HTTP client using the default configuration.
    pub fn new() -> (result: Result<Self, ClientError>)
        ensures
            result matches Ok(client) && client@ == HttpClientBuilder::initial(),
    {
        HttpClientBuilder::default().build()
    }

    /// Create a new [`HttpClientBuilder`] for building a custom client.
    pub fn builder() -> (builder: HttpClientBuilder)
        ensures
            builder@ == HttpClientBuilder::initial(),
    {
        HttpClientBuilder::default()
    }

    /// Returns the number of connections that the client keeps open at most; zero stands
    /// for no limit.
    pub fn max_connections(&self) -> (max: usize)
        ensures
            max == self@.max_connections,
    {
        self.max_connections
    }

    /// Returns the number of connections that the client keeps open to one host at most;
    /// zero stands for no limit.
    pub fn max_connections_per_host(&self) -> (max: usize)
        ensures
            max == self@.max_connections_per_host,
    {
        self.max_connections_per_host
    }

    /// Returns the size of the connection cache, where it was set.
    pub fn connection_cache_size(&self) -> (size: Option<usize>)
        ensures
            size == self@.connection_cache_size,
    {
        self.connection_cache_size
    }

    /// Creates the agent that runs the transfers of this client: an agent without
    /// transfers, with the limits of the client, and with a queue that is not bounded.
    pub fn agent(&self) -> (agent: Agent)
        ensures
            agent.wf(),
            agent@ == (AgentView {
                limits: Limits {
                    max_connections: self@.max_connections,
                    max_connections_per_host: self@.max_connections_per_host,
                    max_pending: 0,
                },
                active: Seq::empty(),
                pending: Seq::empty(),
                next_id: 0,
                shutdown: false,
                poll_failures: 0,
            }),
    {
        Agent::new(
            Limits {
                max_connections: self.max_connections,
                max_connections_per_host: self.max_connections_per_host,
                max_pending: 0,
            },
        )
    }

    /// Returns the options that hold for every request that does not set them itself.
    pub fn defaults(&self) -> (defaults: &Options)
        ensures
            *defaults == self@.defaults,
    {
        &self.defaults
    }

    /// The header fields of a request after the default user agent was seen to: a request
    /// that has a `User-Agent` header keeps it, any other gets the client's.
    pub open spec fn with_user_agent(
        self,
        fields: Map<Seq<char>, Seq<Option<Seq<char>>>>,
    ) -> Map<Seq<char>, Seq<Option<Seq<char>>>> {
        if first_value(fields, field_key("user-agent"@)) is Some {
            fields
        } else {
            fields.insert(field_key("user-agent"@), seq![readable(self@.user_agent)])
        }
    }

    /// Set the default user agent if the request does not specify one. Returns whether the
    /// headers are as they must be, which they are not where the header map refuses the
    /// header; it is then as it was. The map refuses a user agent that holds a control
    /// character other than the tab; a map with fewer than [`HEADER_ROOM`] fields refuses
    /// no other.
    pub fn set_user_agent(&self, headers: &mut http::HeaderMap<http::HeaderValue>) -> (done: bool)
        ensures
            header_fields(*final(headers)) == if done {
                self.with_user_agent(header_fields(*old(headers)))
            } else {
                header_fields(*old(headers))
            },
            first_value(header_fields(*old(headers)), field_key("user-agent"@)) is Some ==> done,
            is_value_text(self@.user_agent) && header_count(*old(headers)) < HEADER_ROOM ==> done,
            first_value(header_fields(*old(headers)), field_key("user-agent"@)) is None
                && !is_value_text(self@.user_agent) ==> !done,
    {
        proof {
            lemma_own_fields_accepted();
        }
        match header_get(headers, "user-agent") {
            Some(_) => true,
            None => header_insert(headers, "user-agent", self.user_agent.as_str()),
        }
    }

    /// Prepares a request for sending: sets the default user agent if the request does not
    /// specify one, and applies the request middleware, starting with the outermost one.
    ///
    /// The request is refused with `Internal` where it has no user agent and the header map
    /// does not take that of the client: the user agent holds a control character other
    /// than the tab, or the map holds [`HEADER_ROOM`] fields or more and has no room.
    pub fn prepare(&self, request: Request) -> (result: Result<Request, ClientError>)
        ensures
            match result {
                Ok(prepared) => exists|normalized: Request|
                    {
                        &&& #[trigger] request_through(self@.middleware, normalized) == prepared
                        &&& normalized.method == request.method
                        &&& normalized.uri == request.uri
                        &&& normalized.options == request.options
                        &&& normalized.body == request.body
                        &&& header_fields(normalized.headers) == self.with_user_agent(
                            header_fields(request.headers),
                        )
                    },
                Err(e) => {
                    &&& e is Internal
                    &&& first_value(header_fields(request.headers), field_key("user-agent"@))
                        is None
                    &&& !is_value_text(self@.user_agent) || header_count(request.headers)
                        >= HEADER_ROOM
                },
            },
            first_value(header_fields(request.headers), field_key("user-agent"@)) is None
                && !is_value_text(self@.user_agent) ==> result is Err,
    {
        let mut request = request;
        if !self.set_user_agent(&mut request.headers) {
            return Err(ClientError::Internal);
        }
        let ghost normalized = request;
        let prepared = filter_request(&self.middleware, request);
        assert(request_through(self@.middleware, normalized) == prepared);
        Ok(prepared)
    }

    /// Works out the settings of the transfer that carries a request with the given head.
    ///
    /// The options of the request shadow the defaults of the client. Where the request has a
    /// body of unknown length, the header `Transfer-Encoding: chunked` is put in place of any
    /// other transfer encoding.
    ///
    /// The driver is told to write down what it does where `verbose` is set; a caller sets
    /// it where it logs at the level of debugging.
    ///
    /// Fails with `Internal` where the header map does not take that header, which a map
    /// with fewer than [`HEADER_ROOM`] fields always does, and with `InvalidUtf8` where the
    /// value of a header is not text.
    pub fn transfer_settings(&self, parts: &mut Parts, has_body: bool, body_length: Option<u64>, verbose: bool) -> (result: Result<Vec<Setting>, ClientError>)
        ensures
            final(parts).method == old(parts).method,
            final(parts).uri == old(parts).uri,
            final(parts).options == old(parts).options,
            match result {
                Ok(settings) => {
                    &&& header_fields(final(parts).headers) == sent_fields(
                        header_fields(old(parts).headers),
                        has_body,
                        body_length,
                    )
                    &&& exists|entries: Seq<(String, Option<String>)>|
                        {
                            &&& #[trigger] lists_fields(
                                entries,
                                header_fields(final(parts).headers),
                            )
                            &&& lines_of(entries) matches Some(lines) && setting_views(settings@)
                                == transfer_plan(
                                old(parts).method@,
                                old(parts).uri@,
                                header_fields(old(parts).headers),
                                old(parts).options.resolved(self@.defaults),
                                has_body,
                                body_length,
                                lines,
                                verbose,
                            )
                        }
                },
                Err(e) => {
                    ||| {
                        &&& e is Internal
                        &&& is_chunked(header_fields(old(parts).headers), has_body, body_length)
                        &&& header_count(old(parts).headers) >= HEADER_ROOM
                        &&& header_fields(final(parts).headers) == header_fields(
                            old(parts).headers,
                        )
                    }
                    ||| {
                        &&& e is InvalidUtf8
                        &&& header_fields(final(parts).headers) == sent_fields(
                            header_fields(old(parts).headers),
                            has_body,
                            body_length,
                        )
                        &&& exists|entries: Seq<(String, Option<String>)>|
                            #[trigger] lists_fields(entries, header_fields(final(parts).headers))
                                && lines_of(entries) is None
                    }
                },
            },
    {
        let ghost fields = header_fields(parts.headers);
        let mut settings: Vec<Setting> = Vec::new();
        settings.push(Setting::Verbose(verbose));
        settings.push(Setting::Signal(false));
        proof {
            assert(setting_views(settings@) =~= seq![
                SettingView::Verbose(verbose),
                SettingView::Signal(false),
            ]);
        }

        // Apply all config values given in the request or in the defaults.
        let options = parts.options.resolve(&self.defaults);
        let mut part = options.to_settings();
        proof {
            lemma_setting_views_add(settings@, part@);
        }
        settings.append(&mut part);

        // Enable automatic response decoding, unless overridden by the user via a custom
        // Accept-Encoding value.
        let encodings = match header_get(&parts.headers, "Accept-Encoding") {
            Some(Some(text)) => text,
            _ => String::new(),
        };
        proof {
            lemma_setting_views_add(settings@, seq![Setting::AcceptEncoding(encodings)]);
            assert(setting_views(seq![Setting::AcceptEncoding(encodings)]) =~= seq![
                SettingView::AcceptEncoding(accepted_encodings(fields)),
            ]);
            assert(settings@.push(Setting::AcceptEncoding(encodings)) =~= settings@
                + seq![Setting::AcceptEncoding(encodings)]);
        }
        settings.push(Setting::AcceptEncoding(encodings));

        // Set the HTTP method to use.
        let mut part = method_plan(parts.method.as_str(), has_body);
        proof {
            lemma_setting_views_add(settings@, part@);
        }
        settings.append(&mut part);

        let url = parts.uri.clone();
        proof {
            lemma_setting_views_add(settings@, seq![Setting::Url(url)]);
            assert(setting_views(seq![Setting::Url(url)]) =~= seq![SettingView::Url(parts.uri@)]);
            assert(settings@.push(Setting::Url(url)) =~= settings@ + seq![Setting::Url(url)]);
        }
        settings.push(Setting::Url(url));

        // If the request has a body, then we either need to tell the driver how large the
        // body is if we know it, or tell it to use chunked encoding.
        let mut part: Vec<Setting> = Vec::new();
        if has_body {
            // Use length given in Content-Length header, or the size defined by the body
            // itself.
            let announced = match header_get(&parts.headers, "Content-Length") {
                Some(Some(text)) => parse_u64(text.as_str()),
                _ => None,
            };
            let length = match announced {
                Some(length) => Some(length),
                None => body_length,
            };
            assert(length == upload_length(fields, body_length));
            match length {
                Some(length) => {
                    if same_text(parts.method.as_str(), "POST") {
                        part.push(Setting::PostFieldSize(length));
                    } else {
                        part.push(Setting::InFileSize(length));
                    }
                },
                None => {
                    // Set the Transfer-Encoding header to instruct the driver to use
                    // chunked encoding. Replaces any existing values that may be incorrect.
                    proof {
                        lemma_own_fields_accepted();
                    }
                    if !header_insert(&mut parts.headers, "Transfer-Encoding", "chunked") {
                        return Err(ClientError::Internal);
                    }
                },
            }
        }
        proof {
            assert(setting_views(part@) =~= size_settings(
                parts.method@,
                has_body,
                upload_length(fields, body_length),
            ));
            lemma_setting_views_add(settings@, part@);
        }
        settings.append(&mut part);

        // Set custom request headers.
        let entries = header_entries(&parts.headers);
        assert(lists_fields(entries@, header_fields(parts.headers)));
        let lines = match header_lines(&entries) {
            Some(lines) => lines,
            None => {
                return Err(ClientError::InvalidUtf8);
            },
        };
        proof {
            lemma_setting_views_add(settings@, seq![Setting::HttpHeaders(lines)]);
            assert(setting_views(seq![Setting::HttpHeaders(lines)]) =~= seq![
                SettingView::HttpHeaders(text_views(lines@)),
            ]);
            assert(settings@.push(Setting::HttpHeaders(lines)) =~= settings@
                + seq![Setting::HttpHeaders(lines)]);
        }
        settings.push(Setting::HttpHeaders(lines));
        Ok(settings)
    }

    /// Configures a transfer handle to fulfil a request with the given head: makes the
    /// settings that [`HttpClient::transfer_settings`] works out, one after the other, and
    /// stops at the first that the driver refuses.
    ///
    /// Where the settings cannot be worked out, the error of
    /// [`HttpClient::transfer_settings`] is returned, and the driver is not asked. A refusal
    /// of the driver is returned as the error that it becomes with
    /// [`TransferFailure::classify`], which is never `Internal` or `InvalidUtf8`.
    pub fn create_easy_handle<H>(&self, easy: &mut curl::easy::Easy2<H>, parts: &mut Parts, has_body: bool, body_length: Option<u64>, verbose: bool) -> (result: Result<(), ClientError>)
        ensures
            final(parts).method == old(parts).method,
            final(parts).uri == old(parts).uri,
            final(parts).options == old(parts).options,
            match result {
                Ok(()) => header_fields(final(parts).headers) == sent_fields(
                    header_fields(old(parts).headers),
                    has_body,
                    body_length,
                ),
                Err(e) => {
                    ||| {
                        &&& e is Internal
                        &&& is_chunked(header_fields(old(parts).headers), has_body, body_length)
                        &&& header_count(old(parts).headers) >= HEADER_ROOM
                        &&& header_fields(final(parts).headers) == header_fields(
                            old(parts).headers,
                        )
                    }
                    ||| {
                        &&& e is InvalidUtf8
                        &&& header_fields(final(parts).headers) == sent_fields(
                            header_fields(old(parts).headers),
                            has_body,
                            body_length,
                        )
                        &&& exists|entries: Seq<(String, Option<String>)>|
                            #[trigger] lists_fields(entries, header_fields(final(parts).headers))
                                && lines_of(entries) is None
                    }
                    ||| {
                        &&& !(e is Internal) && !(e is InvalidUtf8)
                        &&& header_fields(final(parts).headers) == sent_fields(
                            header_fields(old(parts).headers),
                            has_body,
                            body_length,
                        )
                        &&& exists|failure: TransferFailure| e == failure.classify()
                    }
                },
            },
    {
        let settings = match self.transfer_settings(parts, has_body, body_length, verbose) {
            Ok(settings) => settings,
            Err(e) => {
                return Err(e);
            },
        };
        match apply_settings(easy, &settings) {
            Ok(()) => Ok(()),
            Err(e) => {
                let failure = TransferFailure::read(&e);
                let error = ClientError::from(failure);
                assert(error == failure.classify());
                Err(error)
            },
        }
    }

    /// Finishes a response whose headers were received: gives it a body that reads from
    /// `reader`, and applies the response middleware, starting with the innermost one.
    ///
    /// The body has the length that the `Content-Length` header announces, and yields no
    /// more bytes than that. Where the response has a `Content-Encoding` header, the body
    /// is a stream of unknown length, which yields whatever the transfer hands over: the
    /// driver decodes the content, and the bytes that it hands over are not those that
    /// were counted.
    pub fn complete<R: Source + 'static>(&self, response: Response<R>) -> (result: Response<Body>)
        ensures
            exists|body: Body|
                {
                    &&& #[trigger] response_through(self@.middleware, response.with_body(body))
                        == result
                    &&& body@ == (BodyView::Reader { length: response.known_length(), yielded: 0 })
                },
    {
        let ghost received = response;
        let length = crate::response::body_length(&response.headers);
        let (response, reader) = response.replace_body(());
        let body = match length {
            Some(length) => Body::from_reader_sized(reader, length),
            None => Body::from_reader(reader),
        };
        let (response, _) = response.replace_body(body);
        assert(response == received.with_body(body));
        let result = filter_response(&self.middleware, response);
        assert(response_through(self@.middleware, received.with_body(body)) == result);
        result
    }
}

} // verus!
