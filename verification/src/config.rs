//! Definition of all client and request configuration options.
//!
//! An option is a value that knows which settings it makes on a transfer. The options of a
//! request and the defaults of a client are each kept in an [`Options`] bag with one place
//! for every kind of option; an option of the request shadows the client's default.

use crate::auth::{Authentication, Credentials};
use std::time::Duration;
use vstd::prelude::*;
use vstd::string::*;

pub mod dns;
pub mod ssl;

pub use crate::config::dns::{DnsCache, Servers};
pub use crate::config::ssl::{CaCertificate, Ciphers, ClientCertificate, PrivateKey, SslOption};

verus! {

/// A transfer handle of the `curl` crate with a handler of the type `H`. Nothing is known
/// of what it holds.
#[verifier::external_type_specification]
#[verifier::external_body]
#[verifier::reject_recursive_types(H)]
pub struct ExEasy2<H>(curl::easy::Easy2<H>);

/// A list of strings of the `curl` crate. Nothing is known of what it holds.
#[verifier::external_type_specification]
#[verifier::external_body]
pub struct ExList(curl::easy::List);

/// The HTTP versions that a transfer can be asked to use.
#[derive(Clone, Copy, Debug, PartialEq, Eq, Structural)]
pub enum HttpVersion {
    /// HTTP/1.0.
    V10,
    /// HTTP/1.1.
    V11,
    /// HTTP/2, reached by an upgrade from HTTP/1.1 where the server agrees.
    V2,
    /// HTTP/2 without a preceding HTTP/1.1 request.
    V2PriorKnowledge,
    /// Whatever version the driver thinks fit.
    Any,
}

/// One setting made on a transfer handle.
#[derive(Debug, PartialEq)]
pub enum Setting {
    /// Log what the transfer does.
    Verbose(bool),
    /// Let the driver install signal handlers.
    Signal(bool),
    /// The time that the whole transfer may take.
    Timeout(Duration),
    /// The time that the connection phase may take.
    ConnectTimeout(Duration),
    /// Send keepalive probes.
    TcpKeepAlive(bool),
    /// The time between two keepalive probes.
    TcpKeepIntvl(Duration),
    /// Send small packets at once.
    TcpNoDelay(bool),
    /// Follow redirects.
    FollowLocation(bool),
    /// The number of redirects that are followed at most.
    MaxRedirections(u32),
    /// Set the `Referer` header when following a redirect.
    AutoReferer(bool),
    /// The upload speed in bytes per second that is not exceeded.
    MaxSendSpeed(u64),
    /// The download speed in bytes per second that is not exceeded.
    MaxRecvSpeed(u64),
    /// The HTTP version to use. Where `strict` is false, a driver that refuses the version
    /// does not fail the transfer.
    HttpVersion { version: HttpVersion, strict: bool },
    /// The proxy to use; the empty string stands for no proxy at all.
    Proxy(String),
    /// The hosts that are reached without the proxy, separated by commas.
    NoProxy(String),
    /// Close the connection when the transfer is done.
    ForbidReuse(bool),
    /// Report the progress of the transfer.
    Progress(bool),
    /// The content encodings to ask for; the empty string stands for all that are supported.
    AcceptEncoding(String),
    /// Make a plain GET request.
    Get(bool),
    /// Send a request body that is read from the handler.
    Upload(bool),
    /// Do not wait for a response body.
    NoBody(bool),
    /// The method to put in the request line.
    CustomRequest(String),
    /// Make a POST request.
    Post(bool),
    /// The URL of the request.
    Url(String),
    /// The size of the body of a POST request.
    PostFieldSize(u64),
    /// The size of the body of an upload.
    InFileSize(u64),
    /// The request headers, one line each.
    HttpHeaders(Vec<String>),
    /// The ways in which the client may prove who it is to the server.
    HttpAuth { basic: bool, digest: bool },
    /// The user name to give to the server.
    Username(String),
    /// The password to give to the server.
    Password(String),
    /// The ways in which the client may prove who it is to the proxy.
    ProxyAuth { basic: bool, digest: bool },
    /// The user name to give to the proxy.
    ProxyUsername(String),
    /// The password to give to the proxy.
    ProxyPassword(String),
    /// The time for which a resolved name is remembered.
    DnsCacheTimeout(Duration),
    /// The name servers to ask, separated by commas.
    DnsServers(String),
    /// The ciphers to offer, separated by colons.
    SslCipherList(String),
    /// The format of the client certificate.
    SslCertType(String),
    /// The file that holds the client certificate.
    SslCert(String),
    /// The format of the private key.
    SslKeyType(String),
    /// The file that holds the private key.
    SslKey(String),
    /// The password that opens the private key.
    KeyPassword(String),
    /// The file that holds the certificates of the authorities that are trusted.
    CaInfo(String),
    /// Whether a certificate is accepted without asking whether it was revoked.
    SslNoRevoke(bool),
    /// Whether the certificate of the server is checked.
    SslVerifyPeer(bool),
    /// Whether the certificate of the server must be made out to the host of the request.
    SslVerifyHost(bool),
}

/// A [`Setting`] as a mathematical value.
pub enum SettingView {
    Verbose(bool),
    Signal(bool),
    Timeout(Duration),
    ConnectTimeout(Duration),
    TcpKeepAlive(bool),
    TcpKeepIntvl(Duration),
    TcpNoDelay(bool),
    FollowLocation(bool),
    MaxRedirections(u32),
    AutoReferer(bool),
    MaxSendSpeed(u64),
    MaxRecvSpeed(u64),
    HttpVersion { version: HttpVersion, strict: bool },
    Proxy(Seq<char>),
    NoProxy(Seq<char>),
    ForbidReuse(bool),
    Progress(bool),
    AcceptEncoding(Seq<char>),
    Get(bool),
    Upload(bool),
    NoBody(bool),
    CustomRequest(Seq<char>),
    Post(bool),
    Url(Seq<char>),
    PostFieldSize(u64),
    InFileSize(u64),
    HttpHeaders(Seq<Seq<char>>),
    HttpAuth { basic: bool, digest: bool },
    Username(Seq<char>),
    Password(Seq<char>),
    ProxyAuth { basic: bool, digest: bool },
    ProxyUsername(Seq<char>),
    ProxyPassword(Seq<char>),
    DnsCacheTimeout(Duration),
    DnsServers(Seq<char>),
    SslCipherList(Seq<char>),
    SslCertType(Seq<char>),
    SslCert(Seq<char>),
    SslKeyType(Seq<char>),
    SslKey(Seq<char>),
    KeyPassword(Seq<char>),
    CaInfo(Seq<char>),
    SslNoRevoke(bool),
    SslVerifyPeer(bool),
    SslVerifyHost(bool),
}

impl View for Setting {
    type V = SettingView;

    open spec fn view(&self) -> SettingView {
        match self {
            Setting::Verbose(on) => SettingView::Verbose(*on),
            Setting::Signal(on) => SettingView::Signal(*on),
            Setting::Timeout(time) => SettingView::Timeout(*time),
            Setting::ConnectTimeout(time) => SettingView::ConnectTimeout(*time),
            Setting::TcpKeepAlive(on) => SettingView::TcpKeepAlive(*on),
            Setting::TcpKeepIntvl(time) => SettingView::TcpKeepIntvl(*time),
            Setting::TcpNoDelay(on) => SettingView::TcpNoDelay(*on),
            Setting::FollowLocation(on) => SettingView::FollowLocation(*on),
            Setting::MaxRedirections(max) => SettingView::MaxRedirections(*max),
            Setting::AutoReferer(on) => SettingView::AutoReferer(*on),
            Setting::MaxSendSpeed(speed) => SettingView::MaxSendSpeed(*speed),
            Setting::MaxRecvSpeed(speed) => SettingView::MaxRecvSpeed(*speed),
            Setting::HttpVersion { version, strict } => SettingView::HttpVersion {
                version: *version,
                strict: *strict,
            },
            Setting::Proxy(url) => SettingView::Proxy(url@),
            Setting::NoProxy(hosts) => SettingView::NoProxy(hosts@),
            Setting::ForbidReuse(on) => SettingView::ForbidReuse(*on),
            Setting::Progress(on) => SettingView::Progress(*on),
            Setting::AcceptEncoding(encodings) => SettingView::AcceptEncoding(encodings@),
            Setting::Get(on) => SettingView::Get(*on),
            Setting::Upload(on) => SettingView::Upload(*on),
            Setting::NoBody(on) => SettingView::NoBody(*on),
            Setting::CustomRequest(method) => SettingView::CustomRequest(method@),
            Setting::Post(on) => SettingView::Post(*on),
            Setting::Url(url) => SettingView::Url(url@),
            Setting::PostFieldSize(size) => SettingView::PostFieldSize(*size),
            Setting::InFileSize(size) => SettingView::InFileSize(*size),
            Setting::HttpHeaders(lines) => SettingView::HttpHeaders(text_views(lines@)),
            Setting::HttpAuth { basic, digest } => SettingView::HttpAuth {
                basic: *basic,
                digest: *digest,
            },
            Setting::Username(name) => SettingView::Username(name@),
            Setting::Password(password) => SettingView::Password(password@),
            Setting::ProxyAuth { basic, digest } => SettingView::ProxyAuth {
                basic: *basic,
                digest: *digest,
            },
            Setting::ProxyUsername(name) => SettingView::ProxyUsername(name@),
            Setting::ProxyPassword(password) => SettingView::ProxyPassword(password@),
            Setting::DnsCacheTimeout(time) => SettingView::DnsCacheTimeout(*time),
            Setting::DnsServers(servers) => SettingView::DnsServers(servers@),
            Setting::SslCipherList(ciphers) => SettingView::SslCipherList(ciphers@),
            Setting::SslCertType(format) => SettingView::SslCertType(format@),
            Setting::SslCert(path) => SettingView::SslCert(path@),
            Setting::SslKeyType(format) => SettingView::SslKeyType(format@),
            Setting::SslKey(path) => SettingView::SslKey(path@),
            Setting::KeyPassword(password) => SettingView::KeyPassword(password@),
            Setting::CaInfo(path) => SettingView::CaInfo(path@),
            Setting::SslNoRevoke(on) => SettingView::SslNoRevoke(*on),
            Setting::SslVerifyPeer(on) => SettingView::SslVerifyPeer(*on),
            Setting::SslVerifyHost(on) => SettingView::SslVerifyHost(*on),
        }
    }
}

/// The texts of a sequence of strings.
pub open spec fn text_views(lines: Seq<String>) -> Seq<Seq<char>> {
    lines.map_values(|line: String| line@)
}

/// The settings of a sequence as mathematical values.
pub open spec fn setting_views(settings: Seq<Setting>) -> Seq<SettingView> {
    settings.map_values(|setting: Setting| setting@)
}

/// Calls `Easy2::verbose`.
#[verifier::external_body]
fn easy_verbose<H>(easy: &mut curl::easy::Easy2<H>, on: bool) -> Result<(), curl::Error> {
    easy.verbose(on)
}

/// Calls `Easy2::signal`.
#[verifier::external_body]
fn easy_signal<H>(easy: &mut curl::easy::Easy2<H>, on: bool) -> Result<(), curl::Error> {
    easy.signal(on)
}

/// Calls `Easy2::timeout`.
#[verifier::external_body]
fn easy_timeout<H>(easy: &mut curl::easy::Easy2<H>, time: Duration) -> Result<(), curl::Error> {
    easy.timeout(time)
}

/// Calls `Easy2::connect_timeout`.
#[verifier::external_body]
fn easy_connect_timeout<H>(easy: &mut curl::easy::Easy2<H>, time: Duration) -> Result<
    (),
    curl::Error,
> {
    easy.connect_timeout(time)
}

/// Calls `Easy2::tcp_keepalive`.
#[verifier::external_body]
fn easy_tcp_keepalive<H>(easy: &mut curl::easy::Easy2<H>, on: bool) -> Result<(), curl::Error> {
    easy.tcp_keepalive(on)
}

/// Calls `Easy2::tcp_keepintvl`.
#[verifier::external_body]
fn easy_tcp_keepintvl<H>(easy: &mut curl::easy::Easy2<H>, time: Duration) -> Result<
    (),
    curl::Error,
> {
    easy.tcp_keepintvl(time)
}

/// Calls `Easy2::tcp_nodelay`.
#[verifier::external_body]
fn easy_tcp_nodelay<H>(easy: &mut curl::easy::Easy2<H>, on: bool) -> Result<(), curl::Error> {
    easy.tcp_nodelay(on)
}

/// Calls `Easy2::follow_location`.
#[verifier::external_body]
fn easy_follow_location<H>(easy: &mut curl::easy::Easy2<H>, on: bool) -> Result<(), curl::Error> {
    easy.follow_location(on)
}

/// Calls `Easy2::max_redirections`.
#[verifier::external_body]
fn easy_max_redirections<H>(easy: &mut curl::easy::Easy2<H>, max: u32) -> Result<
    (),
    curl::Error,
> {
    easy.max_redirections(max)
}

/// Calls `Easy2::autoreferer`.
#[verifier::external_body]
fn easy_autoreferer<H>(easy: &mut curl::easy::Easy2<H>, on: bool) -> Result<(), curl::Error> {
    easy.autoreferer(on)
}

/// Calls `Easy2::max_send_speed`.
#[verifier::external_body]
fn easy_max_send_speed<H>(easy: &mut curl::easy::Easy2<H>, speed: u64) -> Result<
    (),
    curl::Error,
> {
    easy.max_send_speed(speed)
}

/// Calls `Easy2::max_recv_speed`.
#[verifier::external_body]
fn easy_max_recv_speed<H>(easy: &mut curl::easy::Easy2<H>, speed: u64) -> Result<
    (),
    curl::Error,
> {
    easy.max_recv_speed(speed)
}

/// Calls `Easy2::http_version` with the version of the driver that has the same name.
#[verifier::external_body]
fn easy_http_version<H>(easy: &mut curl::easy::Easy2<H>, version: HttpVersion) -> Result<
    (),
    curl::Error,
> {
    easy.http_version(
        match version {
            HttpVersion::V10 => curl::easy::HttpVersion::V10,
            HttpVersion::V11 => curl::easy::HttpVersion::V11,
            HttpVersion::V2 => curl::easy::HttpVersion::V2,
            HttpVersion::V2PriorKnowledge => curl::easy::HttpVersion::V2PriorKnowledge,
            HttpVersion::Any => curl::easy::HttpVersion::Any,
        },
    )
}

/// Calls `Easy2::proxy`.
#[verifier::external_body]
fn easy_proxy<H>(easy: &mut curl::easy::Easy2<H>, url: &str) -> Result<(), curl::Error> {
    easy.proxy(url)
}

/// Calls `Easy2::noproxy`.
#[verifier::external_body]
fn easy_noproxy<H>(easy: &mut curl::easy::Easy2<H>, skip: &str) -> Result<(), curl::Error> {
    easy.noproxy(skip)
}

/// Calls `Easy2::forbid_reuse`.
#[verifier::external_body]
fn easy_forbid_reuse<H>(easy: &mut curl::easy::Easy2<H>, on: bool) -> Result<(), curl::Error> {
    easy.forbid_reuse(on)
}

/// Calls `Easy2::progress`.
#[verifier::external_body]
fn easy_progress<H>(easy: &mut curl::easy::Easy2<H>, on: bool) -> Result<(), curl::Error> {
    easy.progress(on)
}

/// Calls `Easy2::accept_encoding`.
#[verifier::external_body]
fn easy_accept_encoding<H>(easy: &mut curl::easy::Easy2<H>, encoding: &str) -> Result<
    (),
    curl::Error,
> {
    easy.accept_encoding(encoding)
}

/// Calls `Easy2::get`.
#[verifier::external_body]
fn easy_get<H>(easy: &mut curl::easy::Easy2<H>, on: bool) -> Result<(), curl::Error> {
    easy.get(on)
}

/// Calls `Easy2::upload`.
#[verifier::external_body]
fn easy_upload<H>(easy: &mut curl::easy::Easy2<H>, on: bool) -> Result<(), curl::Error> {
    easy.upload(on)
}

/// Calls `Easy2::nobody`.
#[verifier::external_body]
fn easy_nobody<H>(easy: &mut curl::easy::Easy2<H>, on: bool) -> Result<(), curl::Error> {
    easy.nobody(on)
}

/// Calls `Easy2::custom_request`.
#[verifier::external_body]
fn easy_custom_request<H>(easy: &mut curl::easy::Easy2<H>, method: &str) -> Result<
    (),
    curl::Error,
> {
    easy.custom_request(method)
}

/// Calls `Easy2::post`.
#[verifier::external_body]
fn easy_post<H>(easy: &mut curl::easy::Easy2<H>, on: bool) -> Result<(), curl::Error> {
    easy.post(on)
}

/// Calls `Easy2::url`.
#[verifier::external_body]
fn easy_url<H>(easy: &mut curl::easy::Easy2<H>, url: &str) -> Result<(), curl::Error> {
    easy.url(url)
}

/// Calls `Easy2::post_field_size`.
#[verifier::external_body]
fn easy_post_field_size<H>(easy: &mut curl::easy::Easy2<H>, size: u64) -> Result<
    (),
    curl::Error,
> {
    easy.post_field_size(size)
}

/// Calls `Easy2::in_filesize`.
#[verifier::external_body]
fn easy_in_filesize<H>(easy: &mut curl::easy::Easy2<H>, size: u64) -> Result<(), curl::Error> {
    easy.in_filesize(size)
}

/// Calls `Easy2::http_headers`.
#[verifier::external_body]
fn easy_http_headers<H>(easy: &mut curl::easy::Easy2<H>, list: curl::easy::List) -> Result<
    (),
    curl::Error,
> {
    easy.http_headers(list)
}

/// Calls `Easy2::http_auth` with a set of ways that holds `basic` and `digest` as given and
/// no other way.
#[verifier::external_body]
fn easy_http_auth<H>(easy: &mut curl::easy::Easy2<H>, basic: bool, digest: bool) -> Result<(), curl::Error> {
    let mut auth = curl::easy::Auth::new();
    auth.basic(basic).digest(digest);
    easy.http_auth(&auth)
}

/// Calls `Easy2::username`.
#[verifier::external_body]
fn easy_username<H>(easy: &mut curl::easy::Easy2<H>, name: &str) -> Result<(), curl::Error> {
    easy.username(name)
}

/// Calls `Easy2::password`.
#[verifier::external_body]
fn easy_password<H>(easy: &mut curl::easy::Easy2<H>, password: &str) -> Result<(), curl::Error> {
    easy.password(password)
}

/// Calls `Easy2::proxy_auth` with a set of ways that holds `basic` and `digest` as given and
/// no other way.
#[verifier::external_body]
fn easy_proxy_auth<H>(easy: &mut curl::easy::Easy2<H>, basic: bool, digest: bool) -> Result<(), curl::Error> {
    let mut auth = curl::easy::Auth::new();
    auth.basic(basic).digest(digest);
    easy.proxy_auth(&auth)
}

/// Calls `Easy2::proxy_username`.
#[verifier::external_body]
fn easy_proxy_username<H>(easy: &mut curl::easy::Easy2<H>, name: &str) -> Result<(), curl::Error> {
    easy.proxy_username(name)
}

/// Calls `Easy2::proxy_password`.
#[verifier::external_body]
fn easy_proxy_password<H>(easy: &mut curl::easy::Easy2<H>, password: &str) -> Result<(), curl::Error> {
    easy.proxy_password(password)
}

/// Calls `Easy2::dns_cache_timeout`.
#[verifier::external_body]
fn easy_dns_cache_timeout<H>(easy: &mut curl::easy::Easy2<H>, time: Duration) -> Result<(), curl::Error> {
    easy.dns_cache_timeout(time)
}

/// Calls `Easy2::dns_servers`.
#[verifier::external_body]
fn easy_dns_servers<H>(easy: &mut curl::easy::Easy2<H>, servers: &str) -> Result<(), curl::Error> {
    easy.dns_servers(servers)
}

/// Calls `Easy2::ssl_cipher_list`.
#[verifier::external_body]
fn easy_ssl_cipher_list<H>(easy: &mut curl::easy::Easy2<H>, ciphers: &str) -> Result<(), curl::Error> {
    easy.ssl_cipher_list(ciphers)
}

/// Calls `Easy2::ssl_cert_type`.
#[verifier::external_body]
fn easy_ssl_cert_type<H>(easy: &mut curl::easy::Easy2<H>, format: &str) -> Result<(), curl::Error> {
    easy.ssl_cert_type(format)
}

/// Calls `Easy2::ssl_cert`.
#[verifier::external_body]
fn easy_ssl_cert<H>(easy: &mut curl::easy::Easy2<H>, path: &str) -> Result<(), curl::Error> {
    easy.ssl_cert(path)
}

/// Calls `Easy2::ssl_key_type`.
#[verifier::external_body]
fn easy_ssl_key_type<H>(easy: &mut curl::easy::Easy2<H>, format: &str) -> Result<(), curl::Error> {
    easy.ssl_key_type(format)
}

/// Calls `Easy2::ssl_key`.
#[verifier::external_body]
fn easy_ssl_key<H>(easy: &mut curl::easy::Easy2<H>, path: &str) -> Result<(), curl::Error> {
    easy.ssl_key(path)
}

/// Calls `Easy2::key_password`.
#[verifier::external_body]
fn easy_key_password<H>(easy: &mut curl::easy::Easy2<H>, password: &str) -> Result<(), curl::Error> {
    easy.key_password(password)
}

/// Calls `Easy2::cainfo`.
#[verifier::external_body]
fn easy_cainfo<H>(easy: &mut curl::easy::Easy2<H>, path: &str) -> Result<(), curl::Error> {
    easy.cainfo(path)
}

/// Calls `Easy2::ssl_options` with a set of options that holds `no_revoke` as given and no
/// other option.
#[verifier::external_body]
fn easy_ssl_no_revoke<H>(easy: &mut curl::easy::Easy2<H>, on: bool) -> Result<(), curl::Error> {
    let mut options = curl::easy::SslOpt::new();
    options.no_revoke(on);
    easy.ssl_options(&options)
}

/// Calls `Easy2::ssl_verify_peer`.
#[verifier::external_body]
fn easy_ssl_verify_peer<H>(easy: &mut curl::easy::Easy2<H>, on: bool) -> Result<(), curl::Error> {
    easy.ssl_verify_peer(on)
}

/// Calls `Easy2::ssl_verify_host`.
#[verifier::external_body]
fn easy_ssl_verify_host<H>(easy: &mut curl::easy::Easy2<H>, on: bool) -> Result<(), curl::Error> {
    easy.ssl_verify_host(on)
}

/// The lines that a list of the `curl` crate holds, first to last.
pub uninterp spec fn list_lines(list: curl::easy::List) -> Seq<Seq<char>>;

/// Whether the text holds the character NUL. The driver reads a text up to the first NUL,
/// so a text that holds one cannot be handed to it.
pub open spec fn has_nul(text: Seq<char>) -> bool {
    text.contains('\0')
}

impl Setting {
    /// What is returned for a setting after the driver has answered: a refusal fails the
    /// setting, unless the setting is an HTTP version that is not strict.
    pub open spec fn outcome(self, answer: Result<(), curl::Error>) -> Result<(), curl::Error> {
        match self {
            Setting::HttpVersion { version, strict } => if strict {
                answer
            } else {
                Ok(())
            },
            _ => answer,
        }
    }

    /// Says what is returned for this setting after the driver has answered.
    pub fn conclude(&self, answer: Result<(), curl::Error>) -> (result: Result<(), curl::Error>)
        ensures
            result == self.outcome(answer),
    {
        match self {
            Setting::HttpVersion { version, strict } => {
                if *strict {
                    answer
                } else {
                    Ok(())
                }
            },
            _ => answer,
        }
    }

    /// Builds the list of header lines and hands it to the handle.
    ///
    /// A line that holds the character NUL is refused: the first such line ends the work with
    /// its error, and nothing is handed to the handle. Where no line is refused, the list of
    /// all the lines, in their order, is handed over, and what the driver answers is returned.
    fn apply_headers<H>(easy: &mut curl::easy::Easy2<H>, lines: &Vec<String>) -> (result: Result<
        (),
        curl::Error,
    >)
        ensures
            (exists|i: int| 0 <= i < lines@.len() && has_nul(#[trigger] lines@[i]@))
                ==> result is Err,
    {
        let mut list = list_new();
        let mut i: usize = 0;
        assert(list_lines(list) =~= text_views(lines@).take(0));
        while i < lines.len()
            invariant
                i <= lines.len(),
                list_lines(list) == text_views(lines@).take(i as int),
                forall|j: int| 0 <= j < i ==> !has_nul(#[trigger] lines@[j]@),
            decreases lines.len() - i,
        {
            match list_append(&mut list, lines[i].as_str()) {
                Ok(()) => {},
                Err(e) => {
                    return Err(e);
                },
            }
            proof {
                let texts = text_views(lines@);
                assert(texts.take(i + 1) =~= texts.take(i as int).push(lines@[i as int]@));
            }
            i = i + 1;
        }
        assert(list_lines(list) =~= text_views(lines@));
        easy_http_headers(easy, list)
    }

    /// Makes this setting on a transfer handle.
    ///
    /// The driver is asked once, and what it answers is returned by way of
    /// [`Setting::conclude`]. Nothing is known here of the handle afterwards.
    pub fn apply<H>(&self, easy: &mut curl::easy::Easy2<H>) -> (result: Result<(), curl::Error>)
        ensures
            exists|answer: Result<(), curl::Error>| result == self.outcome(answer),
    {
        let answer = match self {
            Setting::Verbose(on) => easy_verbose(easy, *on),
            Setting::Signal(on) => easy_signal(easy, *on),
            Setting::Timeout(time) => easy_timeout(easy, *time),
            Setting::ConnectTimeout(time) => easy_connect_timeout(easy, *time),
            Setting::TcpKeepAlive(on) => easy_tcp_keepalive(easy, *on),
            Setting::TcpKeepIntvl(time) => easy_tcp_keepintvl(easy, *time),
            Setting::TcpNoDelay(on) => easy_tcp_nodelay(easy, *on),
            Setting::FollowLocation(on) => easy_follow_location(easy, *on),
            Setting::MaxRedirections(max) => easy_max_redirections(easy, *max),
            Setting::AutoReferer(on) => easy_autoreferer(easy, *on),
            Setting::MaxSendSpeed(speed) => easy_max_send_speed(easy, *speed),
            Setting::MaxRecvSpeed(speed) => easy_max_recv_speed(easy, *speed),
            Setting::HttpVersion { version, strict } => easy_http_version(easy, *version),
            Setting::Proxy(url) => easy_proxy(easy, url.as_str()),
            Setting::NoProxy(hosts) => easy_noproxy(easy, hosts.as_str()),
            Setting::ForbidReuse(on) => easy_forbid_reuse(easy, *on),
            Setting::Progress(on) => easy_progress(easy, *on),
            Setting::AcceptEncoding(encodings) => easy_accept_encoding(easy, encodings.as_str()),
            Setting::Get(on) => easy_get(easy, *on),
            Setting::Upload(on) => easy_upload(easy, *on),
            Setting::NoBody(on) => easy_nobody(easy, *on),
            Setting::CustomRequest(method) => easy_custom_request(easy, method.as_str()),
            Setting::Post(on) => easy_post(easy, *on),
            Setting::Url(url) => easy_url(easy, url.as_str()),
            Setting::PostFieldSize(size) => easy_post_field_size(easy, *size),
            Setting::InFileSize(size) => easy_in_filesize(easy, *size),
            Setting::HttpHeaders(lines) => Setting::apply_headers(easy, lines),
            Setting::HttpAuth { basic, digest } => easy_http_auth(easy, *basic, *digest),
            Setting::Username(name) => easy_username(easy, name.as_str()),
            Setting::Password(password) => easy_password(easy, password.as_str()),
            Setting::ProxyAuth { basic, digest } => easy_proxy_auth(easy, *basic, *digest),
            Setting::ProxyUsername(name) => easy_proxy_username(easy, name.as_str()),
            Setting::ProxyPassword(password) => easy_proxy_password(easy, password.as_str()),
            Setting::DnsCacheTimeout(time) => easy_dns_cache_timeout(easy, *time),
            Setting::DnsServers(servers) => easy_dns_servers(easy, servers.as_str()),
            Setting::SslCipherList(ciphers) => easy_ssl_cipher_list(easy, ciphers.as_str()),
            Setting::SslCertType(format) => easy_ssl_cert_type(easy, format.as_str()),
            Setting::SslCert(path) => easy_ssl_cert(easy, path.as_str()),
            Setting::SslKeyType(format) => easy_ssl_key_type(easy, format.as_str()),
            Setting::SslKey(path) => easy_ssl_key(easy, path.as_str()),
            Setting::KeyPassword(password) => easy_key_password(easy, password.as_str()),
            Setting::CaInfo(path) => easy_cainfo(easy, path.as_str()),
            Setting::SslNoRevoke(on) => easy_ssl_no_revoke(easy, *on),
            Setting::SslVerifyPeer(on) => easy_ssl_verify_peer(easy, *on),
            Setting::SslVerifyHost(on) => easy_ssl_verify_host(easy, *on),
        };
        let result = self.conclude(answer);
        assert(result == self.outcome(answer));
        result
    }
}

/// Calls `List::new`, which returns a list without lines.
#[verifier::external_body]
fn list_new() -> (list: curl::easy::List)
    ensures
        list_lines(list).len() == 0,
{
    curl::easy::List::new()
}

/// Calls `List::append`, which turns the line into a text of the driver and puts it behind
/// the lines of the list. A line that holds the character NUL cannot be turned into such a
/// text: it is refused, and the list stays as it is. No other line is refused.
#[verifier::external_body]
fn list_append(list: &mut curl::easy::List, line: &str) -> (result: Result<(), curl::Error>)
    ensures
        result is Err <==> has_nul(line@),
        result is Ok ==> list_lines(*final(list)) == list_lines(*old(list)).push(line@),
        result is Err ==> list_lines(*final(list)) == list_lines(*old(list)),
{
    list.append(line)
}

/// What is returned for a list of settings after the driver has answered each of them: the
/// error of the first setting that fails, and no error where none fails.
pub open spec fn settings_outcome(
    settings: Seq<Setting>,
    answers: Seq<Result<(), curl::Error>>,
) -> Result<(), curl::Error>
    decreases settings.len(),
{
    if settings.len() == 0 || answers.len() != settings.len() {
        Ok(())
    } else {
        match settings_outcome(settings.drop_last(), answers.drop_last()) {
            Err(e) => Err(e),
            Ok(()) => settings.last().outcome(answers.last()),
        }
    }
}

/// A setting that fails decides what is returned for the list, whatever stands behind it.
pub proof fn lemma_first_failure_counts(
    settings: Seq<Setting>,
    answers: Seq<Result<(), curl::Error>>,
    k: int,
)
    requires
        0 <= k <= settings.len(),
        answers.len() == settings.len(),
        settings_outcome(settings.take(k), answers.take(k)) is Err,
    ensures
        settings_outcome(settings, answers) == settings_outcome(settings.take(k), answers.take(k)),
    decreases settings.len() - k,
{
    if k < settings.len() {
        assert(settings.take(k + 1).drop_last() =~= settings.take(k));
        assert(answers.take(k + 1).drop_last() =~= answers.take(k));
        lemma_first_failure_counts(settings, answers, k + 1);
    } else {
        assert(settings.take(k) =~= settings);
        assert(answers.take(k) =~= answers);
    }
}

/// Makes the settings on a transfer handle, one after the other, up to the first that
/// fails: its error is returned, and the settings behind it are not made.
pub fn apply_settings<H>(easy: &mut curl::easy::Easy2<H>, settings: &Vec<Setting>) -> (result: Result<(), curl::Error>)
    ensures
        exists|answers: Seq<Result<(), curl::Error>>|
            answers.len() == settings@.len() && result == #[trigger] settings_outcome(
                settings@,
                answers,
            ),
{
    let mut i: usize = 0;
    let ghost mut answers: Seq<Result<(), curl::Error>> = Seq::empty();
    proof {
        assert(settings@.take(0) =~= Seq::<Setting>::empty());
    }
    while i < settings.len()
        invariant
            i <= settings.len(),
            answers.len() == i,
            settings_outcome(settings@.take(i as int), answers) == Ok::<(), curl::Error>(()),
        decreases settings.len() - i,
    {
        let made = settings[i].apply(easy);
        proof {
            let answer = choose|answer: Result<(), curl::Error>|
                made == settings@[i as int].outcome(answer);
            let before = answers;
            answers = answers.push(answer);
            assert(settings@.take(i + 1).drop_last() =~= settings@.take(i as int));
            assert(answers.drop_last() =~= before);
            assert(settings_outcome(settings@.take(i + 1), answers) == made);
        }
        let ghost outcome = made;
        match made {
            Ok(()) => {
                assert(outcome->Ok_0 == ());
                assert(outcome == Ok::<(), curl::Error>(()));
            },
            Err(e) => {
                proof {
                    let all = answers + Seq::new(
                        (settings@.len() - i - 1) as nat,
                        |j: int| Ok::<(), curl::Error>(()),
                    );
                    assert(all.take(i + 1) =~= answers);
                    lemma_first_failure_counts(settings@, all, i + 1);
                    assert(settings_outcome(settings@, all) == outcome);
                }
                return Err(e);
            },
        }
        i = i + 1;
    }
    proof {
        assert(settings@.take(settings@.len() as int) =~= settings@);
    }
    Ok(())
}

/// A configuration value that can be applied to a transfer handle.
pub trait SetOpt {
    /// The settings that this option makes on a transfer, in the order in which they are
    /// made.
    spec fn settings(&self) -> Seq<SettingView>;

    /// Returns the settings that this option makes on a transfer.
    fn to_settings(&self) -> (list: Vec<Setting>)
        ensures
            setting_views(list@) == self.settings(),
    ;

    /// Apply this configuration option to the given transfer handle: the settings of the
    /// option are made one after the other, up to the first that fails.
    fn set_opt<H>(&self, easy: &mut curl::easy::Easy2<H>) -> (result: Result<(), curl::Error>)
        ensures
            exists|list: Seq<Setting>, answers: Seq<Result<(), curl::Error>>|
                setting_views(list) == self.settings() && answers.len() == list.len() && result
                    == #[trigger] settings_outcome(list, answers),
    ;
}

/// A strategy for selecting what HTTP versions should be used when communicating with a
/// server.
#[derive(Clone, Copy, Debug, PartialEq, Eq, Structural)]
pub struct VersionNegotiation {
    flag: HttpVersion,
    strict: bool,
}

impl Default for VersionNegotiation {
    fn default() -> (negotiation: Self)
        ensures
            negotiation@ == (HttpVersion::V2, false),
    {
        Self::latest_compatible()
    }
}

impl View for VersionNegotiation {
    /// The version that is asked for, and whether a transfer fails where the driver
    /// refuses to ask for it.
    type V = (HttpVersion, bool);

    closed spec fn view(&self) -> (HttpVersion, bool) {
        (self.flag, self.strict)
    }
}

impl VersionNegotiation {
    /// Returns the version that is asked for.
    pub fn version(&self) -> (version: HttpVersion)
        ensures
            version == self@.0,
    {
        self.flag
    }

    /// Returns whether a transfer fails where the driver refuses to ask for the version.
    pub fn is_strict(&self) -> (strict: bool)
        ensures
            strict == self@.1,
    {
        self.strict
    }

    /// Always prefer the latest supported version with a preference for old versions if
    /// necessary in order to connect. This is the default.
    ///
    /// Typically negotiation will begin with an HTTP/1.1 request, upgrading to HTTP/2 if
    /// possible.
    pub fn latest_compatible() -> (negotiation: Self)
        ensures
            negotiation@ == (HttpVersion::V2, false),
    {
        Self { flag: HttpVersion::V2, strict: false }
    }

    /// Prefer the given version, and use another where the driver or the server does not
    /// support it: a driver that refuses to ask for the version does not fail the transfer.
    pub fn preferred(version: HttpVersion) -> (negotiation: Self)
        ensures
            negotiation@ == (version, false),
    {
        Self { flag: version, strict: false }
    }

    /// Connect via HTTP/1.0 and do not attempt to use a higher version.
    pub fn http10() -> (negotiation: Self)
        ensures
            negotiation@ == (HttpVersion::V10, true),
    {
        Self { flag: HttpVersion::V10, strict: true }
    }

    /// Connect via HTTP/1.1 and do not attempt to use a higher version.
    pub fn http11() -> (negotiation: Self)
        ensures
            negotiation@ == (HttpVersion::V11, true),
    {
        Self { flag: HttpVersion::V11, strict: true }
    }

    /// Connect via HTTP/2. Failure to connect will not fall back to old versions, unless
    /// HTTP/1.1 is negotiated via TLS ALPN before the session begins.
    ///
    /// If the driver has no HTTP/2 support, then using this strategy will always result in
    /// an error.
    pub fn http2() -> (negotiation: Self)
        ensures
            negotiation@ == (HttpVersion::V2PriorKnowledge, true),
    {
        Self { flag: HttpVersion::V2PriorKnowledge, strict: true }
    }
}

impl SetOpt for VersionNegotiation {
    open spec fn settings(&self) -> Seq<SettingView> {
        seq![SettingView::HttpVersion { version: self@.0, strict: self@.1 }]
    }

    fn to_settings(&self) -> (list: Vec<Setting>) {
        let mut list = Vec::new();
        list.push(Setting::HttpVersion { version: self.flag, strict: self.strict });
        assert(setting_views(list@) =~= self.settings());
        list
    }

    fn set_opt<H>(&self, easy: &mut curl::easy::Easy2<H>) -> (result: Result<(), curl::Error>) {
        let list = self.to_settings();
        apply_settings(easy, &list)
    }
}

/// Describes a policy for handling server redirects.
///
/// The default is to not follow redirects.
#[derive(Clone, Copy, Debug, PartialEq, Eq, Structural)]
pub enum RedirectPolicy {
    /// Do not apply any special treatment to redirect responses. The response will be
    /// returned as-is and redirects will not be followed.
    ///
    /// This is the default policy.
    NoFollow,
    /// Follow all redirects automatically.
    Follow,
    /// Follow redirects automatically up to a maximum number of redirects.
    Limit(u32),
}

impl Default for RedirectPolicy {
    fn default() -> (policy: Self)
        ensures
            policy == RedirectPolicy::NoFollow,
    {
        RedirectPolicy::NoFollow
    }
}

impl SetOpt for RedirectPolicy {
    open spec fn settings(&self) -> Seq<SettingView> {
        match self {
            RedirectPolicy::Follow => seq![SettingView::FollowLocation(true)],
            RedirectPolicy::Limit(max) => seq![
                SettingView::FollowLocation(true),
                SettingView::MaxRedirections(*max),
            ],
            RedirectPolicy::NoFollow => seq![SettingView::FollowLocation(false)],
        }
    }

    fn to_settings(&self) -> (list: Vec<Setting>) {
        let mut list = Vec::new();
        match self {
            RedirectPolicy::Follow => {
                list.push(Setting::FollowLocation(true));
            },
            RedirectPolicy::Limit(max) => {
                list.push(Setting::FollowLocation(true));
                list.push(Setting::MaxRedirections(*max));
            },
            RedirectPolicy::NoFollow => {
                list.push(Setting::FollowLocation(false));
            },
        }
        assert(setting_views(list@) =~= self.settings());
        list
    }

    fn set_opt<H>(&self, easy: &mut curl::easy::Easy2<H>) -> (result: Result<(), curl::Error>) {
        let list = self.to_settings();
        apply_settings(easy, &list)
    }
}

/// The texts of `parts`, one after the other, with `separator` between each two.
pub open spec fn joined_with(parts: Seq<Seq<char>>, separator: Seq<char>) -> Seq<char>
    decreases parts.len(),
{
    if parts.len() == 0 {
        Seq::empty()
    } else if parts.len() == 1 {
        parts[0]
    } else {
        joined_with(parts.drop_last(), separator) + separator + parts.last()
    }
}

/// The texts of `parts`, one after the other, with a comma between each two.
pub open spec fn joined(parts: Seq<Seq<char>>) -> Seq<char> {
    joined_with(parts, seq![','])
}

/// Returns the texts of `parts`, one after the other, with `separator` between each two.
pub fn join(parts: &Vec<String>, separator: &str) -> (text: String)
    ensures
        text@ == joined_with(text_views(parts@), separator@),
{
    let mut text = String::new();
    let mut i: usize = 0;
    while i < parts.len()
        invariant
            i <= parts.len(),
            text@ == joined_with(text_views(parts@).take(i as int), separator@),
        decreases parts.len() - i,
    {
        proof {
            let texts = text_views(parts@);
            assert(texts.take(i + 1).drop_last() =~= texts.take(i as int));
            assert(texts.take(i + 1).last() == parts@[i as int]@);
        }
        if i > 0 {
            text.append(separator);
        }
        text.append(parts[i].as_str());
        proof {
            if i == 0 {
                assert(text@ =~= parts@[0]@);
            }
        }
        i = i + 1;
    }
    proof {
        assert(text_views(parts@).take(parts.len() as int) =~= text_views(parts@));
    }
    text
}

/// A list of host names that do not require a proxy to get reached, even if one is
/// specified.
#[derive(Clone, Debug, PartialEq)]
pub struct ProxyBlacklist {
    skip: String,
}

impl ProxyBlacklist {
    /// The host names, separated by commas.
    pub closed spec fn spec_skip(&self) -> Seq<char> {
        self.skip@
    }

    /// Makes the list of the given host names, which are kept in their order.
    pub fn from_iter(hosts: Vec<String>) -> (list: Self)
        ensures
            list.spec_skip() == joined(text_views(hosts@)),
    {
        proof {
            reveal_strlit(",");
            assert(","@ =~= seq![',']);
        }
        Self { skip: join(&hosts, ",") }
    }

    /// Returns the host names, separated by commas.
    pub fn skip(&self) -> (skip: &str)
        ensures
            skip@ == self.spec_skip(),
    {
        self.skip.as_str()
    }
}


/// One configuration option of a request or of a client.
#[derive(Debug, PartialEq)]
pub enum ConfigOption {
    /// The maximum time that a request is allowed to take before being aborted.
    Timeout(Duration),
    /// The maximum time that the initial connection phase is allowed to take.
    ConnectTimeout(Duration),
    /// Enable TCP keepalive with the given probe interval.
    TcpKeepAlive(Duration),
    /// Enable the `TCP_NODELAY` option on connect.
    TcpNoDelay,
    /// The policy for following server redirects.
    RedirectPolicy(RedirectPolicy),
    /// Update the `Referer` header automatically when following redirects.
    AutoReferer,
    /// The maximum upload speed for the request body, in bytes per second.
    MaxUploadSpeed(u64),
    /// The maximum download speed for the response body, in bytes per second.
    MaxDownloadSpeed(u64),
    /// How the HTTP version is negotiated with the server.
    VersionNegotiation(VersionNegotiation),
    /// The proxy to use, or explicitly none.
    Proxy(Option<String>),
    /// The hosts that are reached without the proxy.
    ProxyBlacklist(ProxyBlacklist),
    /// Close the connection when the request completes instead of returning it to the
    /// connection cache.
    CloseConnection(bool),
    /// Enable or disable the collection of metrics.
    EnableMetrics(bool),
    /// The authentication schemes to attempt with the server.
    Authentication(Authentication),
    /// The credentials to give to the server.
    Credentials(Credentials),
    /// The authentication schemes to attempt with a proxy.
    ProxyAuthentication(Authentication),
    /// The credentials to give to a proxy.
    ProxyCredentials(Credentials),
    /// How long resolved names are remembered.
    DnsCache(DnsCache),
    /// The name servers to ask in place of those of the system.
    DnsServers(Servers),
    /// The ciphers to offer for SSL/TLS connections.
    SslCiphers(Ciphers),
    /// The client certificate to show to the server.
    SslClientCertificate(ClientCertificate),
    /// The bundle of the certificates of the authorities that are trusted.
    SslCaCertificate(CaCertificate),
    /// The checks on an SSL/TLS connection that are loosened.
    SslOptions(SslOption),
}

impl SetOpt for ConfigOption {
    open spec fn settings(&self) -> Seq<SettingView> {
        match self {
            ConfigOption::Timeout(time) => seq![SettingView::Timeout(*time)],
            ConfigOption::ConnectTimeout(time) => seq![SettingView::ConnectTimeout(*time)],
            ConfigOption::TcpKeepAlive(interval) => seq![
                SettingView::TcpKeepAlive(true),
                SettingView::TcpKeepIntvl(*interval),
            ],
            ConfigOption::TcpNoDelay => seq![SettingView::TcpNoDelay(true)],
            ConfigOption::RedirectPolicy(policy) => policy.settings(),
            ConfigOption::AutoReferer => seq![SettingView::AutoReferer(true)],
            ConfigOption::MaxUploadSpeed(max) => seq![SettingView::MaxSendSpeed(*max)],
            ConfigOption::MaxDownloadSpeed(max) => seq![SettingView::MaxRecvSpeed(*max)],
            ConfigOption::VersionNegotiation(negotiation) => negotiation.settings(),
            ConfigOption::Proxy(Some(uri)) => seq![SettingView::Proxy(uri@)],
            ConfigOption::Proxy(None) => seq![SettingView::Proxy(Seq::empty())],
            ConfigOption::ProxyBlacklist(hosts) => seq![SettingView::NoProxy(hosts.spec_skip())],
            ConfigOption::CloseConnection(close) => seq![SettingView::ForbidReuse(*close)],
            ConfigOption::EnableMetrics(enable) => seq![SettingView::Progress(*enable)],
            ConfigOption::Authentication(schemes) => schemes.settings(),
            ConfigOption::Credentials(credentials) => credentials.settings(),
            ConfigOption::ProxyAuthentication(schemes) => schemes.proxy_settings(),
            ConfigOption::ProxyCredentials(credentials) => credentials.proxy_settings(),
            ConfigOption::DnsCache(cache) => cache.settings(),
            ConfigOption::DnsServers(servers) => servers.settings(),
            ConfigOption::SslCiphers(ciphers) => ciphers.settings(),
            ConfigOption::SslClientCertificate(certificate) => certificate.settings(),
            ConfigOption::SslCaCertificate(certificate) => certificate.settings(),
            ConfigOption::SslOptions(options) => options.settings(),
        }
    }

    fn to_settings(&self) -> (list: Vec<Setting>) {
        let mut list = Vec::new();
        match self {
            ConfigOption::Timeout(time) => {
                list.push(Setting::Timeout(*time));
            },
            ConfigOption::ConnectTimeout(time) => {
                list.push(Setting::ConnectTimeout(*time));
            },
            ConfigOption::TcpKeepAlive(interval) => {
                list.push(Setting::TcpKeepAlive(true));
                list.push(Setting::TcpKeepIntvl(*interval));
            },
            ConfigOption::TcpNoDelay => {
                list.push(Setting::TcpNoDelay(true));
            },
            ConfigOption::RedirectPolicy(policy) => {
                list = policy.to_settings();
            },
            ConfigOption::AutoReferer => {
                list.push(Setting::AutoReferer(true));
            },
            ConfigOption::MaxUploadSpeed(max) => {
                list.push(Setting::MaxSendSpeed(*max));
            },
            ConfigOption::MaxDownloadSpeed(max) => {
                list.push(Setting::MaxRecvSpeed(*max));
            },
            ConfigOption::VersionNegotiation(negotiation) => {
                list = negotiation.to_settings();
            },
            ConfigOption::Proxy(Some(uri)) => {
                list.push(Setting::Proxy(uri.clone()));
            },
            ConfigOption::Proxy(None) => {
                list.push(Setting::Proxy(String::new()));
            },
            ConfigOption::ProxyBlacklist(hosts) => {
                list.push(Setting::NoProxy(hosts.skip.clone()));
            },
            ConfigOption::CloseConnection(close) => {
                list.push(Setting::ForbidReuse(*close));
            },
            ConfigOption::EnableMetrics(enable) => {
                list.push(Setting::Progress(*enable));
            },
            ConfigOption::Authentication(schemes) => {
                list = schemes.to_settings();
            },
            ConfigOption::Credentials(credentials) => {
                list = credentials.to_settings();
            },
            ConfigOption::ProxyAuthentication(schemes) => {
                list = schemes.to_proxy_settings();
            },
            ConfigOption::ProxyCredentials(credentials) => {
                list = credentials.to_proxy_settings();
            },
            ConfigOption::DnsCache(cache) => {
                list = cache.to_settings();
            },
            ConfigOption::DnsServers(servers) => {
                list = servers.to_settings();
            },
            ConfigOption::SslCiphers(ciphers) => {
                list = ciphers.to_settings();
            },
            ConfigOption::SslClientCertificate(certificate) => {
                list = certificate.to_settings();
            },
            ConfigOption::SslCaCertificate(certificate) => {
                list = certificate.to_settings();
            },
            ConfigOption::SslOptions(options) => {
                list = options.to_settings();
            },
        }
        assert(setting_views(list@) =~= self.settings());
        list
    }

    fn set_opt<H>(&self, easy: &mut curl::easy::Easy2<H>) -> (result: Result<(), curl::Error>) {
        let list = self.to_settings();
        apply_settings(easy, &list)
    }
}

/// The settings that the options make, one option after the other.
pub open spec fn settings_of(options: Seq<ConfigOption>) -> Seq<SettingView>
    decreases options.len(),
{
    if options.len() == 0 {
        Seq::empty()
    } else {
        settings_of(options.drop_last()) + options.last().settings()
    }
}

/// The first of two values that is there.
pub open spec fn either<T>(first: Option<T>, second: Option<T>) -> Option<T> {
    match first {
        Some(_) => first,
        None => second,
    }
}

/// The sequence with the value as its one item, or the empty sequence where there is none.
pub open spec fn item<T>(value: Option<T>) -> Seq<T> {
    match value {
        Some(value) => seq![value],
        None => Seq::empty(),
    }
}

/// A bag of configuration options with one place for each kind of option.
///
/// A place that is empty says nothing: where the option is looked up for a request, an
/// empty place of the request gives way to the client's default.
#[derive(Debug, PartialEq)]
pub struct Options {
    pub timeout: Option<Duration>,
    pub connect_timeout: Option<Duration>,
    pub tcp_keepalive: Option<Duration>,
    pub tcp_nodelay: bool,
    pub redirect_policy: Option<RedirectPolicy>,
    pub auto_referer: bool,
    pub max_upload_speed: Option<u64>,
    pub max_download_speed: Option<u64>,
    pub version_negotiation: Option<VersionNegotiation>,
    pub proxy: Option<Option<String>>,
    pub proxy_blacklist: Option<ProxyBlacklist>,
    pub close_connection: Option<bool>,
    pub metrics: Option<bool>,
    pub authentication: Option<Authentication>,
    pub credentials: Option<Credentials>,
    pub proxy_authentication: Option<Authentication>,
    pub proxy_credentials: Option<Credentials>,
    pub dns_cache: Option<DnsCache>,
    pub dns_servers: Option<Servers>,
    pub ssl_ciphers: Option<Ciphers>,
    pub ssl_client_certificate: Option<ClientCertificate>,
    pub ssl_ca_certificate: Option<CaCertificate>,
    pub ssl_options: Option<SslOption>,
}

impl Options {
    /// The bag with every place empty.
    pub open spec fn empty() -> Options {
        Options {
            timeout: None,
            connect_timeout: None,
            tcp_keepalive: None,
            tcp_nodelay: false,
            redirect_policy: None,
            auto_referer: false,
            max_upload_speed: None,
            max_download_speed: None,
            version_negotiation: None,
            proxy: None,
            proxy_blacklist: None,
            close_connection: None,
            metrics: None,
            authentication: None,
            credentials: None,
            proxy_authentication: None,
            proxy_credentials: None,
            dns_cache: None,
            dns_servers: None,
            ssl_ciphers: None,
            ssl_client_certificate: None,
            ssl_ca_certificate: None,
            ssl_options: None,
        }
    }

    /// Creates a bag with every place empty.
    pub fn new() -> (options: Options)
        ensures
            options == Options::empty(),
    {
        Options {
            timeout: None,
            connect_timeout: None,
            tcp_keepalive: None,
            tcp_nodelay: false,
            redirect_policy: None,
            auto_referer: false,
            max_upload_speed: None,
            max_download_speed: None,
            version_negotiation: None,
            proxy: None,
            proxy_blacklist: None,
            close_connection: None,
            metrics: None,
            authentication: None,
            credentials: None,
            proxy_authentication: None,
            proxy_credentials: None,
            dns_cache: None,
            dns_servers: None,
            ssl_ciphers: None,
            ssl_client_certificate: None,
            ssl_ca_certificate: None,
            ssl_options: None,
        }
    }

    /// The bag with `option` put in its place, and every other place as it is.
    pub open spec fn with(self, option: ConfigOption) -> Options {
        match option {
            ConfigOption::Timeout(time) => Options { timeout: Some(time), ..self },
            ConfigOption::ConnectTimeout(time) => Options { connect_timeout: Some(time), ..self },
            ConfigOption::TcpKeepAlive(interval) => Options {
                tcp_keepalive: Some(interval),
                ..self
            },
            ConfigOption::TcpNoDelay => Options { tcp_nodelay: true, ..self },
            ConfigOption::RedirectPolicy(policy) => Options {
                redirect_policy: Some(policy),
                ..self
            },
            ConfigOption::AutoReferer => Options { auto_referer: true, ..self },
            ConfigOption::MaxUploadSpeed(max) => Options { max_upload_speed: Some(max), ..self },
            ConfigOption::MaxDownloadSpeed(max) => Options {
                max_download_speed: Some(max),
                ..self
            },
            ConfigOption::VersionNegotiation(negotiation) => Options {
                version_negotiation: Some(negotiation),
                ..self
            },
            ConfigOption::Proxy(proxy) => Options { proxy: Some(proxy), ..self },
            ConfigOption::ProxyBlacklist(hosts) => Options { proxy_blacklist: Some(hosts), ..self },
            ConfigOption::CloseConnection(close) => Options {
                close_connection: Some(close),
                ..self
            },
            ConfigOption::EnableMetrics(enable) => Options { metrics: Some(enable), ..self },
            ConfigOption::Authentication(value) => Options { authentication: Some(value), ..self },
            ConfigOption::Credentials(value) => Options { credentials: Some(value), ..self },
            ConfigOption::ProxyAuthentication(value) => Options { proxy_authentication: Some(value), ..self },
            ConfigOption::ProxyCredentials(value) => Options { proxy_credentials: Some(value), ..self },
            ConfigOption::DnsCache(value) => Options { dns_cache: Some(value), ..self },
            ConfigOption::DnsServers(value) => Options { dns_servers: Some(value), ..self },
            ConfigOption::SslCiphers(value) => Options { ssl_ciphers: Some(value), ..self },
            ConfigOption::SslClientCertificate(value) => Options { ssl_client_certificate: Some(value), ..self },
            ConfigOption::SslCaCertificate(value) => Options { ssl_ca_certificate: Some(value), ..self },
            ConfigOption::SslOptions(value) => Options { ssl_options: Some(value), ..self },
        }
    }

    /// Puts an option in its place. An option of the same kind that was there is replaced.
    pub fn insert(&mut self, option: ConfigOption)
        ensures
            *final(self) == old(self).with(option),
    {
        match option {
            ConfigOption::Timeout(time) => {
                self.timeout = Some(time);
            },
            ConfigOption::ConnectTimeout(time) => {
                self.connect_timeout = Some(time);
            },
            ConfigOption::TcpKeepAlive(interval) => {
                self.tcp_keepalive = Some(interval);
            },
            ConfigOption::TcpNoDelay => {
                self.tcp_nodelay = true;
            },
            ConfigOption::RedirectPolicy(policy) => {
                self.redirect_policy = Some(policy);
            },
            ConfigOption::AutoReferer => {
                self.auto_referer = true;
            },
            ConfigOption::MaxUploadSpeed(max) => {
                self.max_upload_speed = Some(max);
            },
            ConfigOption::MaxDownloadSpeed(max) => {
                self.max_download_speed = Some(max);
            },
            ConfigOption::VersionNegotiation(negotiation) => {
                self.version_negotiation = Some(negotiation);
            },
            ConfigOption::Proxy(proxy) => {
                self.proxy = Some(proxy);
            },
            ConfigOption::ProxyBlacklist(hosts) => {
                self.proxy_blacklist = Some(hosts);
            },
            ConfigOption::CloseConnection(close) => {
                self.close_connection = Some(close);
            },
            ConfigOption::EnableMetrics(enable) => {
                self.metrics = Some(enable);
            },
            ConfigOption::Authentication(value) => {
                self.authentication = Some(value);
            },
            ConfigOption::Credentials(value) => {
                self.credentials = Some(value);
            },
            ConfigOption::ProxyAuthentication(value) => {
                self.proxy_authentication = Some(value);
            },
            ConfigOption::ProxyCredentials(value) => {
                self.proxy_credentials = Some(value);
            },
            ConfigOption::DnsCache(value) => {
                self.dns_cache = Some(value);
            },
            ConfigOption::DnsServers(value) => {
                self.dns_servers = Some(value);
            },
            ConfigOption::SslCiphers(value) => {
                self.ssl_ciphers = Some(value);
            },
            ConfigOption::SslClientCertificate(value) => {
                self.ssl_client_certificate = Some(value);
            },
            ConfigOption::SslCaCertificate(value) => {
                self.ssl_ca_certificate = Some(value);
            },
            ConfigOption::SslOptions(value) => {
                self.ssl_options = Some(value);
            },
        }
    }

    /// The options that hold for a request: in each place the option of the request, and
    /// where the request has none, the default.
    pub open spec fn resolved(self, defaults: Options) -> Options {
        Options {
            timeout: either(self.timeout, defaults.timeout),
            connect_timeout: either(self.connect_timeout, defaults.connect_timeout),
            tcp_keepalive: either(self.tcp_keepalive, defaults.tcp_keepalive),
            tcp_nodelay: self.tcp_nodelay || defaults.tcp_nodelay,
            redirect_policy: either(self.redirect_policy, defaults.redirect_policy),
            auto_referer: self.auto_referer || defaults.auto_referer,
            max_upload_speed: either(self.max_upload_speed, defaults.max_upload_speed),
            max_download_speed: either(self.max_download_speed, defaults.max_download_speed),
            version_negotiation: either(self.version_negotiation, defaults.version_negotiation),
            proxy: either(self.proxy, defaults.proxy),
            proxy_blacklist: either(self.proxy_blacklist, defaults.proxy_blacklist),
            close_connection: either(self.close_connection, defaults.close_connection),
            metrics: either(self.metrics, defaults.metrics),
            authentication: either(self.authentication, defaults.authentication),
            credentials: either(self.credentials, defaults.credentials),
            proxy_authentication: either(self.proxy_authentication, defaults.proxy_authentication),
            proxy_credentials: either(self.proxy_credentials, defaults.proxy_credentials),
            dns_cache: either(self.dns_cache, defaults.dns_cache),
            dns_servers: either(self.dns_servers, defaults.dns_servers),
            ssl_ciphers: either(self.ssl_ciphers, defaults.ssl_ciphers),
            ssl_client_certificate: either(self.ssl_client_certificate, defaults.ssl_client_certificate),
            ssl_ca_certificate: either(self.ssl_ca_certificate, defaults.ssl_ca_certificate),
            ssl_options: either(self.ssl_options, defaults.ssl_options),
        }
    }

    /// Returns the options that hold for a request with these options, sent by a client
    /// with the given defaults.
    pub fn resolve(&self, defaults: &Options) -> (options: Options)
        ensures
            options == self.resolved(*defaults),
    {
        let proxy = match &self.proxy {
            Some(Some(uri)) => Some(Some(uri.clone())),
            Some(None) => Some(None),
            None => match &defaults.proxy {
                Some(Some(uri)) => Some(Some(uri.clone())),
                Some(None) => Some(None),
                None => None,
            },
        };
        let proxy_blacklist = match &self.proxy_blacklist {
            Some(hosts) => Some(ProxyBlacklist { skip: hosts.skip.clone() }),
            None => match &defaults.proxy_blacklist {
                Some(hosts) => Some(ProxyBlacklist { skip: hosts.skip.clone() }),
                None => None,
            },
        };
        let credentials = match &self.credentials {
            Some(value) => Some(value.clone()),
            None => match &defaults.credentials {
                Some(value) => Some(value.clone()),
                None => None,
            },
        };
        let proxy_credentials = match &self.proxy_credentials {
            Some(value) => Some(value.clone()),
            None => match &defaults.proxy_credentials {
                Some(value) => Some(value.clone()),
                None => None,
            },
        };
        let dns_cache = match &self.dns_cache {
            Some(value) => Some(value.clone()),
            None => match &defaults.dns_cache {
                Some(value) => Some(value.clone()),
                None => None,
            },
        };
        let dns_servers = match &self.dns_servers {
            Some(value) => Some(value.clone()),
            None => match &defaults.dns_servers {
                Some(value) => Some(value.clone()),
                None => None,
            },
        };
        let ssl_ciphers = match &self.ssl_ciphers {
            Some(value) => Some(value.clone()),
            None => match &defaults.ssl_ciphers {
                Some(value) => Some(value.clone()),
                None => None,
            },
        };
        let ssl_client_certificate = match &self.ssl_client_certificate {
            Some(value) => Some(value.clone()),
            None => match &defaults.ssl_client_certificate {
                Some(value) => Some(value.clone()),
                None => None,
            },
        };
        let ssl_ca_certificate = match &self.ssl_ca_certificate {
            Some(value) => Some(value.clone()),
            None => match &defaults.ssl_ca_certificate {
                Some(value) => Some(value.clone()),
                None => None,
            },
        };
        Options {
            timeout: if self.timeout.is_some() {
                self.timeout
            } else {
                defaults.timeout
            },
            connect_timeout: if self.connect_timeout.is_some() {
                self.connect_timeout
            } else {
                defaults.connect_timeout
            },
            tcp_keepalive: if self.tcp_keepalive.is_some() {
                self.tcp_keepalive
            } else {
                defaults.tcp_keepalive
            },
            tcp_nodelay: self.tcp_nodelay || defaults.tcp_nodelay,
            redirect_policy: if self.redirect_policy.is_some() {
                self.redirect_policy
            } else {
                defaults.redirect_policy
            },
            auto_referer: self.auto_referer || defaults.auto_referer,
            max_upload_speed: if self.max_upload_speed.is_some() {
                self.max_upload_speed
            } else {
                defaults.max_upload_speed
            },
            max_download_speed: if self.max_download_speed.is_some() {
                self.max_download_speed
            } else {
                defaults.max_download_speed
            },
            version_negotiation: if self.version_negotiation.is_some() {
                self.version_negotiation
            } else {
                defaults.version_negotiation
            },
            proxy,
            proxy_blacklist,
            close_connection: if self.close_connection.is_some() {
                self.close_connection
            } else {
                defaults.close_connection
            },
            metrics: if self.metrics.is_some() {
                self.metrics
            } else {
                defaults.metrics
            },
            authentication: if self.authentication.is_some() {
                self.authentication
            } else {
                defaults.authentication
            },
            credentials,
            proxy_authentication: if self.proxy_authentication.is_some() {
                self.proxy_authentication
            } else {
                defaults.proxy_authentication
            },
            proxy_credentials,
            dns_cache,
            dns_servers,
            ssl_ciphers,
            ssl_client_certificate,
            ssl_ca_certificate,
            ssl_options: if self.ssl_options.is_some() {
                self.ssl_options
            } else {
                defaults.ssl_options
            },
        }
    }

    /// The proxy option, where the bag holds one.
    pub open spec fn chosen_proxy(&self) -> Seq<ConfigOption> {
        match self.proxy {
            Some(proxy) => seq![ConfigOption::Proxy(proxy)],
            None => Seq::empty(),
        }
    }

    /// The option on hosts that are reached without the proxy, where the bag holds one.
    pub open spec fn chosen_proxy_blacklist(&self) -> Seq<ConfigOption> {
        match self.proxy_blacklist {
            Some(hosts) => seq![ConfigOption::ProxyBlacklist(hosts)],
            None => Seq::empty(),
        }
    }

    /// The option on the credentials for the server, where the bag holds one.
    pub open spec fn chosen_credentials(&self) -> Seq<ConfigOption> {
        match self.credentials {
            Some(value) => seq![ConfigOption::Credentials(value)],
            None => Seq::empty(),
        }
    }

    /// The option on the credentials for a proxy, where the bag holds one.
    pub open spec fn chosen_proxy_credentials(&self) -> Seq<ConfigOption> {
        match self.proxy_credentials {
            Some(value) => seq![ConfigOption::ProxyCredentials(value)],
            None => Seq::empty(),
        }
    }

    /// The option on how long resolved names are remembered, where the bag holds one.
    pub open spec fn chosen_dns_cache(&self) -> Seq<ConfigOption> {
        match self.dns_cache {
            Some(value) => seq![ConfigOption::DnsCache(value)],
            None => Seq::empty(),
        }
    }

    /// The option on the name servers to ask, where the bag holds one.
    pub open spec fn chosen_dns_servers(&self) -> Seq<ConfigOption> {
        match self.dns_servers {
            Some(value) => seq![ConfigOption::DnsServers(value)],
            None => Seq::empty(),
        }
    }

    /// The option on the ciphers to offer, where the bag holds one.
    pub open spec fn chosen_ssl_ciphers(&self) -> Seq<ConfigOption> {
        match self.ssl_ciphers {
            Some(value) => seq![ConfigOption::SslCiphers(value)],
            None => Seq::empty(),
        }
    }

    /// The option on the client certificate, where the bag holds one.
    pub open spec fn chosen_ssl_client_certificate(&self) -> Seq<ConfigOption> {
        match self.ssl_client_certificate {
            Some(value) => seq![ConfigOption::SslClientCertificate(value)],
            None => Seq::empty(),
        }
    }

    /// The option on the authorities that are trusted, where the bag holds one.
    pub open spec fn chosen_ssl_ca_certificate(&self) -> Seq<ConfigOption> {
        match self.ssl_ca_certificate {
            Some(value) => seq![ConfigOption::SslCaCertificate(value)],
            None => Seq::empty(),
        }
    }

    /// The options on the connection and on who the client is that are in the bag.
    pub open spec fn chosen_connection(&self) -> Seq<ConfigOption> {
        item(match self.timeout { Some(time) => Some(ConfigOption::Timeout(time)), None => None })
            + item(match self.connect_timeout { Some(time) => Some(ConfigOption::ConnectTimeout(time)), None => None })
            + item(match self.tcp_keepalive { Some(time) => Some(ConfigOption::TcpKeepAlive(time)), None => None })
            + item(if self.tcp_nodelay { Some(ConfigOption::TcpNoDelay) } else { None })
            + item(match self.redirect_policy { Some(policy) => Some(ConfigOption::RedirectPolicy(policy)), None => None })
            + item(if self.auto_referer { Some(ConfigOption::AutoReferer) } else { None })
            + item(match self.authentication { Some(schemes) => Some(ConfigOption::Authentication(schemes)), None => None })
            + self.chosen_credentials()
    }

    /// The options on speed, version and proxy that are in the bag.
    pub open spec fn chosen_route(&self) -> Seq<ConfigOption> {
        item(match self.max_upload_speed { Some(max) => Some(ConfigOption::MaxUploadSpeed(max)), None => None })
            + item(match self.max_download_speed { Some(max) => Some(ConfigOption::MaxDownloadSpeed(max)), None => None })
            + item(match self.version_negotiation { Some(negotiation) => Some(ConfigOption::VersionNegotiation(negotiation)), None => None })
            + self.chosen_proxy()
            + self.chosen_proxy_blacklist()
            + item(match self.proxy_authentication { Some(schemes) => Some(ConfigOption::ProxyAuthentication(schemes)), None => None })
            + self.chosen_proxy_credentials()
    }

    /// The options on names, on SSL/TLS and on what is done when the request completes that
    /// are in the bag.
    pub open spec fn chosen_security(&self) -> Seq<ConfigOption> {
        self.chosen_dns_cache()
            + self.chosen_dns_servers()
            + self.chosen_ssl_ciphers()
            + self.chosen_ssl_client_certificate()
            + self.chosen_ssl_ca_certificate()
            + item(match self.ssl_options { Some(options) => Some(ConfigOption::SslOptions(options)), None => None })
            + item(match self.close_connection { Some(close) => Some(ConfigOption::CloseConnection(close)), None => None })
            + item(match self.metrics { Some(enable) => Some(ConfigOption::EnableMetrics(enable)), None => None })
    }

    /// The options that are in the bag, in the order in which they are applied to a
    /// transfer.
    pub open spec fn chosen(&self) -> Seq<ConfigOption> {
        self.chosen_connection() + self.chosen_route() + self.chosen_security()
    }

    /// Puts the option behind the others, where there is one.
    fn push_item(list: &mut Vec<ConfigOption>, option: Option<ConfigOption>)
        ensures
            final(list)@ == old(list)@ + item(option),
    {
        match option {
            Some(option) => {
                list.push(option);
            },
            None => {},
        }
        assert(list@ =~= old(list)@ + item(option));
    }

    /// Returns the options on the connection and on who the client is.
    fn connection_options(&self) -> (list: Vec<ConfigOption>)
        ensures
            list@ == self.chosen_connection(),
    {
        let mut list: Vec<ConfigOption> = Vec::new();
        Self::push_item(
            &mut list,
            match self.timeout {
                Some(time) => Some(ConfigOption::Timeout(time)),
                None => None,
            },
        );
        assert(list@ =~= item(match self.timeout { Some(time) => Some(ConfigOption::Timeout(time)), None => None }));
        Self::push_item(
            &mut list,
            match self.connect_timeout {
                Some(time) => Some(ConfigOption::ConnectTimeout(time)),
                None => None,
            },
        );
        Self::push_item(
            &mut list,
            match self.tcp_keepalive {
                Some(time) => Some(ConfigOption::TcpKeepAlive(time)),
                None => None,
            },
        );
        Self::push_item(
            &mut list,
            if self.tcp_nodelay {
                Some(ConfigOption::TcpNoDelay)
            } else {
                None
            },
        );
        Self::push_item(
            &mut list,
            match self.redirect_policy {
                Some(policy) => Some(ConfigOption::RedirectPolicy(policy)),
                None => None,
            },
        );
        Self::push_item(
            &mut list,
            if self.auto_referer {
                Some(ConfigOption::AutoReferer)
            } else {
                None
            },
        );
        Self::push_item(
            &mut list,
            match self.authentication {
                Some(schemes) => Some(ConfigOption::Authentication(schemes)),
                None => None,
            },
        );
        let credentials = match &self.credentials {
            Some(value) => Some(ConfigOption::Credentials(value.clone())),
            None => None,
        };
        assert(item(credentials) =~= self.chosen_credentials());
        Self::push_item(&mut list, credentials);
        list
    }

    /// Returns the options on speed, version and proxy.
    fn route_options(&self) -> (list: Vec<ConfigOption>)
        ensures
            list@ == self.chosen_route(),
    {
        let mut list: Vec<ConfigOption> = Vec::new();
        Self::push_item(
            &mut list,
            match self.max_upload_speed {
                Some(max) => Some(ConfigOption::MaxUploadSpeed(max)),
                None => None,
            },
        );
        assert(list@ =~= item(match self.max_upload_speed { Some(max) => Some(ConfigOption::MaxUploadSpeed(max)), None => None }));
        Self::push_item(
            &mut list,
            match self.max_download_speed {
                Some(max) => Some(ConfigOption::MaxDownloadSpeed(max)),
                None => None,
            },
        );
        Self::push_item(
            &mut list,
            match self.version_negotiation {
                Some(negotiation) => Some(ConfigOption::VersionNegotiation(negotiation)),
                None => None,
            },
        );
        let proxy = match &self.proxy {
            Some(Some(uri)) => Some(ConfigOption::Proxy(Some(uri.clone()))),
            Some(None) => Some(ConfigOption::Proxy(None)),
            None => None,
        };
        assert(item(proxy) =~= self.chosen_proxy());
        Self::push_item(&mut list, proxy);
        let hosts = match &self.proxy_blacklist {
            Some(hosts) => Some(ConfigOption::ProxyBlacklist(ProxyBlacklist { skip: hosts.skip.clone() })),
            None => None,
        };
        assert(item(hosts) =~= self.chosen_proxy_blacklist());
        Self::push_item(&mut list, hosts);
        Self::push_item(
            &mut list,
            match self.proxy_authentication {
                Some(schemes) => Some(ConfigOption::ProxyAuthentication(schemes)),
                None => None,
            },
        );
        let proxy_credentials = match &self.proxy_credentials {
            Some(value) => Some(ConfigOption::ProxyCredentials(value.clone())),
            None => None,
        };
        assert(item(proxy_credentials) =~= self.chosen_proxy_credentials());
        Self::push_item(&mut list, proxy_credentials);
        list
    }

    /// Returns the options on names, on SSL/TLS and on what is done when the request
    /// completes.
    fn security_options(&self) -> (list: Vec<ConfigOption>)
        ensures
            list@ == self.chosen_security(),
    {
        let mut list: Vec<ConfigOption> = Vec::new();
        let dns_cache = match &self.dns_cache {
            Some(value) => Some(ConfigOption::DnsCache(value.clone())),
            None => None,
        };
        assert(item(dns_cache) =~= self.chosen_dns_cache());
        Self::push_item(&mut list, dns_cache);
        assert(list@ =~= self.chosen_dns_cache());
        let dns_servers = match &self.dns_servers {
            Some(value) => Some(ConfigOption::DnsServers(value.clone())),
            None => None,
        };
        assert(item(dns_servers) =~= self.chosen_dns_servers());
        Self::push_item(&mut list, dns_servers);
        let ssl_ciphers = match &self.ssl_ciphers {
            Some(value) => Some(ConfigOption::SslCiphers(value.clone())),
            None => None,
        };
        assert(item(ssl_ciphers) =~= self.chosen_ssl_ciphers());
        Self::push_item(&mut list, ssl_ciphers);
        let ssl_client_certificate = match &self.ssl_client_certificate {
            Some(value) => Some(ConfigOption::SslClientCertificate(value.clone())),
            None => None,
        };
        assert(item(ssl_client_certificate) =~= self.chosen_ssl_client_certificate());
        Self::push_item(&mut list, ssl_client_certificate);
        let ssl_ca_certificate = match &self.ssl_ca_certificate {
            Some(value) => Some(ConfigOption::SslCaCertificate(value.clone())),
            None => None,
        };
        assert(item(ssl_ca_certificate) =~= self.chosen_ssl_ca_certificate());
        Self::push_item(&mut list, ssl_ca_certificate);
        Self::push_item(
            &mut list,
            match self.ssl_options {
                Some(options) => Some(ConfigOption::SslOptions(options)),
                None => None,
            },
        );
        Self::push_item(
            &mut list,
            match self.close_connection {
                Some(close) => Some(ConfigOption::CloseConnection(close)),
                None => None,
            },
        );
        Self::push_item(
            &mut list,
            match self.metrics {
                Some(enable) => Some(ConfigOption::EnableMetrics(enable)),
                None => None,
            },
        );
        list
    }

    /// Returns the options that are in the bag, in the order in which they are applied to a
    /// transfer.
    pub fn to_vec(&self) -> (list: Vec<ConfigOption>)
        ensures
            list@ == self.chosen(),
    {
        let mut list = self.connection_options();
        let mut route = self.route_options();
        let mut security = self.security_options();
        list.append(&mut route);
        list.append(&mut security);
        list
    }
}

/// The views of two sequences of settings, one after the other, are the views of the two
/// together.
pub proof fn lemma_setting_views_add(first: Seq<Setting>, second: Seq<Setting>)
    ensures
        setting_views(first + second) == setting_views(first) + setting_views(second),
{
    assert(setting_views(first + second) =~= setting_views(first) + setting_views(second));
}

impl SetOpt for Options {
    open spec fn settings(&self) -> Seq<SettingView> {
        settings_of(self.chosen())
    }

    fn to_settings(&self) -> (list: Vec<Setting>) {
        let options = self.to_vec();
        let mut list: Vec<Setting> = Vec::new();
        let mut i: usize = 0;
        assert(setting_views(list@) =~= settings_of(options@.take(0)));
        while i < options.len()
            invariant
                i <= options.len(),
                setting_views(list@) == settings_of(options@.take(i as int)),
            decreases options.len() - i,
        {
            let mut part = options[i].to_settings();
            proof {
                lemma_setting_views_add(list@, part@);
                assert(options@.take(i + 1).drop_last() =~= options@.take(i as int));
            }
            list.append(&mut part);
            i = i + 1;
        }
        proof {
            assert(options@.take(options.len() as int) =~= options@);
        }
        list
    }

    fn set_opt<H>(&self, easy: &mut curl::easy::Easy2<H>) -> (result: Result<(), curl::Error>) {
        let list = self.to_settings();
        apply_settings(easy, &list)
    }
}

/// Provides additional methods when building a request for configuring various
/// execution-related options on how the request should be sent.
pub trait Configurable: Sized {
    /// What comes of `self` when an option is put in its place.
    spec fn configured(self, option: ConfigOption) -> Self;

    /// Puts an option in its place.
    fn configure(self, option: ConfigOption) -> (configured: Self)
        ensures
            configured == self.configured(option),
    ;

    /// Set a maximum amount of time that a request is allowed to take before being aborted.
    ///
    /// If not set, no timeout will be enforced.
    fn timeout(self, timeout: Duration) -> (configured: Self)
        ensures
            configured == self.configured(ConfigOption::Timeout(timeout)),
    {
        self.configure(ConfigOption::Timeout(timeout))
    }

    /// Set a timeout for the initial connection phase.
    ///
    /// If not set, a connect timeout of 300 seconds will be used.
    fn connect_timeout(self, timeout: Duration) -> (configured: Self)
        ensures
            configured == self.configured(ConfigOption::ConnectTimeout(timeout)),
    {
        self.configure(ConfigOption::ConnectTimeout(timeout))
    }

    /// Configure how the use of HTTP versions should be negotiated with the server.
    ///
    /// The default is [`VersionNegotiation::latest_compatible`].
    fn version_negotiation(self, negotiation: VersionNegotiation) -> (configured: Self)
        ensures
            configured == self.configured(ConfigOption::VersionNegotiation(negotiation)),
    {
        self.configure(ConfigOption::VersionNegotiation(negotiation))
    }

    /// Set a policy for automatically following server redirects.
    ///
    /// The default is to not follow redirects.
    fn redirect_policy(self, policy: RedirectPolicy) -> (configured: Self)
        ensures
            configured == self.configured(ConfigOption::RedirectPolicy(policy)),
    {
        self.configure(ConfigOption::RedirectPolicy(policy))
    }

    /// Update the `Referer` header automatically when following redirects.
    fn auto_referer(self) -> (configured: Self)
        ensures
            configured == self.configured(ConfigOption::AutoReferer),
    {
        self.configure(ConfigOption::AutoReferer)
    }

    /// Enable TCP keepalive with a given probe interval.
    fn tcp_keepalive(self, interval: Duration) -> (configured: Self)
        ensures
            configured == self.configured(ConfigOption::TcpKeepAlive(interval)),
    {
        self.configure(ConfigOption::TcpKeepAlive(interval))
    }

    /// Enables the `TCP_NODELAY` option on connect.
    fn tcp_nodelay(self) -> (configured: Self)
        ensures
            configured == self.configured(ConfigOption::TcpNoDelay),
    {
        self.configure(ConfigOption::TcpNoDelay)
    }

    /// Set a proxy to use for requests.
    ///
    /// The proxy protocol is specified by the URI scheme. By default no proxy will be used,
    /// unless one is specified in either the `http_proxy` or `https_proxy` environment
    /// variables. Setting to `None` explicitly disables the use of a proxy.
    fn proxy(self, proxy: Option<String>) -> (configured: Self)
        ensures
            configured == self.configured(ConfigOption::Proxy(proxy)),
    {
        self.configure(ConfigOption::Proxy(proxy))
    }

    /// Disable proxy usage for the provided list of hosts.
    fn proxy_blacklist(self, hosts: Vec<String>) -> (configured: Self)
        ensures
            exists|list: ProxyBlacklist|
                list.spec_skip() == joined(text_views(hosts@)) && configured == self.configured(
                    ConfigOption::ProxyBlacklist(list),
                ),
    {
        let list = ProxyBlacklist::from_iter(hosts);
        self.configure(ConfigOption::ProxyBlacklist(list))
    }

    /// Set a maximum upload speed for the request body, in bytes per second.
    ///
    /// The default is unlimited.
    fn max_upload_speed(self, max: u64) -> (configured: Self)
        ensures
            configured == self.configured(ConfigOption::MaxUploadSpeed(max)),
    {
        self.configure(ConfigOption::MaxUploadSpeed(max))
    }

    /// Set a maximum download speed for the response body, in bytes per second.
    ///
    /// The default is unlimited.
    fn max_download_speed(self, max: u64) -> (configured: Self)
        ensures
            configured == self.configured(ConfigOption::MaxDownloadSpeed(max)),
    {
        self.configure(ConfigOption::MaxDownloadSpeed(max))
    }

    /// Enable or disable comprehensive per-request metrics collection.
    ///
    /// By default metrics are disabled.
    fn metrics(self, enable: bool) -> (configured: Self)
        ensures
            configured == self.configured(ConfigOption::EnableMetrics(enable)),
    {
        self.configure(ConfigOption::EnableMetrics(enable))
    }

    /// Set one or more default HTTP authentication methods to attempt to use when
    /// authenticating with the server.
    ///
    /// Depending on the authentication schemes enabled, you will also need to set
    /// credentials to use for authentication using [`Configurable::credentials`].
    fn authentication(self, authentication: Authentication) -> (configured: Self)
        ensures
            configured == self.configured(ConfigOption::Authentication(authentication)),
    {
        self.configure(ConfigOption::Authentication(authentication))
    }

    /// Set the credentials to use for HTTP authentication.
    ///
    /// This setting will do nothing unless you also set one or more authentication methods
    /// using [`Configurable::authentication`].
    fn credentials(self, credentials: Credentials) -> (configured: Self)
        ensures
            configured == self.configured(ConfigOption::Credentials(credentials)),
    {
        self.configure(ConfigOption::Credentials(credentials))
    }

    /// Set one or more HTTP authentication methods to attempt to use when authenticating
    /// with a proxy.
    ///
    /// Depending on the authentication schemes enabled, you will also need to set
    /// credentials to use for authentication using [`Configurable::proxy_credentials`].
    fn proxy_authentication(self, authentication: Authentication) -> (configured: Self)
        ensures
            configured == self.configured(ConfigOption::ProxyAuthentication(authentication)),
    {
        self.configure(ConfigOption::ProxyAuthentication(authentication))
    }

    /// Set the credentials to use for proxy authentication.
    ///
    /// This setting will do nothing unless you also set one or more proxy authentication
    /// methods using [`Configurable::proxy_authentication`].
    fn proxy_credentials(self, credentials: Credentials) -> (configured: Self)
        ensures
            configured == self.configured(ConfigOption::ProxyCredentials(credentials)),
    {
        self.configure(ConfigOption::ProxyCredentials(credentials))
    }

    /// Set a list of specific DNS servers to be used for DNS resolution, each given as an
    /// address with its port.
    ///
    /// By default this option is not set and the system's built-in DNS resolver is used.
    fn dns_servers(self, servers: Vec<String>) -> (configured: Self)
        ensures
            exists|list: Servers|
                list.spec_list() == joined(text_views(servers@)) && configured
                    == self.configured(ConfigOption::DnsServers(list)),
    {
        let list = Servers::from_iter(servers);
        self.configure(ConfigOption::DnsServers(list))
    }

    /// Set a custom SSL/TLS client certificate to use for client connections.
    ///
    /// If a format is not supported by the underlying SSL/TLS engine, an error will be
    /// returned when attempting to send a request using the offending certificate.
    ///
    /// The default value is none.
    fn ssl_client_certificate(self, certificate: ClientCertificate) -> (configured: Self)
        ensures
            configured == self.configured(ConfigOption::SslClientCertificate(certificate)),
    {
        self.configure(ConfigOption::SslClientCertificate(certificate))
    }

    /// Set a custom SSL/TLS CA certificate bundle to use for client connections.
    ///
    /// The default value is none.
    fn ssl_ca_certificate(self, certificate: CaCertificate) -> (configured: Self)
        ensures
            configured == self.configured(ConfigOption::SslCaCertificate(certificate)),
    {
        self.configure(ConfigOption::SslCaCertificate(certificate))
    }

    /// Set a list of ciphers to use for SSL/TLS connections.
    fn ssl_ciphers(self, ciphers: Vec<String>) -> (configured: Self)
        ensures
            exists|list: Ciphers|
                list.spec_list() == joined_with(text_views(ciphers@), seq![':']) && configured
                    == self.configured(ConfigOption::SslCiphers(list)),
    {
        let list = Ciphers::from_iter(ciphers);
        self.configure(ConfigOption::SslCiphers(list))
    }

    /// Set various options for this request that control SSL/TLS behavior.
    ///
    /// Most options are for disabling security checks that introduce security risks, but
    /// may be required as a last resort. Note that the most secure options are already the
    /// default and do not need to be specified.
    ///
    /// The default value is the empty set.
    ///
    /// # Warning
    ///
    /// You should think very carefully before using this method. Using *any* options that
    /// alter how certificates are validated can introduce significant security
    /// vulnerabilities.
    fn ssl_options(self, options: SslOption) -> (configured: Self)
        ensures
            configured == self.configured(ConfigOption::SslOptions(options)),
    {
        self.configure(ConfigOption::SslOptions(options))
    }
}

impl Configurable for Options {
    open spec fn configured(self, option: ConfigOption) -> Options {
        self.with(option)
    }

    fn configure(self, option: ConfigOption) -> (configured: Options) {
        let mut configured = self;
        configured.insert(option);
        configured
    }
}

} // verus!
