use curl::easy::{Easy2, Handler};
use isahc::config::{
    apply_settings, ConfigOption, Configurable, HttpVersion, Options, ProxyBlacklist,
    RedirectPolicy, SetOpt, Setting, VersionNegotiation,
};
use std::time::Duration;

struct Quiet;

impl Handler for Quiet {}

fn text(s: &str) -> String {
    String::from(s)
}

#[test]
fn default_redirect_policy_follows_nothing() {
    assert_eq!(RedirectPolicy::default(), RedirectPolicy::NoFollow);
}

#[test]
fn redirect_policy_makes_its_settings() {
    assert_eq!(RedirectPolicy::NoFollow.to_settings(), vec![Setting::FollowLocation(false)]);
    assert_eq!(RedirectPolicy::Follow.to_settings(), vec![Setting::FollowLocation(true)]);
    assert_eq!(
        RedirectPolicy::Limit(5).to_settings(),
        vec![Setting::FollowLocation(true), Setting::MaxRedirections(5)]
    );
    assert_eq!(
        RedirectPolicy::Limit(0).to_settings(),
        vec![Setting::FollowLocation(true), Setting::MaxRedirections(0)]
    );
}

#[test]
fn version_negotiation_strategies() {
    let latest = VersionNegotiation::latest_compatible();
    assert_eq!(latest.version(), HttpVersion::V2);
    assert!(!latest.is_strict());
    assert_eq!(VersionNegotiation::default(), latest);
    assert_eq!(VersionNegotiation::http10().version(), HttpVersion::V10);
    assert!(VersionNegotiation::http10().is_strict());
    assert_eq!(VersionNegotiation::http11().version(), HttpVersion::V11);
    assert!(VersionNegotiation::http11().is_strict());
    assert_eq!(VersionNegotiation::http2().version(), HttpVersion::V2PriorKnowledge);
    assert!(VersionNegotiation::http2().is_strict());
    assert_eq!(
        VersionNegotiation::http11().to_settings(),
        vec![Setting::HttpVersion { version: HttpVersion::V11, strict: true }]
    );
    assert_eq!(
        latest.to_settings(),
        vec![Setting::HttpVersion { version: HttpVersion::V2, strict: false }]
    );
}

#[test]
fn proxy_blacklist_joins_the_hosts_with_commas() {
    assert_eq!(ProxyBlacklist::from_iter(vec![]).skip(), "");
    assert_eq!(ProxyBlacklist::from_iter(vec![text("a.com")]).skip(), "a.com");
    assert_eq!(
        ProxyBlacklist::from_iter(vec![text("a.com"), text("b.org")]).skip(),
        "a.com,b.org"
    );
    assert_eq!(
        ProxyBlacklist::from_iter(vec![text("a.com"), text(""), text("c")]).skip(),
        "a.com,,c"
    );
}

#[test]
fn every_option_makes_its_settings() {
    let second = Duration::from_secs(1);
    assert_eq!(ConfigOption::Timeout(second).to_settings(), vec![Setting::Timeout(second)]);
    assert_eq!(
        ConfigOption::ConnectTimeout(second).to_settings(),
        vec![Setting::ConnectTimeout(second)]
    );
    assert_eq!(
        ConfigOption::TcpKeepAlive(second).to_settings(),
        vec![Setting::TcpKeepAlive(true), Setting::TcpKeepIntvl(second)]
    );
    assert_eq!(ConfigOption::TcpNoDelay.to_settings(), vec![Setting::TcpNoDelay(true)]);
    assert_eq!(
        ConfigOption::RedirectPolicy(RedirectPolicy::Limit(3)).to_settings(),
        vec![Setting::FollowLocation(true), Setting::MaxRedirections(3)]
    );
    assert_eq!(ConfigOption::AutoReferer.to_settings(), vec![Setting::AutoReferer(true)]);
    assert_eq!(ConfigOption::MaxUploadSpeed(9).to_settings(), vec![Setting::MaxSendSpeed(9)]);
    assert_eq!(ConfigOption::MaxDownloadSpeed(8).to_settings(), vec![Setting::MaxRecvSpeed(8)]);
    assert_eq!(
        ConfigOption::VersionNegotiation(VersionNegotiation::http10()).to_settings(),
        vec![Setting::HttpVersion { version: HttpVersion::V10, strict: true }]
    );
    assert_eq!(
        ConfigOption::Proxy(Some(text("http://proxy:80"))).to_settings(),
        vec![Setting::Proxy(text("http://proxy:80"))]
    );
    assert_eq!(ConfigOption::Proxy(None).to_settings(), vec![Setting::Proxy(text(""))]);
    assert_eq!(
        ConfigOption::ProxyBlacklist(ProxyBlacklist::from_iter(vec![text("a"), text("b")]))
            .to_settings(),
        vec![Setting::NoProxy(text("a,b"))]
    );
    assert_eq!(ConfigOption::CloseConnection(true).to_settings(), vec![Setting::ForbidReuse(true)]);
    assert_eq!(ConfigOption::EnableMetrics(false).to_settings(), vec![Setting::Progress(false)]);
}

#[test]
fn empty_bag_makes_no_settings() {
    let options = Options::new();
    assert_eq!(options.to_vec(), Vec::<ConfigOption>::new());
    assert_eq!(options.to_settings(), Vec::<Setting>::new());
    assert_eq!(options.timeout, None);
    assert!(!options.tcp_nodelay);
    assert!(!options.auto_referer);
}

#[test]
fn option_of_a_kind_replaces_the_one_before() {
    let mut options = Options::new();
    options.insert(ConfigOption::Timeout(Duration::from_secs(1)));
    options.insert(ConfigOption::MaxUploadSpeed(5));
    options.insert(ConfigOption::Timeout(Duration::from_secs(2)));
    assert_eq!(options.timeout, Some(Duration::from_secs(2)));
    assert_eq!(options.max_upload_speed, Some(5));
    assert_eq!(
        options.to_vec(),
        vec![ConfigOption::Timeout(Duration::from_secs(2)), ConfigOption::MaxUploadSpeed(5)]
    );
}

#[test]
fn options_are_applied_in_a_fixed_order() {
    let mut options = Options::new();
    options.insert(ConfigOption::EnableMetrics(true));
    options.insert(ConfigOption::CloseConnection(false));
    options.insert(ConfigOption::ProxyBlacklist(ProxyBlacklist::from_iter(vec![text("x")])));
    options.insert(ConfigOption::Proxy(None));
    options.insert(ConfigOption::VersionNegotiation(VersionNegotiation::http2()));
    options.insert(ConfigOption::MaxDownloadSpeed(2));
    options.insert(ConfigOption::MaxUploadSpeed(1));
    options.insert(ConfigOption::AutoReferer);
    options.insert(ConfigOption::RedirectPolicy(RedirectPolicy::Follow));
    options.insert(ConfigOption::TcpNoDelay);
    options.insert(ConfigOption::TcpKeepAlive(Duration::from_secs(3)));
    options.insert(ConfigOption::ConnectTimeout(Duration::from_secs(2)));
    options.insert(ConfigOption::Timeout(Duration::from_secs(1)));
    assert_eq!(
        options.to_settings(),
        vec![
            Setting::Timeout(Duration::from_secs(1)),
            Setting::ConnectTimeout(Duration::from_secs(2)),
            Setting::TcpKeepAlive(true),
            Setting::TcpKeepIntvl(Duration::from_secs(3)),
            Setting::TcpNoDelay(true),
            Setting::FollowLocation(true),
            Setting::AutoReferer(true),
            Setting::MaxSendSpeed(1),
            Setting::MaxRecvSpeed(2),
            Setting::HttpVersion { version: HttpVersion::V2PriorKnowledge, strict: true },
            Setting::Proxy(text("")),
            Setting::NoProxy(text("x")),
            Setting::ForbidReuse(false),
            Setting::Progress(true),
        ]
    );
}

#[test]
fn option_of_the_request_shadows_the_default() {
    let mut defaults = Options::new();
    defaults.insert(ConfigOption::Timeout(Duration::from_secs(60)));
    defaults.insert(ConfigOption::RedirectPolicy(RedirectPolicy::Follow));
    defaults.insert(ConfigOption::Proxy(Some(text("http://proxy:80"))));
    defaults.insert(ConfigOption::AutoReferer);
    defaults.insert(ConfigOption::ProxyBlacklist(ProxyBlacklist::from_iter(vec![text("a")])));
    let mut request = Options::new();
    request.insert(ConfigOption::Timeout(Duration::from_millis(200)));
    request.insert(ConfigOption::Proxy(None));
    request.insert(ConfigOption::TcpNoDelay);
    request.insert(ConfigOption::EnableMetrics(true));
    let resolved = request.resolve(&defaults);
    assert_eq!(resolved.timeout, Some(Duration::from_millis(200)));
    assert_eq!(resolved.redirect_policy, Some(RedirectPolicy::Follow));
    assert_eq!(resolved.proxy, Some(None));
    assert!(resolved.tcp_nodelay);
    assert!(resolved.auto_referer);
    assert_eq!(resolved.metrics, Some(true));
    assert_eq!(resolved.connect_timeout, None);
    assert_eq!(resolved.proxy_blacklist.as_ref().map(|list| list.skip()), Some("a"));
    assert_eq!(Options::new().resolve(&defaults), defaults);
    assert_eq!(request.resolve(&Options::new()), request);
    assert_eq!(Options::new().resolve(&Options::new()), Options::new());
}

#[test]
fn options_are_configured_by_name() {
    let options = Options::new()
        .timeout(Duration::from_secs(5))
        .connect_timeout(Duration::from_secs(6))
        .version_negotiation(VersionNegotiation::http11())
        .redirect_policy(RedirectPolicy::Limit(10))
        .auto_referer()
        .tcp_keepalive(Duration::from_secs(7))
        .tcp_nodelay()
        .proxy(Some(text("socks5://proxy:1080")))
        .proxy_blacklist(vec![text("a.com"), text("b.org")])
        .max_upload_speed(100)
        .max_download_speed(200)
        .metrics(true);
    assert_eq!(options.timeout, Some(Duration::from_secs(5)));
    assert_eq!(options.connect_timeout, Some(Duration::from_secs(6)));
    assert_eq!(options.version_negotiation, Some(VersionNegotiation::http11()));
    assert_eq!(options.redirect_policy, Some(RedirectPolicy::Limit(10)));
    assert!(options.auto_referer);
    assert_eq!(options.tcp_keepalive, Some(Duration::from_secs(7)));
    assert!(options.tcp_nodelay);
    assert_eq!(options.proxy, Some(Some(text("socks5://proxy:1080"))));
    assert_eq!(options.proxy_blacklist.as_ref().map(|list| list.skip()), Some("a.com,b.org"));
    assert_eq!(options.max_upload_speed, Some(100));
    assert_eq!(options.max_download_speed, Some(200));
    assert_eq!(options.metrics, Some(true));
    assert_eq!(options.close_connection, None);
    let same = Options::new().configure(ConfigOption::CloseConnection(true));
    assert_eq!(same.close_connection, Some(true));
}

#[test]
fn settings_are_made_on_a_transfer_handle() {
    let mut easy = Easy2::new(Quiet);
    let settings = vec![
        Setting::Verbose(false),
        Setting::Signal(false),
        Setting::Timeout(Duration::from_millis(200)),
        Setting::ConnectTimeout(Duration::from_secs(3)),
        Setting::TcpKeepAlive(true),
        Setting::TcpKeepIntvl(Duration::from_secs(9)),
        Setting::TcpNoDelay(true),
        Setting::FollowLocation(true),
        Setting::MaxRedirections(5),
        Setting::AutoReferer(true),
        Setting::MaxSendSpeed(1000),
        Setting::MaxRecvSpeed(2000),
        Setting::HttpVersion { version: HttpVersion::V11, strict: true },
        Setting::Proxy(text("")),
        Setting::NoProxy(text("a.com,b.org")),
        Setting::ForbidReuse(true),
        Setting::Progress(true),
        Setting::AcceptEncoding(text("")),
        Setting::Upload(true),
        Setting::NoBody(false),
        Setting::CustomRequest(text("PATCH")),
        Setting::Post(true),
        Setting::Get(true),
        Setting::Url(text("http://localhost/hello")),
        Setting::PostFieldSize(5),
        Setting::InFileSize(5),
        Setting::HttpHeaders(vec![text("accept: */*"), text("x-a: b")]),
    ];
    for setting in settings.iter() {
        assert!(setting.apply(&mut easy).is_ok(), "{:?}", setting);
    }
    assert!(apply_settings(&mut easy, &settings).is_ok());
    assert!(apply_settings(&mut easy, &Vec::new()).is_ok());
}

#[test]
fn first_refusal_of_the_driver_ends_the_settings() {
    let mut easy = Easy2::new(Quiet);
    let settings = vec![
        Setting::Timeout(Duration::from_secs(1)),
        Setting::Url(text("http://local\0host/")),
        Setting::Proxy(text("never made")),
    ];
    assert!(apply_settings(&mut easy, &settings).is_err());
    assert!(Setting::CustomRequest(text("GE\0T")).apply(&mut easy).is_err());
    assert!(Setting::HttpHeaders(vec![text("a: b"), text("c\0: d")]).apply(&mut easy).is_err());
}

#[test]
fn refusal_counts_unless_the_version_is_not_strict() {
    let refusal = || -> Result<(), curl::Error> { Err(curl::Error::new(1)) };
    let strict = Setting::HttpVersion { version: HttpVersion::V2, strict: true };
    let lenient = Setting::HttpVersion { version: HttpVersion::V2, strict: false };
    assert!(strict.conclude(refusal()).is_err());
    assert!(strict.conclude(Ok(())).is_ok());
    assert!(lenient.conclude(refusal()).is_ok());
    assert!(lenient.conclude(Ok(())).is_ok());
    assert!(Setting::Get(true).conclude(refusal()).is_err());
    assert!(Setting::Get(true).conclude(Ok(())).is_ok());
}

#[test]
fn options_are_set_on_a_transfer_handle() {
    let mut easy = Easy2::new(Quiet);
    assert!(RedirectPolicy::Limit(5).set_opt(&mut easy).is_ok());
    assert!(RedirectPolicy::NoFollow.set_opt(&mut easy).is_ok());
    assert!(VersionNegotiation::latest_compatible().set_opt(&mut easy).is_ok());
    assert!(VersionNegotiation::http11().set_opt(&mut easy).is_ok());
    assert!(ConfigOption::TcpKeepAlive(Duration::from_secs(1)).set_opt(&mut easy).is_ok());
    assert!(ConfigOption::Proxy(Some(text("http://pro\0xy"))).set_opt(&mut easy).is_err());
    let options = Options::new().timeout(Duration::from_secs(1)).metrics(true);
    assert!(options.set_opt(&mut easy).is_ok());
}

#[test]
fn header_line_with_a_nul_is_refused_wherever_it_stands() {
    let mut easy = Easy2::new(Quiet);
    assert!(Setting::HttpHeaders(vec![]).apply(&mut easy).is_ok());
    assert!(Setting::HttpHeaders(vec![text("a: b")]).apply(&mut easy).is_ok());
    assert!(Setting::HttpHeaders(vec![text("a: b"), text("c: d"), text("e: f")])
        .apply(&mut easy)
        .is_ok());
    assert!(Setting::HttpHeaders(vec![text("\0")]).apply(&mut easy).is_err());
    assert!(Setting::HttpHeaders(vec![text("a\0: b"), text("c: d")]).apply(&mut easy).is_err());
    assert!(Setting::HttpHeaders(vec![text("a: b"), text("c: d"), text("e: f\0")])
        .apply(&mut easy)
        .is_err());
    assert!(Setting::HttpHeaders(vec![text("a: b"), text("c: \0d"), text("e: f")])
        .apply(&mut easy)
        .is_err());
    assert!(Setting::HttpHeaders(vec![text("")]).apply(&mut easy).is_ok());
}
