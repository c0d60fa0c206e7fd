//! Types for working with HTTP authentication methods.

use crate::config::{apply_settings, setting_views, SetOpt, Setting, SettingView};
use vstd::prelude::*;
use vstd::std_specs::ops::BitOrSpecImpl;

verus! {

/// Credentials consisting of a username and a secret (password) that can be used to
/// establish user identity.
#[derive(Debug, PartialEq, Eq)]
pub struct Credentials {
    username: String,
    password: String,
}

impl View for Credentials {
    /// The username, and behind it the password.
    type V = (Seq<char>, Seq<char>);

    closed spec fn view(&self) -> (Seq<char>, Seq<char>) {
        (self.username@, self.password@)
    }
}

impl Clone for Credentials {
    fn clone(&self) -> (copy: Self)
        ensures
            copy == *self,
    {
        Credentials { username: self.username.clone(), password: self.password.clone() }
    }
}

impl Credentials {
    /// Create credentials from a username and password.
    pub fn new(username: String, password: String) -> (credentials: Self)
        ensures
            credentials@ == (username@, password@),
    {
        Credentials { username, password }
    }

    /// Returns the username.
    pub fn username(&self) -> (username: &str)
        ensures
            username@ == self@.0,
    {
        self.username.as_str()
    }

    /// Returns the password.
    pub fn password(&self) -> (password: &str)
        ensures
            password@ == self@.1,
    {
        self.password.as_str()
    }

    /// The settings that give these credentials to a proxy.
    pub open spec fn proxy_settings(&self) -> Seq<SettingView> {
        seq![SettingView::ProxyUsername(self@.0), SettingView::ProxyPassword(self@.1)]
    }

    /// Returns the settings that give these credentials to a proxy.
    pub fn to_proxy_settings(&self) -> (list: Vec<Setting>)
        ensures
            setting_views(list@) == self.proxy_settings(),
    {
        let mut list = Vec::new();
        list.push(Setting::ProxyUsername(self.username.clone()));
        list.push(Setting::ProxyPassword(self.password.clone()));
        assert(setting_views(list@) =~= self.proxy_settings());
        list
    }
}

impl SetOpt for Credentials {
    open spec fn settings(&self) -> Seq<SettingView> {
        seq![SettingView::Username(self@.0), SettingView::Password(self@.1)]
    }

    fn to_settings(&self) -> (list: Vec<Setting>) {
        let mut list = Vec::new();
        list.push(Setting::Username(self.username.clone()));
        list.push(Setting::Password(self.password.clone()));
        assert(setting_views(list@) =~= self.settings());
        list
    }

    fn set_opt<H>(&self, easy: &mut curl::easy::Easy2<H>) -> (result: Result<(), curl::Error>) {
        let list = self.to_settings();
        apply_settings(easy, &list)
    }
}

/// Specifies one or more HTTP authentication schemes to use.
///
/// A value is a set of schemes. Two sets are put together with `|`.
#[derive(Clone, Copy, Debug, PartialEq, Eq, Structural)]
pub struct Authentication {
    basic: bool,
    digest: bool,
}

impl View for Authentication {
    /// Whether HTTP Basic authentication is in the set, and whether HTTP Digest
    /// authentication is.
    type V = (bool, bool);

    closed spec fn view(&self) -> (bool, bool) {
        (self.basic, self.digest)
    }
}

impl Default for Authentication {
    fn default() -> (schemes: Self)
        ensures
            schemes@ == (false, false),
    {
        Authentication::none()
    }
}

impl Authentication {
    /// Disable all authentication schemes. This is the default.
    pub fn none() -> (schemes: Self)
        ensures
            schemes@ == (false, false),
    {
        Authentication { basic: false, digest: false }
    }

    /// Enable all available authentication schemes.
    pub fn all() -> (schemes: Self)
        ensures
            schemes@ == (true, true),
    {
        Authentication { basic: true, digest: true }
    }

    /// HTTP Basic authentication.
    ///
    /// This authentication scheme sends the user name and password over the network in
    /// plain text. Avoid using this scheme without TLS as the credentials can be easily
    /// captured otherwise.
    pub fn basic() -> (schemes: Self)
        ensures
            schemes@ == (true, false),
    {
        Authentication { basic: true, digest: false }
    }

    /// HTTP Digest authentication.
    ///
    /// Digest authentication is a more secure way to do authentication over public
    /// networks than the regular old-fashioned Basic method.
    pub fn digest() -> (schemes: Self)
        ensures
            schemes@ == (false, true),
    {
        Authentication { basic: false, digest: true }
    }

    /// The set that holds a scheme where `self` or `other` holds it.
    pub open spec fn joined(self, other: Authentication) -> (bool, bool) {
        (self@.0 || other@.0, self@.1 || other@.1)
    }

    /// The set that holds exactly the schemes of the view.
    pub closed spec fn of(view: (bool, bool)) -> Authentication {
        Authentication { basic: view.0, digest: view.1 }
    }

    /// A set is known by the schemes that it holds.
    pub proof fn lemma_known_by_view(self)
        ensures
            Authentication::of(self@) == self,
            forall|view: (bool, bool)| #[trigger] Authentication::of(view)@ == view,
    {
    }

    /// Returns whether every scheme of `other` is in `self`.
    pub fn contains(&self, other: Authentication) -> (all: bool)
        ensures
            all == ((other@.0 ==> self@.0) && (other@.1 ==> self@.1)),
    {
        (!other.basic || self.basic) && (!other.digest || self.digest)
    }

    /// The settings that allow these schemes towards a proxy.
    pub open spec fn proxy_settings(&self) -> Seq<SettingView> {
        seq![SettingView::ProxyAuth { basic: self@.0, digest: self@.1 }]
    }

    /// Returns the settings that allow these schemes towards a proxy.
    pub fn to_proxy_settings(&self) -> (list: Vec<Setting>)
        ensures
            setting_views(list@) == self.proxy_settings(),
    {
        let mut list = Vec::new();
        list.push(Setting::ProxyAuth { basic: self.basic, digest: self.digest });
        assert(setting_views(list@) =~= self.proxy_settings());
        list
    }
}

impl BitOrSpecImpl for Authentication {
    open spec fn obeys_bitor_spec() -> bool {
        true
    }

    open spec fn bitor_req(self, other: Authentication) -> bool {
        true
    }

    open spec fn bitor_spec(self, other: Authentication) -> Authentication {
        Authentication::of(self.joined(other))
    }
}

impl std::ops::BitOr for Authentication {
    type Output = Authentication;

    fn bitor(self, other: Authentication) -> (schemes: Authentication) {
        Authentication { basic: self.basic || other.basic, digest: self.digest || other.digest }
    }
}

impl SetOpt for Authentication {
    open spec fn settings(&self) -> Seq<SettingView> {
        seq![SettingView::HttpAuth { basic: self@.0, digest: self@.1 }]
    }

    fn to_settings(&self) -> (list: Vec<Setting>) {
        let mut list = Vec::new();
        list.push(Setting::HttpAuth { basic: self.basic, digest: self.digest });
        assert(setting_views(list@) =~= self.settings());
        list
    }

    fn set_opt<H>(&self, easy: &mut curl::easy::Easy2<H>) -> (result: Result<(), curl::Error>) {
        let list = self.to_settings();
        apply_settings(easy, &list)
    }
}

} // verus!
