//! Configuration options related to SSL/TLS.

use crate::config::{apply_settings, join, joined_with, setting_views, text_views};
use crate::config::{SetOpt, Setting, SettingView};
use vstd::prelude::*;
use vstd::std_specs::ops::BitOrSpecImpl;
use vstd::string::*;

verus! {

/// The format in which a certificate or a key is written down.
#[derive(Clone, Copy, Debug, PartialEq, Eq, Structural)]
pub enum Encoding {
    /// PEM, the text format.
    Pem,
    /// DER, the binary format.
    Der,
    /// PKCS #12, an archive of a certificate and its key.
    Pkcs12,
}

impl Encoding {
    /// The name by which the driver knows the format.
    pub open spec fn text(self) -> Seq<char> {
        match self {
            Encoding::Pem => "PEM"@,
            Encoding::Der => "DER"@,
            Encoding::Pkcs12 => "P12"@,
        }
    }

    /// Returns the name by which the driver knows the format.
    pub fn name(self) -> (name: String)
        ensures
            name@ == self.text(),
    {
        match self {
            Encoding::Pem => "PEM".to_owned(),
            Encoding::Der => "DER".to_owned(),
            Encoding::Pkcs12 => "P12".to_owned(),
        }
    }
}

/// The setting that gives the password of a private key, where there is one.
pub open spec fn password_settings(password: Option<String>) -> Seq<SettingView> {
    match password {
        Some(password) => seq![SettingView::KeyPassword(password@)],
        None => Seq::empty(),
    }
}

/// Returns a copy of the text, where there is one.
fn copied(text: &Option<String>) -> (copy: Option<String>)
    ensures
        copy == *text,
{
    match text {
        Some(text) => Some(text.clone()),
        None => None,
    }
}

/// Puts the setting that gives the password of a private key behind the others, where there
/// is a password.
fn push_password(list: &mut Vec<Setting>, password: &Option<String>)
    ensures
        setting_views(final(list)@) == setting_views(old(list)@) + password_settings(*password),
{
    match password {
        Some(password) => {
            list.push(Setting::KeyPassword(password.clone()));
        },
        None => {},
    }
    assert(setting_views(list@) =~= setting_views(old(list)@) + password_settings(*password));
}

/// A private key file.
#[derive(Debug, PartialEq, Eq)]
pub struct PrivateKey {
    /// The format of the key.
    pub encoding: Encoding,
    /// The path of the file that holds the key.
    pub path: String,
    /// The password that opens the key, where it needs one.
    pub password: Option<String>,
}

impl Clone for PrivateKey {
    fn clone(&self) -> (copy: Self)
        ensures
            copy == *self,
    {
        PrivateKey {
            encoding: self.encoding,
            path: self.path.clone(),
            password: copied(&self.password),
        }
    }
}

impl PrivateKey {
    /// Get a PEM-encoded private key file.
    ///
    /// The key is read when a request is sent that uses it. If the key is encrypted then
    /// the password that opens it is given too.
    pub fn pem_file(path: String, password: Option<String>) -> (key: Self)
        ensures
            key == (PrivateKey { encoding: Encoding::Pem, path, password }),
    {
        PrivateKey { encoding: Encoding::Pem, path, password }
    }

    /// Get a DER-encoded private key file.
    ///
    /// The key is read when a request is sent that uses it. If the key is encrypted then
    /// the password that opens it is given too.
    pub fn der_file(path: String, password: Option<String>) -> (key: Self)
        ensures
            key == (PrivateKey { encoding: Encoding::Der, path, password }),
    {
        PrivateKey { encoding: Encoding::Der, path, password }
    }
}

impl SetOpt for PrivateKey {
    open spec fn settings(&self) -> Seq<SettingView> {
        seq![SettingView::SslKeyType(self.encoding.text()), SettingView::SslKey(self.path@)]
            + password_settings(self.password)
    }

    fn to_settings(&self) -> (list: Vec<Setting>) {
        let mut list = Vec::new();
        list.push(Setting::SslKeyType(self.encoding.name()));
        list.push(Setting::SslKey(self.path.clone()));
        assert(setting_views(list@) =~= seq![
            SettingView::SslKeyType(self.encoding.text()),
            SettingView::SslKey(self.path@),
        ]);
        push_password(&mut list, &self.password);
        list
    }

    fn set_opt<H>(&self, easy: &mut curl::easy::Easy2<H>) -> (result: Result<(), curl::Error>) {
        let list = self.to_settings();
        apply_settings(easy, &list)
    }
}

/// A client certificate for SSL/TLS client validation.
///
/// Note that this isn't merely an X.509 certificate, but rather a certificate and private
/// key pair.
#[derive(Debug, PartialEq, Eq)]
pub struct ClientCertificate {
    /// The format of the certificate.
    pub encoding: Encoding,
    /// The path of the file that holds the certificate.
    pub path: String,
    /// The private key that belongs to the certificate, where the file of the certificate
    /// does not hold it.
    pub private_key: Option<PrivateKey>,
    /// The password that opens the file of the certificate, where it needs one.
    pub password: Option<String>,
}

impl Clone for ClientCertificate {
    fn clone(&self) -> (copy: Self)
        ensures
            copy == *self,
    {
        ClientCertificate {
            encoding: self.encoding,
            path: self.path.clone(),
            private_key: match &self.private_key {
                Some(key) => Some(key.clone()),
                None => None,
            },
            password: copied(&self.password),
        }
    }
}

impl ClientCertificate {
    /// Get a certificate from a PEM-encoded file.
    ///
    /// The certificate file is read when a request is sent that uses it. A private key is
    /// given where the certificate file does not hold it.
    pub fn pem_file(path: String, private_key: Option<PrivateKey>) -> (certificate: Self)
        ensures
            certificate == (ClientCertificate {
                encoding: Encoding::Pem,
                path,
                private_key,
                password: None,
            }),
    {
        ClientCertificate { encoding: Encoding::Pem, path, private_key, password: None }
    }

    /// Get a certificate from a DER-encoded file.
    ///
    /// The certificate file is read when a request is sent that uses it. A private key is
    /// given where the certificate file does not hold it.
    pub fn der_file(path: String, private_key: Option<PrivateKey>) -> (certificate: Self)
        ensures
            certificate == (ClientCertificate {
                encoding: Encoding::Der,
                path,
                private_key,
                password: None,
            }),
    {
        ClientCertificate { encoding: Encoding::Der, path, private_key, password: None }
    }

    /// Get a certificate and private key from a PKCS #12-encoded file.
    ///
    /// The certificate archive file is read when a request is sent that uses it.
    pub fn p12_file(path: String, password: Option<String>) -> (certificate: Self)
        ensures
            certificate == (ClientCertificate {
                encoding: Encoding::Pkcs12,
                path,
                private_key: None,
                password,
            }),
    {
        ClientCertificate { encoding: Encoding::Pkcs12, path, private_key: None, password }
    }

    /// The settings of the private key, where the certificate has one of its own.
    pub open spec fn key_settings(&self) -> Seq<SettingView> {
        match self.private_key {
            Some(key) => key.settings(),
            None => Seq::empty(),
        }
    }
}

impl SetOpt for ClientCertificate {
    open spec fn settings(&self) -> Seq<SettingView> {
        seq![SettingView::SslCertType(self.encoding.text()), SettingView::SslCert(self.path@)]
            + self.key_settings() + password_settings(self.password)
    }

    fn to_settings(&self) -> (list: Vec<Setting>) {
        let mut list = Vec::new();
        list.push(Setting::SslCertType(self.encoding.name()));
        list.push(Setting::SslCert(self.path.clone()));
        assert(setting_views(list@) =~= seq![
            SettingView::SslCertType(self.encoding.text()),
            SettingView::SslCert(self.path@),
        ]);
        match &self.private_key {
            Some(key) => {
                let mut part = key.to_settings();
                proof {
                    assert(setting_views(list@ + part@) =~= setting_views(list@) + setting_views(
                        part@,
                    ));
                }
                list.append(&mut part);
            },
            None => {
                assert(setting_views(list@) =~= setting_views(list@) + self.key_settings());
            },
        }
        push_password(&mut list, &self.password);
        list
    }

    fn set_opt<H>(&self, easy: &mut curl::easy::Easy2<H>) -> (result: Result<(), curl::Error>) {
        let list = self.to_settings();
        apply_settings(easy, &list)
    }
}

/// A public CA certificate bundle file.
#[derive(Debug, PartialEq, Eq)]
pub struct CaCertificate {
    /// The path of the bundle.
    pub path: String,
}

impl Clone for CaCertificate {
    fn clone(&self) -> (copy: Self)
        ensures
            copy == *self,
    {
        CaCertificate { path: self.path.clone() }
    }
}

impl CaCertificate {
    /// Get a CA certificate from a path to a certificate bundle file.
    pub fn file(path: String) -> (certificate: Self)
        ensures
            certificate == (CaCertificate { path }),
    {
        CaCertificate { path }
    }
}

impl SetOpt for CaCertificate {
    open spec fn settings(&self) -> Seq<SettingView> {
        seq![SettingView::CaInfo(self.path@)]
    }

    fn to_settings(&self) -> (list: Vec<Setting>) {
        let mut list = Vec::new();
        list.push(Setting::CaInfo(self.path.clone()));
        assert(setting_views(list@) =~= self.settings());
        list
    }

    fn set_opt<H>(&self, easy: &mut curl::easy::Easy2<H>) -> (result: Result<(), curl::Error>) {
        let list = self.to_settings();
        apply_settings(easy, &list)
    }
}

/// A list of ciphers to offer for SSL/TLS connections.
#[derive(Debug, PartialEq, Eq)]
pub struct Ciphers {
    list: String,
}

impl Clone for Ciphers {
    fn clone(&self) -> (copy: Self)
        ensures
            copy == *self,
    {
        Ciphers { list: self.list.clone() }
    }
}

impl Ciphers {
    /// The names of the ciphers, separated by colons.
    pub closed spec fn spec_list(&self) -> Seq<char> {
        self.list@
    }

    /// Makes the list of the given ciphers, which are kept in their order.
    pub fn from_iter(ciphers: Vec<String>) -> (list: Self)
        ensures
            list.spec_list() == joined_with(text_views(ciphers@), seq![':']),
    {
        proof {
            reveal_strlit(":");
            assert(":"@ =~= seq![':']);
        }
        Ciphers { list: join(&ciphers, ":") }
    }

    /// Returns the names of the ciphers, separated by colons.
    pub fn list(&self) -> (list: &str)
        ensures
            list@ == self.spec_list(),
    {
        self.list.as_str()
    }
}

impl SetOpt for Ciphers {
    open spec fn settings(&self) -> Seq<SettingView> {
        seq![SettingView::SslCipherList(self.spec_list())]
    }

    fn to_settings(&self) -> (list: Vec<Setting>) {
        let mut list = Vec::new();
        list.push(Setting::SslCipherList(self.list.clone()));
        assert(setting_views(list@) =~= self.settings());
        list
    }

    fn set_opt<H>(&self, easy: &mut curl::easy::Easy2<H>) -> (result: Result<(), curl::Error>) {
        let list = self.to_settings();
        apply_settings(easy, &list)
    }
}

/// A set of options that loosen the checks made on an SSL/TLS connection.
///
/// The default is to loosen nothing. Two sets are put together with `|`.
#[derive(Clone, Copy, Debug, PartialEq, Eq, Structural)]
pub struct SslOption {
    /// Accept a certificate that cannot be traced back to a trusted authority.
    pub invalid_certs: bool,
    /// Accept a certificate without asking whether it was revoked.
    pub revoked_certs: bool,
    /// Accept a certificate that is made out to another host.
    pub invalid_hosts: bool,
}

impl Default for SslOption {
    fn default() -> (options: Self)
        ensures
            options == SslOption::nothing(),
    {
        SslOption::none()
    }
}

impl SslOption {
    /// The set that loosens nothing.
    pub open spec fn nothing() -> SslOption {
        SslOption { invalid_certs: false, revoked_certs: false, invalid_hosts: false }
    }

    /// The set that loosens what `self` or `other` loosens.
    pub open spec fn joined(self, other: SslOption) -> SslOption {
        SslOption {
            invalid_certs: self.invalid_certs || other.invalid_certs,
            revoked_certs: self.revoked_certs || other.revoked_certs,
            invalid_hosts: self.invalid_hosts || other.invalid_hosts,
        }
    }

    /// An empty set of options. This is the default.
    pub fn none() -> (options: Self)
        ensures
            options == SslOption::nothing(),
    {
        SslOption { invalid_certs: false, revoked_certs: false, invalid_hosts: false }
    }

    /// Disables certificate validation.
    ///
    /// You should think very carefully before you use this. If invalid certificates are
    /// trusted, any certificate for any site will be trusted for use. This includes expired
    /// certificates.
    pub fn danger_accept_invalid_certs() -> (options: Self)
        ensures
            options == (SslOption { invalid_certs: true, ..SslOption::nothing() }),
    {
        SslOption { invalid_certs: true, revoked_certs: false, invalid_hosts: false }
    }

    /// Disables certificate revocation checks for backends where such behavior is present.
    pub fn danger_accept_revoked_certs() -> (options: Self)
        ensures
            options == (SslOption { revoked_certs: true, ..SslOption::nothing() }),
    {
        SslOption { invalid_certs: false, revoked_certs: true, invalid_hosts: false }
    }

    /// Disables hostname verification on certificates.
    ///
    /// You should think very carefully before you use this. If hostname verification is
    /// not used, any valid certificate for any site will be trusted for use from any other.
    pub fn danger_accept_invalid_hosts() -> (options: Self)
        ensures
            options == (SslOption { invalid_hosts: true, ..SslOption::nothing() }),
    {
        SslOption { invalid_certs: false, revoked_certs: false, invalid_hosts: true }
    }

    /// Returns whether `self` loosens all that `other` loosens.
    pub fn contains(&self, other: SslOption) -> (all: bool)
        ensures
            all == ((other.invalid_certs ==> self.invalid_certs) && (other.revoked_certs
                ==> self.revoked_certs) && (other.invalid_hosts ==> self.invalid_hosts)),
    {
        (!other.invalid_certs || self.invalid_certs) && (!other.revoked_certs
            || self.revoked_certs) && (!other.invalid_hosts || self.invalid_hosts)
    }
}

impl BitOrSpecImpl for SslOption {
    open spec fn obeys_bitor_spec() -> bool {
        true
    }

    open spec fn bitor_req(self, other: SslOption) -> bool {
        true
    }

    open spec fn bitor_spec(self, other: SslOption) -> SslOption {
        self.joined(other)
    }
}

impl std::ops::BitOr for SslOption {
    type Output = SslOption;

    fn bitor(self, other: SslOption) -> (options: SslOption) {
        SslOption {
            invalid_certs: self.invalid_certs || other.invalid_certs,
            revoked_certs: self.revoked_certs || other.revoked_certs,
            invalid_hosts: self.invalid_hosts || other.invalid_hosts,
        }
    }
}

impl SetOpt for SslOption {
    open spec fn settings(&self) -> Seq<SettingView> {
        seq![
            SettingView::SslNoRevoke(self.revoked_certs),
            SettingView::SslVerifyPeer(!self.invalid_certs),
            SettingView::SslVerifyHost(!self.invalid_hosts),
        ]
    }

    fn to_settings(&self) -> (list: Vec<Setting>) {
        let mut list = Vec::new();
        list.push(Setting::SslNoRevoke(self.revoked_certs));
        list.push(Setting::SslVerifyPeer(!self.invalid_certs));
        list.push(Setting::SslVerifyHost(!self.invalid_hosts));
        assert(setting_views(list@) =~= self.settings());
        list
    }

    fn set_opt<H>(&self, easy: &mut curl::easy::Easy2<H>) -> (result: Result<(), curl::Error>) {
        let list = self.to_settings();
        apply_settings(easy, &list)
    }
}

} // verus!
