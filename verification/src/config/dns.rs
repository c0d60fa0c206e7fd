//! Configuration of DNS resolution.

use crate::config::{apply_settings, join, joined, setting_views, text_views};
use crate::config::{SetOpt, Setting, SettingView};
use std::time::Duration;
use vstd::prelude::*;
use vstd::std_specs::convert::FromSpecImpl;
use vstd::string::*;

verus! {

/// The duration of the given number of whole seconds, as `Duration::from_secs` makes it.
pub uninterp spec fn seconds(secs: u64) -> Duration;

/// `Duration::from_secs` of std returns the duration of `secs` whole seconds.
pub assume_specification[ Duration::from_secs ](secs: u64) -> (time: Duration)
    ensures
        time == seconds(secs),
;

/// DNS caching configuration.
///
/// The default configuration is for caching to be enabled with a 60 second entry timeout.
#[derive(Debug, PartialEq)]
pub enum DnsCache {
    /// Disable DNS caching entirely.
    Disable,
    /// Enable DNS caching and keep entries in the cache for the given duration.
    Timeout(Duration),
    /// Enable DNS caching and cache entries forever.
    Forever,
}

impl Clone for DnsCache {
    fn clone(&self) -> (copy: Self)
        ensures
            copy == *self,
    {
        match self {
            DnsCache::Disable => DnsCache::Disable,
            DnsCache::Timeout(time) => DnsCache::Timeout(*time),
            DnsCache::Forever => DnsCache::Forever,
        }
    }
}

impl Default for DnsCache {
    fn default() -> (cache: Self)
        ensures
            cache == DnsCache::Timeout(seconds(60)),
    {
        DnsCache::Timeout(Duration::from_secs(60))
    }
}

impl FromSpecImpl<Duration> for DnsCache {
    open spec fn obeys_from_spec() -> bool {
        true
    }

    open spec fn from_spec(time: Duration) -> DnsCache {
        DnsCache::Timeout(time)
    }
}

impl From<Duration> for DnsCache {
    fn from(time: Duration) -> (cache: DnsCache) {
        DnsCache::Timeout(time)
    }
}

impl DnsCache {
    /// The time for which the driver is told to remember a resolved name: no time where
    /// caching is disabled, and the greatest number of seconds, which the driver takes for
    /// a time without end, where entries are kept forever.
    pub open spec fn lifetime(&self) -> Duration {
        match self {
            DnsCache::Disable => seconds(0),
            DnsCache::Timeout(time) => *time,
            DnsCache::Forever => seconds(u64::MAX),
        }
    }
}

impl SetOpt for DnsCache {
    open spec fn settings(&self) -> Seq<SettingView> {
        seq![SettingView::DnsCacheTimeout(self.lifetime())]
    }

    fn to_settings(&self) -> (list: Vec<Setting>) {
        let time = match self {
            DnsCache::Disable => Duration::from_secs(0),
            DnsCache::Timeout(time) => *time,
            DnsCache::Forever => Duration::from_secs(u64::MAX),
        };
        let mut list = Vec::new();
        list.push(Setting::DnsCacheTimeout(time));
        assert(setting_views(list@) =~= self.settings());
        list
    }

    fn set_opt<H>(&self, easy: &mut curl::easy::Easy2<H>) -> (result: Result<(), curl::Error>) {
        let list = self.to_settings();
        apply_settings(easy, &list)
    }
}

/// A list of name servers to ask in place of those of the system.
#[derive(Debug, PartialEq)]
pub struct Servers {
    list: String,
}

impl Clone for Servers {
    fn clone(&self) -> (copy: Self)
        ensures
            copy == *self,
    {
        Servers { list: self.list.clone() }
    }
}

impl Servers {
    /// The addresses of the servers, separated by commas.
    pub closed spec fn spec_list(&self) -> Seq<char> {
        self.list@
    }

    /// Makes the list of the given addresses, which are kept in their order.
    pub fn from_iter(addresses: Vec<String>) -> (servers: Self)
        ensures
            servers.spec_list() == joined(text_views(addresses@)),
    {
        proof {
            reveal_strlit(",");
            assert(","@ =~= seq![',']);
        }
        Servers { list: join(&addresses, ",") }
    }

    /// Returns the addresses of the servers, separated by commas.
    pub fn list(&self) -> (list: &str)
        ensures
            list@ == self.spec_list(),
    {
        self.list.as_str()
    }
}

impl SetOpt for Servers {
    open spec fn settings(&self) -> Seq<SettingView> {
        seq![SettingView::DnsServers(self.spec_list())]
    }

    fn to_settings(&self) -> (list: Vec<Setting>) {
        let mut list = Vec::new();
        list.push(Setting::DnsServers(self.list.clone()));
        assert(setting_views(list@) =~= self.settings());
        list
    }

    fn set_opt<H>(&self, easy: &mut curl::easy::Easy2<H>) -> (result: Result<(), curl::Error>) {
        let list = self.to_settings();
        apply_settings(easy, &list)
    }
}

} // verus!
