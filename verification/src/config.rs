//! Configuration snapshots. A snapshot is an immutable value consumed per
//! logical operation; a reload swaps the whole value atomically, so no
//! operation observes a partially updated configuration.

use vstd::prelude::*;
use crate::pattern::Pattern;
use crate::task::{clone_opt_string, TaskStatus};

verus! {

/// A span of wall-clock time, in whole seconds.
#[derive(Clone, Copy, PartialEq, Eq, Structural, Debug)]
pub struct TimeSpan {
    pub secs: u64,
}

impl TimeSpan {
    pub fn from_secs(secs: u64) -> (r: Self)
        ensures
            r.secs == secs,
    {
        TimeSpan { secs }
    }
}

impl Default for TimeSpan {
    fn default() -> (r: Self)
        ensures
            r.secs == 0,
    {
        TimeSpan { secs: 0 }
    }
}

/// Startup delay used when the configuration names none: one second.
pub fn default_delay_start() -> (r: TimeSpan)
    ensures
        r.secs == 1,
{
    TimeSpan { secs: 1 }
}

/// Age cutoff used when the configuration names none: one day.
pub fn default_ignore_older_than() -> (r: TimeSpan)
    ensures
        r.secs == 60 * 60 * 24,
{
    TimeSpan { secs: 60 * 60 * 24 }
}

/// How the external capture executable is launched.
pub struct YtarchiveConfig {
    pub executable_path: String,
    pub working_directory: String,
    pub args: Vec<String>,
    pub quality: String,
    pub delay_start: TimeSpan,
}

impl Default for YtarchiveConfig {
    fn default() -> (r: Self)
        ensures
            r.executable_path@ == Seq::<char>::empty(),
            r.working_directory@ == Seq::<char>::empty(),
            r.args@ == Seq::<String>::empty(),
            r.quality@ == Seq::<char>::empty(),
            r.delay_start.secs == 0,
    {
        YtarchiveConfig {
            executable_path: String::new(),
            working_directory: String::new(),
            args: Vec::new(),
            quality: String::new(),
            delay_start: TimeSpan { secs: 0 },
        }
    }
}

/// Scanning parameters shared by every source.
pub struct ScraperConfig {
    pub rss: ScraperRSSConfig,
}

impl Default for ScraperConfig {
    fn default() -> (r: Self)
        ensures
            r.rss.poll_interval.secs == 0,
            r.rss.ignore_older_than.secs == 0,
    {
        ScraperConfig { rss: ScraperRSSConfig::default() }
    }
}

/// Feed polling parameters: how often each source is polled and how old an
/// item may be before it is ignored.
pub struct ScraperRSSConfig {
    pub poll_interval: TimeSpan,
    pub ignore_older_than: TimeSpan,
}

impl Default for ScraperRSSConfig {
    fn default() -> (r: Self)
        ensures
            r.poll_interval.secs == 0,
            r.ignore_older_than.secs == 0,
    {
        ScraperRSSConfig { poll_interval: TimeSpan { secs: 0 }, ignore_older_than: TimeSpan { secs: 0 } }
    }
}

/// Which notification backends are configured.
pub struct NotifierConfig {
    pub discord: Option<DiscordConfig>,
    pub slack: Option<SlackConfig>,
}

/// Discord webhook backend: where to post and on which statuses.
pub struct DiscordConfig {
    pub webhook_url: String,
    pub notify_on: Vec<TaskStatus>,
}

/// Slack webhook backend: where to post and on which statuses.
pub struct SlackConfig {
    pub webhook_url: String,
    pub notify_on: Vec<TaskStatus>,
}

/// The control-plane listener, and whether it may edit the configuration.
pub struct WebserverConfig {
    pub bind_address: Option<String>,
    pub unix_path: Option<String>,
    pub allow_config_edit: bool,
}

impl Default for WebserverConfig {
    fn default() -> (r: Self)
        ensures
            r.bind_address is None,
            r.unix_path is None,
            !r.allow_config_edit,
    {
        WebserverConfig { bind_address: None, unix_path: None, allow_config_edit: false }
    }
}

/// One watched channel: identity, display name, match patterns, whether the
/// description is matched too, destination directory, and the cached picture.
pub struct ChannelConfig {
    pub id: String,
    pub name: String,
    pub filters: Vec<Pattern>,
    pub match_description: bool,
    pub outpath: String,
    /// If not present, it is looked up at runtime and cached here.
    pub picture_url: Option<String>,
}

impl Default for ChannelConfig {
    fn default() -> (r: Self)
        ensures
            r.id@ == Seq::<char>::empty(),
            r.name@ == Seq::<char>::empty(),
            r.filters@ == Seq::<Pattern>::empty(),
            !r.match_description,
            r.outpath@ == Seq::<char>::empty(),
            r.picture_url is None,
    {
        ChannelConfig {
            id: String::new(),
            name: String::new(),
            filters: Vec::new(),
            match_description: false,
            outpath: String::new(),
            picture_url: None,
        }
    }
}

/// The whole configuration, with the path it was loaded from.
pub struct Config {
    pub ytarchive: YtarchiveConfig,
    pub scraper: ScraperConfig,
    pub notifier: Option<NotifierConfig>,
    pub webserver: Option<WebserverConfig>,
    pub channel: Vec<ChannelConfig>,
    pub config_path: String,
}

impl Default for Config {
    fn default() -> (r: Self)
        ensures
            r.ytarchive.executable_path@ == Seq::<char>::empty(),
            r.ytarchive.working_directory@ == Seq::<char>::empty(),
            r.ytarchive.args@ == Seq::<String>::empty(),
            r.ytarchive.quality@ == Seq::<char>::empty(),
            r.ytarchive.delay_start.secs == 0,
            r.scraper.rss.poll_interval.secs == 0,
            r.scraper.rss.ignore_older_than.secs == 0,
            r.notifier is None,
            r.webserver is None,
            r.channel@ == Seq::<ChannelConfig>::empty(),
            r.config_path@ == Seq::<char>::empty(),
    {
        Config {
            ytarchive: YtarchiveConfig::default(),
            scraper: ScraperConfig::default(),
            notifier: None,
            webserver: None,
            channel: Vec::new(),
            config_path: String::new(),
        }
    }
}

fn clone_string_vec(v: &Vec<String>) -> (r: Vec<String>)
    ensures
        r@ == v@,
{
    let mut out: Vec<String> = Vec::new();
    let mut i: usize = 0;
    while i < v.len()
        invariant
            i <= v@.len(),
            out@ == v@.take(i as int),
        decreases v@.len() - i,
    {
        out.push(v[i].clone());
        proof {
            assert(out@ =~= v@.take(i as int + 1));
        }
        i = i + 1;
    }
    proof {
        assert(out@ =~= v@);
    }
    out
}

fn clone_status_vec(v: &Vec<TaskStatus>) -> (r: Vec<TaskStatus>)
    ensures
        r@ == v@,
{
    let mut out: Vec<TaskStatus> = Vec::new();
    let mut i: usize = 0;
    while i < v.len()
        invariant
            i <= v@.len(),
            out@ == v@.take(i as int),
        decreases v@.len() - i,
    {
        out.push(v[i]);
        proof {
            assert(out@ =~= v@.take(i as int + 1));
        }
        i = i + 1;
    }
    proof {
        assert(out@ =~= v@);
    }
    out
}

fn clone_pattern_vec(v: &Vec<Pattern>) -> (r: Vec<Pattern>)
    ensures
        r@ == v@,
{
    let mut out: Vec<Pattern> = Vec::new();
    let mut i: usize = 0;
    while i < v.len()
        invariant
            i <= v@.len(),
            out@ == v@.take(i as int),
        decreases v@.len() - i,
    {
        out.push(v[i].clone());
        proof {
            assert(out@ =~= v@.take(i as int + 1));
        }
        i = i + 1;
    }
    proof {
        assert(out@ =~= v@);
    }
    out
}

/// Field-for-field equality, observing vectors by their contents.
pub open spec fn ytarchive_config_eq(a: YtarchiveConfig, b: YtarchiveConfig) -> bool {
    &&& a.executable_path == b.executable_path
    &&& a.working_directory == b.working_directory
    &&& a.args@ == b.args@
    &&& a.quality == b.quality
    &&& a.delay_start == b.delay_start
}

/// Field-for-field equality, observing vectors by their contents.
pub open spec fn discord_config_eq(a: DiscordConfig, b: DiscordConfig) -> bool {
    a.webhook_url == b.webhook_url && a.notify_on@ == b.notify_on@
}

/// Field-for-field equality, observing vectors by their contents.
pub open spec fn slack_config_eq(a: SlackConfig, b: SlackConfig) -> bool {
    a.webhook_url == b.webhook_url && a.notify_on@ == b.notify_on@
}

/// Field-for-field equality, observing vectors by their contents.
pub open spec fn notifier_config_eq(a: NotifierConfig, b: NotifierConfig) -> bool {
    &&& (match (a.discord, b.discord) {
        (Some(x), Some(y)) => discord_config_eq(x, y),
        (None, None) => true,
        _ => false,
    })
    &&& (match (a.slack, b.slack) {
        (Some(x), Some(y)) => slack_config_eq(x, y),
        (None, None) => true,
        _ => false,
    })
}

/// Field-for-field equality, observing vectors by their contents.
pub open spec fn channel_config_eq(a: ChannelConfig, b: ChannelConfig) -> bool {
    &&& a.id == b.id
    &&& a.name == b.name
    &&& a.filters@ == b.filters@
    &&& a.match_description == b.match_description
    &&& a.outpath == b.outpath
    &&& a.picture_url == b.picture_url
}

/// Field-for-field equality, observing vectors by their contents.
pub open spec fn config_eq(a: Config, b: Config) -> bool {
    &&& ytarchive_config_eq(a.ytarchive, b.ytarchive)
    &&& a.scraper == b.scraper
    &&& (match (a.notifier, b.notifier) {
        (Some(x), Some(y)) => notifier_config_eq(x, y),
        (None, None) => true,
        _ => false,
    })
    &&& (match (a.webserver, b.webserver) {
        (Some(x), Some(y)) => x == y,
        (None, None) => true,
        _ => false,
    })
    &&& a.channel@.len() == b.channel@.len()
    &&& (forall|i: int|
        0 <= i < a.channel@.len() ==> channel_config_eq(
            #[trigger] a.channel@[i],
            #[trigger] b.channel@[i],
        ))
    &&& a.config_path == b.config_path
}

impl Clone for YtarchiveConfig {
    fn clone(&self) -> (res: Self)
        ensures
            ytarchive_config_eq(res, *self),
    {
        YtarchiveConfig {
            executable_path: self.executable_path.clone(),
            working_directory: self.working_directory.clone(),
            args: clone_string_vec(&self.args),
            quality: self.quality.clone(),
            delay_start: self.delay_start,
        }
    }
}

impl Clone for DiscordConfig {
    fn clone(&self) -> (res: Self)
        ensures
            discord_config_eq(res, *self),
    {
        DiscordConfig {
            webhook_url: self.webhook_url.clone(),
            notify_on: clone_status_vec(&self.notify_on),
        }
    }
}

impl Clone for SlackConfig {
    fn clone(&self) -> (res: Self)
        ensures
            slack_config_eq(res, *self),
    {
        SlackConfig {
            webhook_url: self.webhook_url.clone(),
            notify_on: clone_status_vec(&self.notify_on),
        }
    }
}

impl Clone for NotifierConfig {
    fn clone(&self) -> (res: Self)
        ensures
            notifier_config_eq(res, *self),
    {
        NotifierConfig {
            discord: match &self.discord {
                Some(d) => Some(d.clone()),
                None => None,
            },
            slack: match &self.slack {
                Some(s) => Some(s.clone()),
                None => None,
            },
        }
    }
}

impl Clone for WebserverConfig {
    fn clone(&self) -> (res: Self)
        ensures
            res == *self,
    {
        WebserverConfig {
            bind_address: clone_opt_string(&self.bind_address),
            unix_path: clone_opt_string(&self.unix_path),
            allow_config_edit: self.allow_config_edit,
        }
    }
}

impl Clone for ChannelConfig {
    fn clone(&self) -> (res: Self)
        ensures
            channel_config_eq(res, *self),
    {
        ChannelConfig {
            id: self.id.clone(),
            name: self.name.clone(),
            filters: clone_pattern_vec(&self.filters),
            match_description: self.match_description,
            outpath: self.outpath.clone(),
            picture_url: clone_opt_string(&self.picture_url),
        }
    }
}

fn clone_channel_vec(v: &Vec<ChannelConfig>) -> (r: Vec<ChannelConfig>)
    ensures
        r@.len() == v@.len(),
        forall|k: int|
            0 <= k < v@.len() ==> channel_config_eq(#[trigger] r@[k], #[trigger] v@[k]),
{
    let mut out: Vec<ChannelConfig> = Vec::new();
    let mut i: usize = 0;
    while i < v.len()
        invariant
            i <= v@.len(),
            out@.len() == i,
            forall|k: int|
                0 <= k < i ==> channel_config_eq(#[trigger] out@[k], #[trigger] v@[k]),
        decreases v@.len() - i,
    {
        out.push(v[i].clone());
        i = i + 1;
    }
    out
}

impl Clone for Config {
    fn clone(&self) -> (res: Self)
        ensures
            config_eq(res, *self),
    {
        Config {
            ytarchive: self.ytarchive.clone(),
            scraper: ScraperConfig { rss: ScraperRSSConfig {
                poll_interval: self.scraper.rss.poll_interval,
                ignore_older_than: self.scraper.rss.ignore_older_than,
            } },
            notifier: match &self.notifier {
                Some(n) => Some(n.clone()),
                None => None,
            },
            webserver: match &self.webserver {
                Some(w) => Some(w.clone()),
                None => None,
            },
            channel: clone_channel_vec(&self.channel),
            config_path: self.config_path.clone(),
        }
    }
}

/// Why a configuration could not be taken over.
#[derive(Clone, Copy, PartialEq, Eq, Structural, Debug)]
pub enum ConfigError {
    /// The configuration file could not be read.
    Unreadable,
    /// The configuration text could not be parsed.
    Invalid,
}

/// Attaches the path a freshly parsed configuration was read from; a failed
/// read or parse is passed through unchanged.
pub fn load_config(parsed: Result<Config, ConfigError>, path: &str) -> (r: Result<Config, ConfigError>)
    ensures
        (match parsed {
            Ok(c) => r matches Ok(c2) && c2 == (Config { config_path: c2.config_path, ..c })
                && c2.config_path@ == path@,
            Err(e) => r == Err::<Config, ConfigError>(e),
        }),
{
    match parsed {
        Ok(mut c) => {
            c.config_path = path.to_owned();
            Ok(c)
        },
        Err(e) => Err(e),
    }
}

impl Config {
    /// Replaces this configuration with a freshly parsed one, keeping the
    /// path it is loaded from. A failed read or parse changes nothing: the
    /// previous snapshot remains fully in effect and the error is reported.
    pub fn reload(&mut self, parsed: Result<Config, ConfigError>) -> (r: Result<(), ConfigError>)
        ensures
            (match parsed {
                Ok(c) => r is Ok
                    && *final(self) == (Config { config_path: old(self).config_path, ..c }),
                Err(e) => r == Err::<(), ConfigError>(e) && *final(self) == *old(self),
            }),
    {
        match parsed {
            Ok(mut c) => {
                c.config_path = self.config_path.clone();
                *self = c;
                Ok(())
            },
            Err(e) => Err(e),
        }
    }
}

} // verus!
