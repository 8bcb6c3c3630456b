//! User settings and their defaults.

use vstd::prelude::*;

verus! {

/// Logging settings.
#[derive(Debug)]
pub struct Logging {
    pub enable: bool,
    pub path: Option<String>,
    pub level: String,
}

/// Credentials of the remote provider.
#[derive(Debug)]
pub struct YoudaoConfig {
    pub api_id: Option<String>,
    pub api_key: Option<String>,
}

/// All user settings.
#[derive(Debug)]
pub struct Config {
    pub paging: bool,
    pub pager_command: String,
    pub english_only: bool,
    pub theme: String,
    pub http_proxy: Option<String>,
    pub clear_screen: bool,
    pub enable_emoji: bool,
    pub freq_alert: bool,
    pub logging: Logging,
    pub youdao: YoudaoConfig,
}

pub fn default_paging() -> (r: bool)
    ensures
        r,
{
    true
}

/// The pager run by default: `more` on Windows, `less -RF` elsewhere.
pub fn default_pager_command(windows: bool) -> (r: String)
    ensures
        r@ == (if windows { "more"@ } else { "less -RF"@ }),
{
    if windows {
        "more".to_owned()
    } else {
        "less -RF".to_owned()
    }
}

pub fn default_theme() -> (r: String)
    ensures
        r@ == "temp"@,
{
    "temp".to_owned()
}

pub fn default_enable_emoji() -> (r: bool)
    ensures
        r,
{
    true
}

pub fn default_enable() -> (r: bool)
    ensures
        r,
{
    true
}

pub fn default_log_level() -> (r: String)
    ensures
        r@ == "WARN"@,
{
    "WARN".to_owned()
}

impl Default for Logging {
    fn default() -> (r: Self)
        ensures
            r.enable,
            r.path is None,
            r.level@ == "WARN"@,
    {
        Logging { enable: default_enable(), path: None, level: default_log_level() }
    }
}

impl Default for YoudaoConfig {
    fn default() -> (r: Self)
        ensures
            r.api_id is None,
            r.api_key is None,
    {
        YoudaoConfig { api_id: None, api_key: None }
    }
}

impl Config {
    /// The default settings on the given platform.
    pub fn defaults_for(windows: bool) -> (r: Self)
        ensures
            r.paging,
            r.pager_command@ == (if windows { "more"@ } else { "less -RF"@ }),
            !r.english_only,
            r.theme@ == "temp"@,
            r.http_proxy is None,
            !r.clear_screen,
            r.enable_emoji,
            !r.freq_alert,
            r.logging.enable,
            r.logging.path is None,
            r.logging.level@ == "WARN"@,
            r.youdao.api_id is None,
            r.youdao.api_key is None,
    {
        Config {
            paging: default_paging(),
            pager_command: default_pager_command(windows),
            english_only: false,
            theme: default_theme(),
            http_proxy: None,
            clear_screen: false,
            enable_emoji: default_enable_emoji(),
            freq_alert: false,
            logging: Logging::default(),
            youdao: YoudaoConfig::default(),
        }
    }
}

impl Default for Config {
    /// The default settings outside Windows.
    fn default() -> (r: Self)
        ensures
            r.paging,
            r.pager_command@ == "less -RF"@,
            !r.english_only,
            r.theme@ == "temp"@,
            r.http_proxy is None,
            !r.clear_screen,
            r.enable_emoji,
            !r.freq_alert,
            r.logging.enable,
            r.logging.path is None,
            r.logging.level@ == "WARN"@,
            r.youdao.api_id is None,
            r.youdao.api_key is None,
    {
        Config::defaults_for(false)
    }
}

/// The log filter of a configured level; an unknown level means warnings.
pub open spec fn log_filter_of(level: Seq<char>) -> Seq<char> {
    if level == "DEBUG"@ {
        "debug"@
    } else if level == "INFO"@ {
        "info"@
    } else if level == "WARN"@ {
        "warn"@
    } else if level == "ERROR"@ {
        "error"@
    } else {
        "warn"@
    }
}

/// The log filter of a configured level.
pub fn log_filter(level: &str) -> (r: &'static str)
    ensures
        r@ == log_filter_of(level@),
{
    let l = level.to_owned();
    if l == "DEBUG".to_owned() {
        "debug"
    } else if l == "INFO".to_owned() {
        "info"
    } else if l == "WARN".to_owned() {
        "warn"
    } else if l == "ERROR".to_owned() {
        "error"
    } else {
        "warn"
    }
}

/// How requests reach the network.
#[derive(Debug, Clone, Copy, PartialEq, Eq, Structural)]
pub enum ProxyKind {
    /// No proxy.
    Direct,
    /// A proxy for HTTP.
    Http,
    /// A proxy for HTTPS.
    Https,
}

/// The kind of proxy a setting asks for: none when absent or empty, HTTPS
/// when the URL starts with `https://`, HTTP otherwise.
pub open spec fn proxy_kind_of(proxy: Option<Seq<char>>) -> ProxyKind {
    match proxy {
        None => ProxyKind::Direct,
        Some(p) => if p.len() == 0 {
            ProxyKind::Direct
        } else if p.len() >= 8 && p.subrange(0, 8) == "https://"@ {
            ProxyKind::Https
        } else {
            ProxyKind::Http
        },
    }
}

/// The kind of proxy a setting asks for.
pub fn proxy_kind(proxy: &Option<String>) -> (r: ProxyKind)
    ensures
        r == proxy_kind_of(proxy.deep_view()),
{
    match proxy {
        None => ProxyKind::Direct,
        Some(p) => {
            let n = p.as_str().unicode_len();
            if n == 0 {
                ProxyKind::Direct
            } else if n >= 8 && p.as_str().substring_char(0, 8).to_owned() == "https://".to_owned() {
                ProxyKind::Https
            } else {
                ProxyKind::Http
            }
        },
    }
}

} // verus!
