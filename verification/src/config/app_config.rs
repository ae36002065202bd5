//! Configuration: API endpoint, core, UI, hotkey and subscription settings,
//! with the defaults a missing file or field takes.
use vstd::prelude::*;

use crate::text::owned;

verus! {

/// Default API port.
pub const DEFAULT_API_PORT: u16 = 9090;

/// Default refresh interval in milliseconds.
pub const DEFAULT_REFRESH_MS: u64 = 1000;

/// Default subscription update interval in hours.
pub const DEFAULT_SUB_INTERVAL_HOURS: u32 = 24;

/// The whole configuration.
#[derive(Debug, Clone)]
pub struct AppConfig {
    pub core: CoreConfig,
    pub api: ApiConfig,
    pub ui: UiConfig,
    pub hotkey: HotkeyConfig,
    pub subscription: SubscriptionConfig,
}

/// Which core runs and where it is.
#[derive(Debug, Clone)]
pub struct CoreConfig {
    pub core_type: String,
    pub core_path: String,
}

/// Where the Clash API listens.
#[derive(Debug, Clone)]
pub struct ApiConfig {
    pub host: String,
    pub port: u16,
    pub secret: Option<String>,
}

/// Look and refresh rate.
#[derive(Debug, Clone)]
pub struct UiConfig {
    pub theme: String,
    pub refresh_interval_ms: u64,
}

/// The global hotkey.
#[derive(Debug, Clone)]
pub struct HotkeyConfig {
    pub toggle: Option<String>,
}

/// Automatic subscription updates.
#[derive(Debug, Clone)]
pub struct SubscriptionConfig {
    pub auto_update: bool,
    pub interval_hours: u32,
}

/// `mihomo`.
pub fn default_core_type() -> (r: String)
    ensures
        r@ == "mihomo"@,
{
    owned("mihomo")
}

/// `./core/mihomo`.
pub fn default_core_path() -> (r: String)
    ensures
        r@ == "./core/mihomo"@,
{
    owned("./core/mihomo")
}

/// `127.0.0.1`.
pub fn default_api_host() -> (r: String)
    ensures
        r@ == "127.0.0.1"@,
{
    owned("127.0.0.1")
}

/// 9090.
pub fn default_api_port() -> (r: u16)
    ensures
        r == 9090,
{
    DEFAULT_API_PORT
}

/// `tokyo-night`.
pub fn default_theme() -> (r: String)
    ensures
        r@ == "tokyo-night"@,
{
    owned("tokyo-night")
}

/// 1000 ms.
pub fn default_refresh_ms() -> (r: u64)
    ensures
        r == 1000,
{
    DEFAULT_REFRESH_MS
}

/// 24 hours.
pub fn default_sub_interval() -> (r: u32)
    ensures
        r == 24,
{
    DEFAULT_SUB_INTERVAL_HOURS
}

impl CoreConfig {
    pub open spec fn is_default(&self) -> bool {
        self.core_type@ == "mihomo"@ && self.core_path@ == "./core/mihomo"@
    }
}

impl ApiConfig {
    pub open spec fn is_default(&self) -> bool {
        self.host@ == "127.0.0.1"@ && self.port == 9090 && self.secret is None
    }
}

impl UiConfig {
    pub open spec fn is_default(&self) -> bool {
        self.theme@ == "tokyo-night"@ && self.refresh_interval_ms == 1000
    }
}

impl HotkeyConfig {
    pub open spec fn is_default(&self) -> bool {
        self.toggle is None
    }
}

impl SubscriptionConfig {
    pub open spec fn is_default(&self) -> bool {
        !self.auto_update && self.interval_hours == 24
    }
}

impl AppConfig {
    /// Every section at its default.
    pub open spec fn is_default(&self) -> bool {
        &&& self.core.is_default()
        &&& self.api.is_default()
        &&& self.ui.is_default()
        &&& self.hotkey.is_default()
        &&& self.subscription.is_default()
    }

    /// The config file in the config directory: `<dir>/config.toml`.
    pub fn config_path(config_dir: &str) -> (r: String)
        ensures
            r@ == path_joined(config_dir@, "config.toml"@),
    {
        join_path(config_dir, "config.toml")
    }

    /// The themes directory: `<dir>/themes`.
    pub fn themes_dir(config_dir: &str) -> (r: String)
        ensures
            r@ == path_joined(config_dir@, "themes"@),
    {
        join_path(config_dir, "themes")
    }
}

impl Default for AppConfig {
    fn default() -> (r: Self)
        ensures
            r.is_default(),
    {
        AppConfig {
            core: CoreConfig::default(),
            api: ApiConfig::default(),
            ui: UiConfig::default(),
            hotkey: HotkeyConfig::default(),
            subscription: SubscriptionConfig::default(),
        }
    }
}

impl Default for CoreConfig {
    fn default() -> (r: Self)
        ensures
            r.is_default(),
    {
        CoreConfig { core_type: default_core_type(), core_path: default_core_path() }
    }
}

impl Default for ApiConfig {
    fn default() -> (r: Self)
        ensures
            r.is_default(),
    {
        ApiConfig { host: default_api_host(), port: default_api_port(), secret: None }
    }
}

impl Default for UiConfig {
    fn default() -> (r: Self)
        ensures
            r.is_default(),
    {
        UiConfig { theme: default_theme(), refresh_interval_ms: default_refresh_ms() }
    }
}

impl Default for HotkeyConfig {
    fn default() -> (r: Self)
        ensures
            r.is_default(),
    {
        HotkeyConfig { toggle: None }
    }
}

impl Default for SubscriptionConfig {
    fn default() -> (r: Self)
        ensures
            r.is_default(),
    {
        SubscriptionConfig { auto_update: false, interval_hours: default_sub_interval() }
    }
}

/// What `Path::new(base).join(name)` displays as. The separator and the
/// handling of absolute names are the platform's; the contract names the
/// result and does not spell it out.
pub uninterp spec fn path_joined(base: Seq<char>, name: Seq<char>) -> Seq<char>;

/// `Path::join`: `name` appended to the directory `base`, displayed as a
/// string (named `path_joined`).
#[verifier::external_body]
pub(crate) fn join_path(base: &str, name: &str) -> (r: String)
    ensures
        r@ == path_joined(base@, name@),
{
    std::path::Path::new(base).join(name).display().to_string()
}

} // verus!
