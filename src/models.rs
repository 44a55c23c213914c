use crate::clock::now_timestamp;
use crate::fingerprint::{fingerprint, fingerprint_of};
use vstd::prelude::*;
use vstd::string::*;

verus! {

/// Resolved configuration consumed by the pipeline and its collaborators.
#[derive(Debug, Clone)]
pub struct Config {
    pub discord: DiscordConfig,
    pub scraping: ScrapingConfig,
    pub rss: RssConfig,
    pub api: ApiConfig,
    pub proxy: ProxyConfig,
    pub validation: ValidationConfig,
}

#[derive(Debug, Clone)]
pub struct DiscordConfig {
    pub command_prefix: String,
    pub status_message: String,
    pub webhook_url: Option<String>,
    pub channel_id: Option<String>,
}

#[derive(Debug, Clone)]
pub struct ScrapingConfig {
    /// Minutes between two scheduled batches; at least 1 in a valid configuration.
    pub default_interval: u64,
    /// Advisory bound on concurrently running collectors.
    pub max_concurrent: u64,
    pub user_agent: String,
}

#[derive(Debug, Clone)]
pub struct RssConfig {
    pub items_per_feed: u64,
    pub refresh_interval: u64,
}

#[derive(Debug, Clone)]
pub struct ApiConfig {
    pub enable: bool,
    pub port: u16,
    pub rate_limit: u64,
}

#[derive(Debug, Clone)]
pub struct ProxyConfig {
    pub enable: bool,
    pub proxies: String,
    pub rotate_after: u64,
}

#[derive(Debug, Clone)]
pub struct ValidationConfig {
    /// When false the validator is not consulted and every record counts as valid.
    pub enable: bool,
    /// Seconds allowed for one validation request.
    pub timeout: u64,
}

impl Default for Config {
    /// The configuration used where neither a file nor the environment sets a value.
    fn default() -> (r: Config)
        ensures
            r.discord.command_prefix@ == "!"@,
            r.discord.status_message@ == "Scraping coupons"@,
            r.discord.webhook_url is None,
            r.discord.channel_id is None,
            r.scraping.default_interval == 60,
            r.scraping.max_concurrent == 10,
            r.scraping.user_agent@ == "RinKokonoe Coupon Bot/1.0"@,
            r.rss.items_per_feed == 30,
            r.rss.refresh_interval == 60,
            r.api.enable,
            r.api.port == 8080,
            r.api.rate_limit == 60,
            !r.proxy.enable,
            r.proxy.proxies@ == ""@,
            r.proxy.rotate_after == 100,
            r.validation.enable,
            r.validation.timeout == 30,
    {
        Config {
            discord: DiscordConfig {
                command_prefix: String::from_str("!"),
                status_message: String::from_str("Scraping coupons"),
                webhook_url: None,
                channel_id: None,
            },
            scraping: ScrapingConfig {
                default_interval: 60,
                max_concurrent: 10,
                user_agent: String::from_str("RinKokonoe Coupon Bot/1.0"),
            },
            rss: RssConfig { items_per_feed: 30, refresh_interval: 60 },
            api: ApiConfig { enable: true, port: 8080, rate_limit: 60 },
            proxy: ProxyConfig { enable: false, proxies: String::from_str(""), rotate_after: 100 },
            validation: ValidationConfig { enable: true, timeout: 30 },
        }
    }
}

/// Why a configuration was rejected at startup.
#[derive(Debug, Clone, Copy, PartialEq, Eq, Structural)]
pub enum ConfigError {
    /// Neither a bot token nor a webhook URL is available for notifications.
    MissingNotificationChannel,
    /// The scrape interval is below one minute.
    IntervalTooShort,
    /// The API is enabled on a port below 1024.
    PortOutOfRange,
}

/// The first rule a configuration breaks, checked in a fixed order.
pub open spec fn config_error(config: Config, token_present: bool) -> Option<ConfigError> {
    if !token_present && config.discord.webhook_url is None {
        Some(ConfigError::MissingNotificationChannel)
    } else if config.scraping.default_interval < 1 {
        Some(ConfigError::IntervalTooShort)
    } else if config.api.enable && config.api.port < 1024 {
        Some(ConfigError::PortOutOfRange)
    } else {
        None
    }
}

/// Checks a loaded configuration. `token_present` tells whether a bot token
/// was found in the environment.
pub fn validate_config(config: &Config, token_present: bool) -> (r: Result<(), ConfigError>)
    ensures
        r is Ok <==> config_error(*config, token_present) is None,
        r matches Err(e) ==> config_error(*config, token_present) == Some(e),
{
    if !token_present && config.discord.webhook_url.is_none() {
        return Err(ConfigError::MissingNotificationChannel);
    }
    if config.scraping.default_interval < 1 {
        return Err(ConfigError::IntervalTooShort);
    }
    if config.api.enable && config.api.port < 1024 {
        return Err(ConfigError::PortOutOfRange);
    }
    Ok(())
}

/// The closed set of sources an offer can come from.
#[derive(Debug, Clone, Copy, PartialEq, Eq, Structural)]
pub enum CouponSource {
    CursorAI,
    GitHub,
    Replit,
    Warp,
    Tabnine,
    Generic,
}

impl CouponSource {
    /// The label under which records of this source are stored.
    pub open spec fn label(self) -> Seq<char> {
        match self {
            CouponSource::CursorAI => "Cursor AI"@,
            CouponSource::GitHub => "GitHub"@,
            CouponSource::Replit => "Replit"@,
            CouponSource::Warp => "Warp"@,
            CouponSource::Tabnine => "Tabnine"@,
            CouponSource::Generic => "Generic"@,
        }
    }

    /// The source's label as an owned string.
    pub fn to_string(&self) -> (r: String)
        ensures
            r@ == self.label(),
    {
        match self {
            CouponSource::CursorAI => String::from_str("Cursor AI"),
            CouponSource::GitHub => String::from_str("GitHub"),
            CouponSource::Replit => String::from_str("Replit"),
            CouponSource::Warp => String::from_str("Warp"),
            CouponSource::Tabnine => String::from_str("Tabnine"),
            CouponSource::Generic => String::from_str("Generic"),
        }
    }
}

/// One offer, either a freshly collected candidate or a stored record.
/// Instants are whole seconds since the Unix epoch.
#[derive(Debug, Clone)]
pub struct Coupon {
    /// Store-assigned identity; `None` until the record is persisted.
    pub id: Option<i64>,
    pub name: String,
    pub description: String,
    /// Discount in whole percent, where the source states one.
    pub discount_percentage: Option<u64>,
    pub code: String,
    pub url: String,
    /// One of the source labels, or any other text for an unknown source.
    pub source: String,
    pub expiry: Option<i64>,
    pub created_at: Option<i64>,
    pub validated_at: Option<i64>,
    pub is_valid: bool,
    pub is_posted: bool,
    /// Deduplication fingerprint of (name, code, url).
    pub hash: String,
}

impl Coupon {
    /// Whether the record has an expiry that lies strictly before `now`.
    pub open spec fn expired_at(self, now: i64) -> bool {
        self.expiry matches Some(e) && e < now
    }

    /// The record invariant: a posted record is valid and has been validated.
    pub open spec fn well_formed(self) -> bool {
        self.is_posted ==> (self.is_valid && self.validated_at is Some)
    }

    /// A fresh candidate observed at `now`: not yet stored, validated or posted,
    /// with its fingerprint computed from name, code and URL.
    pub fn new_at(
        name: String,
        description: String,
        discount_percentage: Option<u64>,
        code: String,
        url: String,
        source: String,
        expiry: Option<i64>,
        now: i64,
    ) -> (c: Coupon)
        ensures
            c.id is None,
            c.name == name,
            c.description == description,
            c.discount_percentage == discount_percentage,
            c.code == code,
            c.url == url,
            c.source == source,
            c.expiry == expiry,
            c.created_at == Some(now),
            c.validated_at is None,
            !c.is_valid,
            !c.is_posted,
            c.hash@ == fingerprint_of(name@, code@, url@),
            c.well_formed(),
    {
        let hash = fingerprint(name.as_str(), code.as_str(), url.as_str());
        Coupon {
            id: None,
            name,
            description,
            discount_percentage,
            code,
            url,
            source,
            expiry,
            created_at: Some(now),
            validated_at: None,
            is_valid: false,
            is_posted: false,
            hash,
        }
    }

    /// A fresh candidate observed now (see `new_at`).
    pub fn new(
        name: String,
        description: String,
        discount_percentage: Option<u64>,
        code: String,
        url: String,
        source: String,
        expiry: Option<i64>,
    ) -> (c: Coupon)
        ensures
            c.id is None,
            c.name == name,
            c.description == description,
            c.discount_percentage == discount_percentage,
            c.code == code,
            c.url == url,
            c.source == source,
            c.expiry == expiry,
            c.created_at is Some,
            c.validated_at is None,
            !c.is_valid,
            !c.is_posted,
            c.hash@ == fingerprint_of(name@, code@, url@),
    {
        let now = now_timestamp();
        Coupon::new_at(name, description, discount_percentage, code, url, source, expiry, now)
    }

    /// Whether the record's expiry lies strictly before `now`.
    pub fn is_expired_at(&self, now: i64) -> (r: bool)
        ensures
            r == self.expired_at(now),
    {
        match self.expiry {
            Some(e) => e < now,
            None => false,
        }
    }

    /// Whether the record is valid, not yet posted and not expired at `now`:
    /// the records a later cycle may still announce.
    pub open spec fn announcement_pending(self, now: i64) -> bool {
        self.is_valid && !self.is_posted && !self.expired_at(now)
    }

    /// Whether the record still awaits its announcement at `now`.
    pub fn awaits_announcement(&self, now: i64) -> (r: bool)
        ensures
            r == self.announcement_pending(now),
    {
        self.is_valid && !self.is_posted && !self.is_expired_at(now)
    }

    /// Whether the record's expiry has passed, judged by the current clock
    /// (the decision itself is `is_expired_at`). A record without expiry never
    /// expires.
    pub fn is_expired(&self) -> (r: bool)
        ensures
            exists|t: i64| r == self.expired_at(t),
            self.expiry is None ==> !r,
    {
        let now = now_timestamp();
        self.is_expired_at(now)
    }
}

/// The outcome of validating one record.
#[derive(Debug, Clone)]
pub struct ValidationResult {
    pub is_valid: bool,
    pub message: Option<String>,
    pub validated_at: i64,
}

} // verus!
