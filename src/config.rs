use vstd::prelude::*;

verus! {

/// Settings of the capture, batching and delivery pipeline.
#[derive(Clone)]
pub struct Config {
    /// Endpoint that events are POSTed to.
    pub output_url: String,
    /// Bearer token sent with each HTTP request, when present.
    pub api_key: Option<String>,
    /// Broker address; no broker channel is opened when absent.
    pub rabbitmq_url: Option<String>,
    pub rabbitmq_exchange: String,
    pub rabbitmq_routing_key: String,
    pub track_mouse_movement: bool,
    pub screenshot_enabled: bool,
    pub screenshot_interval_secs: u64,
    pub screenshot_quality: u8,
    /// A batch is flushed as soon as it holds this many events.
    pub batch_size: usize,
    /// A non-empty batch is flushed after this long without a new event.
    pub batch_timeout_ms: u64,
    /// Number of HTTP attempts made for one event.
    pub max_retries: u32,
    /// Pause between two HTTP attempts.
    pub retry_delay_ms: u64,
    pub filter_passwords: bool,
    pub excluded_apps: Vec<String>,
}

pub const DEFAULT_BATCH_SIZE: usize = 100;
pub const DEFAULT_BATCH_TIMEOUT_MS: u64 = 5000;
pub const DEFAULT_MAX_RETRIES: u32 = 3;
pub const DEFAULT_RETRY_DELAY_MS: u64 = 1000;
pub const DEFAULT_SCREENSHOT_INTERVAL_SECS: u64 = 300;

/// The value that the settings hold when nothing overrides them.
pub open spec fn is_default_config(c: Config) -> bool {
    &&& c.output_url@ == "http://localhost:8080/api/events"@
    &&& c.api_key.is_none()
    &&& c.rabbitmq_url.is_none()
    &&& c.rabbitmq_exchange@ == "activity_events"@
    &&& c.rabbitmq_routing_key@ == "input.events"@
    &&& !c.track_mouse_movement
    &&& c.screenshot_enabled
    &&& c.screenshot_interval_secs == DEFAULT_SCREENSHOT_INTERVAL_SECS
    &&& c.screenshot_quality == 75
    &&& c.batch_size == DEFAULT_BATCH_SIZE
    &&& c.batch_timeout_ms == DEFAULT_BATCH_TIMEOUT_MS
    &&& c.max_retries == DEFAULT_MAX_RETRIES
    &&& c.retry_delay_ms == DEFAULT_RETRY_DELAY_MS
    &&& c.filter_passwords
    &&& c.excluded_apps@.len() == 3
    &&& c.excluded_apps@[0]@ == "KeePass"@
    &&& c.excluded_apps@[1]@ == "1Password"@
    &&& c.excluded_apps@[2]@ == "Bitwarden"@
}

impl Default for Config {
    fn default() -> (r: Self)
        ensures
            is_default_config(r),
    {
        Config {
            output_url: "http://localhost:8080/api/events".to_string(),
            api_key: None,
            rabbitmq_url: None,
            rabbitmq_exchange: "activity_events".to_string(),
            rabbitmq_routing_key: "input.events".to_string(),
            track_mouse_movement: false,
            screenshot_enabled: true,
            screenshot_interval_secs: DEFAULT_SCREENSHOT_INTERVAL_SECS,
            screenshot_quality: 75,
            batch_size: DEFAULT_BATCH_SIZE,
            batch_timeout_ms: DEFAULT_BATCH_TIMEOUT_MS,
            max_retries: DEFAULT_MAX_RETRIES,
            retry_delay_ms: DEFAULT_RETRY_DELAY_MS,
            filter_passwords: true,
            excluded_apps: vec![
                "KeePass".to_string(),
                "1Password".to_string(),
                "Bitwarden".to_string(),
            ],
        }
    }
}

impl Config {
    /// Whether a screen capture is due, `since_last_ms` milliseconds after the
    /// last one: captures are on and a whole interval has gone by.
    pub fn screenshot_due(&self, since_last_ms: u64) -> (r: bool)
        ensures
            r == (self.screenshot_enabled && since_last_ms as int >= self.screenshot_interval_secs
                as int * 1000),
    {
        if !self.screenshot_enabled {
            false
        } else if self.screenshot_interval_secs > u64::MAX / 1000 {
            false
        } else {
            since_last_ms >= self.screenshot_interval_secs * 1000
        }
    }
}

/// What a textual switch reads as: `"true"` and `"false"` are read, anything
/// else leaves the fallback.
pub open spec fn switch_value(text: Seq<char>, fallback: bool) -> bool {
    if text == "true"@ {
        true
    } else if text == "false"@ {
        false
    } else {
        fallback
    }
}

/// Reads a textual switch, keeping `fallback` when the text is neither
/// `"true"` nor `"false"`.
pub fn parse_switch(text: &String, fallback: bool) -> (r: bool)
    ensures
        r == switch_value(text@, fallback),
{
    if *text == "true".to_string() {
        true
    } else if *text == "false".to_string() {
        false
    } else {
        fallback
    }
}

/// Values supplied from outside the settings file, each one optional.
pub struct Overrides {
    pub output_url: Option<String>,
    pub api_key: Option<String>,
    pub track_mouse_movement: Option<String>,
    pub screenshot_enabled: Option<String>,
}

/// Applies the outside values on top of `config`: a given URL or key replaces
/// the setting; a given switch that cannot be read turns mouse tracking off
/// and screenshots on.
pub fn apply_overrides(config: &mut Config, overrides: Overrides)
    ensures
        final(config).output_url == (match overrides.output_url {
            Some(u) => u,
            None => old(config).output_url,
        }),
        final(config).api_key == (match overrides.api_key {
            Some(k) => Some(k),
            None => old(config).api_key,
        }),
        final(config).track_mouse_movement == (match overrides.track_mouse_movement {
            Some(t) => switch_value(t@, false),
            None => old(config).track_mouse_movement,
        }),
        final(config).screenshot_enabled == (match overrides.screenshot_enabled {
            Some(t) => switch_value(t@, true),
            None => old(config).screenshot_enabled,
        }),
        final(config).rabbitmq_url == old(config).rabbitmq_url,
        final(config).rabbitmq_exchange == old(config).rabbitmq_exchange,
        final(config).rabbitmq_routing_key == old(config).rabbitmq_routing_key,
        final(config).screenshot_interval_secs == old(config).screenshot_interval_secs,
        final(config).screenshot_quality == old(config).screenshot_quality,
        final(config).batch_size == old(config).batch_size,
        final(config).batch_timeout_ms == old(config).batch_timeout_ms,
        final(config).max_retries == old(config).max_retries,
        final(config).retry_delay_ms == old(config).retry_delay_ms,
        final(config).filter_passwords == old(config).filter_passwords,
        final(config).excluded_apps == old(config).excluded_apps,
{
    let Overrides { output_url, api_key, track_mouse_movement, screenshot_enabled } = overrides;
    if let Some(u) = output_url {
        config.output_url = u;
    }
    if let Some(k) = api_key {
        config.api_key = Some(k);
    }
    if let Some(t) = track_mouse_movement {
        config.track_mouse_movement = parse_switch(&t, false);
    }
    if let Some(t) = screenshot_enabled {
        config.screenshot_enabled = parse_switch(&t, true);
    }
}

} // verus!
