//! Alert configuration: one bound per severity tier, the poll interval and
//! an optional icon, with defaults, merging, validation and rendering.

use vstd::prelude::*;
use vstd::string::*;
use crate::level::{
    classify_thresholds, lemma_bands_partition, level_of, thresholds_descend,
    BatteryNotificationLevel,
};
use crate::paths::{join_path, joined_path};
use crate::text::{decimal_string, decimal_text, replace, replace_all};

verus! {

/// A threshold with the message shown when a charge falls into its tier.
/// A threshold outside 1..=100 counts as not set.
#[derive(Debug, Clone)]
pub struct Bound {
    pub threshold: i64,
    pub title: String,
    pub content: String,
}

/// What a [`Bound`] holds, as plain values.
pub struct BoundView {
    pub threshold: i64,
    pub title: Seq<char>,
    pub content: Seq<char>,
}

impl View for Bound {
    type V = BoundView;

    open spec fn view(&self) -> BoundView {
        BoundView { threshold: self.threshold, title: self.title@, content: self.content@ }
    }
}

/// The settings of the notifier.
#[derive(Debug, Clone)]
pub struct Config {
    pub icon_path: Option<String>,
    pub reminder: Bound,
    pub threat: Bound,
    pub warn: Bound,
    pub interval_ms: u64,
}

/// What a [`Config`] holds, as plain values.
pub struct ConfigView {
    pub icon_path: Option<Seq<char>>,
    pub reminder: BoundView,
    pub threat: BoundView,
    pub warn: BoundView,
    pub interval_ms: u64,
}

impl View for Config {
    type V = ConfigView;

    open spec fn view(&self) -> ConfigView {
        ConfigView {
            icon_path: match self.icon_path {
                Some(p) => Some(p@),
                None => None,
            },
            reminder: self.reminder@,
            threat: self.threat@,
            warn: self.warn@,
            interval_ms: self.interval_ms,
        }
    }
}

/// Why a configuration cannot be used.
#[derive(Debug, Clone, Copy, PartialEq, Eq, Structural)]
pub enum ConfigValidationError {
    /// The reminder threshold does not lie above the warn threshold.
    ReminderNotAboveWarn,
    /// The warn threshold does not lie above the threat threshold.
    WarnNotAboveThreat,
}

/// A settings document that could not be read or understood.
#[derive(Debug, Clone)]
pub struct ConfigParseError {
    pub cause: String,
}

/// The token that a template holds in place of the charge.
pub open spec fn capacity_token() -> Seq<char> {
    "{capacity}"@
}

/// A template with the charge written in place of every token.
pub open spec fn rendered(template: Seq<char>, capacity: u8) -> Seq<char> {
    replace_all(template, capacity_token(), decimal_text(capacity as nat))
}

/// A threshold counts as set when it lies in 1..=100.
pub open spec fn threshold_is_set(threshold: i64) -> bool {
    1 <= threshold <= 100
}

/// The user's threshold where it is set, else the fallback.
pub open spec fn merged_threshold(user: i64, fallback: i64) -> i64 {
    if threshold_is_set(user) {
        user
    } else {
        fallback
    }
}

/// The user's text where it is not empty, else the fallback.
pub open spec fn merged_text(user: Seq<char>, fallback: Seq<char>) -> Seq<char> {
    if user.len() == 0 {
        fallback
    } else {
        user
    }
}

/// The user's bound laid over the fallback, field by field.
pub open spec fn merged_bound(user: BoundView, fallback: BoundView) -> BoundView {
    BoundView {
        threshold: merged_threshold(user.threshold, fallback.threshold),
        title: merged_text(user.title, fallback.title),
        content: merged_text(user.content, fallback.content),
    }
}

/// The user's configuration laid over the fallback. The icon is the
/// user's own, set or not.
pub open spec fn merged_config(user: ConfigView, fallback: ConfigView) -> ConfigView {
    ConfigView {
        icon_path: user.icon_path,
        reminder: merged_bound(user.reminder, fallback.reminder),
        threat: merged_bound(user.threat, fallback.threat),
        warn: merged_bound(user.warn, fallback.warn),
        interval_ms: if user.interval_ms == 0 {
            fallback.interval_ms
        } else {
            user.interval_ms
        },
    }
}

/// The built-in configuration.
pub open spec fn default_config() -> ConfigView {
    ConfigView {
        icon_path: None,
        reminder: BoundView {
            threshold: 30,
            title: "Battery somewhat low"@,
            content: "Charge: {capacity}%"@,
        },
        threat: BoundView {
            threshold: 5,
            title: "Battery very low"@,
            content: "Charge: {capacity}%.\n\nYour computer will shut down soon! You'll regret this!"@,
        },
        warn: BoundView {
            threshold: 15,
            title: "Battery low"@,
            content: "Charge: {capacity}%.\nPlease connect your laptop"@,
        },
        interval_ms: 700,
    }
}

impl Default for Bound {
    /// The unset bound: threshold 0 and empty texts.
    fn default() -> (bound: Bound)
        ensures
            bound@ == (BoundView { threshold: 0, title: Seq::<char>::empty(), content: Seq::<char>::empty() }),
    {
        Bound { threshold: 0, title: String::new(), content: String::new() }
    }
}

impl Bound {
    /// The title with the charge in place of the token.
    pub fn render_title(&self, capacity: u8) -> (title: String)
        ensures
            title@ == rendered(self.title@, capacity),
    {
        let value = decimal_string(capacity);
        replace(self.title.as_str(), "{capacity}", value.as_str())
    }

    /// The body with the charge in place of the token.
    pub fn render_content(&self, capacity: u8) -> (content: String)
        ensures
            content@ == rendered(self.content@, capacity),
    {
        let value = decimal_string(capacity);
        replace(self.content.as_str(), "{capacity}", value.as_str())
    }

    /// Whether the threshold is out of range and not merely left at 0:
    /// such a value is replaced on merging and deserves a warning.
    pub fn threshold_is_rejected(&self) -> (rejected: bool)
        ensures
            rejected == (self.threshold != 0 && !threshold_is_set(self.threshold)),
    {
        self.threshold < 0 || self.threshold > 100
    }

    fn merge(self, other: Bound) -> (bound: Bound)
        ensures
            bound@ == merged_bound(self@, other@),
    {
        let Bound { threshold, title, content } = self;
        let Bound { threshold: other_threshold, title: other_title, content: other_content } = other;
        Bound {
            threshold: if threshold <= 0 || threshold > 100 {
                other_threshold
            } else {
                threshold
            },
            title: if title.as_str().is_empty() {
                other_title
            } else {
                title
            },
            content: if content.as_str().is_empty() {
                other_content
            } else {
                content
            },
        }
    }
}

impl Default for Config {
    /// The built-in configuration.
    fn default() -> (config: Config)
        ensures
            config@ == default_config(),
    {
        Config {
            interval_ms: 700,
            icon_path: None,
            reminder: Bound {
                title: String::from_str("Battery somewhat low"),
                content: String::from_str("Charge: {capacity}%"),
                threshold: 30,
            },
            warn: Bound {
                title: String::from_str("Battery low"),
                content: String::from_str("Charge: {capacity}%.\nPlease connect your laptop"),
                threshold: 15,
            },
            threat: Bound {
                title: String::from_str("Battery very low"),
                content: String::from_str(
                    "Charge: {capacity}%.\n\nYour computer will shut down soon! You'll regret this!",
                ),
                threshold: 5,
            },
        }
    }
}

impl Config {
    /// Whether the three thresholds descend strictly.
    pub open spec fn is_valid(&self) -> bool {
        thresholds_descend(self.reminder.threshold, self.warn.threshold, self.threat.threshold)
    }

    /// The tier of a charge under this configuration.
    pub open spec fn level_at(&self, capacity: u8) -> BatteryNotificationLevel {
        level_of(capacity, self.reminder.threshold, self.warn.threshold, self.threat.threshold)
    }

    /// Classifies a charge against the three thresholds.
    pub fn classify(&self, capacity: u8) -> (level: BatteryNotificationLevel)
        ensures
            level == self.level_at(capacity),
    {
        classify_thresholds(
            capacity,
            self.reminder.threshold,
            self.warn.threshold,
            self.threat.threshold,
        )
    }

    /// Lays this configuration over `other`: a threshold in 1..=100, a
    /// non-empty text and a non-zero interval are kept, anything else is
    /// taken from `other`.
    pub fn merge(self, other: Config) -> (config: Config)
        ensures
            config@ == merged_config(self@, other@),
    {
        let Config { icon_path, reminder, threat, warn, interval_ms } = self;
        let Config {
            icon_path: _,
            reminder: other_reminder,
            threat: other_threat,
            warn: other_warn,
            interval_ms: other_interval_ms,
        } = other;
        Config {
            icon_path,
            reminder: reminder.merge(other_reminder),
            threat: threat.merge(other_threat),
            warn: warn.merge(other_warn),
            interval_ms: if interval_ms == 0 {
                other_interval_ms
            } else {
                interval_ms
            },
        }
    }

    /// The outcome of loading the user's settings, merged over the
    /// defaults where loading succeeded.
    pub fn parse(loaded: Result<Config, ConfigParseError>) -> (parsed: Result<
        Config,
        ConfigParseError,
    >)
        ensures
            match loaded {
                Ok(user) => parsed is Ok && parsed->Ok_0@ == merged_config(user@, default_config()),
                Err(error) => parsed is Err && parsed->Err_0 == error,
            },
    {
        match loaded {
            Ok(user) => Ok(user.merge(Config::default())),
            Err(error) => Err(error),
        }
    }

    /// The user's settings merged over the defaults, or the defaults
    /// alone where loading failed.
    pub fn parse_or_default(loaded: Result<Config, ConfigParseError>) -> (config: Config)
        ensures
            config@ == match loaded {
                Ok(user) => merged_config(user@, default_config()),
                Err(_) => default_config(),
            },
    {
        match Config::parse(loaded) {
            Ok(config) => config,
            Err(_) => Config::default(),
        }
    }

    /// Accepts the configuration exactly when the thresholds descend
    /// strictly; the reminder/warn pair is examined first.
    pub fn validate(&self) -> (checked: Result<(), ConfigValidationError>)
        ensures
            checked is Ok <==> self.is_valid(),
            checked == Err::<(), _>(ConfigValidationError::ReminderNotAboveWarn)
                <==> self.reminder.threshold <= self.warn.threshold,
            checked == Err::<(), _>(ConfigValidationError::WarnNotAboveThreat)
                <==> self.reminder.threshold > self.warn.threshold
                    && self.warn.threshold <= self.threat.threshold,
    {
        if self.reminder.threshold <= self.warn.threshold {
            return Err(ConfigValidationError::ReminderNotAboveWarn);
        }
        if self.warn.threshold <= self.threat.threshold {
            return Err(ConfigValidationError::WarnNotAboveThreat);
        }
        Ok(())
    }
}

/// The text of an optional string.
pub open spec fn optional_text(text: Option<String>) -> Option<Seq<char>> {
    match text {
        Some(t) => Some(t@),
        None => None,
    }
}

/// The settings file below a configuration directory.
pub open spec fn config_file_below(config_dir: Seq<char>) -> Seq<char> {
    joined_path(joined_path(config_dir, "battery-notifier"@), "config.toml"@)
}

/// Where the settings are read from: the file that was asked for; else
/// the one below the configuration directory; else the one below
/// `.config` in the home directory.
pub open spec fn config_file_of(
    file_path: Option<Seq<char>>,
    config_dir: Option<Seq<char>>,
    home: Option<Seq<char>>,
) -> Seq<char>
    recommends
        file_path is Some || config_dir is Some || home is Some,
{
    match file_path {
        Some(path) => path,
        None => match config_dir {
            Some(dir) => config_file_below(dir),
            None => config_file_below(joined_path(home->Some_0, ".config"@)),
        },
    }
}

/// Resolves the settings file from what the command line and the
/// environment gave. One of the three must be there.
pub fn get_config_file(
    file_path: Option<String>,
    config_dir: Option<String>,
    home: Option<String>,
) -> (path: String)
    requires
        file_path is Some || config_dir is Some || home is Some,
    ensures
        path@ == config_file_of(
            optional_text(file_path),
            optional_text(config_dir),
            optional_text(home),
        ),
{
    match file_path {
        Some(path) => path,
        None => {
            let dir = match config_dir {
                Some(dir) => dir,
                None => {
                    let home_dir = home.unwrap();
                    join_path(home_dir.as_str(), ".config")
                },
            };
            let below = join_path(dir.as_str(), "battery-notifier");
            join_path(below.as_str(), "config.toml")
        },
    }
}

/// Merging over the built-in configuration leaves nothing unset: every
/// threshold lies in 1..=100, no text is empty and the interval is not
/// zero. A field that the user has set is kept as it is.
pub proof fn lemma_merged_over_defaults_is_complete(user: ConfigView)
    ensures
        ({
            let merged = merged_config(user, default_config());
            &&& threshold_is_set(merged.reminder.threshold)
            &&& threshold_is_set(merged.warn.threshold)
            &&& threshold_is_set(merged.threat.threshold)
            &&& merged.reminder.title.len() > 0 && merged.reminder.content.len() > 0
            &&& merged.warn.title.len() > 0 && merged.warn.content.len() > 0
            &&& merged.threat.title.len() > 0 && merged.threat.content.len() > 0
            &&& merged.interval_ms != 0
            &&& threshold_is_set(user.warn.threshold) ==> merged.warn.threshold
                == user.warn.threshold
            &&& user.reminder.title.len() == 0 ==> merged.reminder.title
                == default_config().reminder.title
        }),
{
    reveal_strlit("Battery somewhat low");
    reveal_strlit("Battery low");
    reveal_strlit("Battery very low");
    reveal_strlit("Charge: {capacity}%");
    reveal_strlit("Charge: {capacity}%.\nPlease connect your laptop");
    reveal_strlit(
        "Charge: {capacity}%.\n\nYour computer will shut down soon! You'll regret this!",
    );
}

/// A configuration that passes validation sorts every charge into
/// exactly one of the four bands, by the interval it lies in, and never
/// into the charging level.
pub proof fn lemma_valid_config_partitions(config: Config, capacity: u8)
    requires
        config.is_valid(),
    ensures
        config.level_at(capacity) != BatteryNotificationLevel::Charging,
        config.level_at(capacity) == BatteryNotificationLevel::Threat <==> capacity
            <= config.threat.threshold,
        config.level_at(capacity) == BatteryNotificationLevel::Warn <==> config.threat.threshold
            < capacity <= config.warn.threshold,
        config.level_at(capacity) == BatteryNotificationLevel::Reminder <==> config.warn.threshold
            < capacity <= config.reminder.threshold,
        config.level_at(capacity) == BatteryNotificationLevel::NoConflict
            <==> config.reminder.threshold < capacity,
{
    lemma_bands_partition(
        capacity,
        config.reminder.threshold,
        config.warn.threshold,
        config.threat.threshold,
    );
}

} // verus!
