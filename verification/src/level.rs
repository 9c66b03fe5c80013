//! Severity tiers and the classifier that maps a charge to a tier.

use vstd::prelude::*;

verus! {

/// The severity a poll tick was last alerted at. Values are compared for
/// identity only; they carry no ranking.
#[derive(Clone, Copy, Debug, PartialEq, Eq, Structural)]
pub enum BatteryNotificationLevel {
    NoConflict,
    Reminder,
    Warn,
    Threat,
    Charging,
}

/// Three thresholds are usable when they descend strictly.
pub open spec fn thresholds_descend(reminder: i64, warn: i64, threat: i64) -> bool {
    reminder > warn && warn > threat
}

/// The tier of a charge `capacity` under the three thresholds.
pub open spec fn level_of(capacity: u8, reminder: i64, warn: i64, threat: i64)
    -> BatteryNotificationLevel
{
    if capacity > warn && capacity <= reminder {
        BatteryNotificationLevel::Reminder
    } else if capacity > threat && capacity <= warn {
        BatteryNotificationLevel::Warn
    } else if capacity <= threat {
        BatteryNotificationLevel::Threat
    } else {
        BatteryNotificationLevel::NoConflict
    }
}

/// Classifies a charge against the three thresholds.
pub fn classify_thresholds(capacity: u8, reminder: i64, warn: i64, threat: i64)
    -> (level: BatteryNotificationLevel)
    ensures
        level == level_of(capacity, reminder, warn, threat),
{
    let charge = capacity as i64;
    if charge > warn && charge <= reminder {
        BatteryNotificationLevel::Reminder
    } else if charge > threat && charge <= warn {
        BatteryNotificationLevel::Warn
    } else if charge <= threat {
        BatteryNotificationLevel::Threat
    } else {
        BatteryNotificationLevel::NoConflict
    }
}

/// With strictly descending thresholds the four bands partition every
/// charge: each charge lies in exactly one band, the band is decided by
/// the interval the charge falls in, and no charge classifies as charging.
pub proof fn lemma_bands_partition(capacity: u8, reminder: i64, warn: i64, threat: i64)
    requires
        thresholds_descend(reminder, warn, threat),
    ensures
        level_of(capacity, reminder, warn, threat) != BatteryNotificationLevel::Charging,
        level_of(capacity, reminder, warn, threat) == BatteryNotificationLevel::Threat
            <==> capacity <= threat,
        level_of(capacity, reminder, warn, threat) == BatteryNotificationLevel::Warn
            <==> threat < capacity <= warn,
        level_of(capacity, reminder, warn, threat) == BatteryNotificationLevel::Reminder
            <==> warn < capacity <= reminder,
        level_of(capacity, reminder, warn, threat) == BatteryNotificationLevel::NoConflict
            <==> reminder < capacity,
{
}

impl BatteryNotificationLevel {
    /// The text of each tier's label.
    pub open spec fn label_text(self) -> Seq<char> {
        match self {
            BatteryNotificationLevel::NoConflict => "no conflict(0)"@,
            BatteryNotificationLevel::Reminder => "reminder(1)"@,
            BatteryNotificationLevel::Warn => "warn(2)"@,
            BatteryNotificationLevel::Threat => "threat(3)"@,
            BatteryNotificationLevel::Charging => "charging(-1)"@,
        }
    }

    /// The label under which the tier is written to a log.
    pub fn label(&self) -> (text: String)
        ensures
            text@ == self.label_text(),
    {
        match self {
            BatteryNotificationLevel::NoConflict => String::from_str("no conflict(0)"),
            BatteryNotificationLevel::Reminder => String::from_str("reminder(1)"),
            BatteryNotificationLevel::Warn => String::from_str("warn(2)"),
            BatteryNotificationLevel::Threat => String::from_str("threat(3)"),
            BatteryNotificationLevel::Charging => String::from_str("charging(-1)"),
        }
    }
}

} // verus!
