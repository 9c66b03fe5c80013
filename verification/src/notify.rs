//! What an alert looks and sounds like: urgency, sound clip and icon.

use vstd::prelude::*;
use vstd::string::*;
use crate::paths::{join_path, joined_path};

verus! {

/// The priority hint that a desktop notification carries.
#[allow(non_camel_case_types)]
#[allow(clippy::upper_case_acronyms)]
#[derive(Clone, Copy, Debug, PartialEq, Eq, Structural)]
pub enum Urgency {
    CRITICAL,
    NORMAL,
    LOW,
}

/// The clips that the notifier can play.
#[derive(Clone, Copy, Debug, PartialEq, Eq, Structural)]
pub enum SoundClip {
    Charging,
    Reminder,
    Warn,
    Threat,
}

impl Urgency {
    /// The clip of each urgency.
    pub open spec fn sound(self) -> SoundClip {
        match self {
            Urgency::CRITICAL => SoundClip::Threat,
            Urgency::NORMAL => SoundClip::Warn,
            Urgency::LOW => SoundClip::Reminder,
        }
    }

    /// The clip played with an alert of this urgency.
    pub fn get_sound(&self) -> (clip: SoundClip)
        ensures
            clip == self.sound(),
    {
        match self {
            Urgency::CRITICAL => SoundClip::Threat,
            Urgency::NORMAL => SoundClip::Warn,
            Urgency::LOW => SoundClip::Reminder,
        }
    }

    /// The text of each urgency's label.
    pub open spec fn label_text(self) -> Seq<char> {
        match self {
            Urgency::CRITICAL => "critical"@,
            Urgency::NORMAL => "normal"@,
            Urgency::LOW => "low"@,
        }
    }

    /// The label under which the urgency is written to a log.
    pub fn label(&self) -> (text: String)
        ensures
            text@ == self.label_text(),
    {
        match self {
            Urgency::CRITICAL => String::from_str("critical"),
            Urgency::NORMAL => String::from_str("normal"),
            Urgency::LOW => String::from_str("low"),
        }
    }
}

/// Where the built-in icon lies, relative to the working directory.
pub open spec fn battery_danger_path() -> Seq<char> {
    "./assets/battery-danger.png"@
}

/// The icon of a notification: the configured one where it is set and
/// not empty, else the built-in icon below `working_dir`.
pub open spec fn icon_path_or_default(icon_path: Option<Seq<char>>, working_dir: Seq<char>)
    -> Seq<char>
{
    match icon_path {
        Some(path) if path.len() > 0 => path,
        _ => joined_path(working_dir, battery_danger_path()),
    }
}

/// Whether a configured icon is used as it stands, so that the working
/// directory need not be known.
pub fn icon_path_is_set(icon_path: &Option<String>) -> (set: bool)
    ensures
        set == (icon_path is Some && icon_path->Some_0@.len() > 0),
{
    match icon_path {
        Some(path) => !path.as_str().is_empty(),
        None => false,
    }
}

/// Chooses the icon of a notification.
pub fn get_icon_path_or_default(icon_path: Option<String>, working_dir: &str) -> (path: String)
    ensures
        path@ == icon_path_or_default(
            match icon_path {
                Some(p) => Some(p@),
                None => None,
            },
            working_dir@,
        ),
{
    if let Some(path) = icon_path {
        if !path.as_str().is_empty() {
            return path;
        }
    }
    join_path(working_dir, "./assets/battery-danger.png")
}

} // verus!
