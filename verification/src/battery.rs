//! The battery as the notifier sees it: its status and its charge, read
//! from the power supply of the host or from a script.

use vstd::prelude::*;
use vstd::string::*;
use crate::clock::Timestamp;
use crate::simulator::{DebugSettings, SimulatedBattery};
use crate::text::{numeral_value, parse_numeral, replace, replace_all, same_text, NumeralError};

verus! {

/// What the power supply reports of the battery.
#[derive(Clone, Copy, Debug, PartialEq, Eq, Structural)]
pub enum BatteryStatus {
    Charging,
    Discharging,
    NotCharging,
    Unknown,
}

/// The status that a status text names; any other text is unknown.
pub open spec fn status_of(text: Seq<char>) -> BatteryStatus {
    if text == "Charging"@ {
        BatteryStatus::Charging
    } else if text == "Discharging"@ {
        BatteryStatus::Discharging
    } else if text == "Not charging"@ {
        BatteryStatus::NotCharging
    } else {
        BatteryStatus::Unknown
    }
}

impl BatteryStatus {
    /// Reads a status text.
    pub fn parse(text: &str) -> (status: BatteryStatus)
        ensures
            status == status_of(text@),
    {
        if same_text(text, "Charging") {
            BatteryStatus::Charging
        } else if same_text(text, "Discharging") {
            BatteryStatus::Discharging
        } else if same_text(text, "Not charging") {
            BatteryStatus::NotCharging
        } else {
            BatteryStatus::Unknown
        }
    }
}

/// Why the host offers no battery to read.
#[derive(Clone, Copy, Debug, PartialEq, Eq, Structural)]
pub enum HostError {
    /// The version of the kernel could not be told.
    UnknownKernel,
    /// The kernel is a 2.x older than 2.6.
    KernelTooOld,
}

/// Why a reading gives no charge.
#[derive(Clone, Copy, Debug, PartialEq, Eq, Structural)]
pub enum SourceReadError {
    /// The reading is not a number.
    NotANumber,
    /// The reading is a number above 100.
    OutOfRange,
}

/// The highest charge that a battery reports.
pub const FULL_CHARGE: u8 = 100;

/// Whether a kernel of this version is too old to be served.
pub open spec fn kernel_is_too_old(major: u64, minor: u64) -> bool {
    major == 2 && minor < 6
}

/// The name of the battery's power supply on a host: `BAT0` on Ubuntu
/// and on kernels before 3.19, `BAT1` elsewhere.
pub open spec fn supply_name(major: u64, minor: u64, ubuntu: bool) -> Seq<char> {
    if ubuntu || major < 3 || (major == 3 && minor < 19) {
        "BAT0"@
    } else {
        "BAT1"@
    }
}

/// The directory of a power supply.
pub open spec fn supply_path(name: Seq<char>) -> Seq<char> {
    "/sys/class/power_supply/"@ + name
}

/// A reading without its line breaks.
pub open spec fn reading_text(raw: Seq<char>) -> Seq<char> {
    replace_all(raw, "\n"@, Seq::<char>::empty())
}

/// The charge that a reading gives.
pub open spec fn reading_capacity(raw: Seq<char>) -> Result<u8, SourceReadError> {
    match numeral_value(reading_text(raw)) {
        Some(value) => if value <= FULL_CHARGE {
            Ok(value as u8)
        } else {
            Err(SourceReadError::OutOfRange)
        },
        None => Err(SourceReadError::NotANumber),
    }
}

/// The major and minor version of the running kernel, where it can be
/// told.
///
/// Trusted: calls `linuxver::version` and hands out the `major` and
/// `minor` fields of what it returns, or nothing where it fails. The
/// answer depends on the host, so nothing is claimed of it.
#[verifier::external_body]
fn kernel_version() -> (version: Option<KernelVersion>) {
    match linuxver::version() {
        Ok(version) => Some(KernelVersion { major: version.major, minor: version.minor }),
        Err(_) => None,
    }
}

/// Whether the host runs Ubuntu.
///
/// Trusted: calls `os_info::get` and `os_info::Info::os_type`, and tells
/// the variant `os_info::Type::Ubuntu` from the others. The answer
/// depends on the host, so nothing is claimed of it.
#[verifier::external_body]
fn runs_ubuntu() -> (ubuntu: bool) {
    match os_info::get().os_type() {
        os_info::Type::Ubuntu => true,
        _ => false,
    }
}

/// The major and minor version of a kernel.
#[derive(Clone, Copy, Debug, PartialEq, Eq, Structural)]
pub struct KernelVersion {
    pub major: u64,
    pub minor: u64,
}

/// What the notifier needs to know of the host it runs on.
#[derive(Clone, Copy, Debug, PartialEq, Eq, Structural)]
pub struct Host {
    /// The version of the kernel, where it can be told.
    pub kernel: Option<KernelVersion>,
    /// Whether the system is Ubuntu.
    pub ubuntu: bool,
}

impl Host {
    /// Why the host is not served, if it is not.
    pub open spec fn verdict(&self) -> Result<(), HostError> {
        match self.kernel {
            None => Err(HostError::UnknownKernel),
            Some(version) => if kernel_is_too_old(version.major, version.minor) {
                Err(HostError::KernelTooOld)
            } else {
                Ok(())
            },
        }
    }

    /// Whether the host is served: its kernel is known and not too old.
    pub open spec fn is_served(&self) -> bool {
        self.verdict() is Ok
    }

    /// The name of the battery's power supply on a served host.
    pub open spec fn supply(&self) -> Seq<char>
        recommends
            self.is_served(),
    {
        supply_name(self.kernel->Some_0.major, self.kernel->Some_0.minor, self.ubuntu)
    }

    /// Asks the host for its kernel and its system.
    pub fn read() -> (host: Host) {
        Host { kernel: kernel_version(), ubuntu: runs_ubuntu() }
    }

    /// Accepts the host exactly when it is served, and says why where
    /// it is not.
    pub fn check(&self) -> (checked: Result<(), HostError>)
        ensures
            checked == self.verdict(),
    {
        match self.kernel {
            None => Err(HostError::UnknownKernel),
            Some(version) => {
                if version.major == 2 && version.minor < 6 {
                    Err(HostError::KernelTooOld)
                } else {
                    Ok(())
                }
            },
        }
    }

    /// Chooses the power supply of the battery on a served host.
    pub fn power_supply_name(&self) -> (name: &'static str)
        requires
            self.is_served(),
        ensures
            name@ == self.supply(),
    {
        let version = self.kernel.unwrap();
        if self.ubuntu || version.major < 3 || (version.major == 3 && version.minor < 19) {
            "BAT0"
        } else {
            "BAT1"
        }
    }
}

/// Strips the line breaks from a reading.
pub fn clean_reading(raw: &str) -> (text: String)
    ensures
        text@ == reading_text(raw@),
{
    proof {
        reveal_strlit("\n");
        reveal_strlit("");
        assert(""@ =~= Seq::<char>::empty());
    }
    replace(raw, "\n", "")
}

/// Reads the charge from the text of the capacity endpoint.
pub fn parse_capacity(raw: &str) -> (capacity: Result<u8, SourceReadError>)
    ensures
        capacity == reading_capacity(raw@),
{
    let text = clean_reading(raw);
    match parse_numeral(text.as_str(), FULL_CHARGE) {
        Ok(value) => Ok(value),
        Err(NumeralError::NotANumber) => Err(SourceReadError::NotANumber),
        Err(NumeralError::TooLarge) => Err(SourceReadError::OutOfRange),
    }
}

/// The source of battery samples: the power supply of the host, or a
/// script that is played in its place.
pub struct PowerSupplyClass {
    path: String,
    debug: Option<SimulatedBattery>,
}

impl PowerSupplyClass {
    /// The directory of the power supply.
    pub closed spec fn path(&self) -> Seq<char> {
        self.path@
    }

    /// The script that is played, if any.
    pub closed spec fn simulator(&self) -> Option<SimulatedBattery> {
        self.debug
    }

    /// A script that is played is in one of its states.
    pub open spec fn wf(&self) -> bool {
        self.simulator() is Some ==> self.simulator()->Some_0.wf()
    }

    /// Whether the source reads the power supply of `host` and plays
    /// `debug` from its first state, entered at `now`, where there is
    /// one.
    pub open spec fn serves(&self, host: Host, debug: Option<DebugSettings>, now: Timestamp)
        -> bool
    {
        &&& self.wf()
        &&& self.path() == supply_path(host.supply())
        &&& self.simulator() is Some <==> debug is Some
        &&& debug is Some ==> {
            &&& self.simulator()->Some_0.settings == debug->Some_0
            &&& self.simulator()->Some_0.current_state == 0
            &&& self.simulator()->Some_0.last_update_at == now
        }
    }

    /// The source of a served host, playing the script `debug` from
    /// `now` on where there is one.
    pub fn for_host(host: Host, debug: Option<DebugSettings>, now: Timestamp) -> (source:
        PowerSupplyClass)
        requires
            host.is_served(),
            debug is Some ==> debug->Some_0.states@.len() > 0,
            now.wf(),
        ensures
            source.serves(host, debug, now),
    {
        let mut path = String::from_str("/sys/class/power_supply/");
        path.append(host.power_supply_name());
        let debug = match debug {
            Some(settings) => Some(SimulatedBattery::new(settings, now)),
            None => None,
        };
        PowerSupplyClass { path, debug }
    }

    /// The source of a served host, playing the script `debug` from now
    /// on where there is one.
    pub fn on_host(host: Host, debug: Option<DebugSettings>) -> (source: PowerSupplyClass)
        requires
            host.is_served(),
            debug is Some ==> debug->Some_0.states@.len() > 0,
        ensures
            exists|now: Timestamp| #[trigger] now.wf() && source.serves(host, debug, now),
    {
        let now = Timestamp::now();
        PowerSupplyClass::for_host(host, debug, now)
    }

    /// The source of this host, playing the script `debug_settings` from
    /// now on where there is one. The host is asked for its kernel and
    /// its system; where it is not served, the reason is returned.
    pub fn new(debug_settings: Option<DebugSettings>) -> (source: Result<PowerSupplyClass, HostError>)
        requires
            debug_settings is Some ==> debug_settings->Some_0.states@.len() > 0,
        ensures
            exists|host: Host, now: Timestamp| #[trigger]
                now.wf() && #[trigger] host.verdict() == (match source {
                    Ok(_) => Ok::<(), HostError>(()),
                    Err(error) => Err::<(), HostError>(error),
                }) && (source is Ok ==> source->Ok_0.serves(host, debug_settings, now)),
    {
        let host = Host::read();
        let now = Timestamp::now();
        match host.check() {
            Ok(()) => {
                let source = PowerSupplyClass::for_host(host, debug_settings, now);
                proof {
                    assert(now.wf() && host.verdict() == Ok::<(), HostError>(()) && source.serves(
                        host,
                        debug_settings,
                        now,
                    ));
                }
                Ok(source)
            },
            Err(error) => {
                proof {
                    assert(now.wf() && host.verdict() == Err::<(), HostError>(error));
                }
                Err(error)
            },
        }
    }

    /// Whether a script is played in place of the host's battery.
    pub fn is_simulated(&self) -> (simulated: bool)
        ensures
            simulated == (self.simulator() is Some),
    {
        self.debug.is_some()
    }

    /// The file that holds the charge.
    pub fn get_capacity_path(&self) -> (file: String)
        ensures
            file@ == self.path() + "/capacity"@,
    {
        let mut file = self.path.clone();
        file.append("/capacity");
        file
    }

    /// The file that holds the status.
    pub fn get_status_path(&self) -> (file: String)
        ensures
            file@ == self.path() + "/status"@,
    {
        let mut file = self.path.clone();
        file.append("/status");
        file
    }

    /// How sampling at `now` leads from the source `before` to this one:
    /// a played script moves on where its dwell time has passed, and
    /// nothing else changes.
    pub open spec fn sampled_from(&self, before: PowerSupplyClass, now: Timestamp) -> bool {
        &&& self.wf()
        &&& self.path() == before.path()
        &&& match before.simulator() {
            Some(script) => {
                &&& self.simulator() is Some
                &&& self.simulator()->Some_0.settings == script.settings
                &&& self.simulator()->Some_0.current_state == script.state_at(now)
                &&& self.simulator()->Some_0.last_update_at == if script.is_due(now) {
                    now
                } else {
                    script.last_update_at
                }
            },
            None => self.simulator() is None,
        }
    }

    /// The charge that a sample at `now` gives: that of the state which
    /// a played script is then in, else the one read from `raw`.
    pub open spec fn capacity_at(&self, raw: Seq<char>, now: Timestamp) -> Result<
        u8,
        SourceReadError,
    > {
        match self.simulator() {
            Some(script) => Ok(script.settings.states@[script.state_at(now)].capacity),
            None => reading_capacity(raw),
        }
    }

    /// The status text that a sample at `now` gives: that of the state
    /// which a played script is then in, else `raw` without its line
    /// breaks.
    pub open spec fn status_at(&self, raw: Seq<char>, now: Timestamp) -> Seq<char> {
        match self.simulator() {
            Some(script) => script.settings.states@[script.state_at(now)].status@,
            None => reading_text(raw),
        }
    }

    /// The charge at `now`, where `raw` is the text of the capacity
    /// file. A played script is sampled instead, and `raw` is not read.
    pub fn get_capacity_at(&mut self, raw: &str, now: Timestamp) -> (capacity: Result<
        u8,
        SourceReadError,
    >)
        requires
            old(self).wf(),
            now.wf(),
        ensures
            final(self).sampled_from(*old(self), now),
            capacity == old(self).capacity_at(raw@, now),
    {
        match &mut self.debug {
            Some(script) => Ok(script.sample_at(now).capacity),
            None => parse_capacity(raw),
        }
    }

    /// The status text at `now`, where `raw` is the text of the status
    /// file. A played script is sampled instead, and `raw` is not read.
    pub fn get_status_at(&mut self, raw: &str, now: Timestamp) -> (status: String)
        requires
            old(self).wf(),
            now.wf(),
        ensures
            final(self).sampled_from(*old(self), now),
            status@ == old(self).status_at(raw@, now),
    {
        match &mut self.debug {
            Some(script) => script.sample_at(now).status,
            None => clean_reading(raw),
        }
    }

    /// The charge at the current moment.
    pub fn get_capacity(&mut self, raw: &str) -> (capacity: Result<u8, SourceReadError>)
        requires
            old(self).wf(),
        ensures
            exists|now: Timestamp|
                #[trigger] now.wf() && final(self).sampled_from(*old(self), now) && capacity == old(
                    self,
                ).capacity_at(raw@, now),
            old(self).simulator() is None ==> capacity == reading_capacity(raw@),
    {
        let now = Timestamp::now();
        self.get_capacity_at(raw, now)
    }

    /// The status text at the current moment.
    pub fn get_status(&mut self, raw: &str) -> (status: String)
        requires
            old(self).wf(),
        ensures
            exists|now: Timestamp|
                #[trigger] now.wf() && final(self).sampled_from(*old(self), now) && status@ == old(
                    self,
                ).status_at(raw@, now),
            old(self).simulator() is None ==> status@ == reading_text(raw@),
    {
        let now = Timestamp::now();
        self.get_status_at(raw, now)
    }
}

} // verus!
