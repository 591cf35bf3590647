//! Power management: remote shutdown, reboot, suspend and hibernate, and
//! keeping the system awake with a logind inhibitor lock.
use crate::notification::opt_view;
use crate::ping::names_view;
use crate::text::{owned, str_eq};
use vstd::prelude::*;

verus! {

/// What an inhibitor lock blocks.
#[derive(Debug, Clone, Copy, PartialEq, Eq, Structural)]
pub enum InhibitType {
    /// Suspend and hibernate.
    Sleep,
    /// Shutdown and reboot.
    Shutdown,
    /// Idle actions.
    Idle,
    /// All of them.
    All,
}

impl InhibitType {
    /// The `what` argument logind takes.
    pub fn as_what(&self) -> (r: &'static str)
        ensures
            r@ == (match *self {
                InhibitType::Sleep => "sleep"@,
                InhibitType::Shutdown => "shutdown"@,
                InhibitType::Idle => "idle"@,
                InhibitType::All => "sleep:shutdown:idle"@,
            }),
    {
        match self {
            InhibitType::Sleep => "sleep",
            InhibitType::Shutdown => "shutdown",
            InhibitType::Idle => "idle",
            InhibitType::All => "sleep:shutdown:idle",
        }
    }
}

/// How an inhibitor lock acts.
#[derive(Debug, Clone, Copy, PartialEq, Eq, Structural)]
pub enum InhibitMode {
    /// The operation waits until the lock is released.
    Block,
    /// The operation is delayed briefly.
    Delay,
}

impl InhibitMode {
    /// The `mode` argument logind takes.
    pub fn as_str(&self) -> (r: &'static str)
        ensures
            r@ == (match *self {
                InhibitMode::Block => "block"@,
                InhibitMode::Delay => "delay"@,
            }),
    {
        match self {
            InhibitMode::Block => "block",
            InhibitMode::Delay => "delay",
        }
    }
}

/// A power operation a remote device may ask for.
#[derive(Debug, Clone, Copy, PartialEq, Eq, Structural)]
pub enum PowerAction {
    /// Power off.
    Shutdown,
    /// Restart.
    Reboot,
    /// Suspend to memory.
    Suspend,
    /// Suspend to disk.
    Hibernate,
}

/// The power operation a request names, if known.
pub open spec fn power_action_of(action: Seq<char>) -> Option<PowerAction> {
    if action == "shutdown"@ {
        Some(PowerAction::Shutdown)
    } else if action == "reboot"@ {
        Some(PowerAction::Reboot)
    } else if action == "suspend"@ {
        Some(PowerAction::Suspend)
    } else if action == "hibernate"@ {
        Some(PowerAction::Hibernate)
    } else {
        None
    }
}

impl PowerAction {
    /// The power operation named `action`, if known.
    pub fn parse(action: &str) -> (r: Option<PowerAction>)
        ensures
            r == power_action_of(action@),
    {
        if str_eq(action, "shutdown") {
            Some(PowerAction::Shutdown)
        } else if str_eq(action, "reboot") {
            Some(PowerAction::Reboot)
        } else if str_eq(action, "suspend") {
            Some(PowerAction::Suspend)
        } else if str_eq(action, "hibernate") {
            Some(PowerAction::Hibernate)
        } else {
            None
        }
    }

    /// The `systemctl` verb performing it.
    pub fn systemctl_verb(&self) -> (r: &'static str)
        ensures
            r@ == (match *self {
                PowerAction::Shutdown => "poweroff"@,
                PowerAction::Reboot => "reboot"@,
                PowerAction::Suspend => "suspend"@,
                PowerAction::Hibernate => "hibernate"@,
            }),
    {
        match self {
            PowerAction::Shutdown => "poweroff",
            PowerAction::Reboot => "reboot",
            PowerAction::Suspend => "suspend",
            PowerAction::Hibernate => "hibernate",
        }
    }
}

/// A packet the power plugin received, with its body read.
#[derive(Debug)]
pub enum PowerPacket {
    /// `cconnect.power.request` with its `action` field, when a string.
    Request { action: Option<String> },
    /// `cconnect.power.inhibit` with its `inhibit` (when a boolean) and
    /// `reason` (when a string) fields.
    Inhibit { inhibit: Option<bool>, reason: Option<String> },
    /// `cconnect.power.query`.
    Query,
    /// Any other packet.
    Other,
}

/// What the runtime does for a packet.
#[derive(Debug)]
pub enum PowerStep {
    /// Nothing.
    Nothing,
    /// Run the power operation.
    Run(PowerAction),
    /// Take a logind lock: what, who, why, mode; then report whether it
    /// was granted with `inhibit_acquired`.
    AcquireInhibitor { what: InhibitType, who: String, why: String, mode: InhibitMode },
    /// Drop the lock held, if any.
    ReleaseInhibitor,
}

/// Reason used when an inhibit request gives none.
pub open spec fn default_inhibit_reason() -> Seq<char> {
    "Remote device request"@
}

/// Power plugin state.
#[derive(Debug)]
pub struct PowerPlugin {
    device_id: Option<String>,
    enabled: bool,
    sleep_inhibited: bool,
    inhibit_reason: Option<String>,
    lock_held: bool,
}

impl PowerPlugin {
    /// The device the plugin is attached to.
    pub closed spec fn device(&self) -> Option<Seq<char>> {
        match self.device_id {
            Some(d) => Some(d@),
            None => None,
        }
    }

    /// Whether packets are handled.
    pub closed spec fn is_enabled(&self) -> bool {
        self.enabled
    }

    /// Whether sleep is inhibited at a device's request.
    pub closed spec fn inhibited(&self) -> bool {
        self.sleep_inhibited
    }

    /// Why sleep is inhibited.
    pub closed spec fn reason(&self) -> Option<Seq<char>> {
        opt_view(self.inhibit_reason)
    }

    /// Whether a logind lock is held.
    pub closed spec fn holds_lock(&self) -> bool {
        self.lock_held
    }

    /// A lock is only held while sleep is inhibited, with a reason.
    pub closed spec fn wf(&self) -> bool {
        &&& (self.lock_held ==> self.sleep_inhibited)
        &&& (self.sleep_inhibited <==> self.inhibit_reason is Some)
    }

    /// A disabled plugin inhibiting nothing.
    pub fn new() -> (r: Self)
        ensures
            r.wf(),
            !r.is_enabled(),
            !r.inhibited(),
            r.reason() is None,
            !r.holds_lock(),
            r.device() is None,
    {
        PowerPlugin { device_id: None, enabled: false, sleep_inhibited: false, inhibit_reason: None, lock_held: false }
    }

    /// The plugin name.
    pub fn name(&self) -> (r: &'static str)
        ensures
            r@ == "power"@,
    {
        "power"
    }

    /// Attaches the plugin to a device.
    pub fn init(&mut self, device_id: &str)
        requires
            old(self).wf(),
        ensures
            final(self).wf(),
            final(self).device() == Some(device_id@),
            final(self).is_enabled() == old(self).is_enabled(),
            final(self).inhibited() == old(self).inhibited(),
            final(self).reason() == old(self).reason(),
            final(self).holds_lock() == old(self).holds_lock(),
    {
        self.device_id = Some(owned(device_id));
    }

    /// Enables packet handling.
    pub fn start(&mut self)
        requires
            old(self).wf(),
        ensures
            final(self).wf(),
            final(self).is_enabled(),
            final(self).inhibited() == old(self).inhibited(),
            final(self).reason() == old(self).reason(),
            final(self).holds_lock() == old(self).holds_lock(),
    {
        self.enabled = true;
    }

    /// Disables packet handling and lifts any inhibition; the lock, if
    /// held, is to be dropped (`ReleaseInhibitor`).
    pub fn stop(&mut self) -> (r: PowerStep)
        requires
            old(self).wf(),
        ensures
            final(self).wf(),
            !final(self).is_enabled(),
            !final(self).inhibited(),
            final(self).reason() is None,
            !final(self).holds_lock(),
            old(self).inhibited() ==> r is ReleaseInhibitor,
            !old(self).inhibited() ==> r is Nothing,
    {
        self.enabled = false;
        if self.sleep_inhibited {
            self.lock_held = false;
            self.sleep_inhibited = false;
            self.inhibit_reason = None;
            PowerStep::ReleaseInhibitor
        } else {
            PowerStep::Nothing
        }
    }

    /// Decides what a packet does.  A disabled plugin ignores packets.  A
    /// known power operation is run; an unknown one or a request without
    /// action does nothing.  An inhibit request asks for a sleep lock
    /// (blocking, with the reason given or a default one), or lifts the
    /// inhibition and drops the lock.  A status query does nothing.
    pub fn handle_packet(&mut self, packet: PowerPacket) -> (r: PowerStep)
        requires
            old(self).wf(),
        ensures
            final(self).wf(),
            final(self).is_enabled() == old(self).is_enabled(),
            !old(self).is_enabled() ==> (r is Nothing && final(self).inhibited() == old(self).inhibited()
                && final(self).reason() == old(self).reason() && final(self).holds_lock() == old(self).holds_lock()),
            old(self).is_enabled() ==> match packet {
                PowerPacket::Request { action } => (match action {
                    Some(a) => match power_action_of(a@) {
                        Some(p) => r == PowerStep::Run(p),
                        None => r is Nothing,
                    },
                    None => r is Nothing,
                }) && final(self).inhibited() == old(self).inhibited() && final(self).reason() == old(self).reason()
                    && final(self).holds_lock() == old(self).holds_lock(),
                PowerPacket::Inhibit { inhibit, reason } => match inhibit {
                    Some(true) => (r matches PowerStep::AcquireInhibitor { what, who, why, mode }
                        && what == InhibitType::Sleep && who@ == "COSMIC Connect"@ && mode == InhibitMode::Block
                        && why@ == (match reason { Some(s) => s@, None => default_inhibit_reason() })
                        && final(self).inhibited() == old(self).inhibited() && final(self).reason() == old(self).reason()
                        && final(self).holds_lock() == old(self).holds_lock()),
                    Some(false) => r is ReleaseInhibitor && !final(self).inhibited() && final(self).reason() is None
                        && !final(self).holds_lock(),
                    None => r is Nothing && final(self).inhibited() == old(self).inhibited()
                        && final(self).reason() == old(self).reason() && final(self).holds_lock() == old(self).holds_lock(),
                },
                _ => r is Nothing && final(self).inhibited() == old(self).inhibited()
                    && final(self).reason() == old(self).reason() && final(self).holds_lock() == old(self).holds_lock(),
            },
    {
        if !self.enabled {
            return PowerStep::Nothing;
        }
        match packet {
            PowerPacket::Request { action } => match action {
                Some(a) => match PowerAction::parse(a.as_str()) {
                    Some(p) => PowerStep::Run(p),
                    None => PowerStep::Nothing,
                },
                None => PowerStep::Nothing,
            },
            PowerPacket::Inhibit { inhibit, reason } => match inhibit {
                Some(true) => {
                    let why = match reason {
                        Some(s) => s,
                        None => owned("Remote device request"),
                    };
                    PowerStep::AcquireInhibitor {
                        what: InhibitType::Sleep,
                        who: owned("COSMIC Connect"),
                        why,
                        mode: InhibitMode::Block,
                    }
                },
                Some(false) => {
                    self.lock_held = false;
                    self.sleep_inhibited = false;
                    self.inhibit_reason = None;
                    PowerStep::ReleaseInhibitor
                },
                None => PowerStep::Nothing,
            },
            _ => PowerStep::Nothing,
        }
    }

    /// Records the outcome of an inhibitor request: sleep counts as
    /// inhibited with `reason` whether or not logind granted the lock.
    pub fn inhibit_acquired(&mut self, reason: &str, granted: bool)
        requires
            old(self).wf(),
        ensures
            final(self).wf(),
            final(self).inhibited(),
            final(self).reason() == Some(reason@),
            final(self).holds_lock() == (granted || old(self).holds_lock()),
            final(self).is_enabled() == old(self).is_enabled(),
    {
        if granted {
            self.lock_held = true;
        }
        self.sleep_inhibited = true;
        self.inhibit_reason = Some(owned(reason));
    }

    /// Whether sleep is inhibited.
    pub fn is_sleep_inhibited(&self) -> (r: bool)
        ensures
            r == self.inhibited(),
    {
        self.sleep_inhibited
    }
}

impl Default for PowerPlugin {
    fn default() -> (r: Self)
        ensures
            r.wf(),
            !r.is_enabled(),
            !r.inhibited(),
    {
        PowerPlugin::new()
    }
}

/// Packet types the power plugin accepts.
pub open spec fn power_incoming_capabilities() -> Seq<Seq<char>> {
    seq![
        "cconnect.power.request"@,
        "cconnect.power.inhibit"@,
        "cconnect.power.query"@,
        "kdeconnect.power.request"@,
        "kdeconnect.power.inhibit"@,
        "kdeconnect.power.query"@,
    ]
}

/// Packet types the power plugin sends.
pub open spec fn power_outgoing_capabilities() -> Seq<Seq<char>> {
    seq!["cconnect.power.status"@]
}

fn incoming_list() -> (r: Vec<String>)
    ensures
        names_view(r@) == power_incoming_capabilities(),
{
    let mut v: Vec<String> = Vec::new();
    v.push(owned("cconnect.power.request"));
    v.push(owned("cconnect.power.inhibit"));
    v.push(owned("cconnect.power.query"));
    v.push(owned("kdeconnect.power.request"));
    v.push(owned("kdeconnect.power.inhibit"));
    v.push(owned("kdeconnect.power.query"));
    assert(names_view(v@) =~= power_incoming_capabilities());
    v
}

fn outgoing_list() -> (r: Vec<String>)
    ensures
        names_view(r@) == power_outgoing_capabilities(),
{
    let mut v: Vec<String> = Vec::new();
    v.push(owned("cconnect.power.status"));
    assert(names_view(v@) =~= power_outgoing_capabilities());
    v
}

impl PowerPlugin {
    /// Packet types the plugin accepts.
    pub fn incoming_capabilities(&self) -> (r: Vec<String>)
        ensures
            names_view(r@) == power_incoming_capabilities(),
    {
        incoming_list()
    }

    /// Packet types the plugin sends.
    pub fn outgoing_capabilities(&self) -> (r: Vec<String>)
        ensures
            names_view(r@) == power_outgoing_capabilities(),
    {
        outgoing_list()
    }
}

/// Creates power plugins.
#[derive(Debug, Clone, Copy)]
pub struct PowerPluginFactory;

impl PowerPluginFactory {
    /// The plugin name.
    pub fn name(&self) -> (r: &'static str)
        ensures
            r@ == "power"@,
    {
        "power"
    }

    /// Packet types the plugin accepts.
    pub fn incoming_capabilities(&self) -> (r: Vec<String>)
        ensures
            names_view(r@) == power_incoming_capabilities(),
    {
        incoming_list()
    }

    /// Packet types the plugin sends.
    pub fn outgoing_capabilities(&self) -> (r: Vec<String>)
        ensures
            names_view(r@) == power_outgoing_capabilities(),
    {
        outgoing_list()
    }

    /// A new plugin.
    pub fn create(&self) -> (r: PowerPlugin)
        ensures
            r.wf(),
            !r.is_enabled(),
            !r.inhibited(),
    {
        PowerPlugin::new()
    }
}

/// Charging state of a battery, as UPower numbers it.
#[derive(Debug, Clone, Copy, PartialEq, Eq, Structural)]
pub enum BatteryState {
    /// Unknown.
    Unknown,
    /// Charging.
    Charging,
    /// Discharging.
    Discharging,
    /// Empty.
    Empty,
    /// Fully charged.
    FullyCharged,
    /// Waiting to charge.
    PendingCharge,
    /// Waiting to discharge.
    PendingDischarge,
}

/// The state UPower's number `v` stands for; unknown numbers are Unknown.
pub open spec fn battery_state_of(v: u32) -> BatteryState {
    if v == 1 {
        BatteryState::Charging
    } else if v == 2 {
        BatteryState::Discharging
    } else if v == 3 {
        BatteryState::Empty
    } else if v == 4 {
        BatteryState::FullyCharged
    } else if v == 5 {
        BatteryState::PendingCharge
    } else if v == 6 {
        BatteryState::PendingDischarge
    } else {
        BatteryState::Unknown
    }
}

impl From<u32> for BatteryState {
    fn from(value: u32) -> (r: Self) {
        BatteryState::from_u32(value)
    }
}

impl vstd::std_specs::convert::FromSpecImpl<u32> for BatteryState {
    open spec fn obeys_from_spec() -> bool {
        true
    }

    open spec fn from_spec(v: u32) -> BatteryState {
        battery_state_of(v)
    }
}

impl BatteryState {
    /// The state UPower's number `value` stands for.
    pub fn from_u32(value: u32) -> (r: Self)
        ensures
            r == battery_state_of(value),
    {
        match value {
            1 => BatteryState::Charging,
            2 => BatteryState::Discharging,
            3 => BatteryState::Empty,
            4 => BatteryState::FullyCharged,
            5 => BatteryState::PendingCharge,
            6 => BatteryState::PendingDischarge,
            _ => BatteryState::Unknown,
        }
    }

    /// Whether the battery charges or is about to.
    pub fn is_charging(&self) -> (r: bool)
        ensures
            r == (*self == BatteryState::Charging || *self == BatteryState::PendingCharge),
    {
        match self {
            BatteryState::Charging | BatteryState::PendingCharge => true,
            _ => false,
        }
    }

    /// The state's protocol name.
    pub fn as_str(&self) -> (r: &'static str)
        ensures
            r@ == (match *self {
                BatteryState::Unknown => "unknown"@,
                BatteryState::Charging => "charging"@,
                BatteryState::Discharging => "discharging"@,
                BatteryState::Empty => "empty"@,
                BatteryState::FullyCharged => "full"@,
                BatteryState::PendingCharge => "pending_charge"@,
                BatteryState::PendingDischarge => "pending_discharge"@,
            }),
    {
        match self {
            BatteryState::Unknown => "unknown",
            BatteryState::Charging => "charging",
            BatteryState::Discharging => "discharging",
            BatteryState::Empty => "empty",
            BatteryState::FullyCharged => "full",
            BatteryState::PendingCharge => "pending_charge",
            BatteryState::PendingDischarge => "pending_discharge",
        }
    }
}

} // verus!
