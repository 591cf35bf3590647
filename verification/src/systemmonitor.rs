//! System monitor: the phone asks for the desktop's statistics or its
//! busiest processes.  Collecting them reads `/proc` and stays with the
//! runtime; the plugin decides what is asked.
use crate::ping::names_view;
use crate::text::{owned, str_eq};
use vstd::prelude::*;

verus! {

/// What a request asks for.
#[derive(Debug, Clone, Copy, PartialEq, Eq, Structural)]
pub enum MonitorRequest {
    /// CPU, memory, disk, network and uptime (`cconnect.systemmonitor.stats`).
    Stats,
    /// The busiest processes, at most this many
    /// (`cconnect.systemmonitor.processes`).
    Processes { limit: u64 },
    /// An unknown request type: nothing is collected.
    Unknown,
}

/// What a request with `requestType` `t` (default `stats`) and `limit`
/// `l` (default 10) asks for.
pub open spec fn monitor_request_of(t: Option<Seq<char>>, l: Option<u64>) -> MonitorRequest {
    let kind = match t {
        Some(s) => s,
        None => "stats"@,
    };
    if kind == "stats"@ {
        MonitorRequest::Stats
    } else if kind == "processes"@ {
        MonitorRequest::Processes { limit: match l { Some(v) => v, None => 10 } }
    } else {
        MonitorRequest::Unknown
    }
}

/// System monitor plugin state.
#[derive(Debug)]
pub struct SystemMonitorPlugin {
    device_id: Option<String>,
    enabled: bool,
}

impl SystemMonitorPlugin {
    /// The device the plugin is attached to.
    pub closed spec fn device(&self) -> Option<Seq<char>> {
        match self.device_id {
            Some(d) => Some(d@),
            None => None,
        }
    }

    /// Whether packets are handled.
    pub closed spec fn is_enabled(&self) -> bool {
        self.enabled
    }

    /// A plugin handling packets from the start.
    pub fn new() -> (r: Self)
        ensures
            r.is_enabled(),
            r.device() is None,
    {
        SystemMonitorPlugin { device_id: None, enabled: true }
    }

    /// The plugin name.
    pub fn name(&self) -> (r: &'static str)
        ensures
            r@ == "systemmonitor"@,
    {
        "systemmonitor"
    }

    /// Packet types the plugin accepts.
    pub fn incoming_capabilities(&self) -> (r: Vec<String>)
        ensures
            names_view(r@) == seq!["cconnect.systemmonitor.request"@],
    {
        incoming_list()
    }

    /// Packet types the plugin sends.
    pub fn outgoing_capabilities(&self) -> (r: Vec<String>)
        ensures
            names_view(r@) == seq!["cconnect.systemmonitor.stats"@, "cconnect.systemmonitor.processes"@],
    {
        outgoing_list()
    }

    /// Attaches the plugin to a device.
    pub fn init(&mut self, device_id: &str)
        ensures
            final(self).device() == Some(device_id@),
            final(self).is_enabled() == old(self).is_enabled(),
    {
        self.device_id = Some(owned(device_id));
    }

    /// Enables packet handling.
    pub fn start(&mut self)
        ensures
            final(self).is_enabled(),
    {
        self.enabled = true;
    }

    /// Disables packet handling.
    pub fn stop(&mut self)
        ensures
            !final(self).is_enabled(),
    {
        self.enabled = false;
    }

    /// What a packet asks for: `None` when the plugin is disabled or the
    /// packet is not a `cconnect.systemmonitor.request`.
    pub fn handle_packet(&self, packet_type: &str, request_type: Option<&str>, limit: Option<u64>) -> (r: Option<MonitorRequest>)
        ensures
            r == (if self.is_enabled() && packet_type@ == "cconnect.systemmonitor.request"@ {
                Some(monitor_request_of(
                    match request_type { Some(t) => Some(t@), None => None },
                    limit,
                ))
            } else {
                None
            }),
    {
        if !self.enabled || !str_eq(packet_type, "cconnect.systemmonitor.request") {
            return None;
        }
        proof {
            reveal_strlit("stats");
            reveal_strlit("processes");
        }
        let kind: &str = match request_type {
            Some(t) => t,
            None => "stats",
        };
        if str_eq(kind, "stats") {
            Some(MonitorRequest::Stats)
        } else if str_eq(kind, "processes") {
            Some(MonitorRequest::Processes { limit: match limit { Some(v) => v, None => 10 } })
        } else {
            Some(MonitorRequest::Unknown)
        }
    }
}

impl Default for SystemMonitorPlugin {
    fn default() -> (r: Self)
        ensures
            r.is_enabled(),
    {
        SystemMonitorPlugin::new()
    }
}

fn incoming_list() -> (r: Vec<String>)
    ensures
        names_view(r@) == seq!["cconnect.systemmonitor.request"@],
{
    let mut v: Vec<String> = Vec::new();
    v.push(owned("cconnect.systemmonitor.request"));
    assert(names_view(v@) =~= seq!["cconnect.systemmonitor.request"@]);
    v
}

fn outgoing_list() -> (r: Vec<String>)
    ensures
        names_view(r@) == seq!["cconnect.systemmonitor.stats"@, "cconnect.systemmonitor.processes"@],
{
    let mut v: Vec<String> = Vec::new();
    v.push(owned("cconnect.systemmonitor.stats"));
    v.push(owned("cconnect.systemmonitor.processes"));
    assert(names_view(v@) =~= seq!["cconnect.systemmonitor.stats"@, "cconnect.systemmonitor.processes"@]);
    v
}

/// Creates system monitor plugins.
#[derive(Debug, Clone, Copy)]
pub struct SystemMonitorPluginFactory;

impl SystemMonitorPluginFactory {
    /// The plugin name.
    pub fn name(&self) -> (r: &'static str)
        ensures
            r@ == "systemmonitor"@,
    {
        "systemmonitor"
    }

    /// Packet types the plugin accepts.
    pub fn incoming_capabilities(&self) -> (r: Vec<String>)
        ensures
            names_view(r@) == seq!["cconnect.systemmonitor.request"@],
    {
        incoming_list()
    }

    /// Packet types the plugin sends.
    pub fn outgoing_capabilities(&self) -> (r: Vec<String>)
        ensures
            names_view(r@) == seq!["cconnect.systemmonitor.stats"@, "cconnect.systemmonitor.processes"@],
    {
        outgoing_list()
    }

    /// A new plugin.
    pub fn create(&self) -> (r: SystemMonitorPlugin)
        ensures
            r.is_enabled(),
    {
        SystemMonitorPlugin::new()
    }
}

} // verus!
