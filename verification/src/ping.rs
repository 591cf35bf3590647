//! Ping: the two devices greet each other, optionally with a message; the
//! plugin counts the pings received and sent.
use crate::text::{owned, str_eq};
use vstd::prelude::*;

verus! {

/// The views of a list of strings.
pub open spec fn names_view(v: Seq<String>) -> Seq<Seq<char>> {
    Seq::new(v.len(), |i: int| v[i]@)
}

/// Packet types the ping plugin accepts.
pub open spec fn ping_incoming_capabilities() -> Seq<Seq<char>> {
    seq!["cconnect.ping"@, "kdeconnect.ping"@]
}

/// Packet types the ping plugin sends.
pub open spec fn ping_outgoing_capabilities() -> Seq<Seq<char>> {
    seq!["cconnect.ping"@]
}

fn incoming_list() -> (r: Vec<String>)
    ensures
        names_view(r@) == ping_incoming_capabilities(),
{
    let mut v: Vec<String> = Vec::new();
    v.push(owned("cconnect.ping"));
    v.push(owned("kdeconnect.ping"));
    assert(names_view(v@) =~= ping_incoming_capabilities());
    v
}

fn outgoing_list() -> (r: Vec<String>)
    ensures
        names_view(r@) == ping_outgoing_capabilities(),
{
    let mut v: Vec<String> = Vec::new();
    v.push(owned("cconnect.ping"));
    assert(names_view(v@) =~= ping_outgoing_capabilities());
    v
}

/// The received counter after a packet of type `t` arrives: one more
/// (wrapping) for a ping, unchanged otherwise.
pub open spec fn received_after_packet(received: u64, t: Seq<char>) -> u64 {
    if t == "cconnect.ping"@ {
        ((received + 1) % 0x1_0000_0000_0000_0000) as u64
    } else {
        received
    }
}

/// The received counter after packets of types `ts` arrive in turn.
pub open spec fn received_after_packets(received: u64, ts: Seq<Seq<char>>) -> u64
    decreases ts.len(),
{
    if ts.len() == 0 {
        received
    } else {
        received_after_packet(received_after_packets(received, ts.drop_last()), ts.last())
    }
}

/// The number of pings among packet types `ts`.
pub open spec fn ping_count(ts: Seq<Seq<char>>) -> nat
    decreases ts.len(),
{
    if ts.len() == 0 {
        0
    } else {
        ping_count(ts.drop_last()) + if ts.last() == "cconnect.ping"@ { 1nat } else { 0nat }
    }
}

/// Handling packets in turn adds the number of pings among them to the
/// received counter (wrapping at 2^64): a new plugin that receives `n`
/// pings, among any other packets, counts `n`.
pub proof fn lemma_pings_counted(received: u64, ts: Seq<Seq<char>>)
    ensures
        received_after_packets(received, ts) == (received + ping_count(ts)) % 0x1_0000_0000_0000_0000,
        received + ping_count(ts) <= u64::MAX ==> received_after_packets(received, ts) == received + ping_count(ts),
    decreases ts.len(),
{
    if ts.len() > 0 {
        lemma_pings_counted(received, ts.drop_last());
        let c = ping_count(ts.drop_last());
        let m: int = 0x1_0000_0000_0000_0000;
        assert(((received + c) % m + 1) % m == (received + c + 1) % m) by (nonlinear_arith)
            requires m == 0x1_0000_0000_0000_0000, c >= 0, received >= 0;
    }
}

/// A ping to send: its packet type is `cconnect.ping`, its body holds the
/// message when there is one.
#[derive(Debug)]
pub struct PingMessage {
    /// The message, if any.
    pub message: Option<String>,
}

/// Ping plugin state.
#[derive(Debug)]
pub struct PingPlugin {
    device_id: Option<String>,
    pings_received: u64,
    pings_sent: u64,
}

impl PingPlugin {
    /// Pings received so far.
    pub closed spec fn received(&self) -> u64 {
        self.pings_received
    }

    /// Pings sent so far.
    pub closed spec fn sent(&self) -> u64 {
        self.pings_sent
    }

    /// Whether the plugin is attached to a device.
    pub closed spec fn attached(&self) -> bool {
        self.device_id is Some
    }

    /// A plugin with both counters at 0.
    pub fn new() -> (r: Self)
        ensures
            r.received() == 0,
            r.sent() == 0,
            !r.attached(),
    {
        PingPlugin { device_id: None, pings_received: 0, pings_sent: 0 }
    }

    /// The plugin name.
    pub fn name(&self) -> (r: &'static str)
        ensures
            r@ == "ping"@,
    {
        "ping"
    }

    /// Packet types the plugin accepts.
    pub fn incoming_capabilities(&self) -> (r: Vec<String>)
        ensures
            names_view(r@) == ping_incoming_capabilities(),
    {
        incoming_list()
    }

    /// Packet types the plugin sends.
    pub fn outgoing_capabilities(&self) -> (r: Vec<String>)
        ensures
            names_view(r@) == ping_outgoing_capabilities(),
    {
        outgoing_list()
    }

    /// Attaches the plugin to a device.
    pub fn init(&mut self, device_id: &str)
        ensures
            final(self).attached(),
            final(self).received() == old(self).received(),
            final(self).sent() == old(self).sent(),
    {
        self.device_id = Some(owned(device_id));
    }

    /// Whether the plugin is attached to a device.
    pub fn is_attached(&self) -> (r: bool)
        ensures
            r == self.attached(),
    {
        self.device_id.is_some()
    }

    /// Pings received.
    pub fn pings_received(&self) -> (r: u64)
        ensures
            r == self.received(),
    {
        self.pings_received
    }

    /// Pings sent.
    pub fn pings_sent(&self) -> (r: u64)
        ensures
            r == self.sent(),
    {
        self.pings_sent
    }

    /// Adds `n` to the received counter (wrapping, as an atomic add does).
    pub fn add_received(&mut self, n: u64)
        ensures
            final(self).received() == (old(self).received() + n) % 0x1_0000_0000_0000_0000,
            final(self).sent() == old(self).sent(),
            final(self).attached() == old(self).attached(),
    {
        self.pings_received = self.pings_received.wrapping_add(n);
    }

    /// Adds `n` to the sent counter (wrapping, as an atomic add does).
    pub fn add_sent(&mut self, n: u64)
        ensures
            final(self).sent() == (old(self).sent() + n) % 0x1_0000_0000_0000_0000,
            final(self).received() == old(self).received(),
            final(self).attached() == old(self).attached(),
    {
        self.pings_sent = self.pings_sent.wrapping_add(n);
    }

    /// A ping carrying `message`, if any.
    pub fn create_ping(&self, message: Option<String>) -> (r: PingMessage)
        ensures
            r.message == message,
    {
        PingMessage { message }
    }

    /// Handles a packet: a `cconnect.ping` counts one more ping received;
    /// anything else is ignored.  Returns whether it was a ping.
    pub fn handle_packet(&mut self, packet_type: &str) -> (r: bool)
        ensures
            r == (packet_type@ == "cconnect.ping"@),
            final(self).received() == (if r { (old(self).received() + 1) % 0x1_0000_0000_0000_0000 } else { old(self).received() as int }),
            final(self).received() == received_after_packet(old(self).received(), packet_type@),
            final(self).sent() == old(self).sent(),
            final(self).attached() == old(self).attached(),
    {
        if str_eq(packet_type, "cconnect.ping") {
            self.add_received(1);
            true
        } else {
            false
        }
    }
}

impl Default for PingPlugin {
    fn default() -> (r: Self)
        ensures
            r.received() == 0,
            r.sent() == 0,
    {
        PingPlugin::new()
    }
}

/// Creates ping plugins.
#[derive(Debug, Clone, Copy)]
pub struct PingPluginFactory;

impl PingPluginFactory {
    /// The plugin name.
    pub fn name(&self) -> (r: &'static str)
        ensures
            r@ == "ping"@,
    {
        "ping"
    }

    /// Packet types the plugin accepts.
    pub fn incoming_capabilities(&self) -> (r: Vec<String>)
        ensures
            names_view(r@) == ping_incoming_capabilities(),
    {
        incoming_list()
    }

    /// Packet types the plugin sends.
    pub fn outgoing_capabilities(&self) -> (r: Vec<String>)
        ensures
            names_view(r@) == ping_outgoing_capabilities(),
    {
        outgoing_list()
    }

    /// A new plugin.
    pub fn create(&self) -> (r: PingPlugin)
        ensures
            r.received() == 0,
            r.sent() == 0,
    {
        PingPlugin::new()
    }
}

} // verus!
