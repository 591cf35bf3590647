//! System volume: the phone lists the audio sinks of the desktop and sets
//! their volume and mute state.
use crate::notification::opt_view;
use crate::ping::names_view;
use crate::text::{decimal, owned, parse_u32, parse_u32_of, str_eq, u64_to_decimal};
use vstd::prelude::*;

verus! {

/// Packet type of a volume request.
pub const PACKET_TYPE_SYSTEMVOLUME_REQUEST: &'static str = "cconnect.systemvolume.request";

/// Packet type of a sink list.
pub const PACKET_TYPE_SYSTEMVOLUME: &'static str = "cconnect.systemvolume";

/// An audio output as the audio backend reports it.
#[derive(Debug)]
pub struct AudioSink {
    /// Backend id.
    pub id: u32,
    /// Human-readable name.
    pub name: String,
    /// Volume in percent.
    pub volume: i32,
    /// Whether it is muted.
    pub muted: bool,
    /// Whether it is the default output.
    pub is_default: bool,
    /// Highest volume in percent.
    pub max_volume: i32,
}

/// A sink as the protocol describes it.
#[derive(Debug)]
pub struct SinkInfo {
    /// Unique name: the backend id in decimal.
    pub name: String,
    /// Human-readable description.
    pub description: String,
    /// Volume in percent.
    pub volume: i32,
    /// Whether it is muted.
    pub muted: bool,
    /// Highest volume in percent.
    pub max_volume: i32,
    /// Whether it is the default output.
    pub enabled: bool,
}

/// A sink as plain values.
pub struct SinkView {
    pub name: Seq<char>,
    pub description: Seq<char>,
    pub volume: i32,
    pub muted: bool,
    pub max_volume: i32,
    pub enabled: bool,
}

impl View for SinkInfo {
    type V = SinkView;

    open spec fn view(&self) -> SinkView {
        SinkView {
            name: self.name@,
            description: self.description@,
            volume: self.volume,
            muted: self.muted,
            max_volume: self.max_volume,
            enabled: self.enabled,
        }
    }
}

/// The protocol description of a backend sink.
pub open spec fn sink_of_audio(s: AudioSink) -> SinkView {
    SinkView {
        name: decimal(s.id as nat),
        description: s.name@,
        volume: s.volume,
        muted: s.muted,
        max_volume: s.max_volume,
        enabled: s.is_default,
    }
}

impl SinkInfo {
    /// A copy of the sink.
    pub fn duplicate(&self) -> (r: Self)
        ensures
            r@ == self@,
    {
        SinkInfo {
            name: owned(self.name.as_str()),
            description: owned(self.description.as_str()),
            volume: self.volume,
            muted: self.muted,
            max_volume: self.max_volume,
            enabled: self.enabled,
        }
    }

    /// The protocol description of a backend sink: named by its id.
    pub fn from_audio_sink(sink: AudioSink) -> (r: Self)
        ensures
            r@ == sink_of_audio(sink),
    {
        SinkInfo {
            name: u64_to_decimal(sink.id as u64),
            description: sink.name,
            volume: sink.volume,
            muted: sink.muted,
            max_volume: sink.max_volume,
            enabled: sink.is_default,
        }
    }
}

/// A volume request from the phone.
#[derive(Debug)]
pub struct SystemVolumeRequest {
    /// Sink to control; the default sink when absent.
    pub name: Option<String>,
    /// New volume in percent.
    pub volume: Option<i32>,
    /// New mute state.
    pub muted: Option<bool>,
    /// Make the sink the default.
    pub enabled: Option<bool>,
    /// Ask for the sink list.
    pub request_sinks: bool,
}

/// The body of a sink list.
#[derive(Debug)]
pub struct SinkListResponse {
    /// The sinks.
    pub sink_list: Vec<SinkInfo>,
}

/// Which sink a request addresses.
#[derive(Debug)]
pub enum SinkTarget {
    /// The sink with this backend id.
    Id(u32),
    /// The sink the backend finds by this name (ask the backend).
    ByName(String),
    /// The backend's default sink (ask the backend).
    Default,
}

/// What the runtime does for a volume request.
#[derive(Debug)]
pub enum VolumeStep {
    /// List the sinks, refresh the cache with `update_sink_cache` and send
    /// the list.
    SendSinkList,
    /// Resolve the sink, set the volume and mute state given (skipping
    /// everything when the sink is not found), then send the sink list.
    Apply { target: SinkTarget, volume: Option<i32>, muted: Option<bool> },
}

/// The views of a list of sinks.
pub open spec fn sinks_view(v: Seq<SinkInfo>) -> Seq<SinkView> {
    Seq::new(v.len(), |i: int| v[i]@)
}

/// The index of the sink named `n` in `s`, if any.
pub open spec fn index_of_sink(s: Seq<SinkView>, n: Seq<char>) -> Option<int> {
    if exists|i: int| 0 <= i < s.len() && s[i].name == n {
        Some(choose|i: int| 0 <= i < s.len() && s[i].name == n)
    } else {
        None
    }
}

/// The cache after replacing its content with `new`: one entry per name,
/// a later sink winning over an earlier one of the same name.
pub open spec fn cache_of(new: Seq<SinkView>) -> Seq<SinkView>
    decreases new.len(),
{
    if new.len() == 0 {
        Seq::empty()
    } else {
        let prev = cache_of(new.drop_last());
        match index_of_sink(prev, new.last().name) {
            Some(i) => prev.update(i, new.last()),
            None => prev.push(new.last()),
        }
    }
}

/// No name occurs twice.
pub open spec fn sink_names_unique(s: Seq<SinkView>) -> bool {
    forall|i: int, j: int| 0 <= i < s.len() && 0 <= j < s.len() && i != j ==> s[i].name != s[j].name
}

/// The first default sink of `s`, if any.
pub open spec fn first_default(s: Seq<SinkView>) -> Option<int>
    decreases s.len(),
{
    if s.len() == 0 {
        None
    } else if s[0].enabled {
        Some(0)
    } else {
        match first_default(s.drop_first()) {
            Some(i) => Some(i + 1),
            None => None,
        }
    }
}

/// The name-to-id map of the entries `s`, a later entry winning.
pub open spec fn id_map_of(s: Seq<(Seq<char>, u32)>) -> Map<Seq<char>, u32>
    decreases s.len(),
{
    if s.len() == 0 {
        Map::empty()
    } else {
        id_map_of(s.drop_last()).insert(s.last().0, s.last().1)
    }
}

/// The id the entries `s` give the name `n`.
pub open spec fn id_of(s: Seq<(Seq<char>, u32)>, n: Seq<char>) -> Option<u32> {
    if id_map_of(s).contains_key(n) {
        Some(id_map_of(s)[n])
    } else {
        None
    }
}

proof fn lemma_id_map_suffix(s: Seq<(Seq<char>, u32)>, i: int, n: Seq<char>)
    requires
        0 <= i <= s.len(),
        forall|j: int| i <= j < s.len() ==> s[j].0 != n,
    ensures
        id_of(s, n) == id_of(s.take(i), n),
    decreases s.len() - i,
{
    if i == s.len() {
        assert(s.take(i) =~= s);
    } else {
        let d = s.drop_last();
        assert(d.take(i) =~= s.take(i));
        lemma_id_map_suffix(d, i, n);
    }
}

/// System volume plugin state.
#[derive(Debug)]
pub struct SystemVolumePlugin {
    device_id: Option<String>,
    has_packet_sender: bool,
    sinks: Vec<SinkInfo>,
    sink_ids: Vec<(String, u32)>,
}

impl SystemVolumePlugin {
    /// The device the plugin is attached to.
    pub closed spec fn device(&self) -> Option<Seq<char>> {
        match self.device_id {
            Some(d) => Some(d@),
            None => None,
        }
    }

    /// Whether the plugin was given a packet sender.
    pub closed spec fn can_send(&self) -> bool {
        self.has_packet_sender
    }

    /// The cached sinks.
    pub closed spec fn cached(&self) -> Seq<SinkView> {
        sinks_view(self.sinks@)
    }

    /// The cached name-to-id entries.
    pub closed spec fn ids(&self) -> Seq<(Seq<char>, u32)> {
        Seq::new(self.sink_ids@.len(), |i: int| (self.sink_ids@[i].0@, self.sink_ids@[i].1))
    }

    /// No sink is cached twice.
    pub closed spec fn wf(&self) -> bool {
        sink_names_unique(self.cached())
    }

    /// A plugin with no cached sink, attached to no device and without a
    /// packet sender.
    pub fn new() -> (r: Self)
        ensures
            r.wf(),
            r.cached().len() == 0,
            r.ids().len() == 0,
            r.device() is None,
            !r.can_send(),
    {
        let r = SystemVolumePlugin { device_id: None, has_packet_sender: false, sinks: Vec::new(), sink_ids: Vec::new() };
        assert(r.cached() =~= Seq::<SinkView>::empty());
        r
    }

    /// The plugin name.
    pub fn name(&self) -> (r: &'static str)
        ensures
            r@ == "systemvolume"@,
    {
        "systemvolume"
    }

    /// Attaches the plugin to a device, with a packet sender.
    pub fn init(&mut self, device_id: &str)
        requires
            old(self).wf(),
        ensures
            final(self).wf(),
            final(self).device() == Some(device_id@),
            final(self).can_send(),
            final(self).cached() == old(self).cached(),
            final(self).ids() == old(self).ids(),
    {
        self.device_id = Some(owned(device_id));
        self.has_packet_sender = true;
    }

    fn find(&self, name: &str) -> (r: Option<usize>)
        requires
            self.wf(),
        ensures
            match r {
                Some(i) => index_of_sink(self.cached(), name@) == Some(i as int) && i < self.cached().len(),
                None => index_of_sink(self.cached(), name@) is None,
            },
    {
        let mut i: usize = 0;
        while i < self.sinks.len()
            invariant
                self.wf(),
                i <= self.sinks@.len(),
                forall|j: int| 0 <= j < i ==> self.cached()[j].name != name@,
            decreases self.sinks@.len() - i,
        {
            if str_eq(self.sinks[i].name.as_str(), name) {
                assert(self.cached()[i as int].name == name@);
                let ghost j = choose|j: int| 0 <= j < self.cached().len() && self.cached()[j].name == name@;
                assert(j == i as int);
                return Some(i);
            }
            i = i + 1;
        }
        None
    }

    /// Copies of the cached sinks.
    pub fn get_sinks(&self) -> (r: Vec<SinkInfo>)
        ensures
            sinks_view(r@) == self.cached(),
    {
        let mut out: Vec<SinkInfo> = Vec::new();
        let mut i: usize = 0;
        while i < self.sinks.len()
            invariant
                i <= self.sinks@.len(),
                out@.len() == i,
                forall|j: int| 0 <= j < i ==> #[trigger] out@[j]@ == self.sinks@[j]@,
            decreases self.sinks@.len() - i,
        {
            out.push(self.sinks[i].duplicate());
            i = i + 1;
        }
        assert(sinks_view(out@) =~= self.cached());
        out
    }

    /// A copy of the cached sink named `name`.
    pub fn get_sink(&self, name: &str) -> (r: Option<SinkInfo>)
        requires
            self.wf(),
        ensures
            match index_of_sink(self.cached(), name@) {
                Some(i) => r matches Some(s) && s@ == self.cached()[i],
                None => r is None,
            },
    {
        match self.find(name) {
            Some(i) => Some(self.sinks[i].duplicate()),
            None => None,
        }
    }

    /// A copy of the first cached default sink.
    pub fn get_default_sink(&self) -> (r: Option<SinkInfo>)
        ensures
            match first_default(self.cached()) {
                Some(i) => r matches Some(s) && s@ == self.cached()[i],
                None => r is None,
            },
    {
        let mut i: usize = 0;
        assert(self.cached().skip(0) =~= self.cached());
        while i < self.sinks.len()
            invariant
                i <= self.sinks@.len(),
                first_default(self.cached()) == (match first_default(self.cached().skip(i as int)) {
                    Some(k) => Some(k + i),
                    None => None::<int>,
                }),
            decreases self.sinks@.len() - i,
        {
            let ghost rest = self.cached().skip(i as int);
            assert(rest.drop_first() =~= self.cached().skip(i + 1));
            if self.sinks[i].enabled {
                assert(rest[0] == self.cached()[i as int]);
                return Some(self.sinks[i].duplicate());
            }
            i = i + 1;
        }
        assert(self.cached().skip(i as int) =~= Seq::<SinkView>::empty());
        None
    }

    /// Volume of the cached sink named `name`.
    pub fn get_volume(&self, name: &str) -> (r: Option<i32>)
        requires
            self.wf(),
        ensures
            match index_of_sink(self.cached(), name@) {
                Some(i) => r == Some(self.cached()[i].volume),
                None => r is None,
            },
    {
        match self.find(name) {
            Some(i) => Some(self.sinks[i].volume),
            None => None,
        }
    }

    /// Mute state of the cached sink named `name`.
    pub fn is_muted(&self, name: &str) -> (r: Option<bool>)
        requires
            self.wf(),
        ensures
            match index_of_sink(self.cached(), name@) {
                Some(i) => r == Some(self.cached()[i].muted),
                None => r is None,
            },
    {
        match self.find(name) {
            Some(i) => Some(self.sinks[i].muted),
            None => None,
        }
    }

    /// Number of cached sinks.
    pub fn sink_count(&self) -> (r: usize)
        ensures
            r == self.cached().len(),
    {
        self.sinks.len()
    }

    /// Whether any sink is cached.
    pub fn has_sinks(&self) -> (r: bool)
        ensures
            r == (self.cached().len() > 0),
    {
        self.sinks.len() > 0
    }

    /// Replaces the cache with `sinks` (one per name, a later one winning)
    /// and the name-to-id entries with `ids`.
    pub fn update_sink_cache(&mut self, sinks: Vec<SinkInfo>, ids: Vec<(String, u32)>)
        requires
            old(self).wf(),
        ensures
            final(self).wf(),
            final(self).cached() == cache_of(sinks_view(sinks@)),
            final(self).ids() == Seq::new(ids@.len(), |i: int| (ids@[i].0@, ids@[i].1)),
    {
        self.sinks = Vec::new();
        assert(self.cached() =~= Seq::<SinkView>::empty());
        let ghost all = sinks_view(sinks@);
        let mut i: usize = 0;
        while i < sinks.len()
            invariant
                i <= sinks@.len(),
                all == sinks_view(sinks@),
                self.wf(),
                self.cached() == cache_of(all.take(i as int)),
            decreases sinks@.len() - i,
        {
            let s = sinks[i].duplicate();
            let ghost before = self.cached();
            let ghost sv = s@;
            assert(all.take(i + 1).drop_last() =~= all.take(i as int));
            assert(all.take(i + 1).last() == sv);
            match self.find(s.name.as_str()) {
                Some(k) => {
                    self.sinks.set(k, s);
                    assert(self.cached() =~= before.update(k as int, sv));
                    assert forall|a: int, b: int| 0 <= a < self.cached().len() && 0 <= b < self.cached().len() && a != b
                        implies self.cached()[a].name != self.cached()[b].name by {
                        if a != k && b != k {
                            assert(self.cached()[a] == before[a] && self.cached()[b] == before[b]);
                        } else if a == k {
                            assert(self.cached()[b] == before[b]);
                        } else {
                            assert(self.cached()[a] == before[a]);
                        }
                    }
                },
                None => {
                    self.sinks.push(s);
                    assert(self.cached() =~= before.push(sv));
                    assert forall|a: int, b: int| 0 <= a < self.cached().len() && 0 <= b < self.cached().len() && a != b
                        implies self.cached()[a].name != self.cached()[b].name by {
                        if a < before.len() && b < before.len() {
                            assert(self.cached()[a] == before[a] && self.cached()[b] == before[b]);
                        } else if a == before.len() {
                            assert(self.cached()[b] == before[b]);
                        } else {
                            assert(self.cached()[a] == before[a]);
                        }
                    }
                },
            }
            i = i + 1;
        }
        assert(all.take(i as int) =~= all);
        self.sink_ids = ids;
    }

    /// The backend id a sink name stands for: the name itself when it is
    /// a decimal number, else the cached id for that name.
    pub fn get_sink_id(&self, name: &str) -> (r: Option<u32>)
        ensures
            r == (match parse_u32_of(name@) {
                Some(v) => Some(v),
                None => id_of(self.ids(), name@),
            }),
    {
        match parse_u32(name) {
            Some(v) => return Some(v),
            None => {},
        }
        let mut i: usize = self.sink_ids.len();
        while i > 0
            invariant
                i <= self.sink_ids@.len(),
                parse_u32_of(name@) is None,
                forall|j: int| i <= j < self.ids().len() ==> self.ids()[j].0 != name@,
            decreases i,
        {
            if str_eq(self.sink_ids[i - 1].0.as_str(), name) {
                proof {
                    lemma_id_map_suffix(self.ids(), i as int, name@);
                    let t = self.ids().take(i as int);
                    assert(t.last() == self.ids()[i - 1]);
                    assert(t.last().0 == name@);
                    assert(id_map_of(t) == id_map_of(t.drop_last()).insert(t.last().0, t.last().1));
                }
                return Some(self.sink_ids[i - 1].1);
            }
            i = i - 1;
        }
        proof {
            lemma_id_map_suffix(self.ids(), 0, name@);
            assert(self.ids().take(0) =~= Seq::<(Seq<char>, u32)>::empty());
        }
        None
    }

    /// Decides what a volume request does: a sink-list request lists the
    /// sinks; otherwise the named sink (by number, cached id or backend
    /// lookup) or the default sink gets the volume and mute state given.
    pub fn handle_volume_request(&self, request: SystemVolumeRequest) -> (r: VolumeStep)
        ensures
            request.request_sinks ==> r is SendSinkList,
            !request.request_sinks ==> (r matches VolumeStep::Apply { target, volume, muted }
                && volume == request.volume && muted == request.muted
                && match request.name {
                    Some(n) => match (match parse_u32_of(n@) {
                        Some(v) => Some(v),
                        None => id_of(self.ids(), n@),
                    }) {
                        Some(id) => target == SinkTarget::Id(id),
                        None => target matches SinkTarget::ByName(m) && m@ == n@,
                    },
                    None => target is Default,
                }),
    {
        if request.request_sinks {
            return VolumeStep::SendSinkList;
        }
        let target = match request.name {
            Some(n) => match self.get_sink_id(n.as_str()) {
                Some(id) => SinkTarget::Id(id),
                None => SinkTarget::ByName(n),
            },
            None => SinkTarget::Default,
        };
        VolumeStep::Apply { target, volume: request.volume, muted: request.muted }
    }
}

/// Packet types the system volume plugin accepts.
pub open spec fn systemvolume_incoming_capabilities() -> Seq<Seq<char>> {
    seq!["cconnect.systemvolume.request"@, "kdeconnect.systemvolume.request"@]
}

/// Packet types the system volume plugin sends.
pub open spec fn systemvolume_outgoing_capabilities() -> Seq<Seq<char>> {
    seq!["cconnect.systemvolume"@, "kdeconnect.systemvolume"@]
}

fn incoming_list() -> (r: Vec<String>)
    ensures
        names_view(r@) == systemvolume_incoming_capabilities(),
{
    let mut v: Vec<String> = Vec::new();
    v.push(owned(PACKET_TYPE_SYSTEMVOLUME_REQUEST));
    v.push(owned("kdeconnect.systemvolume.request"));
    assert(names_view(v@) =~= systemvolume_incoming_capabilities());
    v
}

fn outgoing_list() -> (r: Vec<String>)
    ensures
        names_view(r@) == systemvolume_outgoing_capabilities(),
{
    let mut v: Vec<String> = Vec::new();
    v.push(owned(PACKET_TYPE_SYSTEMVOLUME));
    v.push(owned("kdeconnect.systemvolume"));
    assert(names_view(v@) =~= systemvolume_outgoing_capabilities());
    v
}

impl SystemVolumePlugin {
    /// Packet types the plugin accepts.
    pub fn incoming_capabilities(&self) -> (r: Vec<String>)
        ensures
            names_view(r@) == systemvolume_incoming_capabilities(),
    {
        incoming_list()
    }

    /// Packet types the plugin sends.
    pub fn outgoing_capabilities(&self) -> (r: Vec<String>)
        ensures
            names_view(r@) == systemvolume_outgoing_capabilities(),
    {
        outgoing_list()
    }

    /// Whether the plugin acts on packets of this type.
    pub fn handles(&self, packet_type: &str) -> (r: bool)
        ensures
            r == (packet_type@ == "cconnect.systemvolume.request"@ || packet_type@ == "kdeconnect.systemvolume.request"@),
    {
        str_eq(packet_type, PACKET_TYPE_SYSTEMVOLUME_REQUEST) || str_eq(packet_type, "kdeconnect.systemvolume.request")
    }
}

impl Default for SystemVolumePlugin {
    fn default() -> (r: Self)
        ensures
            r.wf(),
            r.cached().len() == 0,
    {
        SystemVolumePlugin::new()
    }
}

/// Creates system volume plugins.
#[derive(Debug, Clone, Copy)]
pub struct SystemVolumePluginFactory;

impl SystemVolumePluginFactory {
    /// The plugin name.
    pub fn name(&self) -> (r: &'static str)
        ensures
            r@ == "systemvolume"@,
    {
        "systemvolume"
    }

    /// Packet types the plugin accepts.
    pub fn incoming_capabilities(&self) -> (r: Vec<String>)
        ensures
            names_view(r@) == systemvolume_incoming_capabilities(),
    {
        incoming_list()
    }

    /// Packet types the plugin sends.
    pub fn outgoing_capabilities(&self) -> (r: Vec<String>)
        ensures
            names_view(r@) == systemvolume_outgoing_capabilities(),
    {
        outgoing_list()
    }

    /// A new plugin.
    pub fn create(&self) -> (r: SystemVolumePlugin)
        ensures
            r.wf(),
            r.cached().len() == 0,
    {
        SystemVolumePlugin::new()
    }
}

} // verus!
