//! Adaptive bitrate control for screen sharing: AIMD (additive increase,
//! multiplicative decrease) driven by per-viewer throughput reports.  The
//! encoder produces one bitrate for all viewers, so the weakest fresh
//! viewer governs.
//!
//! Times are milliseconds on the monotonic clock, counted from the moment
//! a report collection was made; the `*_at` functions take the current
//! time as an argument, the plain ones read the clock of the collection.
use crate::clock::{instant_now, nanos_since};
use crate::text::str_eq;
use vstd::prelude::*;

verus! {

/// How long a viewer report stays fresh, in milliseconds.
pub const REPORT_STALENESS_MS: u64 = 10_000;

/// Additive increase per check cycle, in kbps.
pub const INCREASE_STEP_KBPS: u32 = 100;

/// Cooldown after a decrease before increases are allowed, in milliseconds.
pub const COOLDOWN_MS: u64 = 4_000;

/// Per-viewer network condition snapshot.
#[derive(Debug, Clone, Copy, PartialEq, Eq)]
pub struct ViewerNetworkReport {
    /// Measured throughput in kbps.
    pub throughput_kbps: u32,
    /// Cumulative broadcast lag frame count for this viewer.
    pub lagged_frames: u64,
    /// When this report was last updated (milliseconds since the epoch).
    pub reported_at: u64,
}

/// Milliseconds from `earlier` to `later`, 0 when `later` is not after it.
pub open spec fn elapsed_ms(earlier: u64, later: u64) -> int {
    if later >= earlier {
        later - earlier
    } else {
        0
    }
}

/// A report is fresh while less than the staleness window has passed.
pub open spec fn is_fresh(r: ViewerNetworkReport, now: u64) -> bool {
    elapsed_ms(r.reported_at, now) < REPORT_STALENESS_MS
}

/// Minimum throughput over the fresh reports of `rs`, `None` if none is fresh.
pub open spec fn worst_of(rs: Seq<ViewerNetworkReport>, now: u64) -> Option<u32>
    decreases rs.len(),
{
    if rs.len() == 0 {
        None
    } else {
        let rest = worst_of(rs.drop_last(), now);
        let last = rs.last();
        if is_fresh(last, now) {
            match rest {
                None => Some(last.throughput_kbps),
                Some(w) => Some(if last.throughput_kbps < w { last.throughput_kbps } else { w }),
            }
        } else {
            rest
        }
    }
}

/// Whether some fresh report of `rs` has lagged frames.
pub open spec fn any_lagging_in(rs: Seq<ViewerNetworkReport>, now: u64) -> bool {
    exists|i: int| 0 <= i < rs.len() && is_fresh(rs[i], now) && #[trigger] rs[i].lagged_frames > 0
}

/// `worst_of` is the minimum of the fresh throughputs: it is one of them
/// and no fresh throughput is smaller; it is `None` exactly when no report
/// is fresh.
pub proof fn lemma_worst_is_minimum(rs: Seq<ViewerNetworkReport>, now: u64)
    ensures
        worst_of(rs, now) is None <==> (forall|i: int| 0 <= i < rs.len() ==> !is_fresh(#[trigger] rs[i], now)),
        worst_of(rs, now) matches Some(w) ==> {
            &&& exists|i: int| 0 <= i < rs.len() && is_fresh(rs[i], now) && #[trigger] rs[i].throughput_kbps == w
            &&& forall|i: int| 0 <= i < rs.len() && is_fresh(rs[i], now) ==> w <= #[trigger] rs[i].throughput_kbps
        },
    decreases rs.len(),
{
    if rs.len() > 0 {
        let init = rs.drop_last();
        let last_i = rs.len() - 1;
        lemma_worst_is_minimum(init, now);
        assert forall|i: int| 0 <= i < init.len() implies #[trigger] init[i] == rs[i] by {}
        assert(rs[last_i] == rs.last());
        if worst_of(rs, now) is None {
            assert(!is_fresh(rs.last(), now));
            assert forall|i: int| 0 <= i < rs.len() implies !is_fresh(#[trigger] rs[i], now) by {
                if i < last_i {
                    assert(init[i] == rs[i]);
                }
            }
        } else {
            let w = worst_of(rs, now).unwrap();
            if is_fresh(rs.last(), now) && (worst_of(init, now) is None || rs.last().throughput_kbps < worst_of(init, now).unwrap()) {
                assert(rs[last_i].throughput_kbps == w);
                assert(is_fresh(rs[last_i], now));
            } else {
                let w0 = worst_of(init, now).unwrap();
                assert(w0 == w);
                let k = choose|i: int| 0 <= i < init.len() && is_fresh(init[i], now) && #[trigger] init[i].throughput_kbps == w0;
                assert(rs[k] == init[k]);
                assert(rs[k].throughput_kbps == w);
            }
            assert forall|i: int| 0 <= i < rs.len() && is_fresh(rs[i], now) implies w <= #[trigger] rs[i].throughput_kbps by {
                if i < last_i {
                    assert(init[i] == rs[i]);
                    assert(is_fresh(init[i], now));
                }
            }
            assert(!(forall|i: int| 0 <= i < rs.len() ==> !is_fresh(#[trigger] rs[i], now))) by {
                if is_fresh(rs.last(), now) {
                    assert(is_fresh(rs[last_i], now));
                } else {
                    let k = choose|i: int| 0 <= i < init.len() && is_fresh(init[i], now) && #[trigger] init[i].throughput_kbps == w;
                    assert(rs[k] == init[k]);
                }
            }
        }
    }
}

/// `after` is `before` with viewer `id`'s report set to `rep`: replaced in
/// place when the viewer is known, appended otherwise.
pub open spec fn updated_with(before: ViewerNetworkReports, after: ViewerNetworkReports, id: Seq<char>, rep: ViewerNetworkReport) -> bool {
    match index_of_id(before.id_seq(), id) {
        Some(i) => after.id_seq() == before.id_seq() && after.report_seq() == before.report_seq().update(i, rep),
        None => after.id_seq() == before.id_seq().push(id) && after.report_seq() == before.report_seq().push(rep),
    }
}

/// Per-viewer network reports, keyed by viewer id.
#[derive(Debug, Clone)]
pub struct ViewerNetworkReports {
    ids: Vec<String>,
    reports: Vec<ViewerNetworkReport>,
    created: std::time::Instant,
}

/// The index of the entry for viewer `id` in `ids`, if there is one.
pub open spec fn index_of_id(ids: Seq<Seq<char>>, id: Seq<char>) -> Option<int> {
    if exists|i: int| 0 <= i < ids.len() && ids[i] == id {
        Some(choose|i: int| 0 <= i < ids.len() && ids[i] == id)
    } else {
        None
    }
}

/// No id occurs twice.
pub open spec fn ids_unique(ids: Seq<Seq<char>>) -> bool {
    forall|i: int, j: int| 0 <= i < ids.len() && 0 <= j < ids.len() && i != j ==> ids[i] != ids[j]
}

impl ViewerNetworkReports {
    /// The viewer ids, in insertion order.
    pub closed spec fn id_seq(&self) -> Seq<Seq<char>> {
        Seq::new(self.ids@.len(), |i: int| self.ids@[i]@)
    }

    /// The reports, in the order of `id_seq`.
    pub closed spec fn report_seq(&self) -> Seq<ViewerNetworkReport> {
        self.reports@
    }

    /// Ids and reports pair up, and no id occurs twice.
    pub closed spec fn wf(&self) -> bool {
        &&& self.ids@.len() == self.reports@.len()
        &&& ids_unique(self.id_seq())
    }

    /// The report of viewer `id`, if any.
    pub open spec fn lookup(&self, id: Seq<char>) -> Option<ViewerNetworkReport> {
        match index_of_id(self.id_seq(), id) {
            Some(i) => Some(self.report_seq()[i]),
            None => None,
        }
    }

    proof fn lemma_lengths(&self)
        requires
            self.wf(),
        ensures
            self.id_seq().len() == self.report_seq().len(),
            self.id_seq().len() == self.ids@.len(),
    {
    }

    /// An empty report collection.
    pub fn new() -> (r: Self)
        ensures
            r.wf(),
            r.id_seq().len() == 0,
            r.report_seq().len() == 0,
    {
        let r = Self { ids: Vec::new(), reports: Vec::new(), created: instant_now() };
        assert(r.id_seq() =~= Seq::<Seq<char>>::empty());
        r
    }

    /// Milliseconds since the collection was made, on the monotonic clock
    /// (saturating).  Nothing is promised of the number: it depends on when
    /// it is called.
    pub(crate) fn clock_ms(&self) -> u64 {
        nanos_since(&self.created) / 1_000_000
    }

    /// The position of viewer `id`, found by comparing ids.
    fn find(&self, id: &str) -> (r: Option<usize>)
        requires
            self.wf(),
        ensures
            match r {
                Some(i) => index_of_id(self.id_seq(), id@) == Some(i as int) && i < self.ids@.len(),
                None => index_of_id(self.id_seq(), id@) is None,
            },
    {
        let mut i: usize = 0;
        while i < self.ids.len()
            invariant
                self.wf(),
                i <= self.ids@.len(),
                forall|j: int| 0 <= j < i ==> self.id_seq()[j] != id@,
            decreases self.ids@.len() - i,
        {
            if str_eq(self.ids[i].as_str(), id) {
                assert(self.id_seq()[i as int] == id@);
                let ghost j = choose|j: int| 0 <= j < self.id_seq().len() && self.id_seq()[j] == id@;
                assert(j == i as int);
                return Some(i);
            }
            i = i + 1;
        }
        assert(index_of_id(self.id_seq(), id@) is None);
        None
    }

    /// Inserts or replaces viewer `id`'s report, stamped with time `now`.
    pub fn update_at(&mut self, viewer_id: &str, throughput_kbps: u32, lagged_frames: u64, now: u64)
        requires
            old(self).wf(),
        ensures
            final(self).wf(),
            updated_with(*old(self), *final(self), viewer_id@,
                ViewerNetworkReport { throughput_kbps, lagged_frames, reported_at: now }),
    {
        let rep = ViewerNetworkReport { throughput_kbps, lagged_frames, reported_at: now };
        match self.find(viewer_id) {
            Some(i) => {
                self.reports.set(i, rep);
                assert(self.id_seq() =~= old(self).id_seq());
            },
            None => {
                self.ids.push(viewer_id.to_owned());
                self.reports.push(rep);
                assert(self.id_seq() =~= old(self).id_seq().push(viewer_id@));
            },
        }
    }

    /// Inserts or replaces viewer `id`'s report, stamped with the current time.
    pub fn update(&mut self, viewer_id: &str, throughput_kbps: u32, lagged_frames: u64)
        requires
            old(self).wf(),
        ensures
            final(self).wf(),
            exists|now: u64| #[trigger] updated_with(*old(self), *final(self), viewer_id@,
                ViewerNetworkReport { throughput_kbps, lagged_frames, reported_at: now }),
    {
        let now = self.clock_ms();
        self.update_at(viewer_id, throughput_kbps, lagged_frames, now);
    }

    /// Removes viewer `id`'s report (on disconnect).
    pub fn remove(&mut self, viewer_id: &str)
        requires
            old(self).wf(),
        ensures
            final(self).wf(),
            match index_of_id(old(self).id_seq(), viewer_id@) {
                Some(i) => final(self).id_seq() == old(self).id_seq().remove(i)
                    && final(self).report_seq() == old(self).report_seq().remove(i),
                None => final(self).id_seq() == old(self).id_seq()
                    && final(self).report_seq() == old(self).report_seq(),
            },
    {
        match self.find(viewer_id) {
            Some(i) => {
                let ghost old_ids = self.id_seq();
                self.ids.remove(i);
                self.reports.remove(i);
                assert(self.id_seq() =~= old_ids.remove(i as int));
                assert forall|a: int, b: int| 0 <= a < self.id_seq().len() && 0 <= b < self.id_seq().len() && a != b
                    implies self.id_seq()[a] != self.id_seq()[b] by {
                    let a2 = if a < i { a } else { a + 1 };
                    let b2 = if b < i { b } else { b + 1 };
                    assert(self.id_seq()[a] == old_ids[a2]);
                    assert(self.id_seq()[b] == old_ids[b2]);
                }
            },
            None => {},
        }
    }

    /// Minimum throughput across fresh viewers at time `now`, or `None` if
    /// no report is fresh.
    pub fn worst_throughput_kbps_at(&self, now: u64) -> (r: Option<u32>)
        requires
            self.wf(),
        ensures
            r == worst_of(self.report_seq(), now),
    {
        let mut acc: Option<u32> = None;
        let mut i: usize = 0;
        while i < self.reports.len()
            invariant
                i <= self.reports@.len(),
                acc == worst_of(self.reports@.subrange(0, i as int), now),
            decreases self.reports@.len() - i,
        {
            let r = self.reports[i];
            let fresh = now < r.reported_at || now - r.reported_at < REPORT_STALENESS_MS;
            if fresh {
                acc = match acc {
                    None => Some(r.throughput_kbps),
                    Some(w) => Some(if r.throughput_kbps < w { r.throughput_kbps } else { w }),
                };
            }
            assert(self.reports@.subrange(0, i + 1).drop_last() =~= self.reports@.subrange(0, i as int));
            i = i + 1;
        }
        assert(self.reports@.subrange(0, i as int) =~= self.reports@);
        acc
    }

    /// Minimum throughput across fresh viewers now.
    pub fn worst_throughput_kbps(&self) -> (r: Option<u32>)
        requires
            self.wf(),
        ensures
            exists|now: u64| r == #[trigger] worst_of(self.report_seq(), now),
    {
        self.worst_throughput_kbps_at(self.clock_ms())
    }

    /// Whether any fresh viewer has lagged frames at time `now`.
    pub fn any_lagging_at(&self, now: u64) -> (r: bool)
        requires
            self.wf(),
        ensures
            r == any_lagging_in(self.report_seq(), now),
    {
        let mut i: usize = 0;
        while i < self.reports.len()
            invariant
                i <= self.reports@.len(),
                forall|j: int| 0 <= j < i ==> !(is_fresh(self.reports@[j], now) && #[trigger] self.reports@[j].lagged_frames > 0),
            decreases self.reports@.len() - i,
        {
            let r = self.reports[i];
            let fresh = now < r.reported_at || now - r.reported_at < REPORT_STALENESS_MS;
            if fresh && r.lagged_frames > 0 {
                assert(is_fresh(self.reports@[i as int], now) && self.reports@[i as int].lagged_frames > 0);
                return true;
            }
            i = i + 1;
        }
        false
    }

    /// Whether any fresh viewer has lagged frames now.
    pub fn any_lagging(&self) -> (r: bool)
        requires
            self.wf(),
        ensures
            exists|now: u64| r == #[trigger] any_lagging_in(self.report_seq(), now),
    {
        self.any_lagging_at(self.clock_ms())
    }

    /// Number of viewers with reports, stale ones included.
    pub fn viewer_count(&self) -> (r: usize)
        requires
            self.wf(),
        ensures
            r == self.id_seq().len(),
    {
        self.ids.len()
    }

    /// Removes all reports.
    pub fn clear(&mut self)
        ensures
            final(self).wf(),
            final(self).id_seq().len() == 0,
            final(self).report_seq().len() == 0,
    {
        self.ids.clear();
        self.reports.clear();
        assert(self.id_seq() =~= Seq::<Seq<char>>::empty());
    }
}

impl Default for ViewerNetworkReports {
    fn default() -> (r: Self)
        ensures
            r.wf(),
            r.id_seq().len() == 0,
    {
        Self::new()
    }
}

/// After an update, the viewer's report is the one just given, and the
/// other viewers' reports are unchanged.
pub proof fn lemma_update_then_lookup(
    before: ViewerNetworkReports,
    after: ViewerNetworkReports,
    id: Seq<char>,
    rep: ViewerNetworkReport,
    other: Seq<char>,
)
    requires
        before.wf(),
        after.wf(),
        updated_with(before, after, id, rep),
        other != id,
    ensures
        after.lookup(id) == Some(rep),
        after.lookup(other) == before.lookup(other),
{
    before.lemma_lengths();
    after.lemma_lengths();
    let bi = before.id_seq();
    let ai = after.id_seq();
    match index_of_id(bi, id) {
        Some(i) => {
            assert(ai[i] == id);
            let j = choose|j: int| 0 <= j < ai.len() && ai[j] == id;
            assert(j == i);
            if exists|k: int| 0 <= k < bi.len() && bi[k] == other {
                let k = choose|k: int| 0 <= k < bi.len() && bi[k] == other;
                assert(k != i);
            }
        },
        None => {
            let n = bi.len() as int;
            assert(ai[n] == id);
            assert forall|k: int| 0 <= k < n implies #[trigger] ai[k] == bi[k] by {}
            let j = choose|j: int| 0 <= j < ai.len() && ai[j] == id;
            if j < n {
                assert(bi[j] == id);
            }
            assert(j == n);
            if exists|k: int| 0 <= k < ai.len() && ai[k] == other {
                let k = choose|k: int| 0 <= k < ai.len() && ai[k] == other;
                assert(k < n);
                assert(bi[k] == other);
            }
            if exists|k: int| 0 <= k < bi.len() && bi[k] == other {
                let k = choose|k: int| 0 <= k < bi.len() && bi[k] == other;
                assert(ai[k] == other);
            }
        },
    }
}

/// After removing a viewer, it has no report, and the other viewers'
/// reports are unchanged.
pub proof fn lemma_remove_then_lookup(
    before: ViewerNetworkReports,
    after: ViewerNetworkReports,
    id: Seq<char>,
    other: Seq<char>,
)
    requires
        before.wf(),
        after.wf(),
        match index_of_id(before.id_seq(), id) {
            Some(i) => after.id_seq() == before.id_seq().remove(i) && after.report_seq() == before.report_seq().remove(i),
            None => after.id_seq() == before.id_seq() && after.report_seq() == before.report_seq(),
        },
        other != id,
    ensures
        after.lookup(id) is None,
        after.lookup(other) == before.lookup(other),
{
    before.lemma_lengths();
    after.lemma_lengths();
    let bi = before.id_seq();
    let ai = after.id_seq();
    match index_of_id(bi, id) {
        Some(i) => {
            assert(bi[i] == id);
            if exists|k: int| 0 <= k < ai.len() && ai[k] == id {
                let k = choose|k: int| 0 <= k < ai.len() && ai[k] == id;
                let k2 = if k < i { k } else { k + 1 };
                assert(bi[k2] == ai[k]);
            }
            if exists|k: int| 0 <= k < ai.len() && ai[k] == other {
                let k = choose|k: int| 0 <= k < ai.len() && ai[k] == other;
                let k2 = if k < i { k } else { k + 1 };
                assert(bi[k2] == other);
                let m = choose|m: int| 0 <= m < bi.len() && bi[m] == other;
                assert(m == k2);
                assert(after.report_seq()[k] == before.report_seq()[k2]);
            } else if exists|m: int| 0 <= m < bi.len() && bi[m] == other {
                let m = choose|m: int| 0 <= m < bi.len() && bi[m] == other;
                let m2 = if m < i { m } else { m - 1 };
                assert(m != i);
                assert(ai[m2] == other);
            }
        },
        None => {},
    }
}

/// The decision of one controller step.
#[derive(Debug, Clone, Copy, PartialEq, Eq)]
pub struct BitrateStep {
    /// The new bitrate, when a change is warranted.
    pub new_kbps: Option<u32>,
    /// The time of the last decrease after the step.
    pub last_decrease: Option<u64>,
}

/// Whether the reports indicate congestion at bitrate `current`: a fresh
/// viewer lags, or the weakest fresh viewer's throughput is below 80% of
/// `current`.
pub open spec fn congested(rs: Seq<ViewerNetworkReport>, current: u32, now: u64) -> bool {
    any_lagging_in(rs, now) || match worst_of(rs, now) {
        Some(w) => w < (current as int * 4) / 5,
        None => false,
    }
}

/// The AIMD step: with no viewers drop to the minimum; on congestion halve
/// (not below the minimum) and start the cooldown; during the cooldown
/// hold; otherwise add the step (not above the maximum).  The reports are
/// judged at `reports_now` on their collection's clock; the cooldown and
/// the decrease time are on the controller's clock, at `now`.
pub open spec fn aimd_step(
    min_kbps: u32,
    max_kbps: u32,
    last_decrease: Option<u64>,
    rs: Seq<ViewerNetworkReport>,
    current: u32,
    receiver_count: usize,
    reports_now: u64,
    now: u64,
) -> BitrateStep {
    if receiver_count == 0 {
        BitrateStep { new_kbps: if current > min_kbps { Some(min_kbps) } else { None }, last_decrease }
    } else if congested(rs, current, reports_now) {
        let halved = current / 2;
        let n = if halved > min_kbps { halved } else { min_kbps };
        BitrateStep { new_kbps: if n != current { Some(n) } else { None }, last_decrease: Some(now) }
    } else if last_decrease matches Some(t) && elapsed_ms(t, now) < COOLDOWN_MS {
        BitrateStep { new_kbps: None, last_decrease }
    } else if current < max_kbps {
        let raised = if current + INCREASE_STEP_KBPS > u32::MAX { u32::MAX as int } else { current + INCREASE_STEP_KBPS };
        let n = if raised < max_kbps { raised } else { max_kbps as int };
        BitrateStep { new_kbps: if n != current { Some(n as u32) } else { None }, last_decrease }
    } else {
        BitrateStep { new_kbps: None, last_decrease }
    }
}

/// AIMD bitrate controller.
#[derive(Debug, Clone)]
pub struct BitrateController {
    target_kbps: u32,
    min_kbps: u32,
    max_kbps: u32,
    last_decrease: Option<u64>,
    created: std::time::Instant,
}

impl BitrateController {
    /// The configured target bitrate.
    pub closed spec fn target(&self) -> u32 {
        self.target_kbps
    }

    /// The lower bound.
    pub closed spec fn min(&self) -> u32 {
        self.min_kbps
    }

    /// The upper bound.
    pub closed spec fn max(&self) -> u32 {
        self.max_kbps
    }

    /// The time of the last decrease, if any.
    pub closed spec fn last_decrease_at(&self) -> Option<u64> {
        self.last_decrease
    }

    /// A controller with the given bitrate bounds and no decrease yet.
    pub fn new(target_kbps: u32, min_kbps: u32, max_kbps: u32) -> (r: Self)
        ensures
            r.target() == target_kbps,
            r.min() == min_kbps,
            r.max() == max_kbps,
            r.last_decrease_at() is None,
    {
        Self { target_kbps, min_kbps, max_kbps, last_decrease: None, created: instant_now() }
    }

    /// Milliseconds since this controller was made: its own clock, on which
    /// decreases are timed.
    fn clock_ms(&self) -> u64 {
        nanos_since(&self.created) / 1_000_000
    }

    /// Whether the reports indicate congestion at time `now`.
    fn is_congested_at(&self, reports: &ViewerNetworkReports, current_kbps: u32, now: u64) -> (r: bool)
        requires
            reports.wf(),
        ensures
            r == congested(reports.report_seq(), current_kbps, now),
    {
        if reports.any_lagging_at(now) {
            return true;
        }
        match reports.worst_throughput_kbps_at(now) {
            Some(worst) => {
                let threshold = ((current_kbps as u64) * 4 / 5) as u32;
                worst < threshold
            },
            None => false,
        }
    }

    /// Evaluates the reports at time `reports_now` of their collection's
    /// clock, at time `now` of the controller's clock, and returns a new
    /// bitrate when a change is warranted (`None` keeps the current one).
    pub fn update_at(
        &mut self,
        reports: &ViewerNetworkReports,
        current_kbps: u32,
        receiver_count: usize,
        reports_now: u64,
        now: u64,
    ) -> (r: Option<u32>)
        requires
            reports.wf(),
        ensures
            ({
                let step = aimd_step(old(self).min(), old(self).max(), old(self).last_decrease_at(),
                    reports.report_seq(), current_kbps, receiver_count, reports_now, now);
                &&& r == step.new_kbps
                &&& final(self).last_decrease_at() == step.last_decrease
            }),
            final(self).min() == old(self).min(),
            final(self).max() == old(self).max(),
            final(self).target() == old(self).target(),
    {
        if receiver_count == 0 {
            return if current_kbps > self.min_kbps { Some(self.min_kbps) } else { None };
        }
        if self.is_congested_at(reports, current_kbps, reports_now) {
            let halved = current_kbps / 2;
            let new_kbps = if halved > self.min_kbps { halved } else { self.min_kbps };
            self.last_decrease = Some(now);
            if new_kbps != current_kbps {
                return Some(new_kbps);
            }
            return None;
        }
        if let Some(last) = self.last_decrease {
            let in_cooldown = now < last || now - last < COOLDOWN_MS;
            if in_cooldown {
                return None;
            }
        }
        if current_kbps < self.max_kbps {
            let raised = current_kbps.saturating_add(INCREASE_STEP_KBPS);
            let new_kbps = if raised < self.max_kbps { raised } else { self.max_kbps };
            if new_kbps != current_kbps {
                return Some(new_kbps);
            }
        }
        None
    }

    /// Evaluates the reports now (their freshness on their collection's
    /// clock, the cooldown on the controller's own) and returns a new
    /// bitrate when a change is warranted.
    pub fn update(&mut self, reports: &ViewerNetworkReports, current_kbps: u32, receiver_count: usize) -> (r: Option<u32>)
        requires
            reports.wf(),
        ensures
            exists|reports_now: u64, now: u64| {
                &&& r == (#[trigger] aimd_step(old(self).min(), old(self).max(), old(self).last_decrease_at(),
                    reports.report_seq(), current_kbps, receiver_count, reports_now, now)).new_kbps
                &&& final(self).last_decrease_at() == aimd_step(old(self).min(), old(self).max(), old(self).last_decrease_at(),
                    reports.report_seq(), current_kbps, receiver_count, reports_now, now).last_decrease
            },
            final(self).min() == old(self).min(),
            final(self).max() == old(self).max(),
            final(self).target() == old(self).target(),
    {
        let reports_now = reports.clock_ms();
        let now = self.clock_ms();
        self.update_at(reports, current_kbps, receiver_count, reports_now, now)
    }

    /// The configured target bitrate.
    pub fn target_kbps(&self) -> (r: u32)
        ensures
            r == self.target(),
    {
        self.target_kbps
    }
}

/// A step never proposes the bitrate it was given, and when the bounds are
/// ordered and the current bitrate lies within them, so does the proposal.
pub proof fn lemma_step_within_bounds(
    min_kbps: u32,
    max_kbps: u32,
    last_decrease: Option<u64>,
    rs: Seq<ViewerNetworkReport>,
    current: u32,
    receiver_count: usize,
    reports_now: u64,
    now: u64,
)
    ensures
        aimd_step(min_kbps, max_kbps, last_decrease, rs, current, receiver_count, reports_now, now).new_kbps matches Some(n)
            ==> n != current,
        min_kbps <= max_kbps && min_kbps <= current <= max_kbps ==>
            (aimd_step(min_kbps, max_kbps, last_decrease, rs, current, receiver_count, reports_now, now).new_kbps matches Some(n)
                ==> min_kbps <= n <= max_kbps),
{
}

/// With viewers present, a congested step never raises the bitrate and
/// starts the cooldown; an uncongested step never lowers it.
pub proof fn lemma_step_direction(
    min_kbps: u32,
    max_kbps: u32,
    last_decrease: Option<u64>,
    rs: Seq<ViewerNetworkReport>,
    current: u32,
    receiver_count: usize,
    reports_now: u64,
    now: u64,
)
    requires
        receiver_count > 0,
        min_kbps <= current,
    ensures
        congested(rs, current, reports_now) ==> {
            let s = aimd_step(min_kbps, max_kbps, last_decrease, rs, current, receiver_count, reports_now, now);
            &&& s.last_decrease == Some(now)
            &&& s.new_kbps matches Some(n) ==> n < current
        },
        !congested(rs, current, reports_now) ==>
            (aimd_step(min_kbps, max_kbps, last_decrease, rs, current, receiver_count, reports_now, now).new_kbps matches Some(n)
                ==> n > current),
{
}

/// Hysteresis: after a decrease at time `t`, no step within the cooldown
/// raises the bitrate.
pub proof fn lemma_cooldown_blocks_increase(
    min_kbps: u32,
    max_kbps: u32,
    t: u64,
    rs: Seq<ViewerNetworkReport>,
    current: u32,
    receiver_count: usize,
    reports_now: u64,
    now: u64,
)
    requires
        min_kbps <= current,
        t <= now,
        now - t < COOLDOWN_MS,
    ensures
        aimd_step(min_kbps, max_kbps, Some(t), rs, current, receiver_count, reports_now, now).new_kbps matches Some(n)
            ==> n <= current,
{
}

/// With no viewers the controller drops straight to the minimum.
pub proof fn lemma_no_viewers_drop_to_min(
    min_kbps: u32,
    max_kbps: u32,
    last_decrease: Option<u64>,
    rs: Seq<ViewerNetworkReport>,
    current: u32,
    reports_now: u64,
    now: u64,
)
    ensures
        aimd_step(min_kbps, max_kbps, last_decrease, rs, current, 0, reports_now, now).new_kbps
            == (if current > min_kbps { Some(min_kbps) } else { None::<u32> }),
{
}

} // verus!
