//! Which UPower device the power plugin reads the battery from.
//!
//! The runtime probes the usual device paths and enumerates the devices
//! over DBus; the choice among them is made here.
use crate::text::owned;
use vstd::prelude::*;
use vstd::string::StrSliceExecFns;

verus! {

/// First battery device tried.
pub const BATTERY_PATH_BAT0: &'static str = "/org/freedesktop/UPower/devices/battery_BAT0";

/// Second battery device tried.
pub const BATTERY_PATH_BAT1: &'static str = "/org/freedesktop/UPower/devices/battery_BAT1";

/// The composite display device, tried last.
pub const BATTERY_PATH_DISPLAY: &'static str = "/org/freedesktop/UPower/devices/DisplayDevice";

/// Whether `pat` occurs in `s`.
pub open spec fn contains_seq(s: Seq<char>, pat: Seq<char>) -> bool {
    exists|i: int| 0 <= i && i + pat.len() <= s.len() && #[trigger] s.subrange(i, i + pat.len()) == pat
}

/// Whether a device path names a battery: it holds `battery` or `BAT`.
pub open spec fn is_battery_path(p: Seq<char>) -> bool {
    contains_seq(p, "battery"@) || contains_seq(p, "BAT"@)
}

/// The first path of `paths` that names a battery.
pub open spec fn first_battery(paths: Seq<Seq<char>>) -> Option<Seq<char>>
    decreases paths.len(),
{
    if paths.len() == 0 {
        None
    } else if is_battery_path(paths[0]) {
        Some(paths[0])
    } else {
        first_battery(paths.drop_first())
    }
}

/// The battery device: the first of the usual paths that exists, in the
/// order BAT0, BAT1, display device; else the first enumerated device
/// whose path names a battery; none otherwise.
pub open spec fn battery_device_of(present: [bool; 3], devices: Seq<Seq<char>>) -> Option<Seq<char>> {
    if present[0] {
        Some(BATTERY_PATH_BAT0@)
    } else if present[1] {
        Some(BATTERY_PATH_BAT1@)
    } else if present[2] {
        Some(BATTERY_PATH_DISPLAY@)
    } else {
        first_battery(devices)
    }
}

/// Whether `pat` occurs in `s`.
pub fn str_contains(s: &str, pat: &str) -> (r: bool)
    ensures
        r == contains_seq(s@, pat@),
{
    let n = s.unicode_len();
    let m = pat.unicode_len();
    if m > n {
        proof {
            assert forall|i: int| 0 <= i && i + pat@.len() <= s@.len() implies #[trigger] s@.subrange(i, i + pat@.len()) != pat@ by {}
        }
        return false;
    }
    let mut i: usize = 0;
    while i <= n - m
        invariant
            n == s@.len(),
            m == pat@.len(),
            m <= n,
            i <= n - m + 1,
            forall|k: int| 0 <= k < i ==> #[trigger] s@.subrange(k, k + m) != pat@,
        decreases n - m + 1 - i,
    {
        let mut j: usize = 0;
        let mut same = true;
        while j < m
            invariant
                n == s@.len(),
                m == pat@.len(),
                i + m <= n,
                j <= m,
                same == forall|t: int| 0 <= t < j ==> s@[i + t] == pat@[t],
            decreases m - j,
        {
            if s.get_char(i + j) != pat.get_char(j) {
                same = false;
            }
            j = j + 1;
        }
        if same {
            assert(s@.subrange(i as int, i + m) =~= pat@);
            return true;
        }
        assert(s@.subrange(i as int, i + m) != pat@) by {
            let t = choose|t: int| 0 <= t < m && s@[i + t] != pat@[t];
            assert(s@.subrange(i as int, i + m)[t] == s@[i + t]);
        }
        i = i + 1;
    }
    false
}

/// Whether a device path names a battery.
pub fn is_battery_device(path: &str) -> (r: bool)
    ensures
        r == is_battery_path(path@),
{
    str_contains(path, "battery") || str_contains(path, "BAT")
}

/// The battery device, from which usual paths exist and the enumerated
/// devices (see `battery_device_of`).
pub fn battery_device_path(present: [bool; 3], devices: &[String]) -> (r: Option<String>)
    ensures
        match r {
            Some(p) => battery_device_of(present, devices@.map_values(|d: String| d@)) == Some(p@),
            None => battery_device_of(present, devices@.map_values(|d: String| d@)) is None,
        },
{
    if present[0] {
        return Some(owned(BATTERY_PATH_BAT0));
    }
    if present[1] {
        return Some(owned(BATTERY_PATH_BAT1));
    }
    if present[2] {
        return Some(owned(BATTERY_PATH_DISPLAY));
    }
    let ghost all = devices@.map_values(|d: String| d@);
    let mut i: usize = 0;
    assert(all.subrange(0, all.len() as int) =~= all);
    while i < devices.len()
        invariant
            all == devices@.map_values(|d: String| d@),
            !present[0] && !present[1] && !present[2],
            i <= devices@.len(),
            first_battery(all) == first_battery(all.subrange(i as int, all.len() as int)),
        decreases devices@.len() - i,
    {
        let ghost rest = all.subrange(i as int, all.len() as int);
        assert(rest[0] == devices@[i as int]@);
        if is_battery_device(devices[i].as_str()) {
            let found = owned(devices[i].as_str());
            return Some(found);
        }
        assert(rest.drop_first() =~= all.subrange(i + 1, all.len() as int));
        i = i + 1;
    }
    assert(all.subrange(i as int, all.len() as int) =~= Seq::<Seq<char>>::empty());
    None
}

} // verus!
