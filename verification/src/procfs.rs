//! The Linux `/proc` files the system monitor reads: their line and
//! field structure, and the counters taken from them.
//!
//! The runtime reads the files and turns counters into percentages; the
//! parsing is done here.
use crate::text::{is_digit, owned, parse_u64, parse_u64_of, str_eq};
use vstd::prelude::*;
use vstd::string::StrSliceExecFns;

verus! {

/// Whether `c` is white space (the Unicode `White_Space` property, as
/// `char::is_whitespace` tests it).
pub open spec fn is_ws(c: char) -> bool {
    ||| c == ' '
    ||| ('\t' <= c && c <= '\r')
    ||| c == '\u{85}'
    ||| c == '\u{a0}'
    ||| c == '\u{1680}'
    ||| ('\u{2000}' <= c && c <= '\u{200a}')
    ||| c == '\u{2028}'
    ||| c == '\u{2029}'
    ||| c == '\u{202f}'
    ||| c == '\u{205f}'
    ||| c == '\u{3000}'
}

fn ws_char(c: char) -> (r: bool)
    ensures
        r == is_ws(c),
{
    c == ' ' || ('\t' <= c && c <= '\r') || c == '\u{85}' || c == '\u{a0}' || c == '\u{1680}'
        || ('\u{2000}' <= c && c <= '\u{200a}') || c == '\u{2028}' || c == '\u{2029}' || c == '\u{202f}'
        || c == '\u{205f}' || c == '\u{3000}'
}

/// The pending word, if it is not empty.
pub open spec fn flush(acc: Seq<char>) -> Seq<Seq<char>> {
    if acc.len() > 0 { seq![acc] } else { Seq::empty() }
}

/// The words of `s`, after a pending word `acc`.
pub open spec fn words_from(s: Seq<char>, acc: Seq<char>) -> Seq<Seq<char>>
    decreases s.len(),
{
    if s.len() == 0 {
        flush(acc)
    } else if is_ws(s[0]) {
        flush(acc) + words_from(s.drop_first(), Seq::empty())
    } else {
        words_from(s.drop_first(), acc.push(s[0]))
    }
}

/// The maximal runs of non-white-space characters of `s`, in order: what
/// `str::split_whitespace` yields.
pub open spec fn words(s: Seq<char>) -> Seq<Seq<char>> {
    words_from(s, Seq::empty())
}

/// A line without its carriage return, if it ends with one.
pub open spec fn strip_cr(l: Seq<char>) -> Seq<char> {
    if l.len() > 0 && l.last() == '\r' { l.drop_last() } else { l }
}

/// The lines of `s`, after a pending line `acc`.
pub open spec fn lines_from(s: Seq<char>, acc: Seq<char>) -> Seq<Seq<char>>
    decreases s.len(),
{
    if s.len() == 0 {
        flush(acc)
    } else if s[0] == '\n' {
        seq![strip_cr(acc)] + lines_from(s.drop_first(), Seq::empty())
    } else {
        lines_from(s.drop_first(), acc.push(s[0]))
    }
}

/// The lines of `s`, as `str::lines` yields them: split at each `\n`, a
/// `\r` before it dropped, no empty line after a final `\n`.
pub open spec fn lines(s: Seq<char>) -> Seq<Seq<char>> {
    lines_from(s, Seq::empty())
}

/// The views of a list of strings.
pub open spec fn views(v: Seq<String>) -> Seq<Seq<char>> {
    Seq::new(v.len(), |i: int| v[i]@)
}

proof fn lemma_views_push(v: Seq<String>, s: String)
    ensures
        views(v.push(s)) == views(v).push(s@),
{
    assert(views(v.push(s)) =~= views(v).push(s@));
}

proof fn lemma_skip_step(s: Seq<char>, i: int)
    requires
        0 <= i < s.len(),
    ensures
        s.skip(i).len() > 0,
        s.skip(i)[0] == s[i],
        s.skip(i).drop_first() == s.skip(i + 1),
{
    assert(s.skip(i).drop_first() =~= s.skip(i + 1));
}

/// The words of `s` (see `words`).
pub fn split_whitespace(s: &str) -> (r: Vec<String>)
    ensures
        views(r@) == words(s@),
{
    let n = s.unicode_len();
    let mut out: Vec<String> = Vec::new();
    let mut start: usize = 0;
    let mut i: usize = 0;
    assert(s@.skip(0) =~= s@);
    assert(s@.subrange(0, 0) =~= Seq::<char>::empty());
    while i < n
        invariant
            n == s@.len(),
            start <= i <= n,
            words(s@) == views(out@) + words_from(s@.skip(i as int), s@.subrange(start as int, i as int)),
        decreases n - i,
    {
        let c = s.get_char(i);
        proof {
            lemma_skip_step(s@, i as int);
        }
        let ghost acc = s@.subrange(start as int, i as int);
        if ws_char(c) {
            if start < i {
                let w = owned(s.substring_char(start, i));
                proof {
                    lemma_views_push(out@, w);
                    assert(flush(acc) =~= seq![w@]);
                }
                out.push(w);
            } else {
                assert(flush(acc) =~= Seq::<Seq<char>>::empty());
            }
            proof {
                assert(s@.subrange(i + 1, i + 1) =~= Seq::<char>::empty());
            }
            start = i + 1;
        } else {
            assert(acc.push(c) =~= s@.subrange(start as int, i + 1));
        }
        i = i + 1;
        assert(views(out@) + words_from(s@.skip(i as int), s@.subrange(start as int, i as int)) =~= words(s@));
    }
    let ghost acc = s@.subrange(start as int, n as int);
    assert(s@.skip(n as int) =~= Seq::<char>::empty());
    if start < n {
        let w = owned(s.substring_char(start, n));
        proof {
            lemma_views_push(out@, w);
            assert(flush(acc) =~= seq![w@]);
        }
        out.push(w);
    } else {
        assert(flush(acc) =~= Seq::<Seq<char>>::empty());
    }
    assert(views(out@) =~= words(s@));
    out
}

/// The lines of `s` (see `lines`).
pub fn split_lines(s: &str) -> (r: Vec<String>)
    ensures
        views(r@) == lines(s@),
{
    let n = s.unicode_len();
    let mut out: Vec<String> = Vec::new();
    let mut start: usize = 0;
    let mut i: usize = 0;
    assert(s@.skip(0) =~= s@);
    assert(s@.subrange(0, 0) =~= Seq::<char>::empty());
    while i < n
        invariant
            n == s@.len(),
            start <= i <= n,
            lines(s@) == views(out@) + lines_from(s@.skip(i as int), s@.subrange(start as int, i as int)),
        decreases n - i,
    {
        let c = s.get_char(i);
        proof {
            lemma_skip_step(s@, i as int);
        }
        let ghost acc = s@.subrange(start as int, i as int);
        if c == '\n' {
            let end = if start < i && s.get_char(i - 1) == '\r' { i - 1 } else { i };
            let l = owned(s.substring_char(start, end));
            proof {
                assert(l@ =~= strip_cr(acc));
                lemma_views_push(out@, l);
                assert(s@.subrange(i + 1, i + 1) =~= Seq::<char>::empty());
            }
            out.push(l);
            start = i + 1;
        } else {
            assert(acc.push(c) =~= s@.subrange(start as int, i + 1));
        }
        i = i + 1;
        assert(views(out@) + lines_from(s@.skip(i as int), s@.subrange(start as int, i as int)) =~= lines(s@));
    }
    let ghost acc = s@.subrange(start as int, n as int);
    assert(s@.skip(n as int) =~= Seq::<char>::empty());
    if start < n {
        let l = owned(s.substring_char(start, n));
        proof {
            lemma_views_push(out@, l);
            assert(flush(acc) =~= seq![l@]);
        }
        out.push(l);
    } else {
        assert(flush(acc) =~= Seq::<Seq<char>>::empty());
    }
    assert(views(out@) =~= lines(s@));
    out
}

/// Whether `s` begins with `p`.
pub open spec fn starts_with(s: Seq<char>, p: Seq<char>) -> bool {
    p.len() <= s.len() && s.subrange(0, p.len() as int) == p
}

/// Whether `s` begins with `p`.
pub fn str_starts_with(s: &str, p: &str) -> (r: bool)
    ensures
        r == starts_with(s@, p@),
{
    let n = s.unicode_len();
    let m = p.unicode_len();
    if m > n {
        return false;
    }
    let mut i: usize = 0;
    while i < m
        invariant
            n == s@.len(),
            m == p@.len(),
            m <= n,
            i <= m,
            forall|k: int| 0 <= k < i ==> s@[k] == p@[k],
        decreases m - i,
    {
        if s.get_char(i) != p.get_char(i) {
            assert(s@.subrange(0, m as int)[i as int] != p@[i as int]);
            return false;
        }
        i = i + 1;
    }
    assert(s@.subrange(0, m as int) =~= p@);
    true
}

/// Position of the first `c` in `s`.
pub open spec fn first_index(s: Seq<char>, c: char) -> Option<int>
    decreases s.len(),
{
    if s.len() == 0 {
        None
    } else if s[0] == c {
        Some(0)
    } else {
        match first_index(s.drop_first(), c) {
            Some(k) => Some(k + 1),
            None => None,
        }
    }
}

/// Position of the last `c` in `s`.
pub open spec fn last_index(s: Seq<char>, c: char) -> Option<int>
    decreases s.len(),
{
    if s.len() == 0 {
        None
    } else if s.last() == c {
        Some(s.len() - 1)
    } else {
        last_index(s.drop_last(), c)
    }
}

proof fn lemma_first_index(s: Seq<char>, c: char, i: int)
    requires
        0 <= i <= s.len(),
        forall|k: int| 0 <= k < i ==> s[k] != c,
    ensures
        first_index(s, c) == (match first_index(s.skip(i), c) {
            Some(k) => Some(k + i),
            None => None::<int>,
        }),
    decreases i,
{
    if i == 0 {
        assert(s.skip(0) =~= s);
        match first_index(s, c) {
            Some(k) => {},
            None => {},
        }
    } else {
        lemma_first_index(s.drop_first(), c, i - 1);
        assert(s.drop_first().skip(i - 1) =~= s.skip(i));
    }
}

proof fn lemma_last_index(s: Seq<char>, c: char, i: int)
    requires
        0 <= i <= s.len(),
        forall|k: int| i <= k < s.len() ==> s[k] != c,
    ensures
        last_index(s, c) == last_index(s.take(i), c),
    decreases s.len() - i,
{
    if i == s.len() {
        assert(s.take(i) =~= s);
    } else {
        lemma_last_index(s.drop_last(), c, i);
        assert(s.drop_last().take(i) =~= s.take(i));
    }
}

/// Position of the first `c` in `s`.
pub fn find_char(s: &str, c: char) -> (r: Option<usize>)
    ensures
        r matches Some(k) ==> k < s@.len() && s@[k as int] == c,
        match r {
            Some(k) => first_index(s@, c) == Some(k as int),
            None => first_index(s@, c) is None,
        },
{
    let n = s.unicode_len();
    let mut i: usize = 0;
    while i < n
        invariant
            n == s@.len(),
            i <= n,
            forall|k: int| 0 <= k < i ==> s@[k] != c,
        decreases n - i,
    {
        if s.get_char(i) == c {
            proof {
                lemma_first_index(s@, c, i as int);
                assert(s@.skip(i as int)[0] == c);
            }
            return Some(i);
        }
        i = i + 1;
    }
    proof {
        lemma_first_index(s@, c, n as int);
        assert(s@.skip(n as int) =~= Seq::<char>::empty());
    }
    None
}

/// Position of the last `c` in `s`.
pub fn rfind_char(s: &str, c: char) -> (r: Option<usize>)
    ensures
        r matches Some(k) ==> k < s@.len() && s@[k as int] == c,
        match r {
            Some(k) => last_index(s@, c) == Some(k as int),
            None => last_index(s@, c) is None,
        },
{
    let n = s.unicode_len();
    let mut i: usize = n;
    while i > 0
        invariant
            n == s@.len(),
            i <= n,
            forall|k: int| i <= k < n ==> s@[k] != c,
        decreases i,
    {
        if s.get_char(i - 1) == c {
            proof {
                lemma_last_index(s@, c, i as int);
                assert(s@.take(i as int).last() == c);
            }
            return Some(i - 1);
        }
        i = i - 1;
    }
    proof {
        lemma_last_index(s@, c, 0);
        assert(s@.take(0) =~= Seq::<char>::empty());
    }
    None
}

/// `s` without leading white space.
pub open spec fn trim_start(s: Seq<char>) -> Seq<char>
    decreases s.len(),
{
    if s.len() > 0 && is_ws(s[0]) { trim_start(s.drop_first()) } else { s }
}

/// `s` without trailing white space.
pub open spec fn trim_end(s: Seq<char>) -> Seq<char>
    decreases s.len(),
{
    if s.len() > 0 && is_ws(s.last()) { trim_end(s.drop_last()) } else { s }
}

/// `s` without leading or trailing white space, as `str::trim` gives it.
pub open spec fn trim(s: Seq<char>) -> Seq<char> {
    trim_end(trim_start(s))
}

proof fn lemma_trim_start(s: Seq<char>, i: int)
    requires
        0 <= i <= s.len(),
        forall|k: int| 0 <= k < i ==> is_ws(s[k]),
    ensures
        trim_start(s) == trim_start(s.skip(i)),
    decreases i,
{
    if i == 0 {
        assert(s.skip(0) =~= s);
    } else {
        lemma_trim_start(s.drop_first(), i - 1);
        assert(s.drop_first().skip(i - 1) =~= s.skip(i));
    }
}

proof fn lemma_trim_end(s: Seq<char>, j: int)
    requires
        0 <= j <= s.len(),
        forall|k: int| j <= k < s.len() ==> is_ws(s[k]),
    ensures
        trim_end(s) == trim_end(s.take(j)),
    decreases s.len() - j,
{
    if j == s.len() {
        assert(s.take(j) =~= s);
    } else {
        lemma_trim_end(s.drop_last(), j);
        assert(s.drop_last().take(j) =~= s.take(j));
    }
}

/// `s` without leading or trailing white space.
pub fn trim_str(s: &str) -> (r: String)
    ensures
        r@ == trim(s@),
{
    let n = s.unicode_len();
    let mut i: usize = 0;
    while i < n && ws_char(s.get_char(i))
        invariant
            n == s@.len(),
            i <= n,
            forall|k: int| 0 <= k < i ==> is_ws(s@[k]),
        decreases n - i,
    {
        i = i + 1;
    }
    proof {
        lemma_trim_start(s@, i as int);
    }
    let ghost rest = s@.skip(i as int);
    assert(trim_start(rest) == rest);
    let mut j: usize = n;
    while j > i && ws_char(s.get_char(j - 1))
        invariant
            n == s@.len(),
            i <= j <= n,
            forall|k: int| j <= k < n ==> is_ws(s@[k]),
        decreases j,
    {
        j = j - 1;
    }
    proof {
        assert forall|k: int| j - i <= k < rest.len() implies is_ws(rest[k]) by {
            assert(rest[k] == s@[k + i]);
        }
        lemma_trim_end(rest, j - i);
        assert(rest.take(j - i) =~= s@.subrange(i as int, j as int));
    }
    owned(s.substring_char(i, j))
}

/// The user, nice, system and idle times of a `/proc/stat` CPU line: its
/// second to fifth fields, when there are at least five and those four
/// are numbers.
pub open spec fn cpu_fields(line: Seq<char>) -> Option<(u64, u64, u64, u64)> {
    let w = words(line);
    if w.len() < 5 {
        None
    } else {
        match (parse_u64_of(w[1]), parse_u64_of(w[2]), parse_u64_of(w[3]), parse_u64_of(w[4])) {
            (Some(u), Some(n), Some(sy), Some(i)) => Some((u, n, sy, i)),
            _ => None,
        }
    }
}

/// Whether the four times of a CPU line add up within 64 bits.
pub open spec fn cpu_line_fits(line: Seq<char>) -> bool {
    match cpu_fields(line) {
        Some((u, n, sy, i)) => u + n + sy + i <= u64::MAX,
        None => true,
    }
}

/// The active (user, nice and system) and total (those and idle) times
/// of a CPU line.
pub open spec fn cpu_times_of(line: Seq<char>) -> Option<(u64, u64)> {
    match cpu_fields(line) {
        Some((u, n, sy, i)) => Some(((u + n + sy) as u64, (u + n + sy + i) as u64)),
        None => None,
    }
}

/// The active and total times of a `/proc/stat` CPU line.
pub fn parse_cpu_line(line: &str) -> (r: Option<(u64, u64)>)
    requires
        cpu_line_fits(line@),
    ensures
        r == cpu_times_of(line@),
{
    let parts = split_whitespace(line);
    if parts.len() < 5 {
        return None;
    }
    let user = match parse_u64(parts[1].as_str()) { Some(v) => v, None => return None };
    let nice = match parse_u64(parts[2].as_str()) { Some(v) => v, None => return None };
    let system = match parse_u64(parts[3].as_str()) { Some(v) => v, None => return None };
    let idle = match parse_u64(parts[4].as_str()) { Some(v) => v, None => return None };
    let active = user + nice + system;
    Some((active, active + idle))
}

/// Whether a `/proc/stat` line is about one core: it starts with `cpu`
/// but is not the `cpu ` summary line.
pub open spec fn is_core_line(l: Seq<char>) -> bool {
    starts_with(l, "cpu"@) && !starts_with(l, "cpu "@)
}

/// The times of the core lines among `ls` that parse, in order.
pub open spec fn core_times(ls: Seq<Seq<char>>) -> Seq<(u64, u64)>
    decreases ls.len(),
{
    if ls.len() == 0 {
        Seq::empty()
    } else {
        let rest = core_times(ls.drop_last());
        if is_core_line(ls.last()) {
            match cpu_times_of(ls.last()) {
                Some(t) => rest.push(t),
                None => rest,
            }
        } else {
            rest
        }
    }
}

/// The active and total times of each core in the contents of
/// `/proc/stat`, in order.
pub fn cpu_core_times(stat: &str) -> (r: Vec<(u64, u64)>)
    requires
        forall|i: int| 0 <= i < lines(stat@).len() && is_core_line(#[trigger] lines(stat@)[i]) ==> cpu_line_fits(lines(stat@)[i]),
    ensures
        r@ == core_times(lines(stat@)),
{
    let ls = split_lines(stat);
    let ghost all = lines(stat@);
    let mut out: Vec<(u64, u64)> = Vec::new();
    let mut i: usize = 0;
    assert(all.take(0) =~= Seq::<Seq<char>>::empty());
    while i < ls.len()
        invariant
            views(ls@) == all,
            all == lines(stat@),
            i <= ls@.len(),
            out@ == core_times(all.take(i as int)),
            forall|k: int| 0 <= k < all.len() && is_core_line(#[trigger] all[k]) ==> cpu_line_fits(all[k]),
        decreases ls@.len() - i,
    {
        let l = ls[i].as_str();
        assert(all[i as int] == l@);
        assert(all.take(i + 1).drop_last() =~= all.take(i as int));
        if str_starts_with(l, "cpu") && !str_starts_with(l, "cpu ") {
            match parse_cpu_line(l) {
                Some(t) => out.push(t),
                None => {},
            }
        }
        i = i + 1;
    }
    assert(all.take(i as int) =~= all);
    out
}

/// Whether the four times of a CPU line add up within 64 bits (what
/// `parse_cpu_line` needs).
pub fn cpu_line_fits_check(line: &str) -> (r: bool)
    ensures
        r == cpu_line_fits(line@),
{
    let parts = split_whitespace(line);
    if parts.len() < 5 {
        return true;
    }
    let user = match parse_u64(parts[1].as_str()) { Some(v) => v, None => return true };
    let nice = match parse_u64(parts[2].as_str()) { Some(v) => v, None => return true };
    let system = match parse_u64(parts[3].as_str()) { Some(v) => v, None => return true };
    let idle = match parse_u64(parts[4].as_str()) { Some(v) => v, None => return true };
    (user as u128) + (nice as u128) + (system as u128) + (idle as u128) <= u64::MAX as u128
}

/// Whether every core line of the contents of `/proc/stat` fits (what
/// `cpu_core_times` needs).
pub fn cpu_stat_fits(stat: &str) -> (r: bool)
    ensures
        r == (forall|i: int| 0 <= i < lines(stat@).len() && is_core_line(#[trigger] lines(stat@)[i]) ==> cpu_line_fits(lines(stat@)[i])),
{
    let ls = split_lines(stat);
    let ghost all = lines(stat@);
    let mut i: usize = 0;
    while i < ls.len()
        invariant
            views(ls@) == all,
            all == lines(stat@),
            i <= ls@.len(),
            forall|k: int| 0 <= k < i && is_core_line(#[trigger] all[k]) ==> cpu_line_fits(all[k]),
        decreases ls@.len() - i,
    {
        let l = ls[i].as_str();
        assert(all[i as int] == l@);
        if str_starts_with(l, "cpu") && !str_starts_with(l, "cpu ") {
            if !cpu_line_fits_check(l) {
                assert(is_core_line(all[i as int]));
                return false;
            }
        }
        i = i + 1;
    }
    true
}

/// The kilobyte count on a `/proc/meminfo` line in bytes: the second
/// field, 0 when it is not a number; none without a second field.
pub open spec fn kb_field(line: Seq<char>) -> Option<nat> {
    let w = words(line);
    if w.len() > 1 {
        Some(match parse_u64_of(w[1]) { Some(v) => v as nat * 1024, None => 0 })
    } else {
        None
    }
}

/// Whether a line names one of the two memory counters.
pub open spec fn is_mem_line(line: Seq<char>) -> bool {
    starts_with(line, "MemTotal:"@) || starts_with(line, "MemAvailable:"@)
}

/// Whether the byte count of a memory line fits in 64 bits.
pub open spec fn mem_line_fits(line: Seq<char>) -> bool {
    is_mem_line(line) ==> match kb_field(line) {
        Some(v) => v <= u64::MAX,
        None => true,
    }
}

/// Total and available memory after reading `ls`: the last `MemTotal:`
/// and `MemAvailable:` lines with a value count, from 0.
pub open spec fn mem_totals(ls: Seq<Seq<char>>) -> (nat, nat)
    decreases ls.len(),
{
    if ls.len() == 0 {
        (0, 0)
    } else {
        let (t, a) = mem_totals(ls.drop_last());
        let l = ls.last();
        if starts_with(l, "MemTotal:"@) {
            match kb_field(l) { Some(v) => (v, a), None => (t, a) }
        } else if starts_with(l, "MemAvailable:"@) {
            match kb_field(l) { Some(v) => (t, v), None => (t, a) }
        } else {
            (t, a)
        }
    }
}

/// Memory counters, in bytes.
#[derive(Debug, Clone, Copy, PartialEq, Eq)]
pub struct MemoryInfo {
    /// Total memory.
    pub total: u64,
    /// Memory in use: total less available, 0 when more is available.
    pub used: u64,
    /// Available memory.
    pub available: u64,
}

fn kb_value(line: &str) -> (r: Option<u64>)
    requires
        mem_line_fits(line@),
        is_mem_line(line@),
    ensures
        match kb_field(line@) {
            Some(v) => r == Some(v as u64),
            None => r is None,
        },
{
    let parts = split_whitespace(line);
    if parts.len() > 1 {
        match parse_u64(parts[1].as_str()) {
            Some(v) => Some(v * 1024),
            None => Some(0),
        }
    } else {
        None
    }
}

fn mem_line_fits_check(line: &str) -> (r: bool)
    ensures
        r == mem_line_fits(line@),
{
    if !(str_starts_with(line, "MemTotal:") || str_starts_with(line, "MemAvailable:")) {
        return true;
    }
    let parts = split_whitespace(line);
    if parts.len() > 1 {
        match parse_u64(parts[1].as_str()) {
            Some(v) => v <= u64::MAX / 1024,
            None => true,
        }
    } else {
        true
    }
}

/// Whether the memory counters of the contents of `/proc/meminfo` fit in
/// 64 bits (what `memory_info` needs).
pub fn meminfo_fits(meminfo: &str) -> (r: bool)
    ensures
        r == (forall|i: int| 0 <= i < lines(meminfo@).len() ==> mem_line_fits(#[trigger] lines(meminfo@)[i])),
{
    let ls = split_lines(meminfo);
    let ghost all = lines(meminfo@);
    let mut i: usize = 0;
    while i < ls.len()
        invariant
            views(ls@) == all,
            all == lines(meminfo@),
            i <= ls@.len(),
            forall|k: int| 0 <= k < i ==> mem_line_fits(#[trigger] all[k]),
        decreases ls@.len() - i,
    {
        let l = ls[i].as_str();
        assert(all[i as int] == l@);
        if !mem_line_fits_check(l) {
            return false;
        }
        i = i + 1;
    }
    true
}

/// The memory counters in the contents of `/proc/meminfo`.
pub fn memory_info(meminfo: &str) -> (r: MemoryInfo)
    requires
        forall|i: int| 0 <= i < lines(meminfo@).len() ==> mem_line_fits(#[trigger] lines(meminfo@)[i]),
    ensures
        r.total == mem_totals(lines(meminfo@)).0,
        r.available == mem_totals(lines(meminfo@)).1,
        r.used == (if r.total >= r.available { r.total - r.available } else { 0 }),
{
    let ls = split_lines(meminfo);
    let ghost all = lines(meminfo@);
    let mut total: u64 = 0;
    let mut available: u64 = 0;
    let mut i: usize = 0;
    assert(all.take(0) =~= Seq::<Seq<char>>::empty());
    while i < ls.len()
        invariant
            views(ls@) == all,
            all == lines(meminfo@),
            i <= ls@.len(),
            (total as nat, available as nat) == mem_totals(all.take(i as int)),
            forall|k: int| 0 <= k < all.len() ==> mem_line_fits(#[trigger] all[k]),
        decreases ls@.len() - i,
    {
        let l = ls[i].as_str();
        assert(all[i as int] == l@);
        assert(all.take(i + 1).drop_last() =~= all.take(i as int));
        assert(mem_line_fits(all[i as int]));
        if str_starts_with(l, "MemTotal:") {
            match kb_value(l) {
                Some(v) => total = v,
                None => {},
            }
        } else if str_starts_with(l, "MemAvailable:") {
            match kb_value(l) {
                Some(v) => available = v,
                None => {},
            }
        }
        i = i + 1;
    }
    assert(all.take(i as int) =~= all);
    MemoryInfo { total, used: total.saturating_sub(available), available }
}

/// A number field, 0 when it is not a number.
pub open spec fn count_or_zero(w: Seq<char>) -> nat {
    match parse_u64_of(w) { Some(v) => v as nat, None => 0 }
}

/// The bytes received and sent on a `/proc/net/dev` interface line: the
/// first and ninth fields after the colon (each 0 when not a number),
/// nothing for the loopback interface, a line without a colon or one with
/// fewer than nine fields.
pub open spec fn net_line(line: Seq<char>) -> (nat, nat) {
    match first_index(line, ':') {
        None => (0, 0),
        Some(k) => {
            let w = words(line.skip(k + 1));
            if trim(line.take(k)) == "lo"@ || w.len() < 9 {
                (0, 0)
            } else {
                (count_or_zero(w[0]), count_or_zero(w[8]))
            }
        },
    }
}

/// The received and sent bytes over all interface lines of `ls`.
pub open spec fn net_totals(ls: Seq<Seq<char>>) -> (nat, nat)
    decreases ls.len(),
{
    if ls.len() == 0 {
        (0, 0)
    } else {
        let (rx, tx) = net_totals(ls.drop_last());
        let (r, t) = net_line(ls.last());
        (rx + r, tx + t)
    }
}

/// The interface lines of the contents of `/proc/net/dev`: all but the
/// two header lines.
pub open spec fn interface_lines(netdev: Seq<char>) -> Seq<Seq<char>> {
    let ls = lines(netdev);
    if ls.len() <= 2 { Seq::empty() } else { ls.skip(2) }
}

proof fn lemma_net_totals_grow(ls: Seq<Seq<char>>, i: int)
    requires
        0 <= i <= ls.len(),
    ensures
        net_totals(ls.take(i)).0 <= net_totals(ls).0,
        net_totals(ls.take(i)).1 <= net_totals(ls).1,
    decreases ls.len() - i,
{
    if i < ls.len() {
        lemma_net_totals_grow(ls.drop_last(), i);
        assert(ls.drop_last().take(i) =~= ls.take(i));
    } else {
        assert(ls.take(i) =~= ls);
    }
}

fn field_or_zero(w: &str) -> (r: u64)
    ensures
        r == count_or_zero(w@),
{
    match parse_u64(w) {
        Some(v) => v,
        None => 0,
    }
}

/// The bytes received and sent on one `/proc/net/dev` line.
fn net_line_counts(l: &str) -> (r: (u64, u64))
    ensures
        r.0 as nat == net_line(l@).0,
        r.1 as nat == net_line(l@).1,
{
    match find_char(l, ':') {
        None => (0, 0),
        Some(k) => {
            let n = l.unicode_len();
            let iface = trim_str(l.substring_char(0, k));
            let stats = l.substring_char(k + 1, n);
            assert(stats@ =~= l@.skip(k + 1));
            assert(l@.subrange(0, k as int) =~= l@.take(k as int));
            if !str_eq(iface.as_str(), "lo") {
                let parts = split_whitespace(stats);
                if parts.len() >= 9 {
                    return (field_or_zero(parts[0].as_str()), field_or_zero(parts[8].as_str()));
                }
            }
            (0, 0)
        },
    }
}

/// Whether the byte totals of the contents of `/proc/net/dev` fit in 64
/// bits (what `network_totals` needs).
pub fn network_totals_fit(netdev: &str) -> (r: bool)
    ensures
        r == (net_totals(interface_lines(netdev@)).0 <= u64::MAX && net_totals(interface_lines(netdev@)).1 <= u64::MAX),
{
    let ls = split_lines(netdev);
    let ghost body = interface_lines(netdev@);
    let mut rx: u64 = 0;
    let mut tx: u64 = 0;
    if ls.len() <= 2 {
        assert(net_totals(body) == (0nat, 0nat));
        return true;
    }
    let mut i: usize = 2;
    assert(body.take(0) =~= Seq::<Seq<char>>::empty());
    while i < ls.len()
        invariant
            views(ls@) == lines(netdev@),
            ls@.len() > 2,
            body == lines(netdev@).skip(2),
            2 <= i <= ls@.len(),
            (rx as nat, tx as nat) == net_totals(body.take(i - 2)),
        decreases ls@.len() - i,
    {
        let l = ls[i].as_str();
        assert(body[i - 2] == l@);
        assert(body.take(i - 1).drop_last() =~= body.take(i - 2));
        proof {
            lemma_net_totals_grow(body, i - 1);
        }
        let (r, t) = net_line_counts(l);
        if rx > u64::MAX - r || tx > u64::MAX - t {
            return false;
        }
        rx = rx + r;
        tx = tx + t;
        i = i + 1;
    }
    assert(body.take(i - 2) =~= body);
    true
}

/// Bytes received and sent over every interface but loopback, from the
/// contents of `/proc/net/dev`.
pub fn network_totals(netdev: &str) -> (r: (u64, u64))
    requires
        net_totals(interface_lines(netdev@)).0 <= u64::MAX,
        net_totals(interface_lines(netdev@)).1 <= u64::MAX,
    ensures
        r.0 == net_totals(interface_lines(netdev@)).0,
        r.1 == net_totals(interface_lines(netdev@)).1,
{
    let ls = split_lines(netdev);
    let ghost body = interface_lines(netdev@);
    let mut rx: u64 = 0;
    let mut tx: u64 = 0;
    if ls.len() <= 2 {
        return (0, 0);
    }
    let mut i: usize = 2;
    assert(body.take(0) =~= Seq::<Seq<char>>::empty());
    while i < ls.len()
        invariant
            views(ls@) == lines(netdev@),
            ls@.len() > 2,
            body == lines(netdev@).skip(2),
            2 <= i <= ls@.len(),
            (rx as nat, tx as nat) == net_totals(body.take(i - 2)),
            net_totals(body).0 <= u64::MAX,
            net_totals(body).1 <= u64::MAX,
        decreases ls@.len() - i,
    {
        let l = ls[i].as_str();
        assert(body[i - 2] == l@);
        assert(body.take(i - 1).drop_last() =~= body.take(i - 2));
        proof {
            lemma_net_totals_grow(body, i - 1);
        }
        let (r, t) = net_line_counts(l);
        rx = rx + r;
        tx = tx + t;
        i = i + 1;
    }
    assert(body.take(i - 2) =~= body);
    (rx, tx)
}

/// Whether a `/proc/mounts` entry is a physical file system: a `/dev/`
/// device that is not squashfs or tmpfs.
pub open spec fn is_physical(device: Seq<char>, fs_type: Seq<char>) -> bool {
    starts_with(device, "/dev/"@) && fs_type != "squashfs"@ && fs_type != "tmpfs"@
}

/// Whether a device occurs among the entries.
pub open spec fn has_device(es: Seq<(Seq<char>, Seq<char>)>, device: Seq<char>) -> bool {
    exists|j: int| 0 <= j < es.len() && (#[trigger] es[j]).0 == device
}

/// The device and mount point of the physical file systems in the lines
/// of `/proc/mounts`, each device once, at its first mount.
pub open spec fn physical_mounts(ls: Seq<Seq<char>>) -> Seq<(Seq<char>, Seq<char>)>
    decreases ls.len(),
{
    if ls.len() == 0 {
        Seq::empty()
    } else {
        let before = physical_mounts(ls.drop_last());
        let w = words(ls.last());
        if w.len() >= 3 && is_physical(w[0], w[2]) && !has_device(before, w[0]) {
            before.push((w[0], w[1]))
        } else {
            before
        }
    }
}

/// A mounted physical file system.
#[derive(Debug)]
pub struct MountEntry {
    /// The device, under `/dev/`.
    pub device: String,
    /// Where it is mounted.
    pub mount_point: String,
}

/// The views of mount entries.
pub open spec fn mount_views(v: Seq<MountEntry>) -> Seq<(Seq<char>, Seq<char>)> {
    Seq::new(v.len(), |i: int| (v[i].device@, v[i].mount_point@))
}

fn seen_device(es: &Vec<MountEntry>, device: &str) -> (r: bool)
    ensures
        r == has_device(mount_views(es@), device@),
{
    let mut j: usize = 0;
    while j < es.len()
        invariant
            j <= es@.len(),
            forall|k: int| 0 <= k < j ==> mount_views(es@)[k].0 != device@,
        decreases es@.len() - j,
    {
        if str_eq(es[j].device.as_str(), device) {
            assert(mount_views(es@)[j as int].0 == device@);
            return true;
        }
        j = j + 1;
    }
    false
}

/// The physical file systems in the contents of `/proc/mounts` (see
/// `physical_mounts`).
pub fn physical_mount_entries(mounts: &str) -> (r: Vec<MountEntry>)
    ensures
        mount_views(r@) == physical_mounts(lines(mounts@)),
{
    let ls = split_lines(mounts);
    let ghost all = lines(mounts@);
    let mut out: Vec<MountEntry> = Vec::new();
    let mut i: usize = 0;
    assert(all.take(0) =~= Seq::<Seq<char>>::empty());
    assert(mount_views(out@) =~= Seq::<(Seq<char>, Seq<char>)>::empty());
    while i < ls.len()
        invariant
            views(ls@) == all,
            all == lines(mounts@),
            i <= ls@.len(),
            mount_views(out@) == physical_mounts(all.take(i as int)),
        decreases ls@.len() - i,
    {
        let l = ls[i].as_str();
        assert(all[i as int] == l@);
        assert(all.take(i + 1).drop_last() =~= all.take(i as int));
        let parts = split_whitespace(l);
        if parts.len() >= 3 {
            let device = parts[0].as_str();
            let fs_type = parts[2].as_str();
            if str_starts_with(device, "/dev/") && !str_eq(fs_type, "squashfs") && !str_eq(fs_type, "tmpfs")
                && !seen_device(&out, device) {
                let e = MountEntry { device: owned(device), mount_point: owned(parts[1].as_str()) };
                let ghost before = out@;
                out.push(e);
                assert(mount_views(out@) =~= mount_views(before).push((parts@[0]@, parts@[1]@)));
            }
        }
        i = i + 1;
    }
    assert(all.take(i as int) =~= all);
    out
}

/// Size, used and available bytes of a file system from its block
/// counts: `blocks` and `blocks_available` blocks of `block_size` bytes.
pub fn disk_usage(blocks: u64, blocks_available: u64, block_size: u64) -> (r: (u64, u64, u64))
    requires
        blocks * block_size <= u64::MAX,
        blocks_available * block_size <= blocks * block_size,
    ensures
        r == ((blocks * block_size) as u64, (blocks * block_size - blocks_available * block_size) as u64,
            (blocks_available * block_size) as u64),
{
    let total = blocks * block_size;
    let available = blocks_available * block_size;
    (total, total - available, available)
}

/// Whether reading `/proc/<pid>/stat` contents cannot fail on slicing:
/// when both a `(` and a `)` occur, the last `)` comes after the first
/// `(` and is followed by a one-byte character.
pub open spec fn stat_slices_ok(content: Seq<char>) -> bool {
    match (first_index(content, '('), last_index(content, ')')) {
        (Some(a), Some(b)) => a < b && b + 1 < content.len() && (content[b + 1] as u32) < 128,
        _ => true,
    }
}

/// The process name (between the first `(` and the last `)`) and its
/// user and system times (the twelfth and thirteenth fields after the
/// name's closing bracket and the character after it), when all are there.
pub open spec fn process_stat_fields(content: Seq<char>) -> Option<(Seq<char>, u64, u64)> {
    match (first_index(content, '('), last_index(content, ')')) {
        (Some(a), Some(b)) => {
            let w = words(content.skip(b + 2));
            if w.len() > 12 {
                match (parse_u64_of(w[11]), parse_u64_of(w[12])) {
                    (Some(u), Some(sy)) => Some((content.subrange(a + 1, b), u, sy)),
                    _ => None,
                }
            } else {
                None
            }
        },
        _ => None,
    }
}

/// Whether a process's two times add up within 64 bits.
pub open spec fn process_times_fit(content: Seq<char>) -> bool {
    match process_stat_fields(content) {
        Some((_, u, sy)) => u + sy <= u64::MAX,
        None => true,
    }
}

/// A process's name and its CPU time (user and system) in clock ticks,
/// from the contents of `/proc/<pid>/stat`.
pub fn process_stat(content: &str) -> (r: Option<(String, u64)>)
    requires
        stat_slices_ok(content@),
        process_times_fit(content@),
    ensures
        match process_stat_fields(content@) {
            Some((name, u, sy)) => r matches Some((n, t)) && n@ == name && t == u + sy,
            None => r is None,
        },
{
    let start = match find_char(content, '(') { Some(a) => a, None => return None };
    let end = match rfind_char(content, ')') { Some(b) => b, None => return None };
    let n = content.unicode_len();
    let name = owned(content.substring_char(start + 1, end));
    let stats_part = content.substring_char(end + 2, n);
    assert(stats_part@ =~= content@.skip(end + 2));
    let parts = split_whitespace(stats_part);
    if parts.len() <= 12 {
        return None;
    }
    let utime = match parse_u64(parts[11].as_str()) { Some(v) => v, None => return None };
    let stime = match parse_u64(parts[12].as_str()) { Some(v) => v, None => return None };
    Some((name, utime + stime))
}

/// Resident memory in bytes from `/proc/<pid>/statm`: its second field
/// in 4096-byte pages, 0 when missing or not a number.
pub open spec fn rss_bytes_of(statm: Seq<char>) -> nat {
    let w = words(statm);
    if w.len() > 1 { count_or_zero(w[1]) * 4096 } else { 0 }
}

/// Resident memory in bytes from the contents of `/proc/<pid>/statm`.
pub fn statm_rss_bytes(statm: &str) -> (r: u64)
    requires
        rss_bytes_of(statm@) <= u64::MAX,
    ensures
        r == rss_bytes_of(statm@),
{
    let parts = split_whitespace(statm);
    if parts.len() > 1 {
        field_or_zero(parts[1].as_str()) * 4096
    } else {
        0
    }
}

/// Whether the resident memory of `/proc/<pid>/statm` contents fits in 64
/// bits (what `statm_rss_bytes` needs).
pub fn statm_rss_fits(statm: &str) -> (r: bool)
    ensures
        r == (rss_bytes_of(statm@) <= u64::MAX),
{
    let parts = split_whitespace(statm);
    if parts.len() > 1 {
        field_or_zero(parts[1].as_str()) <= u64::MAX / 4096
    } else {
        true
    }
}

/// Whether a process's two times in `/proc/<pid>/stat` contents add up
/// within 64 bits (what `process_stat` needs besides well-placed
/// brackets).
pub fn process_times_fit_check(content: &str) -> (r: bool)
    requires
        stat_slices_ok(content@),
    ensures
        r == process_times_fit(content@),
{
    let _start = match find_char(content, '(') { Some(a) => a, None => return true };
    let end = match rfind_char(content, ')') { Some(b) => b, None => return true };
    let n = content.unicode_len();
    let stats_part = content.substring_char(end + 2, n);
    assert(stats_part@ =~= content@.skip(end + 2));
    let parts = split_whitespace(stats_part);
    if parts.len() <= 12 {
        return true;
    }
    let utime = match parse_u64(parts[11].as_str()) { Some(v) => v, None => return true };
    let stime = match parse_u64(parts[12].as_str()) { Some(v) => v, None => return true };
    (utime as u128) + (stime as u128) <= u64::MAX as u128
}

/// Every file system listed is physical, and no device is listed twice.
pub proof fn lemma_physical_mounts_distinct(ls: Seq<Seq<char>>)
    ensures
        forall|i: int, j: int| 0 <= i < j < physical_mounts(ls).len()
            ==> #[trigger] physical_mounts(ls)[i].0 != #[trigger] physical_mounts(ls)[j].0,
        forall|i: int| 0 <= i < physical_mounts(ls).len() ==> starts_with(#[trigger] physical_mounts(ls)[i].0, "/dev/"@),
    decreases ls.len(),
{
    if ls.len() > 0 {
        lemma_physical_mounts_distinct(ls.drop_last());
        let before = physical_mounts(ls.drop_last());
        let w = words(ls.last());
        if w.len() >= 3 && is_physical(w[0], w[2]) && !has_device(before, w[0]) {
            let after = before.push((w[0], w[1]));
            assert forall|i: int, j: int| 0 <= i < j < after.len() implies #[trigger] after[i].0 != #[trigger] after[j].0 by {
                if j == before.len() {
                    if after[i].0 == after[j].0 {
                        assert(before[i].0 == w[0]);
                        assert(has_device(before, w[0]));
                    }
                } else {
                    assert(after[i] == before[i] && after[j] == before[j]);
                }
            }
            assert forall|i: int| 0 <= i < after.len() implies starts_with(#[trigger] after[i].0, "/dev/"@) by {
                if i < before.len() {
                    assert(after[i] == before[i]);
                }
            }
        }
    }
}

} // verus!
