//! The group hub's decision state: the Onboarding-Code attempt window, the rejected-refresh
//! throttle counter, and the "one admin alert per member, kind and day" dedup.
use std::collections::HashMap;
use vstd::prelude::*;

use crate::alerts::AlertKind;
use crate::domain::{MemberId, UnixSeconds};

verus! {

broadcast use vstd::std_specs::hash::group_hash_axioms;

/// The attempt window: at most `max_attempts` Onboarding-Code attempts per 15 minutes per member.
/// A fixed (tumbling) window — a new 15-minute bucket resets the count.
pub const CODE_ATTEMPT_WINDOW_SECS: i64 = 900;

/// The dedup window for alerts: one UTC day.
pub const SECONDS_PER_DAY: i64 = 86400;

/// An opaque per-source rate-limit key the caller derives from the connection (never PII).
#[derive(Debug, Clone, Copy, PartialEq, Eq, Structural, Hash)]
pub struct SourceKey(pub u64);

/// The tumbling-window bucket of `t` for windows `width` seconds wide (floor division, so a
/// pre-epoch instant buckets monotonically).
pub open spec fn bucket_spec(t: i64, width: i64) -> int
    recommends
        width > 0,
{
    t as int / width as int
}

/// The UTC day index of `t`.
pub open spec fn day_spec(t: i64) -> int {
    bucket_spec(t, SECONDS_PER_DAY)
}

fn bucket(t: UnixSeconds, width: i64) -> (b: i64)
    requires
        width > 0,
    ensures
        b as int == bucket_spec(t.0, width),
{
    match t.0.checked_div_euclid(width) {
        Some(b) => b,
        None => {
            // Unreachable: Euclidean division by a positive width always fits.
            assert(t.0 as int / width as int <= i64::MAX) by (nonlinear_arith)
                requires width > 0;
            assert(t.0 as int / width as int >= i64::MIN) by (nonlinear_arith)
                requires width > 0;
            0
        },
    }
}

/// The count of attempts already made in window `b`, given the stored `(bucket, count)` entry.
pub open spec fn count_in_window(entry: Option<(i64, u32)>, b: int) -> u32 {
    match entry {
        Some((eb, c)) => if eb == b { c } else { 0 },
        None => 0,
    }
}

/// `c + 1`, saturating at `u32::MAX`.
pub open spec fn saturating_inc(c: u32) -> u32 {
    if c == u32::MAX { c } else { (c + 1) as u32 }
}

/// The abstract state of the hub: the attempt and rejection windows per key, and the set of
/// `(member, kind, day)` triples already alerted.
pub struct HubView {
    pub code_attempts: Map<u128, (i64, u32)>,
    pub refresh_rejections: Map<u64, (i64, u32)>,
    pub alerts_sent: Set<(u128, AlertKind, i64)>,
}

/// The per-group ephemeral counters. Stale windows and days are never pruned here; old entries
/// are simply never matched again.
pub struct GroupHubState {
    code_attempts: HashMap<u128, (i64, u32)>,
    refresh_rejections: HashMap<u64, (i64, u32)>,
    alerts_sent: Vec<(u128, AlertKind, i64)>,
}

impl View for GroupHubState {
    type V = HubView;

    closed spec fn view(&self) -> HubView {
        HubView {
            code_attempts: self.code_attempts@,
            refresh_rejections: self.refresh_rejections@,
            alerts_sent: self.alerts_sent@.to_set(),
        }
    }
}

impl GroupHubState {
    /// A fresh, empty hub state.
    pub fn new() -> (h: GroupHubState)
        ensures
            h@.code_attempts == Map::<u128, (i64, u32)>::empty(),
            h@.refresh_rejections == Map::<u64, (i64, u32)>::empty(),
            h@.alerts_sent == Set::<(u128, AlertKind, i64)>::empty(),
    {
        let h = GroupHubState {
            code_attempts: HashMap::new(),
            refresh_rejections: HashMap::new(),
            alerts_sent: Vec::new(),
        };
        assert(h.alerts_sent@.to_set() =~= Set::empty());
        h
    }

    /// Record an Onboarding-Code bind attempt and return the count of **prior** attempts in the
    /// current window (so a `max_attempts` gate fires after exactly `max` tries). A new window
    /// resets the count to zero.
    pub fn register_code_attempt(&mut self, member: MemberId, now: UnixSeconds) -> (prior: u32)
        ensures
            prior == count_in_window(
                if old(self)@.code_attempts.contains_key(member.0) {
                    Some(old(self)@.code_attempts[member.0])
                } else {
                    None
                },
                bucket_spec(now.0, CODE_ATTEMPT_WINDOW_SECS),
            ),
            final(self)@.code_attempts == old(self)@.code_attempts.insert(
                member.0,
                (bucket_spec(now.0, CODE_ATTEMPT_WINDOW_SECS) as i64, saturating_inc(prior)),
            ),
            final(self)@.refresh_rejections == old(self)@.refresh_rejections,
            final(self)@.alerts_sent == old(self)@.alerts_sent,
    {
        let b = bucket(now, CODE_ATTEMPT_WINDOW_SECS);
        let prior = match self.code_attempts.get(&member.0) {
            Some(entry) => if entry.0 == b { entry.1 } else { 0 },
            None => 0,
        };
        let next = if prior == u32::MAX { prior } else { prior + 1 };
        self.code_attempts.insert(member.0, (b, next));
        prior
    }

    /// Record a rejected refresh from `source` and return the count **including** this one in the
    /// current window. A new window resets the count.
    pub fn note_refresh_rejection(&mut self, source: SourceKey, now: UnixSeconds) -> (count: u32)
        ensures
            count == saturating_inc(
                count_in_window(
                    if old(self)@.refresh_rejections.contains_key(source.0) {
                        Some(old(self)@.refresh_rejections[source.0])
                    } else {
                        None
                    },
                    bucket_spec(now.0, CODE_ATTEMPT_WINDOW_SECS),
                ),
            ),
            final(self)@.refresh_rejections == old(self)@.refresh_rejections.insert(
                source.0,
                (bucket_spec(now.0, CODE_ATTEMPT_WINDOW_SECS) as i64, count),
            ),
            final(self)@.code_attempts == old(self)@.code_attempts,
            final(self)@.alerts_sent == old(self)@.alerts_sent,
    {
        let b = bucket(now, CODE_ATTEMPT_WINDOW_SECS);
        let prior = match self.refresh_rejections.get(&source.0) {
            Some(entry) => if entry.0 == b { entry.1 } else { 0 },
            None => 0,
        };
        let count = if prior == u32::MAX { prior } else { prior + 1 };
        self.refresh_rejections.insert(source.0, (b, count));
        count
    }

    /// Whether to emit an alert of `kind` for `member` now — true at most once per
    /// `(member, kind, day)`. Marks it as sent when it returns true.
    pub fn should_alert(&mut self, member: MemberId, kind: AlertKind, now: UnixSeconds) -> (fire: bool)
        ensures
            fire == !old(self)@.alerts_sent.contains((member.0, kind, day_spec(now.0) as i64)),
            final(self)@.alerts_sent == old(self)@.alerts_sent.insert(
                (member.0, kind, day_spec(now.0) as i64),
            ),
            final(self)@.code_attempts == old(self)@.code_attempts,
            final(self)@.refresh_rejections == old(self)@.refresh_rejections,
    {
        let d = bucket(now, SECONDS_PER_DAY);
        let key = (member.0, kind, d);
        let mut i: usize = 0;
        while i < self.alerts_sent.len()
            invariant
                0 <= i <= self.alerts_sent@.len(),
                *self == *old(self),
                key == (member.0, kind, day_spec(now.0) as i64),
                forall|j: int| 0 <= j < i ==> self.alerts_sent@[j] != key,
            decreases self.alerts_sent@.len() - i,
        {
            let e = self.alerts_sent[i];
            if e.0 == key.0 && e.1 == key.1 && e.2 == key.2 {
                assert(self.alerts_sent@.to_set().contains(key)) by {
                    assert(self.alerts_sent@[i as int] == key);
                }
                return false;
            }
            i = i + 1;
        }
        assert(!self.alerts_sent@.to_set().contains(key)) by {
            if self.alerts_sent@.to_set().contains(key) {
                let j = choose|j: int| 0 <= j < self.alerts_sent@.len() && self.alerts_sent@[j] == key;
            }
        }
        let ghost before = self.alerts_sent@;
        self.alerts_sent.push(key);
        assert(self.alerts_sent@.to_set() =~= before.to_set().insert(key)) by {
            let after = self.alerts_sent@;
            assert(after == before.push(key));
            assert forall|x: (u128, AlertKind, i64)|
                after.to_set().contains(x) == before.to_set().insert(key).contains(x) by {
                if before.to_set().contains(x) {
                    let j = choose|j: int| 0 <= j < before.len() && before[j] == x;
                    assert(after[j] == x);
                }
                if x == key {
                    assert(after[before.len() as int] == key);
                }
                if after.to_set().contains(x) {
                    let j = choose|j: int| 0 <= j < after.len() && after[j] == x;
                    if j < before.len() {
                        assert(before[j] == x);
                    }
                }
            }
        }
        true
    }
}

} // verus!

verus! {

/// The stored window entry of `key` in `m`, if any.
pub open spec fn entry_of<K>(m: Map<K, (i64, u32)>, key: K) -> Option<(i64, u32)> {
    if m.contains_key(key) {
        Some(m[key])
    } else {
        None
    }
}

/// The count of Onboarding-Code attempts `member` already made in the window of `now`.
pub open spec fn prior_attempts_spec(hub: HubView, member: MemberId, now: UnixSeconds) -> u32 {
    count_in_window(entry_of(hub.code_attempts, member.0), bucket_spec(now.0, CODE_ATTEMPT_WINDOW_SECS))
}

/// The hub after recording an Onboarding-Code attempt by `member` at `now`.
pub open spec fn hub_after_attempt(hub: HubView, member: MemberId, now: UnixSeconds) -> HubView {
    HubView {
        code_attempts: hub.code_attempts.insert(
            member.0,
            (bucket_spec(now.0, CODE_ATTEMPT_WINDOW_SECS) as i64, saturating_inc(prior_attempts_spec(hub, member, now))),
        ),
        refresh_rejections: hub.refresh_rejections,
        alerts_sent: hub.alerts_sent,
    }
}

/// Within one window, each attempt sees one more prior attempt than the one before it (until
/// the counter saturates).
pub proof fn lemma_attempts_count_up_within_window(hub: HubView, member: MemberId, t1: UnixSeconds, t2: UnixSeconds)
    requires
        bucket_spec(t1.0, CODE_ATTEMPT_WINDOW_SECS) == bucket_spec(t2.0, CODE_ATTEMPT_WINDOW_SECS),
    ensures
        prior_attempts_spec(hub_after_attempt(hub, member, t1), member, t2)
            == saturating_inc(prior_attempts_spec(hub, member, t1)),
{
    let b = bucket_spec(t1.0, CODE_ATTEMPT_WINDOW_SECS);
    assert(i64::MIN <= b <= i64::MAX) by (nonlinear_arith)
        requires b == t1.0 as int / 900int;
}

/// A new window resets the count: an attempt in a later window than the previous attempt sees
/// no prior attempts.
pub proof fn lemma_attempts_reset_next_window(hub: HubView, member: MemberId, t1: UnixSeconds, t2: UnixSeconds)
    requires
        bucket_spec(t1.0, CODE_ATTEMPT_WINDOW_SECS) < bucket_spec(t2.0, CODE_ATTEMPT_WINDOW_SECS),
    ensures
        prior_attempts_spec(hub_after_attempt(hub, member, t1), member, t2) == 0,
{
    let b = bucket_spec(t1.0, CODE_ATTEMPT_WINDOW_SECS);
    assert(i64::MIN <= b <= i64::MAX) by (nonlinear_arith)
        requires b == t1.0 as int / 900int;
}

/// The alert dedup fires at most once per `(member, kind, day)`: once an alert was considered,
/// no later call on the same day fires for the same member and kind.
pub proof fn lemma_alert_at_most_once_per_day(hub: HubView, member: MemberId, kind: AlertKind, t1: UnixSeconds, t2: UnixSeconds)
    requires
        day_spec(t1.0) == day_spec(t2.0),
    ensures
        hub.alerts_sent.insert((member.0, kind, day_spec(t1.0) as i64)).contains(
            (member.0, kind, day_spec(t2.0) as i64),
        ),
{
}

/// The dedup is keyed on `(member, kind, day)` alone: considering an alert for one member, kind
/// and day leaves every other member, kind or day exactly as free to alert as before.
pub proof fn lemma_alert_dedup_independent(hub: HubView, m1: MemberId, k1: AlertKind, t1: UnixSeconds, m2: MemberId, k2: AlertKind, t2: UnixSeconds)
    requires
        m1 != m2 || k1 != k2 || day_spec(t1.0) != day_spec(t2.0),
    ensures
        hub.alerts_sent.insert((m1.0, k1, day_spec(t1.0) as i64)).contains((m2.0, k2, day_spec(t2.0) as i64))
            == hub.alerts_sent.contains((m2.0, k2, day_spec(t2.0) as i64)),
{
    let d1 = day_spec(t1.0);
    let d2 = day_spec(t2.0);
    assert(i64::MIN <= d1 <= i64::MAX) by (nonlinear_arith)
        requires d1 == t1.0 as int / 86400int;
    assert(i64::MIN <= d2 <= i64::MAX) by (nonlinear_arith)
        requires d2 == t2.0 as int / 86400int;
}

} // verus!

verus! {

/// The hub after recording a rejected refresh from `source` at `now`.
pub open spec fn hub_after_rejection(hub: HubView, source: SourceKey, now: UnixSeconds) -> HubView {
    HubView {
        code_attempts: hub.code_attempts,
        refresh_rejections: hub.refresh_rejections.insert(
            source.0,
            (
                bucket_spec(now.0, CODE_ATTEMPT_WINDOW_SECS) as i64,
                saturating_inc(count_in_window(entry_of(hub.refresh_rejections, source.0), bucket_spec(now.0, CODE_ATTEMPT_WINDOW_SECS))),
            ),
        ),
        alerts_sent: hub.alerts_sent,
    }
}

/// Rejection windows are per source: a rejection from one source leaves every other source's
/// window untouched.
pub proof fn lemma_rejection_windows_per_source(hub: HubView, a: SourceKey, b: SourceKey, now: UnixSeconds)
    requires
        a != b,
    ensures
        entry_of(hub_after_rejection(hub, a, now).refresh_rejections, b.0) == entry_of(hub.refresh_rejections, b.0),
{
}

/// The counters count: below `u32::MAX` one more attempt (or rejection) is exactly one more, and
/// only at `u32::MAX` does the count stay put.
pub proof fn lemma_saturating_inc_counts(c: u32)
    ensures
        c < u32::MAX ==> saturating_inc(c) == c + 1,
        c == u32::MAX ==> saturating_inc(c) == c,
{
}

/// Within one window, an attempt sees exactly one more prior attempt than the previous one saw
/// (below `u32::MAX`): after `n` attempts in a window the next sees `n` prior, with no lower cap.
pub proof fn lemma_attempt_sees_one_more(hub: HubView, member: MemberId, t1: UnixSeconds, t2: UnixSeconds)
    requires
        bucket_spec(t1.0, CODE_ATTEMPT_WINDOW_SECS) == bucket_spec(t2.0, CODE_ATTEMPT_WINDOW_SECS),
        prior_attempts_spec(hub, member, t1) < u32::MAX,
    ensures
        prior_attempts_spec(hub_after_attempt(hub, member, t1), member, t2)
            == prior_attempts_spec(hub, member, t1) + 1,
{
    lemma_attempts_count_up_within_window(hub, member, t1, t2);
}

/// Within one window, a rejection from a source counts exactly one more than the source's count
/// before it (below `u32::MAX`).
pub proof fn lemma_rejection_count_sees_one_more(hub: HubView, source: SourceKey, now: UnixSeconds)
    requires
        count_in_window(entry_of(hub.refresh_rejections, source.0), bucket_spec(now.0, CODE_ATTEMPT_WINDOW_SECS)) < u32::MAX,
    ensures
        count_in_window(
            entry_of(hub_after_rejection(hub, source, now).refresh_rejections, source.0),
            bucket_spec(now.0, CODE_ATTEMPT_WINDOW_SECS),
        ) == count_in_window(entry_of(hub.refresh_rejections, source.0), bucket_spec(now.0, CODE_ATTEMPT_WINDOW_SECS)) + 1,
{
    let b = bucket_spec(now.0, CODE_ATTEMPT_WINDOW_SECS);
    assert(i64::MIN <= b <= i64::MAX) by (nonlinear_arith)
        requires b == now.0 as int / 900int;
}

/// Windows tumble: the 15-minute attempt window and the UTC day are contiguous blocks of exactly
/// 900 and 86400 seconds, starting at multiples of their width (the epoch, and UTC midnight).
/// Two instants share a window iff they fall in the same block; the next block is the next index.
pub proof fn lemma_windows_tumble(start: i64, offset: i64)
    requires
        start % 900 == 0 || start % 86400 == 0,
        0 <= offset,
        start as int + offset as int <= i64::MAX,
    ensures
        start % 900 == 0 && offset < 900 ==> bucket_spec((start + offset) as i64, CODE_ATTEMPT_WINDOW_SECS)
            == bucket_spec(start, CODE_ATTEMPT_WINDOW_SECS),
        start % 900 == 0 && 900 <= offset < 1800 ==> bucket_spec((start + offset) as i64, CODE_ATTEMPT_WINDOW_SECS)
            == bucket_spec(start, CODE_ATTEMPT_WINDOW_SECS) + 1,
        start % 86400 == 0 && offset < 86400 ==> day_spec((start + offset) as i64) == day_spec(start),
        start % 86400 == 0 && 86400 <= offset < 172800 ==> day_spec((start + offset) as i64) == day_spec(start) + 1,
{
    let t = start as int + offset as int;
    if start % 900 == 0 {
        assert(t / 900 == start as int / 900 + offset as int / 900) by (nonlinear_arith)
            requires start as int % 900 == 0, offset >= 0, t == start as int + offset as int;
    }
    if start % 86400 == 0 {
        assert(t / 86400 == start as int / 86400 + offset as int / 86400) by (nonlinear_arith)
            requires start as int % 86400 == 0, offset >= 0, t == start as int + offset as int;
    }
}

} // verus!
