//! Classification of internet health from consecutive probe failures.
//!
//! The probe itself (an HTTP HEAD request every few seconds) is performed by
//! the application; this module decides what each probe outcome means.

use vstd::prelude::*;

use crate::state::NetworkStatus;

verus! {

/// Consecutive failures from which the link counts as degraded.
pub const DEGRADED_THRESHOLD: u32 = 1;

/// Consecutive failures from which the link counts as offline.
pub const OFFLINE_THRESHOLD: u32 = 3;

/// The status that a run of `failures` consecutive failed probes stands for:
/// none is stable, one or two is degraded, three or more is offline.
pub open spec fn spec_classify(failures: u32) -> NetworkStatus {
    if failures == 0 {
        NetworkStatus::Stable
    } else if DEGRADED_THRESHOLD <= failures && failures < OFFLINE_THRESHOLD {
        NetworkStatus::Degraded
    } else {
        NetworkStatus::Offline
    }
}

/// How bad a status is: stable 0, degraded 1, offline 2 (unknown counts as 0).
pub open spec fn severity(s: NetworkStatus) -> nat {
    match s {
        NetworkStatus::Unknown => 0,
        NetworkStatus::Stable => 0,
        NetworkStatus::Degraded => 1,
        NetworkStatus::Offline => 2,
    }
}

/// Maps a consecutive failure count to a `NetworkStatus`.
pub fn classify(consecutive_failures: u32) -> (s: NetworkStatus)
    ensures
        s == spec_classify(consecutive_failures),
{
    if consecutive_failures == 0 {
        NetworkStatus::Stable
    } else if consecutive_failures >= DEGRADED_THRESHOLD && consecutive_failures < OFFLINE_THRESHOLD {
        NetworkStatus::Degraded
    } else {
        NetworkStatus::Offline
    }
}

/// More consecutive failures never yield a healthier status.
pub proof fn lemma_classify_monotone(a: u32, b: u32)
    requires
        a <= b,
    ensures
        severity(spec_classify(a)) <= severity(spec_classify(b)),
{
}

/// The probe loop never reports `Unknown`: that status only stands before
/// the first probe.
pub proof fn lemma_classify_never_unknown(failures: u32)
    ensures
        spec_classify(failures) != NetworkStatus::Unknown,
{
}

/// The failure count after one more probe: a reachable probe resets it, a
/// failed one adds one, saturating at `u32::MAX`.
pub open spec fn next_failures(failures: u32, reachable: bool) -> u32 {
    if reachable {
        0
    } else if failures == u32::MAX {
        u32::MAX
    } else {
        (failures + 1) as u32
    }
}

/// The failure count after a run of probe outcomes (`true` = reachable),
/// oldest first, starting from `failures`.
pub open spec fn failures_after(failures: u32, probes: Seq<bool>) -> u32
    decreases probes.len(),
{
    if probes.len() == 0 {
        failures
    } else {
        next_failures(failures_after(failures, probes.drop_last()), probes.last())
    }
}

/// How many probes at the end of a run failed in a row.
pub open spec fn trailing_failures(probes: Seq<bool>) -> nat
    decreases probes.len(),
{
    if probes.len() == 0 || probes.last() {
        0
    } else {
        trailing_failures(probes.drop_last()) + 1
    }
}

/// The shared status after one probe: replaced by the probed status when
/// that differs (what `status_change` reports), kept otherwise.
pub open spec fn apply_status(current: NetworkStatus, probed: NetworkStatus) -> NetworkStatus {
    if current == probed {
        current
    } else {
        probed
    }
}

/// The shared status after the probe loop, starting with no failure counted
/// and status `current`, has seen a run of probe outcomes.
pub open spec fn status_after(current: NetworkStatus, probes: Seq<bool>) -> NetworkStatus
    decreases probes.len(),
{
    if probes.len() == 0 {
        current
    } else {
        apply_status(status_after(current, probes.drop_last()), spec_classify(failures_after(0, probes)))
    }
}

/// The failure count after a run of probes from a fresh monitor is the number
/// of failures at the end of the run, saturating at `u32::MAX`.
pub proof fn lemma_failures_after_run(probes: Seq<bool>)
    ensures
        failures_after(0, probes) == (if trailing_failures(probes) < u32::MAX {
            trailing_failures(probes)
        } else {
            u32::MAX as nat
        }),
    decreases probes.len(),
{
    if probes.len() > 0 {
        lemma_failures_after_run(probes.drop_last());
    }
}

/// After a non-empty run of probes, the shared status is the classification
/// of the run's trailing failure count: stable after a success, degraded
/// after one or two failures, offline after three or more.
pub proof fn lemma_status_after_run(current: NetworkStatus, probes: Seq<bool>)
    requires
        probes.len() > 0,
    ensures
        status_after(current, probes) == spec_classify(
            (if trailing_failures(probes) < u32::MAX { trailing_failures(probes) } else { u32::MAX as nat }) as u32,
        ),
{
    lemma_failures_after_run(probes);
}

/// The failure counter of the probe loop.
pub struct HealthMonitor {
    consecutive_failures: u32,
}

impl HealthMonitor {
    /// The number of consecutive failed probes counted so far.
    pub closed spec fn failures(&self) -> u32 {
        self.consecutive_failures
    }

    /// A monitor that has seen no failure.
    pub fn new() -> (m: Self)
        ensures
            m.failures() == 0,
    {
        HealthMonitor { consecutive_failures: 0 }
    }

    /// The number of consecutive failed probes counted so far.
    pub fn consecutive_failures(&self) -> (n: u32)
        ensures
            n == self.failures(),
    {
        self.consecutive_failures
    }

    /// Records the outcome of one probe and returns the status it leads to.
    /// A reachable probe resets the count; a failed one adds one, saturating
    /// at `u32::MAX`.
    pub fn record_probe(&mut self, reachable: bool) -> (s: NetworkStatus)
        ensures
            final(self).failures() == next_failures(old(self).failures(), reachable),
            s == spec_classify(final(self).failures()),
    {
        if reachable {
            self.consecutive_failures = 0;
        } else {
            self.consecutive_failures = self.consecutive_failures.saturating_add(1);
        }
        classify(self.consecutive_failures)
    }
}

/// Decides whether the shared status must be replaced after a probe:
/// `Some(probed)` when it differs from `current`, `None` when it is unchanged.
pub fn status_change(current: &NetworkStatus, probed: NetworkStatus) -> (r: Option<NetworkStatus>)
    ensures
        r == (if *current == probed { None } else { Some(probed) }),
        apply_status(*current, probed) == (match r {
            Some(s) => s,
            None => *current,
        }),
{
    if *current == probed {
        None
    } else {
        Some(probed)
    }
}

} // verus!
