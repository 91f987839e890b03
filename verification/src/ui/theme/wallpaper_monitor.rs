//! Watching the wallpaper for changes: whether the watch is on, and which changes are
//! reported once they are debounced.
//!
//! The polling thread, the clock, the stop signal and the callback are the application's
//! part; at each change it sees, it asks the monitor whether to report it.
use vstd::prelude::*;

verus! {

/// The total number of whole nanoseconds that a duration holds (what `Duration::as_nanos`
/// returns for it).
pub uninterp spec fn duration_nanos_of(d: std::time::Duration) -> u128;

/// The nanoseconds of a duration (`Duration::as_nanos`, which returns the total number of
/// nanoseconds the duration holds).
#[verifier::external_body]
fn duration_nanos(d: &std::time::Duration) -> (n: u128)
    ensures
        n == duration_nanos_of(*d),
{
    d.as_nanos()
}

/// The debounce time of a new monitor: half a second, in nanoseconds.
pub const DEFAULT_DEBOUNCE_NANOS: u128 = 500_000_000;

/// The time from `earlier` to `later` on a monotonic clock, or zero when `later` is not
/// after it (as `Instant::duration_since` gives it).
pub open spec fn elapsed(earlier: u128, later: u128) -> u128 {
    if later >= earlier {
        (later - earlier) as u128
    } else {
        0
    }
}

/// Wallpaper monitor state: the debounce time, when a change was last reported (in
/// nanoseconds of a monotonic clock), and whether it is watching.
#[derive(Debug, Clone, Copy)]
pub struct WallpaperMonitor {
    debounce_nanos: u128,
    last_update: Option<u128>,
    is_monitoring: bool,
}

impl WallpaperMonitor {
    /// The debounce time in nanoseconds.
    pub closed spec fn debounce_view(&self) -> u128 {
        self.debounce_nanos
    }

    /// When a change was last reported, if ever.
    pub closed spec fn last_update_view(&self) -> Option<u128> {
        self.last_update
    }

    /// Whether the monitor is watching.
    pub closed spec fn monitoring_view(&self) -> bool {
        self.is_monitoring
    }

    /// Whether a change seen at `now` is reported: when none was reported before, or when
    /// at least the debounce time has passed since the last report.
    pub open spec fn reports_at(&self, now: u128) -> bool {
        match self.last_update_view() {
            Some(last) => elapsed(last, now) >= self.debounce_view(),
            None => true,
        }
    }

    /// A monitor that is not watching, has reported nothing and debounces half a second.
    pub fn new() -> (m: WallpaperMonitor)
        ensures
            m.debounce_view() == DEFAULT_DEBOUNCE_NANOS,
            m.last_update_view() is None,
            !m.monitoring_view(),
    {
        WallpaperMonitor { debounce_nanos: DEFAULT_DEBOUNCE_NANOS, last_update: None, is_monitoring: false }
    }

    /// The monitor with another debounce time, given in nanoseconds.
    pub fn with_debounce_nanos(self, nanos: u128) -> (m: WallpaperMonitor)
        ensures
            m.debounce_view() == nanos,
            m.last_update_view() == self.last_update_view(),
            m.monitoring_view() == self.monitoring_view(),
    {
        WallpaperMonitor { debounce_nanos: nanos, ..self }
    }

    /// The monitor with another debounce time: the nanoseconds of `duration`.
    pub fn with_debounce_duration(self, duration: std::time::Duration) -> (m: WallpaperMonitor)
        ensures
            m.debounce_view() == duration_nanos_of(duration),
            m.last_update_view() == self.last_update_view(),
            m.monitoring_view() == self.monitoring_view(),
    {
        let nanos = duration_nanos(&duration);
        self.with_debounce_nanos(nanos)
    }

    /// Whether the monitor is watching.
    pub fn is_monitoring(&self) -> (b: bool)
        ensures
            b == self.monitoring_view(),
    {
        self.is_monitoring
    }

    /// Records that watching has started.
    pub fn start(&mut self)
        ensures
            final(self).monitoring_view(),
            final(self).debounce_view() == old(self).debounce_view(),
            final(self).last_update_view() == old(self).last_update_view(),
    {
        self.is_monitoring = true;
    }

    /// Records that watching has stopped.
    pub fn stop(&mut self)
        ensures
            !final(self).monitoring_view(),
            final(self).debounce_view() == old(self).debounce_view(),
            final(self).last_update_view() == old(self).last_update_view(),
    {
        self.is_monitoring = false;
    }

    /// Decides whether a wallpaper change seen at `now` is reported, and if so records
    /// `now` as the time of the last report.
    pub fn should_report(&mut self, now: u128) -> (b: bool)
        ensures
            b == old(self).reports_at(now),
            final(self).last_update_view() == if b {
                Some(now)
            } else {
                old(self).last_update_view()
            },
            final(self).debounce_view() == old(self).debounce_view(),
            final(self).monitoring_view() == old(self).monitoring_view(),
    {
        let report = match self.last_update {
            Some(last) => {
                let passed = if now >= last {
                    now - last
                } else {
                    0
                };
                passed >= self.debounce_nanos
            },
            None => true,
        };
        if report {
            self.last_update = Some(now);
        }
        report
    }
}

/// Right after a change is reported, a change seen less than the debounce time later is
/// not reported.
pub proof fn law_debounce_suppresses(m: WallpaperMonitor, reported_at: u128, now: u128)
    requires
        m.last_update_view() == Some(reported_at),
        reported_at <= now,
        now - reported_at < m.debounce_view(),
    ensures
        !m.reports_at(now),
{
}

} // verus!
