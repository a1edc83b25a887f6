//! Whether a battery is present, refreshed at most every two seconds.
use vstd::prelude::*;

verus! {

/// Minimum milliseconds between two battery refreshes.
pub const BATTERY_REFRESH_MS: u64 = 2000;

/// The battery state that the dashboard tracks; times are milliseconds on a
/// monotonic clock.
#[derive(Debug, Clone, Copy, PartialEq, Eq, Structural)]
pub struct BatteryMonitor {
    pub present: bool,
    pub last_update_ms: u64,
}

/// Whether a refresh is due at `now` after one at `last`.
pub open spec fn battery_due(last: u64, now: u64) -> bool {
    now >= last && now - last >= BATTERY_REFRESH_MS
}

impl BatteryMonitor {
    /// The state after the first probe at `now_ms`.
    pub fn new(battery_found: bool, now_ms: u64) -> (r: Self)
        ensures
            r == (BatteryMonitor { present: battery_found, last_update_ms: now_ms }),
    {
        BatteryMonitor { present: battery_found, last_update_ms: now_ms }
    }

    /// Whether the battery should be probed again at `now_ms`.
    pub fn is_due(&self, now_ms: u64) -> (r: bool)
        ensures
            r == battery_due(self.last_update_ms, now_ms),
    {
        now_ms >= self.last_update_ms && now_ms - self.last_update_ms >= BATTERY_REFRESH_MS
    }

    /// Records a probe at `now_ms`. Before the refresh interval has passed
    /// nothing changes. A battery once found stays known when a later probe
    /// finds none, as a failed probe is not taken for a removed battery.
    pub fn update(&mut self, now_ms: u64, battery_found: bool)
        ensures
            !battery_due(old(self).last_update_ms, now_ms) ==> *final(self) == *old(self),
            battery_due(old(self).last_update_ms, now_ms) ==> *final(self) == (BatteryMonitor {
                present: old(self).present || battery_found,
                last_update_ms: now_ms,
            }),
    {
        if !self.is_due(now_ms) {
            return;
        }
        if battery_found {
            self.present = true;
        }
        self.last_update_ms = now_ms;
    }

    pub fn has_battery(&self) -> (r: bool)
        ensures
            r == self.present,
    {
        self.present
    }
}

} // verus!
