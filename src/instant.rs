//! Instants as milliseconds since the epoch, and whole-day offsets.
use vstd::prelude::*;

verus! {

/// Milliseconds in one day.
pub const MS_PER_DAY: i64 = 86_400_000;

/// The instant `ms` moved by `days` whole days, when it fits in an `i64`.
pub open spec fn shifted(ms: int, days: int) -> Option<i64> {
    let t = ms + days * MS_PER_DAY;
    if i64::MIN <= t <= i64::MAX {
        Some(t as i64)
    } else {
        None
    }
}

/// Moving an instant by whole days.
pub trait AddDaysExt {
    /// The instant, in milliseconds since the epoch.
    spec fn epoch_ms(&self) -> int;

    /// The instant `days` days later (earlier for a negative count), or
    /// `None` when it is out of range.
    fn add_days(&self, days: i32) -> (r: Option<i64>)
        ensures
            r == shifted(self.epoch_ms(), days as int),
    ;
}

impl AddDaysExt for i64 {
    open spec fn epoch_ms(&self) -> int {
        *self as int
    }

    fn add_days(&self, days: i32) -> (r: Option<i64>) {
        let d: i128 = days as i128;
        assert(-2147483648 * 86400000 <= d * 86400000 <= 2147483647 * 86400000) by (nonlinear_arith)
            requires
                -2147483648 <= d <= 2147483647,
        ;
        let t: i128 = (*self as i128) + d * (MS_PER_DAY as i128);
        if (i64::MIN as i128) <= t && t <= (i64::MAX as i128) {
            Some(t as i64)
        } else {
            None
        }
    }
}

} // verus!
