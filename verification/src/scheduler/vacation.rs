//! Vacation mode: a manual pause, or a calendar range of dates (YYYYMMDD) during which
//! the schedule is paused.
use vstd::prelude::*;

verus! {

/// Vacation settings. Dates are YYYYMMDD integers (e.g. 20260918); 0 means unset.
#[derive(Debug, Clone, Copy, PartialEq, Eq, Structural)]
pub struct VacationSettings {
    pub manual_vacation: bool,
    pub start_date: i64,
    pub end_date: i64,
}

/// The settings with no vacation: manual pause off and no date range.
pub open spec fn no_vacation() -> VacationSettings {
    VacationSettings { manual_vacation: false, start_date: 0, end_date: 0 }
}

impl Default for VacationSettings {
    fn default() -> (v: Self)
        ensures
            v == no_vacation(),
    {
        VacationSettings { manual_vacation: false, start_date: 0, end_date: 0 }
    }
}

impl VacationSettings {
    /// Vacation is active when paused by hand, or when both range ends are set and the
    /// date lies in the inclusive range.
    pub open spec fn spec_is_active(self, today_ymd: i64) -> bool {
        self.manual_vacation || (self.start_date > 0 && self.end_date > 0 && self.start_date
            <= today_ymd && today_ymd <= self.end_date)
    }

    pub fn new(manual: bool, start: i64, end: i64) -> (v: Self)
        ensures
            v == (VacationSettings { manual_vacation: manual, start_date: start, end_date: end }),
    {
        Self { manual_vacation: manual, start_date: start, end_date: end }
    }

    /// Whether vacation mode is active on the given date (YYYYMMDD).
    pub fn is_active(&self, today_ymd: i64) -> (active: bool)
        ensures
            active == self.spec_is_active(today_ymd),
    {
        if self.manual_vacation {
            return true;
        }
        if self.start_date > 0 && self.end_date > 0 {
            today_ymd >= self.start_date && today_ymd <= self.end_date
        } else {
            false
        }
    }

    /// Clears the manual pause and the date range.
    pub fn clear(&mut self)
        ensures
            *final(self) == no_vacation(),
    {
        self.manual_vacation = false;
        self.start_date = 0;
        self.end_date = 0;
    }
}

/// Cleared settings are inactive on every date.
pub proof fn law_cleared_vacation_inactive(today_ymd: i64)
    ensures
        !no_vacation().spec_is_active(today_ymd),
{
}

/// A manual pause is active on every date, whatever the range.
pub proof fn law_manual_vacation_always_active(v: VacationSettings, today_ymd: i64)
    requires
        v.manual_vacation,
    ensures
        v.spec_is_active(today_ymd),
{
}

/// Without a manual pause, a range with an unset end is never active.
pub proof fn law_unset_range_inactive(v: VacationSettings, today_ymd: i64)
    requires
        !v.manual_vacation,
        v.start_date <= 0 || v.end_date <= 0,
    ensures
        !v.spec_is_active(today_ymd),
{
}

/// Without a manual pause and with both ends of the range set, a vacation is active on a
/// date exactly when `start_date <= today <= end_date`, whatever the dates' years.
pub proof fn law_range_vacation_active_iff_in_range(v: VacationSettings, today_ymd: i64)
    requires
        !v.manual_vacation,
        v.start_date > 0,
        v.end_date > 0,
    ensures
        v.spec_is_active(today_ymd) == (v.start_date <= today_ymd && today_ymd <= v.end_date),
{
}

} // verus!
