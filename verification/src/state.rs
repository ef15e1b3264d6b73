//! Shared controller state, and the status report built from it.
//!
//! Room readings are kept as integers: temperature in hundredths of a degree Celsius and
//! relative humidity in hundredths of a percent.
use crate::clock::{current_date_ymd, elapsed_secs, instant_now};
use crate::scheduler::vacation::VacationSettings;
use crate::text::str_eq;
use std::time::Instant;
use vstd::prelude::*;
use vstd::string::StringExecFns;

verus! {

/// A countdown that keeps the unit cooling until it runs out.
#[derive(Debug)]
pub struct ActiveTimer {
    pub start_instant: Instant,
    pub duration_secs: u64,
    pub initial_minutes: u32,
}

impl Clone for ActiveTimer {
    fn clone(&self) -> (t: Self)
        ensures
            t == *self,
    {
        ActiveTimer {
            start_instant: self.start_instant,
            duration_secs: self.duration_secs,
            initial_minutes: self.initial_minutes,
        }
    }
}

pub open spec fn status_standby() -> Seq<char> {
    "Standby"@
}

pub open spec fn status_vacation() -> Seq<char> {
    "Vacation Mode"@
}

pub open spec fn status_max_cool() -> Seq<char> {
    "Max Cool"@
}

pub open spec fn status_comfort() -> Seq<char> {
    "Comfort"@
}

/// The controller state.
#[derive(Debug)]
pub struct AppState {
    pub system_status: String,
    pub current_temp: u8,
    /// 1 while in the night window, 2 during day standby.
    pub current_slot: u32,
    pub manual_override: bool,
    pub timer: Option<ActiveTimer>,
    pub vacation: VacationSettings,
    pub bme_ok: bool,
    /// Room temperature in hundredths of a degree Celsius.
    pub room_temp_centi: i32,
    /// Room relative humidity in hundredths of a percent.
    pub room_humidity_centi: i32,
    pub ntp_ok: bool,
}

/// The controller state with the status text as a sequence of characters.
pub ghost struct AppStateView {
    pub status: Seq<char>,
    pub current_temp: u8,
    pub current_slot: u32,
    pub manual_override: bool,
    pub timer: Option<ActiveTimer>,
    pub vacation: VacationSettings,
    pub bme_ok: bool,
    pub room_temp_centi: i32,
    pub room_humidity_centi: i32,
    pub ntp_ok: bool,
}

impl View for AppState {
    type V = AppStateView;

    open spec fn view(&self) -> AppStateView {
        AppStateView {
            status: self.system_status@,
            current_temp: self.current_temp,
            current_slot: self.current_slot,
            manual_override: self.manual_override,
            timer: self.timer,
            vacation: self.vacation,
            bme_ok: self.bme_ok,
            room_temp_centi: self.room_temp_centi,
            room_humidity_centi: self.room_humidity_centi,
            ntp_ok: self.ntp_ok,
        }
    }
}

/// The state at start-up: standby at 24 degrees, day slot, no timer, no vacation,
/// no sensor, 24.00 degrees and 50.00 percent assumed in the room.
pub open spec fn initial_state() -> AppStateView {
    AppStateView {
        status: status_standby(),
        current_temp: 24,
        current_slot: 2,
        manual_override: false,
        timer: None,
        vacation: crate::scheduler::vacation::no_vacation(),
        bme_ok: false,
        room_temp_centi: 2400,
        room_humidity_centi: 5000,
        ntp_ok: false,
    }
}

/// Switching on: the set temperature, shown as "Max Cool" below 20 degrees and as
/// "Comfort" otherwise.
pub open spec fn spec_set_on(v: AppStateView, temp: u8) -> AppStateView {
    AppStateView {
        current_temp: temp,
        status: if temp < 20 { status_max_cool() } else { status_comfort() },
        ..v
    }
}

/// Switching off: the timer ends, and the status shows "Vacation Mode" when a vacation is
/// active on the given date, "Standby" otherwise.
pub open spec fn spec_set_off(v: AppStateView, today_ymd: i64) -> AppStateView {
    AppStateView {
        timer: None,
        status: if v.vacation.spec_is_active(today_ymd) { status_vacation() } else { status_standby() },
        ..v
    }
}

/// Starting a countdown of `minutes` at `now`: manual override, cooling at 16 degrees.
pub open spec fn spec_start_timer(v: AppStateView, minutes: u32, now: Instant) -> AppStateView {
    spec_set_on(
        AppStateView {
            timer: Some(
                ActiveTimer {
                    start_instant: now,
                    duration_secs: (minutes * 60) as u64,
                    initial_minutes: minutes,
                },
            ),
            manual_override: true,
            ..v
        },
        16,
    )
}

/// Whether the countdown has run out after `elapsed` seconds.
pub open spec fn spec_timer_expired(v: AppStateView, elapsed: u64) -> bool {
    v.timer matches Some(t) && elapsed >= t.duration_secs
}

/// Seconds left on the countdown after `elapsed` seconds; 0 without a countdown.
pub open spec fn spec_remaining_secs(v: AppStateView, elapsed: u64) -> i64 {
    match v.timer {
        Some(t) => if elapsed < t.duration_secs {
            (t.duration_secs - elapsed) as i64
        } else {
            0
        },
        None => 0,
    }
}

/// The status report.
#[derive(Debug)]
pub struct StatusResponse {
    pub status: String,
    pub temp: u8,
    pub slot: u32,
    pub active_mins: u32,
    pub timer_secs: i64,
    pub bme_ok: bool,
    /// Room temperature in hundredths of a degree Celsius.
    pub r_temp_centi: i32,
    /// Room relative humidity in hundredths of a percent.
    pub r_hum_centi: i32,
    pub vacation: bool,
    pub man_vac: bool,
    pub vac_s: i64,
    pub vac_e: i64,
    pub ntp_ok: bool,
}

/// The status report with its status text as a sequence of characters.
pub ghost struct StatusView {
    pub status: Seq<char>,
    pub temp: u8,
    pub slot: u32,
    pub active_mins: u32,
    pub timer_secs: i64,
    pub bme_ok: bool,
    pub r_temp_centi: i32,
    pub r_hum_centi: i32,
    pub vacation: bool,
    pub man_vac: bool,
    pub vac_s: i64,
    pub vac_e: i64,
    pub ntp_ok: bool,
}

impl View for StatusResponse {
    type V = StatusView;

    open spec fn view(&self) -> StatusView {
        StatusView {
            status: self.status@,
            temp: self.temp,
            slot: self.slot,
            active_mins: self.active_mins,
            timer_secs: self.timer_secs,
            bme_ok: self.bme_ok,
            r_temp_centi: self.r_temp_centi,
            r_hum_centi: self.r_hum_centi,
            vacation: self.vacation,
            man_vac: self.man_vac,
            vac_s: self.vac_s,
            vac_e: self.vac_e,
            ntp_ok: self.ntp_ok,
        }
    }
}

impl Clone for StatusResponse {
    fn clone(&self) -> (r: Self)
        ensures
            r == *self,
    {
        StatusResponse {
            status: self.status.clone(),
            temp: self.temp,
            slot: self.slot,
            active_mins: self.active_mins,
            timer_secs: self.timer_secs,
            bme_ok: self.bme_ok,
            r_temp_centi: self.r_temp_centi,
            r_hum_centi: self.r_hum_centi,
            vacation: self.vacation,
            man_vac: self.man_vac,
            vac_s: self.vac_s,
            vac_e: self.vac_e,
            ntp_ok: self.ntp_ok,
        }
    }
}

/// The status report of a state on a date, `elapsed` seconds into its countdown. An idle
/// unit shows "Vacation Mode" while a vacation is active.
pub open spec fn spec_status_response(v: AppStateView, today_ymd: i64, elapsed: u64) -> StatusView {
    let vac = v.vacation.spec_is_active(today_ymd);
    StatusView {
        status: if vac && v.status == status_standby() { status_vacation() } else { v.status },
        temp: v.current_temp,
        slot: v.current_slot,
        active_mins: match v.timer {
            Some(t) => t.initial_minutes,
            None => 0,
        },
        timer_secs: spec_remaining_secs(v, elapsed),
        bme_ok: v.bme_ok,
        r_temp_centi: v.room_temp_centi,
        r_hum_centi: v.room_humidity_centi,
        vacation: vac,
        man_vac: v.vacation.manual_vacation,
        vac_s: v.vacation.start_date,
        vac_e: v.vacation.end_date,
        ntp_ok: v.ntp_ok,
    }
}

impl Clone for AppState {
    fn clone(&self) -> (s: Self)
        ensures
            s@ == self@,
    {
        let timer = match &self.timer {
            Some(t) => Some(t.clone()),
            None => None,
        };
        AppState {
            system_status: self.system_status.clone(),
            current_temp: self.current_temp,
            current_slot: self.current_slot,
            manual_override: self.manual_override,
            timer,
            vacation: self.vacation,
            bme_ok: self.bme_ok,
            room_temp_centi: self.room_temp_centi,
            room_humidity_centi: self.room_humidity_centi,
            ntp_ok: self.ntp_ok,
        }
    }
}

impl Default for AppState {
    fn default() -> (s: Self)
        ensures
            s@ == initial_state(),
    {
        AppState {
            system_status: String::from_str("Standby"),
            current_temp: 24,
            current_slot: 2,
            manual_override: false,
            timer: None,
            vacation: VacationSettings::default(),
            bme_ok: false,
            room_temp_centi: 2400,
            room_humidity_centi: 5000,
            ntp_ok: false,
        }
    }
}

impl AppState {
    pub fn new() -> (s: Self)
        ensures
            s@ == initial_state(),
    {
        Self::default()
    }

    pub fn set_on(&mut self, temp: u8)
        ensures
            final(self)@ == spec_set_on(old(self)@, temp),
    {
        self.current_temp = temp;
        self.system_status = if temp < 20 {
            String::from_str("Max Cool")
        } else {
            String::from_str("Comfort")
        };
    }

    /// Switches off as of the given date.
    pub fn set_off_at(&mut self, today_ymd: i64)
        ensures
            final(self)@ == spec_set_off(old(self)@, today_ymd),
    {
        self.timer = None;
        if self.vacation.is_active(today_ymd) {
            self.system_status = String::from_str("Vacation Mode");
        } else {
            self.system_status = String::from_str("Standby");
        }
    }

    /// Switches off as of today's date.
    pub fn set_off(&mut self)
        ensures
            exists|today: i64| final(self)@ == spec_set_off(old(self)@, today),
    {
        let today = current_date_ymd();
        self.set_off_at(today);
    }

    /// Starts a countdown of `minutes` begun at `now`.
    pub fn start_timer_at(&mut self, minutes: u32, now: Instant)
        ensures
            final(self)@ == spec_start_timer(old(self)@, minutes, now),
    {
        let secs = (minutes as u64) * 60;
        self.timer = Some(
            ActiveTimer { start_instant: now, duration_secs: secs, initial_minutes: minutes },
        );
        self.manual_override = true;
        self.set_on(16);
    }

    /// Starts a countdown of `minutes` from now.
    pub fn start_timer(&mut self, minutes: u32)
        ensures
            exists|now: Instant| final(self)@ == spec_start_timer(old(self)@, minutes, now),
    {
        let now = instant_now();
        self.start_timer_at(minutes, now);
    }

    pub fn cancel_timer(&mut self)
        ensures
            final(self)@ == (AppStateView { timer: None, ..old(self)@ }),
    {
        self.timer = None;
    }

    /// Seconds left on the countdown when `elapsed` seconds have passed since it started.
    pub fn remaining_secs_at(&self, elapsed: u64) -> (secs: i64)
        ensures
            secs == spec_remaining_secs(self@, elapsed),
    {
        match &self.timer {
            Some(timer) => {
                if elapsed < timer.duration_secs {
                    (timer.duration_secs - elapsed) as i64
                } else {
                    0
                }
            },
            None => 0,
        }
    }

    /// Seconds elapsed on the countdown; 0 without one.
    pub fn timer_elapsed_secs(&self) -> (secs: u64)
        ensures
            self.timer is None ==> secs == 0,
    {
        match &self.timer {
            Some(timer) => elapsed_secs(&timer.start_instant),
            None => 0,
        }
    }

    /// Seconds left on the countdown now.
    pub fn remaining_timer_secs(&self) -> (secs: i64)
        ensures
            exists|elapsed: u64| secs == spec_remaining_secs(self@, elapsed),
    {
        let elapsed = self.timer_elapsed_secs();
        self.remaining_secs_at(elapsed)
    }

    /// Ends a countdown that has run out after `elapsed` seconds, switching off as of the
    /// given date; the manual override stays until the night window ends. Returns whether
    /// the countdown ran out.
    pub fn expire_timer_at(&mut self, elapsed: u64, today_ymd: i64) -> (expired: bool)
        ensures
            expired == spec_timer_expired(old(self)@, elapsed),
            expired ==> final(self)@ == spec_set_off(old(self)@, today_ymd),
            !expired ==> final(self)@ == old(self)@,
    {
        let expired = match &self.timer {
            Some(timer) => elapsed >= timer.duration_secs,
            None => false,
        };
        if expired {
            self.set_off_at(today_ymd);
        }
        expired
    }

    /// Ends the countdown if it has run out now.
    pub fn expire_timer(&mut self) -> (expired: bool)
        ensures
            exists|elapsed: u64, today: i64|
                {
                    &&& expired == spec_timer_expired(old(self)@, elapsed)
                    &&& expired ==> final(self)@ == spec_set_off(old(self)@, today)
                    &&& !expired ==> final(self)@ == old(self)@
                },
    {
        let elapsed = self.timer_elapsed_secs();
        let today = current_date_ymd();
        self.expire_timer_at(elapsed, today)
    }

    /// Records a room reading from the sensor, which is then known to work.
    pub fn record_room_reading(&mut self, temp_centi: i32, humidity_centi: i32)
        ensures
            final(self)@ == (AppStateView {
                room_temp_centi: temp_centi,
                room_humidity_centi: humidity_centi,
                bme_ok: true,
                ..old(self)@
            }),
    {
        self.room_temp_centi = temp_centi;
        self.room_humidity_centi = humidity_centi;
        self.bme_ok = true;
    }

    /// Whether a vacation is active today.
    pub fn is_vacation_active(&self) -> (active: bool)
        ensures
            exists|today: i64| active == self.vacation.spec_is_active(today),
    {
        self.vacation.is_active(current_date_ymd())
    }

    /// The status report as of a date, `elapsed` seconds into the countdown.
    pub fn status_response_at(&self, today_ymd: i64, elapsed: u64) -> (r: StatusResponse)
        ensures
            r@ == spec_status_response(self@, today_ymd, elapsed),
    {
        let vac = self.vacation.is_active(today_ymd);
        let status = if vac && str_eq(self.system_status.as_str(), "Standby") {
            String::from_str("Vacation Mode")
        } else {
            self.system_status.clone()
        };
        let active_mins = match &self.timer {
            Some(timer) => timer.initial_minutes,
            None => 0,
        };
        StatusResponse {
            status,
            temp: self.current_temp,
            slot: self.current_slot,
            active_mins,
            timer_secs: self.remaining_secs_at(elapsed),
            bme_ok: self.bme_ok,
            r_temp_centi: self.room_temp_centi,
            r_hum_centi: self.room_humidity_centi,
            vacation: vac,
            man_vac: self.vacation.manual_vacation,
            vac_s: self.vacation.start_date,
            vac_e: self.vacation.end_date,
            ntp_ok: self.ntp_ok,
        }
    }

    /// The status report now.
    pub fn to_status_response(&self) -> (r: StatusResponse)
        ensures
            exists|today: i64, elapsed: u64| r@ == spec_status_response(self@, today, elapsed),
    {
        let today = current_date_ymd();
        let elapsed = self.timer_elapsed_secs();
        self.status_response_at(today, elapsed)
    }
}

/// A countdown of `minutes` started at `now` has `60 * minutes` seconds left at once, counts
/// down one second per elapsed second, runs out exactly when that many seconds have passed,
/// and meanwhile cools at 16 degrees under manual override.
pub proof fn law_countdown(v: AppStateView, minutes: u32, now: Instant, elapsed: u64)
    ensures
        ({
            let t = spec_start_timer(v, minutes, now);
            &&& spec_remaining_secs(t, 0) == minutes * 60
            &&& elapsed <= minutes * 60 ==> spec_remaining_secs(t, elapsed) == minutes * 60 - elapsed
            &&& spec_timer_expired(t, elapsed) == (elapsed >= minutes * 60)
            &&& t.manual_override
            &&& t.current_temp == 16
            &&& t.status == status_max_cool()
        }),
{
}

/// Switching off ends the countdown and keeps the manual override and the vacation settings;
/// the status is "Vacation Mode" exactly while a vacation is active, otherwise "Standby".
pub proof fn law_set_off(v: AppStateView, today_ymd: i64)
    ensures
        spec_set_off(v, today_ymd).timer is None,
        spec_set_off(v, today_ymd).manual_override == v.manual_override,
        spec_set_off(v, today_ymd).vacation == v.vacation,
        spec_set_off(v, today_ymd).status == (if v.vacation.spec_is_active(today_ymd) {
            status_vacation()
        } else {
            status_standby()
        }),
{
}

/// Without a countdown the report shows no minutes and no seconds left; with one, it never
/// shows more seconds than the countdown lasts.
pub proof fn law_status_timer_fields(v: AppStateView, today_ymd: i64, elapsed: u64)
    ensures
        v.timer is None ==> spec_status_response(v, today_ymd, elapsed).active_mins == 0
            && spec_status_response(v, today_ymd, elapsed).timer_secs == 0,
        v.timer matches Some(t) ==> (t.duration_secs <= i64::MAX ==> 0 <= spec_status_response(
            v,
            today_ymd,
            elapsed,
        ).timer_secs <= t.duration_secs),
{
}

/// The report follows a running countdown second by second: it shows the countdown's
/// minutes and `duration - elapsed` seconds left while `elapsed` is below the duration, 0
/// once it has run out, one second less for each further second elapsed, and it shows the
/// state's temperature, slot, readings, sensor and clock flags and vacation settings, and
/// whether a vacation is active on the date
/// (the manual pause, or both ends set and the date in the inclusive range).
pub proof fn law_status_counts_down(v: AppStateView, today_ymd: i64, elapsed: u64)
    ensures
        v.timer matches Some(t) ==> t.duration_secs <= i64::MAX ==> {
            &&& spec_status_response(v, today_ymd, elapsed).active_mins == t.initial_minutes
            &&& elapsed < t.duration_secs ==> spec_status_response(v, today_ymd, elapsed).timer_secs
                == t.duration_secs - elapsed
            &&& elapsed >= t.duration_secs ==> spec_status_response(v, today_ymd, elapsed).timer_secs
                == 0
            &&& elapsed < t.duration_secs ==> spec_status_response(v, today_ymd, (elapsed + 1) as u64).timer_secs
                == spec_status_response(v, today_ymd, elapsed).timer_secs - 1
        },
        spec_status_response(v, today_ymd, elapsed).temp == v.current_temp,
        spec_status_response(v, today_ymd, elapsed).slot == v.current_slot,
        spec_status_response(v, today_ymd, elapsed).r_temp_centi == v.room_temp_centi,
        spec_status_response(v, today_ymd, elapsed).r_hum_centi == v.room_humidity_centi,
        spec_status_response(v, today_ymd, elapsed).bme_ok == v.bme_ok,
        spec_status_response(v, today_ymd, elapsed).ntp_ok == v.ntp_ok,
        spec_status_response(v, today_ymd, elapsed).man_vac == v.vacation.manual_vacation,
        spec_status_response(v, today_ymd, elapsed).vac_s == v.vacation.start_date,
        spec_status_response(v, today_ymd, elapsed).vac_e == v.vacation.end_date,
        spec_status_response(v, today_ymd, elapsed).vacation == (v.vacation.manual_vacation || (
        v.vacation.start_date > 0 && v.vacation.end_date > 0 && v.vacation.start_date <= today_ymd
            && today_ymd <= v.vacation.end_date)),
{
}

/// Switching on at a temperature sets it and shows "Max Cool" below 20 degrees and
/// "Comfort" from 20 up, leaving the rest of the state alone.
pub proof fn law_set_on(v: AppStateView, temp: u8)
    ensures
        spec_set_on(v, temp).current_temp == temp,
        spec_set_on(v, temp).status == (if temp < 20 { "Max Cool"@ } else { "Comfort"@ }),
        spec_set_on(v, temp).timer == v.timer,
        spec_set_on(v, temp).manual_override == v.manual_override,
        spec_set_on(v, temp).vacation == v.vacation,
{
}

/// The report shows "Vacation Mode" for an idle ("Standby") unit while a vacation is
/// active on the date, and otherwise the state's own status text.
pub proof fn law_status_text(v: AppStateView, today_ymd: i64, elapsed: u64)
    ensures
        spec_status_response(v, today_ymd, elapsed).status == (if v.status == "Standby"@ && (
        v.vacation.manual_vacation || (v.vacation.start_date > 0 && v.vacation.end_date > 0
            && v.vacation.start_date <= today_ymd && today_ymd <= v.vacation.end_date)) {
            "Vacation Mode"@
        } else {
            v.status
        }),
{
}

} // verus!
