//! Nightly schedule: seven cooling slots between 22:00 and 07:00.
use vstd::prelude::*;

verus! {

/// A cooling slot, in minutes since midnight: on at `start_min`, off at `end_min`.
#[derive(Debug, Clone, Copy, PartialEq, Eq)]
pub struct CycleSlot {
    pub start_min: u32,
    pub end_min: u32,
}

/// The seven slots of the nightly schedule, as a mathematical sequence.
pub open spec fn spec_schedule() -> Seq<CycleSlot> {
    seq![
        CycleSlot { start_min: 1320, end_min: 1365 },
        CycleSlot { start_min: 1395, end_min: 1420 },
        CycleSlot { start_min: 15, end_min: 35 },
        CycleSlot { start_min: 80, end_min: 100 },
        CycleSlot { start_min: 160, end_min: 180 },
        CycleSlot { start_min: 255, end_min: 280 },
        CycleSlot { start_min: 320, end_min: 360 },
    ]
}

/// The seven slots of the nightly schedule (22:00-22:45, 23:15-23:40, 00:15-00:35,
/// 01:20-01:40, 02:40-03:00, 04:15-04:40, 05:20-06:00).
pub fn schedule() -> (slots: [CycleSlot; 7])
    ensures
        slots@ == spec_schedule(),
{
    let slots = [
        CycleSlot { start_min: 22 * 60, end_min: 22 * 60 + 45 },
        CycleSlot { start_min: 23 * 60 + 15, end_min: 23 * 60 + 40 },
        CycleSlot { start_min: 15, end_min: 35 },
        CycleSlot { start_min: 60 + 20, end_min: 60 + 40 },
        CycleSlot { start_min: 2 * 60 + 40, end_min: 3 * 60 },
        CycleSlot { start_min: 4 * 60 + 15, end_min: 4 * 60 + 40 },
        CycleSlot { start_min: 5 * 60 + 20, end_min: 6 * 60 },
    ];
    assert(slots@ =~= spec_schedule());
    slots
}

pub open spec fn slot_covers(slot: CycleSlot, m: int) -> bool {
    slot.start_min <= m < slot.end_min
}

pub open spec fn spec_should_ac_be_on(m: int) -> bool {
    exists|i: int| 0 <= i < 7 && slot_covers(#[trigger] spec_schedule()[i], m)
}

pub fn should_ac_be_on(mins_since_midnight: u32) -> (on: bool)
    ensures
        on == spec_should_ac_be_on(mins_since_midnight as int),
{
    let schedule = schedule();
    let mut i: usize = 0;
    while i < 7
        invariant
            i <= 7,
            schedule@ == spec_schedule(),
            forall|j: int| 0 <= j < i ==> !slot_covers(#[trigger] spec_schedule()[j], mins_since_midnight as int),
        decreases 7 - i,
    {
        let slot = schedule[i];
        if mins_since_midnight >= slot.start_min && mins_since_midnight < slot.end_min {
            return true;
        }
        i = i + 1;
    }
    false
}

/// The night window runs from 22:00 to 07:00.
pub open spec fn spec_is_night_window(hour: int) -> bool {
    hour < 7 || hour >= 22
}

pub fn is_night_window(hour: u32) -> (night: bool)
    ensures
        night == spec_is_night_window(hour as int),
{
    !(7 <= hour && hour < 22)
}


/// What the engine asks the controller to do.
#[derive(Debug, Clone, Copy, PartialEq, Eq)]
pub enum SchedulerAction {
    /// Switch the unit on, cooling at the given temperature.
    TurnOn(u8),
    /// Switch the unit off.
    TurnOff,
    /// Switch the unit off and clear any manual override (end of the night window).
    TurnOffAndClearOverride,
}

/// The temperature at which scheduled slots cool.
pub const SCHEDULED_TEMP: u8 = 16;

/// Edge-triggered schedule follower: it only emits an action when the
/// scheduled state changes.
#[derive(Debug)]
pub struct SchedulerEngine {
    pub in_active_window: bool,
    pub last_cycle_was_on: bool,
}

impl Clone for SchedulerEngine {
    fn clone(&self) -> (e: Self)
        ensures
            e == *self,
    {
        SchedulerEngine {
            in_active_window: self.in_active_window,
            last_cycle_was_on: self.last_cycle_was_on,
        }
    }
}

impl Default for SchedulerEngine {
    fn default() -> (e: Self)
        ensures
            !e.in_active_window,
            !e.last_cycle_was_on,
    {
        SchedulerEngine { in_active_window: false, last_cycle_was_on: false }
    }
}

/// Minutes since midnight for an hour and a minute; what the engine evaluates the schedule at.
pub open spec fn minute_of_day(hour: u32, min: u32) -> int {
    hour * 60 + min
}

/// An hour and a minute that the engine can turn into minutes since midnight without overflow.
pub open spec fn fits_minutes(hour: u32, min: u32) -> bool {
    minute_of_day(hour, min) <= u32::MAX
}

/// The state and action that one tick produces.
pub open spec fn spec_tick(
    e: SchedulerEngine,
    hour: u32,
    min: u32,
    vacation_active: bool,
    manual_override: bool,
) -> (SchedulerEngine, Option<SchedulerAction>) {
    if spec_is_night_window(hour as int) {
        let on = spec_should_ac_be_on(minute_of_day(hour, min));
        if !vacation_active && !manual_override && on && !e.last_cycle_was_on {
            (
                SchedulerEngine { in_active_window: true, last_cycle_was_on: true },
                Some(SchedulerAction::TurnOn(SCHEDULED_TEMP)),
            )
        } else if !vacation_active && !manual_override && !on && e.last_cycle_was_on {
            (
                SchedulerEngine { in_active_window: true, last_cycle_was_on: false },
                Some(SchedulerAction::TurnOff),
            )
        } else if vacation_active {
            (SchedulerEngine { in_active_window: true, last_cycle_was_on: on }, None)
        } else {
            (SchedulerEngine { in_active_window: true, last_cycle_was_on: e.last_cycle_was_on }, None)
        }
    } else if e.in_active_window {
        (
            SchedulerEngine { in_active_window: false, last_cycle_was_on: false },
            Some(SchedulerAction::TurnOffAndClearOverride),
        )
    } else {
        (e, None)
    }
}

/// The state and action of the evaluation made once after boot.
pub open spec fn spec_boot_recovery(
    e: SchedulerEngine,
    hour: u32,
    min: u32,
    vacation_active: bool,
) -> (SchedulerEngine, Option<SchedulerAction>) {
    if spec_is_night_window(hour as int) && !vacation_active {
        if spec_should_ac_be_on(minute_of_day(hour, min)) {
            (
                SchedulerEngine { in_active_window: true, last_cycle_was_on: true },
                Some(SchedulerAction::TurnOn(SCHEDULED_TEMP)),
            )
        } else {
            (SchedulerEngine { in_active_window: true, last_cycle_was_on: e.last_cycle_was_on }, None)
        }
    } else {
        (e, None)
    }
}

impl SchedulerEngine {
    /// The engine only remembers a switched-on slot while it is inside the night window.
    pub open spec fn inv(self) -> bool {
        self.last_cycle_was_on ==> self.in_active_window
    }

    pub fn new() -> (e: Self)
        ensures
            !e.in_active_window,
            !e.last_cycle_was_on,
    {
        Self::default()
    }

    /// Evaluates the schedule once after boot: switches on at once when the boot
    /// falls inside a slot of the night window and no vacation is active.
    pub fn evaluate_boot_recovery(&mut self, hour: u32, min: u32, vacation_active: bool) -> (action:
        Option<SchedulerAction>)
        requires
            spec_is_night_window(hour as int) && !vacation_active ==> fits_minutes(hour, min),
        ensures
            (*final(self), action) == spec_boot_recovery(*old(self), hour, min, vacation_active),
    {
        if is_night_window(hour) && !vacation_active {
            self.in_active_window = true;
            let m = hour * 60 + min;
            if should_ac_be_on(m) {
                self.last_cycle_was_on = true;
                return Some(SchedulerAction::TurnOn(SCHEDULED_TEMP));
            }
        }
        None
    }

    /// The periodic tick: follows the schedule inside the night window unless a vacation
    /// or a manual override holds, and ends the night at 07:00.
    pub fn tick(
        &mut self,
        hour: u32,
        min: u32,
        vacation_active: bool,
        manual_override: bool,
    ) -> (action: Option<SchedulerAction>)
        requires
            spec_is_night_window(hour as int) ==> fits_minutes(hour, min),
        ensures
            (*final(self), action) == spec_tick(*old(self), hour, min, vacation_active, manual_override),
    {
        let in_window = is_night_window(hour);
        if in_window {
            let m = hour * 60 + min;
            let should_on = should_ac_be_on(m);
            if !vacation_active && !manual_override {
                if should_on && !self.last_cycle_was_on {
                    self.last_cycle_was_on = true;
                    self.in_active_window = true;
                    return Some(SchedulerAction::TurnOn(SCHEDULED_TEMP));
                } else if !should_on && self.last_cycle_was_on {
                    self.last_cycle_was_on = false;
                    self.in_active_window = true;
                    return Some(SchedulerAction::TurnOff);
                }
            } else if vacation_active {
                self.last_cycle_was_on = should_on;
            }
            self.in_active_window = true;
            None
        } else {
            if self.in_active_window {
                self.in_active_window = false;
                self.last_cycle_was_on = false;
                return Some(SchedulerAction::TurnOffAndClearOverride);
            }
            None
        }
    }
}

/// Total minutes of cooling that the given slots schedule.
pub open spec fn scheduled_minutes(slots: Seq<CycleSlot>) -> int
    decreases slots.len(),
{
    if slots.len() == 0 {
        0
    } else {
        scheduled_minutes(slots.drop_last()) + (slots.last().end_min - slots.last().start_min)
    }
}

/// The schedule cools for 195 minutes a night, in slots that do not overlap.
pub proof fn law_schedule_shape()
    ensures
        scheduled_minutes(spec_schedule()) == 195,
        forall|i: int, j: int|
            0 <= i < j < 7 ==> (#[trigger] spec_schedule()[i]).end_min <= (
            #[trigger] spec_schedule()[j]).start_min || spec_schedule()[j].end_min
                <= spec_schedule()[i].start_min,
        forall|i: int| 0 <= i < 7 ==> (#[trigger] spec_schedule()[i]).start_min < spec_schedule()[i].end_min,
{
    reveal_with_fuel(scheduled_minutes, 8);
    assert(spec_schedule().drop_last().drop_last().drop_last().drop_last().drop_last().drop_last().drop_last()
        =~= Seq::<CycleSlot>::empty());
    assert forall|i: int, j: int| 0 <= i < j < 7 implies (#[trigger] spec_schedule()[i]).end_min <= (
    #[trigger] spec_schedule()[j]).start_min || spec_schedule()[j].end_min
        <= spec_schedule()[i].start_min by {
        assert(i == 0 || i == 1 || i == 2 || i == 3 || i == 4 || i == 5);
        assert(j == 1 || j == 2 || j == 3 || j == 4 || j == 5 || j == 6);
    }
}

/// How many of the minutes `0..n` of the day the schedule asks for cooling at.
pub open spec fn covered_minutes(n: int) -> int
    decreases n,
{
    if n <= 0 {
        0
    } else {
        covered_minutes(n - 1) + if spec_should_ac_be_on(n - 1) {
            1int
        } else {
            0int
        }
    }
}

/// The minutes of the day that the slots cover, written out as intervals: 00:15-00:35,
/// 01:20-01:40, 02:40-03:00, 04:15-04:40, 05:20-06:00, 22:00-22:45 and 23:15-23:40, each
/// including its first minute and excluding its last.
pub open spec fn in_slot_intervals(m: int) -> bool {
    ||| 15 <= m < 35
    ||| 80 <= m < 100
    ||| 160 <= m < 180
    ||| 255 <= m < 280
    ||| 320 <= m < 360
    ||| 1320 <= m < 1365
    ||| 1395 <= m < 1420
}

/// The schedule asks for cooling at a minute of the day exactly when the minute lies in
/// one of the seven intervals, and the night window is 22:00 to 06:59.
pub proof fn law_schedule_intervals(m: int, hour: int)
    ensures
        spec_should_ac_be_on(m) == in_slot_intervals(m),
        spec_is_night_window(hour) == (hour >= 22 || hour < 7),
{
    let s = spec_schedule();
    if spec_should_ac_be_on(m) {
        let i = choose|i: int| 0 <= i < 7 && slot_covers(#[trigger] spec_schedule()[i], m);
        assert(i == 0 || i == 1 || i == 2 || i == 3 || i == 4 || i == 5 || i == 6);
    }
    if 1320 <= m < 1365 {
        assert(slot_covers(s[0], m));
    } else if 1395 <= m < 1420 {
        assert(slot_covers(s[1], m));
    } else if 15 <= m < 35 {
        assert(slot_covers(s[2], m));
    } else if 80 <= m < 100 {
        assert(slot_covers(s[3], m));
    } else if 160 <= m < 180 {
        assert(slot_covers(s[4], m));
    } else if 255 <= m < 280 {
        assert(slot_covers(s[5], m));
    } else if 320 <= m < 360 {
        assert(slot_covers(s[6], m));
    }
}

proof fn lemma_covered_run(a: int, b: int, on: bool)
    requires
        0 <= a <= b,
        forall|m: int| a <= m < b ==> in_slot_intervals(m) == on,
    ensures
        covered_minutes(b) == covered_minutes(a) + if on {
            b - a
        } else {
            0
        },
    decreases b - a,
{
    if b > a {
        lemma_covered_run(a, b - 1, on);
        law_schedule_intervals(b - 1, 0);
    }
}

/// The schedule asks for cooling at exactly 195 distinct minutes of the day.
pub proof fn law_covered_minutes()
    ensures
        covered_minutes(1440) == 195,
{
    lemma_covered_run(0, 15, false);
    lemma_covered_run(15, 35, true);
    lemma_covered_run(35, 80, false);
    lemma_covered_run(80, 100, true);
    lemma_covered_run(100, 160, false);
    lemma_covered_run(160, 180, true);
    lemma_covered_run(180, 255, false);
    lemma_covered_run(255, 280, true);
    lemma_covered_run(280, 320, false);
    lemma_covered_run(320, 360, true);
    lemma_covered_run(360, 1320, false);
    lemma_covered_run(1320, 1365, true);
    lemma_covered_run(1365, 1395, false);
    lemma_covered_run(1395, 1420, true);
    lemma_covered_run(1420, 1440, false);
}

/// The schedule never asks for cooling outside the night window.
pub proof fn law_schedule_inside_night_window(m: int)
    requires
        0 <= m < 1440,
        spec_should_ac_be_on(m),
    ensures
        spec_is_night_window(m / 60),
{
}

/// While a vacation or a manual override holds, a tick never switches the unit on,
/// and inside the night window it does nothing at all.
pub proof fn law_suppressed_tick_never_turns_on(
    e: SchedulerEngine,
    hour: u32,
    min: u32,
    vacation_active: bool,
    manual_override: bool,
)
    requires
        vacation_active || manual_override,
    ensures
        !(spec_tick(e, hour, min, vacation_active, manual_override).1 matches Some(
            SchedulerAction::TurnOn(_),
        )),
        spec_is_night_window(hour as int) ==> spec_tick(
            e,
            hour,
            min,
            vacation_active,
            manual_override,
        ).1 is None,
{
}

/// Every tick and the boot evaluation keep the engine's invariant.
pub proof fn law_engine_inv_preserved(
    e: SchedulerEngine,
    hour: u32,
    min: u32,
    vacation_active: bool,
    manual_override: bool,
)
    requires
        e.inv(),
    ensures
        spec_tick(e, hour, min, vacation_active, manual_override).0.inv(),
        spec_boot_recovery(e, hour, min, vacation_active).0.inv(),
{
}

/// Outside the night window the engine leaves the window and clears its slot state;
/// it asks to switch off and clear the override exactly when it was inside the window.
pub proof fn law_daytime_tick_resets(
    e: SchedulerEngine,
    hour: u32,
    min: u32,
    vacation_active: bool,
    manual_override: bool,
)
    requires
        e.inv(),
        !spec_is_night_window(hour as int),
    ensures
        !spec_tick(e, hour, min, vacation_active, manual_override).0.in_active_window,
        !spec_tick(e, hour, min, vacation_active, manual_override).0.last_cycle_was_on,
        (spec_tick(e, hour, min, vacation_active, manual_override).1 == Some(
            SchedulerAction::TurnOffAndClearOverride,
        )) == e.in_active_window,
        e.in_active_window || spec_tick(e, hour, min, vacation_active, manual_override).1 is None,
{
}

/// Inside the night window and without a manual override, the engine's record of the
/// slot state equals what the schedule asks for after every tick, also while a vacation
/// suppresses transmission.
pub proof fn law_tick_tracks_schedule(
    e: SchedulerEngine,
    hour: u32,
    min: u32,
    vacation_active: bool,
)
    requires
        spec_is_night_window(hour as int),
    ensures
        spec_tick(e, hour, min, vacation_active, false).0.in_active_window,
        spec_tick(e, hour, min, vacation_active, false).0.last_cycle_was_on == spec_should_ac_be_on(
            minute_of_day(hour, min),
        ),
{
}

/// Ticks are edge-triggered: repeating a tick with the same inputs never acts again.
pub proof fn law_repeated_tick_is_quiet(
    e: SchedulerEngine,
    hour: u32,
    min: u32,
    vacation_active: bool,
    manual_override: bool,
)
    ensures
        ({
            let first = spec_tick(e, hour, min, vacation_active, manual_override).0;
            spec_tick(first, hour, min, vacation_active, manual_override).1 is None
        }),
{
}

/// A fresh engine that has made its boot evaluation does not act again when ticked at
/// the same minute with the same vacation state.
pub proof fn law_boot_then_tick_is_quiet(
    hour: u32,
    min: u32,
    vacation_active: bool,
    manual_override: bool,
)
    ensures
        ({
            let fresh = SchedulerEngine { in_active_window: false, last_cycle_was_on: false };
            let booted = spec_boot_recovery(fresh, hour, min, vacation_active).0;
            spec_tick(booted, hour, min, vacation_active, manual_override).1 is None
        }),
{
}

} // verus!
