//! One step of the control loop, run once a second: end a countdown that ran out, follow
//! the schedule, and decide which commands to send to the unit.
use crate::ir::daikin::{spec_cool_at, spec_off_command};
use crate::ir::daikin::{FanSpeed, OperationMode};
use crate::ir::DaikinCommand;
use crate::scheduler::engine::{spec_is_night_window, spec_tick, SchedulerAction, SchedulerEngine};
use crate::scheduler::is_night_window;
use crate::state::{spec_set_off, spec_set_on, spec_timer_expired, AppState, AppStateView};
use vstd::prelude::*;

verus! {

/// The slot shown in the status: 1 in the night window, 2 in day standby.
pub open spec fn spec_slot_for_hour(hour: u32) -> u32 {
    if spec_is_night_window(hour as int) {
        1
    } else {
        2
    }
}

pub fn slot_for_hour(hour: u32) -> (slot: u32)
    ensures
        slot == spec_slot_for_hour(hour),
{
    if is_night_window(hour) {
        1
    } else {
        2
    }
}

/// The state after carrying out a scheduler action on a date.
pub open spec fn spec_apply_action(v: AppStateView, action: SchedulerAction, today_ymd: i64) -> AppStateView {
    match action {
        SchedulerAction::TurnOn(t) => spec_set_on(v, t),
        SchedulerAction::TurnOff => spec_set_off(v, today_ymd),
        SchedulerAction::TurnOffAndClearOverride => spec_set_off(
            AppStateView { manual_override: false, ..v },
            today_ymd,
        ),
    }
}

/// The unit command that carries out a scheduler action.
pub open spec fn spec_action_command(action: SchedulerAction) -> DaikinCommand {
    match action {
        SchedulerAction::TurnOn(t) => spec_cool_at(t),
        _ => spec_off_command(),
    }
}

/// Carries out a scheduler action on the state and returns the command for the unit.
pub fn apply_action(state: &mut AppState, action: SchedulerAction, today_ymd: i64) -> (cmd:
    DaikinCommand)
    ensures
        final(state)@ == spec_apply_action(old(state)@, action, today_ymd),
        cmd == spec_action_command(action),
{
    match action {
        SchedulerAction::TurnOn(t) => {
            state.set_on(t);
            DaikinCommand::cool_at(t)
        },
        SchedulerAction::TurnOff => {
            state.set_off_at(today_ymd);
            DaikinCommand::off()
        },
        SchedulerAction::TurnOffAndClearOverride => {
            state.manual_override = false;
            state.set_off_at(today_ymd);
            DaikinCommand::off()
        },
    }
}

/// One control step at `hour:min` on a date, the countdown `elapsed` seconds old: the new
/// state and engine, and the commands to send, in order.
pub open spec fn spec_control_step(
    v: AppStateView,
    e: SchedulerEngine,
    hour: u32,
    min: u32,
    today_ymd: i64,
    elapsed: u64,
) -> (AppStateView, SchedulerEngine, Seq<DaikinCommand>) {
    let expired = spec_timer_expired(v, elapsed);
    let v1 = if expired {
        spec_set_off(v, today_ymd)
    } else {
        v
    };
    let c1 = if expired {
        seq![spec_off_command()]
    } else {
        Seq::<DaikinCommand>::empty()
    };
    let v2 = AppStateView { current_slot: spec_slot_for_hour(hour), ..v1 };
    let t = spec_tick(e, hour, min, v2.vacation.spec_is_active(today_ymd), v2.manual_override);
    match t.1 {
        Some(a) => (spec_apply_action(v2, a, today_ymd), t.0, c1.push(spec_action_command(a))),
        None => (v2, t.0, c1),
    }
}

/// Runs one control step and returns the commands to send to the unit, in order.
pub fn control_step(
    state: &mut AppState,
    engine: &mut SchedulerEngine,
    hour: u32,
    min: u32,
    today_ymd: i64,
    elapsed: u64,
) -> (cmds: Vec<DaikinCommand>)
    requires
        hour < 24,
        min < 60,
    ensures
        (final(state)@, *final(engine), cmds@) == spec_control_step(
            old(state)@,
            *old(engine),
            hour,
            min,
            today_ymd,
            elapsed,
        ),
{
    let mut cmds: Vec<DaikinCommand> = Vec::new();
    if state.expire_timer_at(elapsed, today_ymd) {
        cmds.push(DaikinCommand::off());
    }
    state.current_slot = slot_for_hour(hour);
    let vacation_active = state.vacation.is_active(today_ymd);
    let manual = state.manual_override;
    match engine.tick(hour, min, vacation_active, manual) {
        Some(action) => {
            let cmd = apply_action(state, action, today_ymd);
            cmds.push(cmd);
        },
        None => {},
    }
    assert(cmds@ =~= spec_control_step(old(state)@, *old(engine), hour, min, today_ymd, elapsed).2);
    cmds
}

/// The evaluation made once after boot: switches on at once when the boot falls inside a
/// scheduled slot of the night window and no vacation is active on the date.
pub open spec fn spec_boot_step(
    v: AppStateView,
    e: SchedulerEngine,
    hour: u32,
    min: u32,
    today_ymd: i64,
) -> (AppStateView, SchedulerEngine, Option<DaikinCommand>) {
    let b = crate::scheduler::engine::spec_boot_recovery(
        e,
        hour,
        min,
        v.vacation.spec_is_active(today_ymd),
    );
    match b.1 {
        Some(SchedulerAction::TurnOn(t)) => (spec_set_on(v, t), b.0, Some(spec_cool_at(t))),
        _ => (v, b.0, None),
    }
}

/// Runs the evaluation made once after boot and returns the command to send, if any.
pub fn boot_step(
    state: &mut AppState,
    engine: &mut SchedulerEngine,
    hour: u32,
    min: u32,
    today_ymd: i64,
) -> (cmd: Option<DaikinCommand>)
    requires
        hour < 24,
        min < 60,
    ensures
        (final(state)@, *final(engine), cmd) == spec_boot_step(
            old(state)@,
            *old(engine),
            hour,
            min,
            today_ymd,
        ),
{
    let vacation_active = state.vacation.is_active(today_ymd);
    match engine.evaluate_boot_recovery(hour, min, vacation_active) {
        Some(SchedulerAction::TurnOn(t)) => {
            state.set_on(t);
            Some(DaikinCommand::cool_at(t))
        },
        _ => None,
    }
}

/// A countdown that runs out in the night window while the manual override holds
/// switches the unit off and nothing else: the schedule does not take over again until
/// the override is cleared at the end of the night.
pub proof fn law_expired_countdown_stays_off(
    v: AppStateView,
    e: SchedulerEngine,
    hour: u32,
    min: u32,
    today_ymd: i64,
    elapsed: u64,
)
    requires
        spec_timer_expired(v, elapsed),
        v.manual_override,
        spec_is_night_window(hour as int),
    ensures
        spec_control_step(v, e, hour, min, today_ymd, elapsed).2 == seq![spec_off_command()],
        spec_control_step(v, e, hour, min, today_ymd, elapsed).0.manual_override,
        spec_control_step(v, e, hour, min, today_ymd, elapsed).0.timer is None,
{
}

/// The first step after the night window ends switches the unit off and clears the manual
/// override.
pub proof fn law_morning_clears_override(
    v: AppStateView,
    e: SchedulerEngine,
    hour: u32,
    min: u32,
    today_ymd: i64,
    elapsed: u64,
)
    requires
        !spec_is_night_window(hour as int),
        e.in_active_window,
    ensures
        !spec_control_step(v, e, hour, min, today_ymd, elapsed).0.manual_override,
        !spec_control_step(v, e, hour, min, today_ymd, elapsed).1.in_active_window,
        spec_control_step(v, e, hour, min, today_ymd, elapsed).2.last() == spec_off_command(),
        spec_control_step(v, e, hour, min, today_ymd, elapsed).0.current_slot == 2,
{
}

/// While a vacation is active on the step's date (paused by hand, or both ends of the
/// range set and the date inside it), a control step only ever switches the unit off,
/// and the boot evaluation sends nothing.
pub proof fn law_vacation_never_switches_on(
    v: AppStateView,
    e: SchedulerEngine,
    hour: u32,
    min: u32,
    today_ymd: i64,
    elapsed: u64,
)
    requires
        v.vacation.manual_vacation || (v.vacation.start_date > 0 && v.vacation.end_date > 0
            && v.vacation.start_date <= today_ymd && today_ymd <= v.vacation.end_date),
    ensures
        forall|i: int|
            0 <= i < spec_control_step(v, e, hour, min, today_ymd, elapsed).2.len()
                ==> !(#[trigger] spec_control_step(v, e, hour, min, today_ymd, elapsed).2[i]).power,
        spec_boot_step(v, e, hour, min, today_ymd).2 is None,
{
}

/// Without a vacation, an override or a countdown, the step at a minute of the night
/// window (22:00 to 06:59) that the schedule covers, after a step that was off, sends
/// exactly one command: cool at 16 degrees in Cool mode with automatic fan and no swing;
/// the status then shows "Max Cool" at 16 degrees.
pub proof fn law_scheduled_slot_switches_on(
    v: AppStateView,
    e: SchedulerEngine,
    hour: u32,
    min: u32,
    today_ymd: i64,
    elapsed: u64,
)
    requires
        !v.vacation.manual_vacation,
        !(v.vacation.start_date > 0 && v.vacation.end_date > 0 && v.vacation.start_date <= today_ymd
            && today_ymd <= v.vacation.end_date),
        !v.manual_override,
        v.timer is None,
        hour >= 22 || hour < 7,
        min < 60,
        crate::scheduler::engine::spec_should_ac_be_on(hour * 60 + min),
        !e.last_cycle_was_on,
    ensures
        spec_control_step(v, e, hour, min, today_ymd, elapsed).2 == seq![
            DaikinCommand {
                power: true,
                mode: OperationMode::Cool,
                temp_celsius: 16,
                fan: FanSpeed::Auto,
                swing_v: false,
            },
        ],
        spec_control_step(v, e, hour, min, today_ymd, elapsed).0.current_temp == 16,
        spec_control_step(v, e, hour, min, today_ymd, elapsed).0.status == "Max Cool"@,
        spec_control_step(v, e, hour, min, today_ymd, elapsed).0.current_slot == 1,
{
    let c1 = Seq::<DaikinCommand>::empty();
    assert(c1.push(spec_cool_at(16)) =~= seq![spec_cool_at(16)]);
}

/// Without a vacation, an override or a countdown, the first step of the night window
/// after a slot ends (a minute the schedule does not cover, after a step that was on)
/// sends exactly one command, which switches the unit off (Cool mode, 24 degrees,
/// automatic fan, no swing), and the status shows "Standby".
pub proof fn law_slot_end_switches_off(
    v: AppStateView,
    e: SchedulerEngine,
    hour: u32,
    min: u32,
    today_ymd: i64,
    elapsed: u64,
)
    requires
        !v.vacation.manual_vacation,
        !(v.vacation.start_date > 0 && v.vacation.end_date > 0 && v.vacation.start_date <= today_ymd
            && today_ymd <= v.vacation.end_date),
        !v.manual_override,
        v.timer is None,
        hour >= 22 || hour < 7,
        min < 60,
        !crate::scheduler::engine::spec_should_ac_be_on(hour * 60 + min),
        e.last_cycle_was_on,
    ensures
        spec_control_step(v, e, hour, min, today_ymd, elapsed).2 == seq![
            DaikinCommand {
                power: false,
                mode: OperationMode::Cool,
                temp_celsius: 24,
                fan: FanSpeed::Auto,
                swing_v: false,
            },
        ],
        spec_control_step(v, e, hour, min, today_ymd, elapsed).0.status == "Standby"@,
{
    let c1 = Seq::<DaikinCommand>::empty();
    assert(c1.push(spec_off_command()) =~= seq![spec_off_command()]);
}

/// After boot, without a vacation on the date, a boot inside the night window at a
/// minute the schedule covers switches the unit on at once at 16 degrees in Cool mode
/// (automatic fan, no swing); a boot outside the night window sends nothing.
pub proof fn law_boot_in_slot_switches_on(
    v: AppStateView,
    e: SchedulerEngine,
    hour: u32,
    min: u32,
    today_ymd: i64,
)
    requires
        !v.vacation.manual_vacation,
        !(v.vacation.start_date > 0 && v.vacation.end_date > 0 && v.vacation.start_date <= today_ymd
            && today_ymd <= v.vacation.end_date),
        min < 60,
        hour < 24,
    ensures
        (hour >= 22 || hour < 7) && crate::scheduler::engine::spec_should_ac_be_on(hour * 60 + min)
            ==> spec_boot_step(v, e, hour, min, today_ymd).2 == Some(
            DaikinCommand {
                power: true,
                mode: OperationMode::Cool,
                temp_celsius: 16,
                fan: FanSpeed::Auto,
                swing_v: false,
            },
        ) && spec_boot_step(v, e, hour, min, today_ymd).0.current_temp == 16,
        7 <= hour < 22 ==> spec_boot_step(v, e, hour, min, today_ymd).2 is None,
{
}

} // verus!
