use ac_scheduler::clock::{current_date_ymd, date_ymd};
use ac_scheduler::config::{wants_static_ip, AppConfig, WifiSettings};
use ac_scheduler::controller::{boot_step, control_step, slot_for_hour};
use ac_scheduler::ir::DaikinCommand;
use ac_scheduler::scheduler::{
    is_night_window, schedule, should_ac_be_on, SchedulerAction, SchedulerEngine,
    VacationSettings,
};
use ac_scheduler::state::AppState;
use ac_scheduler::storage::{InMemoryStorage, VacationStorage, WifiCredentials, WifiStorage};
use std::time::Instant;

#[test]
fn schedule_cools_195_minutes_only_at_night() {
    let on: Vec<u32> = (0..1440).filter(|&m| should_ac_be_on(m)).collect();
    assert_eq!(on.len(), 195);
    assert!(on.iter().all(|&m| is_night_window(m / 60)));
    let slots = schedule();
    let total: u32 = slots.iter().map(|s| s.end_min - s.start_min).sum();
    assert_eq!(total, 195);
}

#[test]
fn repeated_tick_is_quiet() {
    for (h, m, vac, man) in [(22, 0, false, false), (22, 50, false, false), (7, 0, false, false), (23, 20, true, false), (1, 30, false, true)] {
        let mut e = SchedulerEngine::new();
        e.in_active_window = true;
        e.last_cycle_was_on = true;
        e.tick(h, m, vac, man);
        assert_eq!(e.tick(h, m, vac, man), None);
    }
}

#[test]
fn suppressed_tick_never_turns_on() {
    for vac in [false, true] {
        let mut e = SchedulerEngine::new();
        assert_eq!(e.tick(22, 0, vac, !vac), None);
        assert_eq!(e.tick(22, 0, true, true), None);
    }
}

#[test]
fn vacation_keeps_tracking_schedule() {
    let mut e = SchedulerEngine::new();
    assert_eq!(e.tick(22, 10, true, false), None);
    assert!(e.last_cycle_was_on);
    assert_eq!(e.tick(22, 50, true, false), None);
    assert!(!e.last_cycle_was_on);
}

#[test]
fn morning_tick_resets_once() {
    let mut e = SchedulerEngine::new();
    e.tick(23, 20, false, false);
    assert_eq!(e.tick(8, 0, false, false), Some(SchedulerAction::TurnOffAndClearOverride));
    assert!(!e.in_active_window && !e.last_cycle_was_on);
    assert_eq!(e.tick(8, 1, false, false), None);
}

#[test]
fn boot_then_tick_is_quiet() {
    for (h, m) in [(22, 10), (22, 50), (14, 0), (5, 30)] {
        let mut e = SchedulerEngine::new();
        e.evaluate_boot_recovery(h, m, false);
        assert_eq!(e.tick(h, m, false, false), None);
    }
}

#[test]
fn vacation_range_is_inclusive_and_clear_disables() {
    let v = VacationSettings::new(false, 20260101, 20260110);
    assert!(!v.is_active(20251231));
    assert!(v.is_active(20260101));
    assert!(v.is_active(20260110));
    assert!(!v.is_active(20260111));
    assert!(!VacationSettings::new(false, 0, 20260110).is_active(20260105));
    assert!(VacationSettings::new(true, 0, 0).is_active(19700101));
    let mut c = VacationSettings::new(true, 20260101, 20260110);
    c.clear();
    assert_eq!(c, VacationSettings::default());
    assert!(!c.is_active(20260105));
}

#[test]
fn set_on_and_set_off_statuses() {
    let mut s = AppState::new();
    s.set_on(19);
    assert_eq!(s.system_status, "Max Cool");
    s.set_on(20);
    assert_eq!(s.system_status, "Comfort");
    s.vacation = VacationSettings::new(true, 0, 0);
    s.manual_override = true;
    s.set_off_at(20260101);
    assert_eq!(s.system_status, "Vacation Mode");
    assert!(s.manual_override);
    s.vacation.clear();
    s.set_off();
    assert_eq!(s.system_status, "Standby");
}

#[test]
fn countdown_counts_down_and_expires() {
    let mut s = AppState::new();
    s.start_timer_at(2, Instant::now());
    assert_eq!(s.remaining_secs_at(0), 120);
    assert_eq!(s.remaining_secs_at(45), 75);
    assert_eq!(s.remaining_secs_at(500), 0);
    assert!(!s.expire_timer_at(119, 20260101));
    assert!(s.timer.is_some());
    assert!(s.expire_timer_at(120, 20260101));
    assert!(s.timer.is_none());
    assert!(s.manual_override);
    assert_eq!(s.system_status, "Standby");
    assert_eq!(s.remaining_secs_at(0), 0);
}

#[test]
fn status_report_shows_vacation_when_idle() {
    let mut s = AppState::new();
    s.vacation = VacationSettings::new(false, 20260101, 20260110);
    let r = s.status_response_at(20260105, 0);
    assert_eq!(r.status, "Vacation Mode");
    assert!(r.vacation);
    assert_eq!(r.vac_s, 20260101);
    assert_eq!(r.r_temp_centi, 2400);
    assert_eq!(r.r_hum_centi, 5000);
    let r = s.status_response_at(20260111, 0);
    assert_eq!(r.status, "Standby");
    s.set_on(25);
    let r = s.status_response_at(20260105, 0);
    assert_eq!(r.status, "Comfort");
    s.record_room_reading(2740, 6800);
    assert!(s.bme_ok);
    assert_eq!(s.to_status_response().r_temp_centi, 2740);
}

#[test]
fn control_step_follows_schedule() {
    let mut s = AppState::new();
    let mut e = SchedulerEngine::new();
    assert_eq!(control_step(&mut s, &mut e, 22, 0, 20260101, 0), vec![DaikinCommand::cool_at(16)]);
    assert_eq!(s.current_slot, 1);
    assert_eq!(s.system_status, "Max Cool");
    assert!(control_step(&mut s, &mut e, 22, 1, 20260101, 0).is_empty());
    assert_eq!(control_step(&mut s, &mut e, 22, 45, 20260101, 0), vec![DaikinCommand::off()]);
    assert_eq!(s.system_status, "Standby");
    s.manual_override = true;
    assert_eq!(control_step(&mut s, &mut e, 7, 0, 20260102, 0), vec![DaikinCommand::off()]);
    assert!(!s.manual_override);
    assert_eq!(s.current_slot, 2);
    assert_eq!(slot_for_hour(21), 2);
}

#[test]
fn expired_countdown_stays_off() {
    let mut s = AppState::new();
    let mut e = SchedulerEngine::new();
    s.start_timer_at(30, Instant::now());
    e.tick(22, 0, false, true);
    let cmds = control_step(&mut s, &mut e, 22, 30, 20260101, 1800);
    assert_eq!(cmds, vec![DaikinCommand::off()]);
    assert!(s.manual_override);
    assert!(control_step(&mut s, &mut e, 23, 20, 20260101, 0).is_empty());
}

#[test]
fn boot_step_turns_on_inside_slot() {
    let mut s = AppState::new();
    let mut e = SchedulerEngine::new();
    assert_eq!(boot_step(&mut s, &mut e, 22, 10, 20260101), Some(DaikinCommand::cool_at(16)));
    assert_eq!(s.current_temp, 16);
    let mut s = AppState::new();
    s.vacation = VacationSettings::new(true, 0, 0);
    let mut e = SchedulerEngine::new();
    assert_eq!(boot_step(&mut s, &mut e, 22, 10, 20260101), None);
    assert!(!e.in_active_window);
}

#[test]
fn in_memory_storage_round_trips() {
    let mut st = InMemoryStorage::new();
    assert_eq!(st.load().unwrap(), VacationSettings::default());
    let v = VacationSettings::new(true, 20260101, 20260131);
    st.save(&v).unwrap();
    assert_eq!(st.load().unwrap(), v);
    assert_eq!(st.load_wifi().unwrap(), None);
    let creds = WifiCredentials { ssid: "home".to_string(), password: "pw".to_string() };
    st.save_wifi(&creds).unwrap();
    assert_eq!(st.load_wifi().unwrap(), Some(creds));
    assert_eq!(st.load().unwrap(), v);
    st.clear_wifi().unwrap();
    assert_eq!(st.load_wifi().unwrap(), None);
}

#[test]
fn default_configuration() {
    let c = AppConfig::default();
    assert_eq!(c.wifi.mdns_hostname, "ac-scheduler");
    assert_eq!(c.wifi.ap_ssid, "AC-Scheduler-Setup");
    assert_eq!(c.wifi.ap_password, "acsetup01");
    assert_eq!(c.wifi.static_ip.as_deref(), Some("192.168.0.93"));
    assert!(wants_static_ip(&c.wifi));
    let mut w = WifiSettings::default();
    w.subnet = None;
    assert!(!wants_static_ip(&w));
}

#[test]
fn dates_as_integers() {
    assert_eq!(date_ymd(2026, 9, 18), 20260918);
    let today = current_date_ymd();
    assert!(today > 20000101 && today < 30000101);
}

#[test]
fn flash_encoding_round_trips() {
    for v in [
        VacationSettings::default(),
        VacationSettings::new(true, 20260101, 20260110),
        VacationSettings::new(false, -5, 7),
    ] {
        let read = ac_scheduler::storage::vacation_from_flash(
            Some(ac_scheduler::storage::manual_flag_byte(v.manual_vacation)),
            Some(v.start_date),
            Some(v.end_date),
        );
        assert_eq!(read, v);
    }
    assert_eq!(
        ac_scheduler::storage::vacation_from_flash(None, None, None),
        VacationSettings::default()
    );
    assert!(ac_scheduler::storage::vacation_from_flash(Some(7), None, None).manual_vacation);
    assert_eq!(ac_scheduler::storage::NVS_KEY_MANUAL, "manVac");
}
