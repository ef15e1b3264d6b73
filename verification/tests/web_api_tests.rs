use ac_scheduler::ir::MockTransmitter;
use ac_scheduler::scheduler::VacationSettings;
use ac_scheduler::state::AppState;
use ac_scheduler::storage::{InMemoryStorage, VacationStorage};
use ac_scheduler::web::{parse_query_string, WebHandler, WebReply, WebResponse};

fn response(reply: WebReply) -> WebResponse {
    reply.into_response().expect("a response, not the status report")
}

#[test]
fn vacation_changes_survive_reloading_storage() {
    let mut handler =
        WebHandler::with_storage(AppState::new(), MockTransmitter::new(), InMemoryStorage::new());
    for (path, query, expected) in [
        (
            "/schedule",
            "s=20990101&e=20990110",
            VacationSettings::new(false, 20990101, 20990110),
        ),
        (
            "/vacation_toggle",
            "",
            VacationSettings::new(true, 20990101, 20990110),
        ),
        ("/vacation_toggle", "", VacationSettings::default()),
        (
            "/schedule",
            "s=20990201&e=20990210",
            VacationSettings::new(false, 20990201, 20990210),
        ),
        ("/schedule", "s=0&e=0", VacationSettings::default()),
    ] {
        assert_eq!(
            response(handler.handle_get(path, &parse_query_string(query))).status_code,
            200
        );
        assert_eq!(handler.storage.as_ref().unwrap().load().unwrap(), expected);
        assert_eq!(handler.state.vacation, expected);
    }
}

#[test]
fn manual_cooling_persists_vacation_cancellation() {
    for (path, query) in [
        ("/cmd", "mode=on16"),
        ("/cmd", "mode=on25"),
        ("/timer", "min=30"),
    ] {
        let mut handler = WebHandler::with_storage(
            AppState::new(),
            MockTransmitter::new(),
            InMemoryStorage::new(),
        );
        handler.handle_get("/vacation_toggle", &parse_query_string(""));
        assert!(handler.storage.as_ref().unwrap().load().unwrap().manual_vacation);
        assert_eq!(
            response(handler.handle_get(path, &parse_query_string(query))).status_code,
            200
        );
        assert_eq!(handler.storage.as_ref().unwrap().load().unwrap(), VacationSettings::default());
    }
}

struct FailingStorage;

impl VacationStorage for FailingStorage {
    fn stored(&self) -> VacationSettings {
        VacationSettings::default()
    }

    fn accepts_save(&self) -> bool {
        false
    }

    fn load(&self) -> Result<VacationSettings, String> {
        Ok(VacationSettings::default())
    }

    fn save(&mut self, _: &VacationSettings) -> Result<(), String> {
        Err("flash write failed".into())
    }
}

#[test]
fn reset_wifi_reports_that_compiled_credentials_cannot_be_reset() {
    let mut handler = WebHandler::new(AppState::new(), MockTransmitter::new());
    let response = response(handler.handle_get("/reset-wifi", &parse_query_string("")));
    assert_eq!(response.status_code, 501);
    assert!(response.body.contains("cfg.toml"));
}

#[test]
fn failed_vacation_save_leaves_state_and_ir_unchanged() {
    for (path, query, vacation) in [
        ("/vacation_toggle", "", VacationSettings::default()),
        ("/vacation_toggle", "", VacationSettings::new(true, 0, 0)),
        (
            "/schedule",
            "s=20990101&e=20990110",
            VacationSettings::default(),
        ),
        ("/cmd", "mode=on16", VacationSettings::new(true, 0, 0)),
        ("/cmd", "mode=on25", VacationSettings::new(true, 0, 0)),
        ("/timer", "min=30", VacationSettings::new(true, 0, 0)),
    ] {
        let mut initial = AppState::new();
        initial.vacation = vacation;
        let mut handler =
            WebHandler::with_storage(initial, MockTransmitter::new(), FailingStorage);
        assert_eq!(
            response(handler.handle_get(path, &parse_query_string(query))).status_code,
            500
        );
        let state = &handler.state;
        assert_eq!(state.vacation, vacation);
        assert_eq!(state.system_status, "Standby");
        assert!(!state.manual_override);
        assert!(state.timer.is_none());
        assert_eq!(handler.transmitter.send_count, 0);
    }
}

#[test]
fn test_status_response_schema() {
    let mut handler = WebHandler::new(AppState::new(), MockTransmitter::new());

    let query = parse_query_string("");
    let status = handler
        .handle_get("/status", &query)
        .into_status()
        .expect("the status report");
    assert_eq!(status.status, "Standby");
    assert_eq!(status.temp, 24);
    assert_eq!(status.slot, 2);
    assert!(!status.bme_ok);
    assert!(!status.vacation);
    assert!(!status.man_vac);
    assert_eq!(status.vac_s, 0);
    assert_eq!(status.vac_e, 0);
    assert_eq!(WebResponse::ok_json(String::from("{}")).content_type, "application/json");
}

#[test]
fn test_cmd_on16_and_off() {
    let mut handler = WebHandler::new(AppState::new(), MockTransmitter::new());

    let query = parse_query_string("mode=on16");
    let resp = response(handler.handle_get("/cmd", &query));
    assert_eq!(resp.status_code, 200);
    assert_eq!(resp.body, "OK");

    {
        let s = &handler.state;
        assert_eq!(s.system_status, "Max Cool");
        assert_eq!(s.current_temp, 16);
        assert!(s.manual_override);
    }
    {
        let tx = &handler.transmitter;
        assert_eq!(tx.send_count, 1);
        let cmd = tx.last_command.unwrap();
        assert!(cmd.power);
        assert_eq!(cmd.temp_celsius, 16);
    }

    let query = parse_query_string("mode=off");
    let resp = response(handler.handle_get("/cmd", &query));
    assert_eq!(resp.status_code, 200);

    {
        let s = &handler.state;
        assert_eq!(s.system_status, "Standby");
        assert!(!s.manual_override);
    }
    {
        let tx = &handler.transmitter;
        assert_eq!(tx.send_count, 2);
        let cmd = tx.last_command.unwrap();
        assert!(!cmd.power);
    }
}

#[test]
fn test_timer_countdown_endpoint() {
    let mut handler = WebHandler::new(AppState::new(), MockTransmitter::new());

    let query = parse_query_string("min=60");
    let resp = response(handler.handle_get("/timer", &query));
    assert_eq!(resp.status_code, 200);

    {
        let s = &handler.state;
        assert!(s.timer.is_some());
        assert_eq!(s.system_status, "Max Cool");
        assert_eq!(s.current_temp, 16);
        let status_resp = s.to_status_response();
        assert_eq!(status_resp.active_mins, 60);
        assert!(status_resp.timer_secs > 3590);
    }

    let query = parse_query_string("min=0");
    let resp = response(handler.handle_get("/timer", &query));
    assert_eq!(resp.status_code, 200);

    {
        let s = &handler.state;
        assert!(s.timer.is_none());
        assert_eq!(s.system_status, "Standby");
        let status_resp = s.to_status_response();
        assert_eq!(status_resp.active_mins, 0);
        assert_eq!(status_resp.timer_secs, 0);
    }
}

#[test]
fn test_vacation_endpoints() {
    let mut handler = WebHandler::new(AppState::new(), MockTransmitter::new());

    let query = parse_query_string("");
    let resp = response(handler.handle_get("/vacation_toggle", &query));
    assert_eq!(resp.status_code, 200);

    {
        let s = &handler.state;
        assert!(s.vacation.manual_vacation);
        assert_eq!(s.system_status, "Vacation Mode");
    }

    let query = parse_query_string("mode=on25");
    let resp = response(handler.handle_get("/cmd", &query));
    assert_eq!(resp.status_code, 200);

    {
        let s = &handler.state;
        assert!(!s.vacation.manual_vacation);
        assert_eq!(s.system_status, "Comfort");
        assert_eq!(s.current_temp, 25);
    }
}

#[test]
fn test_unknown_route_returns_404() {
    let mut handler = WebHandler::new(AppState::new(), MockTransmitter::new());

    let query = parse_query_string("");
    let resp = response(handler.handle_get("/nonexistent", &query));
    assert_eq!(resp.status_code, 404);
}

#[test]
fn test_invalid_cmd_returns_404() {
    let mut handler = WebHandler::new(AppState::new(), MockTransmitter::new());

    let query = parse_query_string("mode=turbo_boost");
    let resp = response(handler.handle_get("/cmd", &query));
    assert_eq!(resp.status_code, 404);
}

#[test]
fn test_timer_edge_cases() {
    let mut handler = WebHandler::new(AppState::new(), MockTransmitter::new());

    let query = parse_query_string("min=50000");
    let resp = response(handler.handle_get("/timer", &query));
    assert_eq!(resp.status_code, 200);
    {
        let s = &handler.state;
        assert_eq!(s.timer.as_ref().unwrap().initial_minutes, 1440);
    }

    let query = parse_query_string("min=abc");
    let resp = response(handler.handle_get("/timer", &query));
    assert_eq!(resp.status_code, 200);
    {
        let s = &handler.state;
        assert!(s.timer.is_none());
        assert_eq!(s.system_status, "Standby");
    }
}

#[test]
fn test_schedule_invalid_query_fallback() {
    let mut handler = WebHandler::new(AppState::new(), MockTransmitter::new());

    let query = parse_query_string("s=not_a_date&e=invalid");
    let resp = response(handler.handle_get("/schedule", &query));
    assert_eq!(resp.status_code, 200);
    {
        let s = &handler.state;
        assert_eq!(s.vacation.start_date, 0);
        assert_eq!(s.vacation.end_date, 0);
    }
}
