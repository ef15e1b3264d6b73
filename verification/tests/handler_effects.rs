use ac_scheduler::config::{wifi_credentials, WifiSettings};
use ac_scheduler::ir::{DaikinCommand, IrTransmitter, MockTransmitter};
use ac_scheduler::scheduler::VacationSettings;
use ac_scheduler::state::AppState;
use ac_scheduler::storage::{InMemoryStorage, VacationStorage, WifiCredentials};
use ac_scheduler::web::{ota_status, Route, WebHandler, WebReply};
use std::time::Instant;

const TODAY: i64 = 20250610;

fn code(reply: WebReply) -> u16 {
    reply.into_response().expect("a response").status_code
}

fn stored_handler() -> WebHandler<MockTransmitter, InMemoryStorage> {
    WebHandler::with_storage(AppState::new(), MockTransmitter::new(), InMemoryStorage::new())
}

#[test]
fn each_route_sends_its_command_once() {
    let cases = [
        (Route::CmdOn(16), Some(DaikinCommand::cool_at(16))),
        (Route::CmdOn(25), Some(DaikinCommand::cool_at(25))),
        (Route::CmdOff, Some(DaikinCommand::off())),
        (Route::Timer(30), Some(DaikinCommand::cool_at(16))),
        (Route::Timer(0), Some(DaikinCommand::off())),
        (Route::VacationToggle, Some(DaikinCommand::off())),
        (Route::Schedule(TODAY, TODAY), Some(DaikinCommand::off())),
        (Route::Schedule(TODAY + 1, TODAY + 5), None),
        (Route::UnknownCmd, None),
        (Route::NotFound, None),
        (Route::ResetWifi, None),
        (Route::Index, None),
    ];
    for (route, expected) in cases {
        let mut handler = stored_handler();
        handler.handle_route(route, TODAY, Instant::now(), 0);
        match expected {
            Some(cmd) => {
                assert_eq!(handler.transmitter.send_count, 1, "{:?}", route);
                assert_eq!(handler.transmitter.last_command, Some(cmd), "{:?}", route);
            }
            None => {
                assert_eq!(handler.transmitter.send_count, 0, "{:?}", route);
                assert_eq!(handler.transmitter.last_command, None, "{:?}", route);
            }
        }
    }
}

#[test]
fn vacation_range_ending_today_is_persisted_and_switches_off() {
    let mut handler = stored_handler();
    assert_eq!(
        code(handler.handle_route(Route::Schedule(TODAY - 3, TODAY), TODAY, Instant::now(), 0)),
        200
    );
    let expected = VacationSettings::new(false, TODAY - 3, TODAY);
    assert_eq!(handler.state.vacation, expected);
    assert_eq!(handler.storage.as_ref().unwrap().load(), Ok(expected));
    assert_eq!(handler.transmitter.send_count, 1);
    assert_eq!(handler.transmitter.last_command, Some(DaikinCommand::off()));
    assert_eq!(handler.state.system_status, "Vacation Mode");
}

#[test]
fn storage_follows_state_over_a_run_of_requests() {
    let mut handler = stored_handler();
    let routes = [
        Route::Schedule(TODAY - 1, TODAY + 1),
        Route::CmdOn(25),
        Route::VacationToggle,
        Route::Timer(45),
        Route::VacationToggle,
        Route::VacationToggle,
        Route::Schedule(0, 0),
        Route::CmdOff,
    ];
    for route in routes {
        assert_eq!(code(handler.handle_route(route, TODAY, Instant::now(), 0)), 200);
        assert_eq!(
            handler.storage.as_ref().unwrap().load(),
            Ok(handler.state.vacation),
            "{:?}",
            route
        );
    }
}

#[test]
fn handler_without_storage_always_applies_vacation_changes() {
    let mut handler = WebHandler::new(AppState::new(), MockTransmitter::new());
    assert_eq!(code(handler.handle_route(Route::VacationToggle, TODAY, Instant::now(), 0)), 200);
    assert!(handler.state.vacation.manual_vacation);
    assert!(handler.storage.is_none());
    assert_eq!(handler.transmitter.send_count, 1);
}

#[test]
fn full_transmitter_sends_nothing() {
    let mut tx = MockTransmitter::new();
    tx.send_count = usize::MAX;
    assert!(tx.send_command(&DaikinCommand::off()).is_err());
    assert_eq!(tx.last_command, None);
    let mut handler = WebHandler::new(AppState::new(), tx);
    assert_eq!(code(handler.handle_route(Route::CmdOn(16), TODAY, Instant::now(), 0)), 200);
    assert_eq!(handler.transmitter.send_count, usize::MAX);
    assert_eq!(handler.transmitter.last_command, None);
    assert_eq!(handler.state.current_temp, 16);
}

#[test]
fn stored_wifi_credentials_take_precedence() {
    let config = WifiSettings::default();
    let stored = WifiCredentials { ssid: "home".to_string(), password: "secret".to_string() };
    assert_eq!(
        wifi_credentials(&Ok(Some(stored)), &config),
        ("home".to_string(), "secret".to_string())
    );
    assert_eq!(
        wifi_credentials(&Ok(None), &config),
        ("Your_WiFi_SSID".to_string(), "Your_WiFi_Password".to_string())
    );
    assert_eq!(
        wifi_credentials(&Err("nvs read failed".to_string()), &config),
        ("Your_WiFi_SSID".to_string(), "Your_WiFi_Password".to_string())
    );
}

#[test]
fn firmware_upload_outcomes() {
    assert_eq!(ota_status(4096, false, false), 200);
    assert_eq!(ota_status(0, false, false), 400);
    assert_eq!(ota_status(0, false, true), 400);
    assert_eq!(ota_status(1024, true, false), 500);
    assert_eq!(ota_status(0, true, false), 500);
    assert_eq!(ota_status(4096, false, true), 500);
}
