use ac_scheduler::web::captive_dns::dns_reply;
use ac_scheduler::ir::MockTransmitter;
use ac_scheduler::scheduler::VacationSettings;
use ac_scheduler::state::AppState;
use ac_scheduler::web::{parse_query_string, route_of, vacation_update, Route, WebHandler};

#[test]
fn routes_are_recognised_and_bounded() {
    let q = |s: &str| parse_query_string(s);
    assert_eq!(route_of("/", &q("")), Route::Index);
    assert_eq!(route_of("/status", &q("")), Route::Status);
    assert_eq!(route_of("/cmd", &q("mode=off")), Route::CmdOff);
    assert_eq!(route_of("/cmd", &q("mode=on16")), Route::CmdOn(16));
    assert_eq!(route_of("/cmd", &q("mode=on25")), Route::CmdOn(25));
    assert_eq!(route_of("/cmd", &q("")), Route::UnknownCmd);
    assert_eq!(route_of("/timer", &q("min=90")), Route::Timer(90));
    assert_eq!(route_of("/timer", &q("min=99999999999")), Route::Timer(0));
    assert_eq!(route_of("/timer", &q("min=2000")), Route::Timer(1440));
    assert_eq!(route_of("/schedule", &q("s=20260101")), Route::Schedule(20260101, 0));
    assert_eq!(route_of("/reset-wifi", &q("")), Route::ResetWifi);
    assert_eq!(route_of("/cmd/", &q("mode=off")), Route::NotFound);
}

#[test]
fn reads_and_unknown_requests_change_nothing() {
    let mut handler = WebHandler::new(AppState::new(), MockTransmitter::new());
    handler.handle_get("/cmd", &parse_query_string("mode=on25"));
    let before = handler.state.clone();
    for (path, query) in [("/", ""), ("/status", ""), ("/cmd", "mode=x"), ("/reset-wifi", ""), ("/nope", "")] {
        handler.handle_get(path, &parse_query_string(query));
        assert_eq!(handler.state.system_status, before.system_status);
        assert_eq!(handler.state.current_temp, before.current_temp);
        assert_eq!(handler.state.manual_override, before.manual_override);
        assert_eq!(handler.state.vacation, before.vacation);
        assert_eq!(handler.transmitter.send_count, 1);
    }
}

#[test]
fn persisted_settings_are_the_new_settings() {
    let v = VacationSettings::new(false, 20260101, 20260110);
    assert_eq!(
        vacation_update(&v, Route::Schedule(20270101, 20270102), 20260105),
        Some(VacationSettings::new(false, 20270101, 20270102))
    );
    assert_eq!(vacation_update(&v, Route::CmdOn(16), 20260105), Some(VacationSettings::default()));
    assert_eq!(vacation_update(&v, Route::CmdOn(16), 20260201), None);
    assert_eq!(vacation_update(&v, Route::Timer(0), 20260105), None);
    assert_eq!(
        vacation_update(&v, Route::VacationToggle, 20260201),
        Some(VacationSettings::new(true, 20260101, 20260110))
    );
    assert_eq!(vacation_update(&v, Route::Status, 20260105), None);
}

#[test]
fn index_page_is_served_as_html() {
    let mut handler = WebHandler::new(AppState::new(), MockTransmitter::new());
    let resp = handler.handle_get("/", &parse_query_string("")).into_response().unwrap();
    assert_eq!(resp.status_code, 200);
    assert_eq!(resp.content_type, "text/html; charset=utf-8");
    assert!(resp.body.contains("/status"));
}

#[test]
fn captive_dns_answers_with_controller_address() {
    assert_eq!(dns_reply(&[0u8; 11]), None);
    let query = [0x12u8, 0x34, 0x01, 0x00, 0x00, 0x01, 0x00, 0x00, 0x00, 0x00, 0x00, 0x00, 3, b'a', b'b', b'c', 0];
    let reply = dns_reply(&query).unwrap();
    assert_eq!(reply.len(), query.len() + 16);
    assert_eq!(&reply[0..2], &[0x12, 0x34]);
    assert_eq!(&reply[2..4], &[0x81, 0x80]);
    assert_eq!(&reply[6..8], &[0x00, 0x01]);
    assert_eq!(&reply[12..17], &query[12..17]);
    assert_eq!(&reply[reply.len() - 4..], &[192, 168, 4, 1]);
}
