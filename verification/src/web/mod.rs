//! The web API: routing of GET requests, the state changes they make, and their replies.
pub mod captive_dns;
pub mod query;
pub mod static_assets;

pub use query::{parse_query_string, QueryParams};

use crate::clock::{current_date_ymd, instant_now};
use crate::ir::daikin::{spec_cool_at, spec_off_command, FanSpeed, OperationMode};
use crate::ir::{DaikinCommand, IrTransmitter};
use crate::scheduler::vacation::{no_vacation, VacationSettings};
use crate::state::{
    spec_set_off, spec_set_on, spec_start_timer, spec_status_response, status_standby,
    status_vacation, AppState, AppStateView, StatusResponse, StatusView,
};
use crate::storage::{InMemoryStorage, VacationStorage};
use crate::text::{parse_i64, parse_u32, spec_parse_i64, spec_parse_u32, str_eq};
use query::spec_query_get;
use std::time::Instant;
use vstd::prelude::*;
use vstd::string::StringExecFns;

verus! {

/// A reply ready to be sent.
#[derive(Debug)]
pub struct WebResponse {
    pub status_code: u16,
    pub content_type: &'static str,
    pub body: String,
}

pub ghost struct WebResponseView {
    pub status_code: u16,
    pub content_type: Seq<char>,
    pub body: Seq<char>,
}

impl View for WebResponse {
    type V = WebResponseView;

    open spec fn view(&self) -> WebResponseView {
        WebResponseView {
            status_code: self.status_code,
            content_type: self.content_type@,
            body: self.body@,
        }
    }
}

pub open spec fn html_type() -> Seq<char> {
    "text/html; charset=utf-8"@
}

pub open spec fn json_type() -> Seq<char> {
    "application/json"@
}

pub open spec fn plain_type() -> Seq<char> {
    "text/plain"@
}

pub open spec fn response_view(code: u16, content_type: Seq<char>, body: Seq<char>) -> WebResponseView {
    WebResponseView { status_code: code, content_type, body }
}

pub open spec fn ok_view() -> WebResponseView {
    response_view(200, plain_type(), "OK"@)
}

pub open spec fn not_found_view() -> WebResponseView {
    response_view(404, plain_type(), "Not Found"@)
}

pub open spec fn save_failed_view() -> WebResponseView {
    response_view(500, plain_type(), "Failed to save vacation settings"@)
}

pub open spec fn reset_wifi_view() -> WebResponseView {
    response_view(
        501,
        plain_type(),
        "Wi-Fi credentials are built in from cfg.toml and cannot be reset at runtime"@,
    )
}

impl WebResponse {
    pub fn ok_html(body: String) -> (r: Self)
        ensures
            r@ == response_view(200, html_type(), body@),
    {
        WebResponse { status_code: 200, content_type: "text/html; charset=utf-8", body }
    }

    pub fn ok_json(body: String) -> (r: Self)
        ensures
            r@ == response_view(200, json_type(), body@),
    {
        WebResponse { status_code: 200, content_type: "application/json", body }
    }

    pub fn ok_plain(body: &'static str) -> (r: Self)
        ensures
            r@ == response_view(200, plain_type(), body@),
    {
        WebResponse { status_code: 200, content_type: "text/plain", body: String::from_str(body) }
    }

    pub fn not_found() -> (r: Self)
        ensures
            r@ == not_found_view(),
    {
        WebResponse {
            status_code: 404,
            content_type: "text/plain",
            body: String::from_str("Not Found"),
        }
    }

    /// The reply when the status report cannot be encoded.
    pub fn json_error() -> (r: Self)
        ensures
            r@ == response_view(500, plain_type(), "JSON error"@),
    {
        WebResponse {
            status_code: 500,
            content_type: "text/plain",
            body: String::from_str("JSON error"),
        }
    }

    /// The reply when changed vacation settings could not be persisted.
    pub fn save_failed() -> (r: Self)
        ensures
            r@ == save_failed_view(),
    {
        WebResponse {
            status_code: 500,
            content_type: "text/plain",
            body: String::from_str("Failed to save vacation settings"),
        }
    }

    /// The reply to a request to reset the Wi-Fi credentials, which are built in.
    pub fn reset_wifi_unsupported() -> (r: Self)
        ensures
            r@ == reset_wifi_view(),
    {
        WebResponse {
            status_code: 501,
            content_type: "text/plain",
            body: String::from_str(
                "Wi-Fi credentials are built in from cfg.toml and cannot be reset at runtime",
            ),
        }
    }
}

/// The reply to a request: a response, or the status report, which the server encodes
/// as JSON and sends with `ok_json` (or `json_error` when encoding fails).
#[derive(Debug)]
pub enum WebReply {
    Response(WebResponse),
    Status(StatusResponse),
}

pub ghost enum WebReplyView {
    Response(WebResponseView),
    Status(StatusView),
}

impl View for WebReply {
    type V = WebReplyView;

    open spec fn view(&self) -> WebReplyView {
        match self {
            WebReply::Response(r) => WebReplyView::Response(r@),
            WebReply::Status(s) => WebReplyView::Status(s@),
        }
    }
}

impl WebReply {
    /// The response, unless this is the status report.
    pub fn into_response(self) -> (r: Option<WebResponse>)
        ensures
            match self {
                WebReply::Response(resp) => r == Some(resp),
                WebReply::Status(_) => r is None,
            },
    {
        match self {
            WebReply::Response(resp) => Some(resp),
            WebReply::Status(_) => None,
        }
    }

    /// The status report, if this is one.
    pub fn into_status(self) -> (r: Option<StatusResponse>)
        ensures
            match self {
                WebReply::Response(_) => r is None,
                WebReply::Status(s) => r == Some(s),
            },
    {
        match self {
            WebReply::Response(_) => None,
            WebReply::Status(s) => Some(s),
        }
    }
}

/// A request, as the API understands it.
#[derive(Debug, Clone, Copy, PartialEq, Eq, Structural)]
pub enum Route {
    /// `/`: the dashboard.
    Index,
    /// `/status`: the status report.
    Status,
    /// `/cmd?mode=off`.
    CmdOff,
    /// `/cmd?mode=on16` or `/cmd?mode=on25`: cool at the given temperature.
    CmdOn(u8),
    /// `/cmd` with any other mode.
    UnknownCmd,
    /// `/timer?min=N`: a countdown of N minutes (at most 1440), or cancel with 0.
    Timer(u32),
    /// `/vacation_toggle`.
    VacationToggle,
    /// `/schedule?s=YYYYMMDD&e=YYYYMMDD`: the vacation date range (0 clears an end).
    Schedule(i64, i64),
    /// `/reset-wifi`.
    ResetWifi,
    /// Anything else.
    NotFound,
}

/// The longest countdown, in minutes.
pub const MAX_TIMER_MINUTES: u32 = 1440;

/// A number parameter: its value when present and well-formed, 0 otherwise.
pub open spec fn u32_param(q: Seq<(Seq<char>, Seq<char>)>, key: Seq<char>) -> u32 {
    match spec_query_get(q, key) {
        Some(v) => match spec_parse_u32(v) {
            Some(n) => n,
            None => 0,
        },
        None => 0,
    }
}

/// A date parameter: its value when present and well-formed, 0 otherwise.
pub open spec fn i64_param(q: Seq<(Seq<char>, Seq<char>)>, key: Seq<char>) -> i64 {
    match spec_query_get(q, key) {
        Some(v) => match spec_parse_i64(v) {
            Some(n) => n,
            None => 0,
        },
        None => 0,
    }
}

/// The request that a path and a query make.
pub open spec fn spec_route(path: Seq<char>, q: Seq<(Seq<char>, Seq<char>)>) -> Route {
    if path == "/"@ {
        Route::Index
    } else if path == "/status"@ {
        Route::Status
    } else if path == "/cmd"@ {
        let mode = match spec_query_get(q, "mode"@) {
            Some(m) => m,
            None => Seq::<char>::empty(),
        };
        if mode == "off"@ {
            Route::CmdOff
        } else if mode == "on16"@ {
            Route::CmdOn(16)
        } else if mode == "on25"@ {
            Route::CmdOn(25)
        } else {
            Route::UnknownCmd
        }
    } else if path == "/timer"@ {
        let m = u32_param(q, "min"@);
        Route::Timer(if m > MAX_TIMER_MINUTES { MAX_TIMER_MINUTES } else { m })
    } else if path == "/vacation_toggle"@ {
        Route::VacationToggle
    } else if path == "/schedule"@ {
        Route::Schedule(i64_param(q, "s"@), i64_param(q, "e"@))
    } else if path == "/reset-wifi"@ {
        Route::ResetWifi
    } else {
        Route::NotFound
    }
}

fn u32_param_of(query: &QueryParams, key: &str) -> (n: u32)
    ensures
        n == u32_param(query@, key@),
{
    match query.get(key) {
        Some(v) => match parse_u32(v.as_str()) {
            Some(n) => n,
            None => 0,
        },
        None => 0,
    }
}

fn i64_param_of(query: &QueryParams, key: &str) -> (n: i64)
    ensures
        n == i64_param(query@, key@),
{
    match query.get(key) {
        Some(v) => match parse_i64(v.as_str()) {
            Some(n) => n,
            None => 0,
        },
        None => 0,
    }
}

/// Works out which request a path and a query make.
pub fn route_of(path: &str, query: &QueryParams) -> (r: Route)
    ensures
        r == spec_route(path@, query@),
{
    if str_eq(path, "/") {
        Route::Index
    } else if str_eq(path, "/status") {
        Route::Status
    } else if str_eq(path, "/cmd") {
        let mode = match query.get("mode") {
            Some(m) => m.as_str(),
            None => "",
        };
        proof {
            reveal_strlit("");
            assert(""@ =~= Seq::<char>::empty());
        }
        if str_eq(mode, "off") {
            Route::CmdOff
        } else if str_eq(mode, "on16") {
            Route::CmdOn(16)
        } else if str_eq(mode, "on25") {
            Route::CmdOn(25)
        } else {
            Route::UnknownCmd
        }
    } else if str_eq(path, "/timer") {
        let m = u32_param_of(query, "min");
        Route::Timer(
            if m > MAX_TIMER_MINUTES {
                MAX_TIMER_MINUTES
            } else {
                m
            },
        )
    } else if str_eq(path, "/vacation_toggle") {
        Route::VacationToggle
    } else if str_eq(path, "/schedule") {
        let s = i64_param_of(query, "s");
        let e = i64_param_of(query, "e");
        Route::Schedule(s, e)
    } else if str_eq(path, "/reset-wifi") {
        Route::ResetWifi
    } else {
        Route::NotFound
    }
}

/// The vacation settings with the vacation cancelled if it is active on the date.
pub open spec fn cancel_active_vacation(v: VacationSettings, today_ymd: i64) -> VacationSettings {
    if v.spec_is_active(today_ymd) {
        no_vacation()
    } else {
        v
    }
}

/// The vacation settings that a request changes, to be persisted before the change is
/// made; `None` when the request leaves them alone.
pub open spec fn spec_vacation_update(v: VacationSettings, route: Route, today_ymd: i64) -> Option<
    VacationSettings,
> {
    match route {
        Route::CmdOn(_) => if v.spec_is_active(today_ymd) {
            Some(no_vacation())
        } else {
            None
        },
        Route::Timer(m) => if m > 0 && v.spec_is_active(today_ymd) {
            Some(no_vacation())
        } else {
            None
        },
        Route::VacationToggle => if v.spec_is_active(today_ymd) {
            Some(no_vacation())
        } else {
            Some(VacationSettings { manual_vacation: true, ..v })
        },
        Route::Schedule(s, e) => Some(VacationSettings { start_date: s, end_date: e, ..v }),
        _ => None,
    }
}

/// The status text with "Vacation Mode" turned back into "Standby".
pub open spec fn leave_vacation_status(status: Seq<char>) -> Seq<char> {
    if status == status_vacation() {
        status_standby()
    } else {
        status
    }
}

/// The state, reply and unit command of a request on a date, at instant `now`, with the
/// countdown `elapsed` seconds old.
pub open spec fn spec_apply(
    v: AppStateView,
    route: Route,
    today_ymd: i64,
    now: Instant,
    elapsed: u64,
) -> (AppStateView, WebReplyView, Option<DaikinCommand>) {
    let ok = WebReplyView::Response(ok_view());
    match route {
        Route::Index => (
            v,
            WebReplyView::Response(response_view(200, html_type(), static_assets::INDEX_HTML@)),
            None,
        ),
        Route::Status => (v, WebReplyView::Status(spec_status_response(v, today_ymd, elapsed)), None),
        Route::CmdOff => (
            spec_set_off(AppStateView { manual_override: false, ..v }, today_ymd),
            ok,
            Some(spec_off_command()),
        ),
        Route::CmdOn(t) => (
            spec_set_on(
                AppStateView {
                    vacation: cancel_active_vacation(v.vacation, today_ymd),
                    manual_override: true,
                    ..v
                },
                t,
            ),
            ok,
            Some(spec_cool_at(t)),
        ),
        Route::UnknownCmd => (v, WebReplyView::Response(not_found_view()), None),
        Route::Timer(m) => if m > 0 {
            (
                spec_start_timer(
                    AppStateView { vacation: cancel_active_vacation(v.vacation, today_ymd), ..v },
                    m,
                    now,
                ),
                ok,
                Some(spec_cool_at(16)),
            )
        } else {
            (
                spec_set_off(AppStateView { manual_override: false, timer: None, ..v }, today_ymd),
                ok,
                Some(spec_off_command()),
            )
        },
        Route::VacationToggle => if v.vacation.spec_is_active(today_ymd) {
            (
                AppStateView {
                    vacation: no_vacation(),
                    status: leave_vacation_status(v.status),
                    ..v
                },
                ok,
                None,
            )
        } else {
            (
                spec_set_off(
                    AppStateView {
                        vacation: VacationSettings { manual_vacation: true, ..v.vacation },
                        ..v
                    },
                    today_ymd,
                ),
                ok,
                Some(spec_off_command()),
            )
        },
        Route::Schedule(s, e) => {
            let v1 = AppStateView {
                vacation: VacationSettings { start_date: s, end_date: e, ..v.vacation },
                ..v
            };
            if v1.vacation.spec_is_active(today_ymd) {
                (spec_set_off(v1, today_ymd), ok, Some(spec_off_command()))
            } else {
                (AppStateView { status: leave_vacation_status(v1.status), ..v1 }, ok, None)
            }
        },
        Route::ResetWifi => (v, WebReplyView::Response(reset_wifi_view()), None),
        Route::NotFound => (v, WebReplyView::Response(not_found_view()), None),
    }
}

/// The vacation settings to persist before handling a request.
pub fn vacation_update(v: &VacationSettings, route: Route, today_ymd: i64) -> (u: Option<
    VacationSettings,
>)
    ensures
        u == spec_vacation_update(*v, route, today_ymd),
{
    match route {
        Route::CmdOn(_) => if v.is_active(today_ymd) {
            Some(VacationSettings::default())
        } else {
            None
        },
        Route::Timer(m) => if m > 0 && v.is_active(today_ymd) {
            Some(VacationSettings::default())
        } else {
            None
        },
        Route::VacationToggle => if v.is_active(today_ymd) {
            Some(VacationSettings::default())
        } else {
            Some(VacationSettings { manual_vacation: true, ..*v })
        },
        Route::Schedule(s, e) => Some(VacationSettings { start_date: s, end_date: e, ..*v }),
        _ => None,
    }
}

fn leave_vacation_mode(state: &mut AppState)
    ensures
        final(state)@ == (AppStateView { status: leave_vacation_status(old(state)@.status), ..old(state)@ }),
{
    if str_eq(state.system_status.as_str(), "Vacation Mode") {
        state.system_status = String::from_str("Standby");
    }
}

/// Makes the state change of a request and returns its reply and the command to send.
pub fn apply_route(state: &mut AppState, route: Route, today_ymd: i64, now: Instant, elapsed: u64) -> (r: (
    WebReply,
    Option<DaikinCommand>,
))
    ensures
        (final(state)@, r.0@, r.1) == spec_apply(old(state)@, route, today_ymd, now, elapsed),
{
    match route {
        Route::Index => (
            WebReply::Response(
                WebResponse::ok_html(String::from_str(static_assets::INDEX_HTML)),
            ),
            None,
        ),
        Route::Status => (WebReply::Status(state.status_response_at(today_ymd, elapsed)), None),
        Route::CmdOff => {
            state.manual_override = false;
            state.set_off_at(today_ymd);
            (WebReply::Response(WebResponse::ok_plain("OK")), Some(DaikinCommand::off()))
        },
        Route::CmdOn(t) => {
            if state.vacation.is_active(today_ymd) {
                state.vacation.clear();
            }
            state.manual_override = true;
            state.set_on(t);
            (WebReply::Response(WebResponse::ok_plain("OK")), Some(DaikinCommand::cool_at(t)))
        },
        Route::UnknownCmd => (WebReply::Response(WebResponse::not_found()), None),
        Route::Timer(m) => {
            if m > 0 {
                if state.vacation.is_active(today_ymd) {
                    state.vacation.clear();
                }
                state.start_timer_at(m, now);
                (WebReply::Response(WebResponse::ok_plain("OK")), Some(DaikinCommand::cool_at(16)))
            } else {
                state.manual_override = false;
                state.cancel_timer();
                state.set_off_at(today_ymd);
                (WebReply::Response(WebResponse::ok_plain("OK")), Some(DaikinCommand::off()))
            }
        },
        Route::VacationToggle => {
            if state.vacation.is_active(today_ymd) {
                state.vacation.clear();
                leave_vacation_mode(state);
                (WebReply::Response(WebResponse::ok_plain("OK")), None)
            } else {
                state.vacation.manual_vacation = true;
                state.set_off_at(today_ymd);
                (WebReply::Response(WebResponse::ok_plain("OK")), Some(DaikinCommand::off()))
            }
        },
        Route::Schedule(s, e) => {
            state.vacation.start_date = s;
            state.vacation.end_date = e;
            if state.vacation.is_active(today_ymd) {
                state.set_off_at(today_ymd);
                (WebReply::Response(WebResponse::ok_plain("OK")), Some(DaikinCommand::off()))
            } else {
                leave_vacation_mode(state);
                (WebReply::Response(WebResponse::ok_plain("OK")), None)
            }
        },
        Route::ResetWifi => (WebReply::Response(WebResponse::reset_wifi_unsupported()), None),
        Route::NotFound => (WebReply::Response(WebResponse::not_found()), None),
    }
}

/// The outcome of a request: the new state and the reply. When the request changes the
/// vacation settings and persisting them fails (`saved` false), nothing changes and the
/// reply is a server error; otherwise the request takes effect.
pub open spec fn spec_handle(
    v: AppStateView,
    route: Route,
    today_ymd: i64,
    now: Instant,
    elapsed: u64,
    saved: bool,
) -> (AppStateView, WebReplyView) {
    if spec_vacation_update(v.vacation, route, today_ymd) is Some && !saved {
        (v, WebReplyView::Response(save_failed_view()))
    } else {
        let a = spec_apply(v, route, today_ymd, now, elapsed);
        (a.0, a.1)
    }
}

/// The command that a request sends to the unit, if any: none when its vacation change
/// could not be persisted, and otherwise the command of the state change.
pub open spec fn spec_handle_command(
    v: AppStateView,
    route: Route,
    today_ymd: i64,
    now: Instant,
    elapsed: u64,
    saved: bool,
) -> Option<DaikinCommand> {
    if spec_vacation_update(v.vacation, route, today_ymd) is Some && !saved {
        None
    } else {
        spec_apply(v, route, today_ymd, now, elapsed).2
    }
}

/// A transmitter after it was handed `cmd`: untouched when there is none; otherwise the
/// command was sent if the transmitter accepted it, and nothing was sent if not.
pub open spec fn transmitted<T: IrTransmitter>(
    before: T,
    after: T,
    cmd: Option<DaikinCommand>,
) -> bool {
    match cmd {
        None => after == before,
        Some(c) => if before.accepts_command() {
            after.sent_count() == before.sent_count() + 1 && after.last_sent() == Some(c)
        } else {
            after.sent_count() == before.sent_count() && after.last_sent() == before.last_sent()
        },
    }
}

/// A handler's storage after `update` was persisted: untouched when there is nothing to
/// persist or no storage; otherwise it holds the update if it took the save, and what it
/// held before if not.
pub open spec fn persisted<S: VacationStorage>(
    before: Option<S>,
    after: Option<S>,
    update: Option<VacationSettings>,
) -> bool {
    match update {
        None => after == before,
        Some(u) => match before {
            None => after is None,
            Some(b) => after matches Some(a) && a.stored() == if b.accepts_save() {
                u
            } else {
                b.stored()
            },
        },
    }
}

/// Serves the web API over a controller state, a transmitter and, where the vacation
/// settings persist, a vacation store.
pub struct WebHandler<T: IrTransmitter, S: VacationStorage> {
    pub state: AppState,
    pub transmitter: T,
    pub storage: Option<S>,
}

impl<T: IrTransmitter> WebHandler<T, InMemoryStorage> {
    /// A handler that does not persist the vacation settings. It holds no storage; the
    /// storage type is fixed only so that callers need not name one.
    pub fn new(state: AppState, transmitter: T) -> (h: Self)
        ensures
            h.state == state,
            h.transmitter == transmitter,
            h.storage is None,
    {
        WebHandler { state, transmitter, storage: None }
    }
}

impl<T: IrTransmitter, S: VacationStorage> WebHandler<T, S> {
    /// A handler that persists every change of the vacation settings in `storage`.
    pub fn with_storage(state: AppState, transmitter: T, storage: S) -> (h: Self)
        ensures
            h.state == state,
            h.transmitter == transmitter,
            h.storage == Some(storage),
    {
        WebHandler { state, transmitter, storage: Some(storage) }
    }

    /// Whether a change of the vacation settings would be persisted now: always without a
    /// storage, and otherwise when the storage takes the save.
    pub open spec fn save_succeeds(&self) -> bool {
        match self.storage {
            Some(s) => s.accepts_save(),
            None => true,
        }
    }

    /// What handling `route` on a date, at instant `now`, with the countdown `elapsed`
    /// seconds old, makes of the handler `before`: the state and the reply of
    /// `spec_handle`, the command of `spec_handle_command` handed to the transmitter, and
    /// the vacation update persisted.
    pub open spec fn handled(
        before: Self,
        after: Self,
        route: Route,
        today_ymd: i64,
        now: Instant,
        elapsed: u64,
        reply: WebReplyView,
    ) -> bool {
        let v = before.state@;
        let saved = before.save_succeeds();
        &&& (after.state@, reply) == spec_handle(v, route, today_ymd, now, elapsed, saved)
        &&& transmitted(
            before.transmitter,
            after.transmitter,
            spec_handle_command(v, route, today_ymd, now, elapsed, saved),
        )
        &&& persisted(before.storage, after.storage, spec_vacation_update(v.vacation, route, today_ymd))
    }

    /// Handles a request on a date, at instant `now`, with the countdown `elapsed` seconds
    /// old: persists the vacation settings the request changes (failing with nothing
    /// changed if that fails), makes the state change, and sends the unit command, if any.
    pub fn handle_route(&mut self, route: Route, today_ymd: i64, now: Instant, elapsed: u64) -> (r:
        WebReply)
        ensures
            Self::handled(*old(self), *final(self), route, today_ymd, now, elapsed, r@),
    {
        match vacation_update(&self.state.vacation, route, today_ymd) {
            Some(v) => {
                let saved = match &mut self.storage {
                    Some(s) => s.save(&v).is_ok(),
                    None => true,
                };
                if !saved {
                    return WebReply::Response(WebResponse::save_failed());
                }
            },
            None => {},
        }
        let (reply, cmd) = apply_route(&mut self.state, route, today_ymd, now, elapsed);
        match cmd {
            Some(c) => {
                let _ = self.transmitter.send_command(&c);
            },
            None => {},
        }
        reply
    }

    /// Handles a GET request for `path` with its query parameters, as of now.
    pub fn handle_get(&mut self, path: &str, query: &QueryParams) -> (r: WebReply)
        ensures
            exists|today: i64, now: Instant, elapsed: u64|
                Self::handled(
                    *old(self),
                    *final(self),
                    spec_route(path@, query@),
                    today,
                    now,
                    elapsed,
                    r@,
                ),
    {
        let route = route_of(path, query);
        let today = current_date_ymd();
        let now = instant_now();
        let elapsed = self.state.timer_elapsed_secs();
        self.handle_route(route, today, now, elapsed)
    }
}

/// The store keeps up with the state: when a handler's storage holds the state's vacation
/// settings, it still holds them after any request, whether or not the save went through,
/// so that a successful load from it gives the state's settings.
pub proof fn law_storage_follows_state<T: IrTransmitter, S: VacationStorage>(
    before: WebHandler<T, S>,
    after: WebHandler<T, S>,
    route: Route,
    today_ymd: i64,
    now: Instant,
    elapsed: u64,
    reply: WebReplyView,
    loaded: Result<VacationSettings, String>,
)
    requires
        WebHandler::handled(before, after, route, today_ymd, now, elapsed, reply),
        before.storage matches Some(b) && b.stored() == before.state@.vacation,
        after.storage matches Some(a) ==> S::load.ensures((&a,), loaded),
    ensures
        after.storage matches Some(a) && a.stored() == after.state@.vacation,
        loaded is Ok ==> loaded == Ok::<VacationSettings, String>(after.state@.vacation),
{
    law_persisted_vacation_matches_state(before.state@, route, today_ymd, now, elapsed);
}

/// A request that changes the vacation settings and is answered with success has
/// persisted exactly the settings that the state now holds: a successful load from the
/// storage gives them back.
pub proof fn law_success_persists_vacation<T: IrTransmitter, S: VacationStorage>(
    before: WebHandler<T, S>,
    after: WebHandler<T, S>,
    route: Route,
    today_ymd: i64,
    now: Instant,
    elapsed: u64,
    reply: WebReplyView,
    loaded: Result<VacationSettings, String>,
)
    requires
        WebHandler::handled(before, after, route, today_ymd, now, elapsed, reply),
        before.storage is Some,
        spec_vacation_update(before.state@.vacation, route, today_ymd) is Some,
        reply matches WebReplyView::Response(resp) && resp.status_code == 200,
        after.storage matches Some(a) ==> S::load.ensures((&a,), loaded),
    ensures
        after.storage matches Some(a) && a.stored() == after.state@.vacation,
        loaded is Ok ==> loaded == Ok::<VacationSettings, String>(after.state@.vacation),
{
    law_persisted_vacation_matches_state(before.state@, route, today_ymd, now, elapsed);
}

/// The status code that answers a firmware upload: 500 when writing a chunk failed, 400
/// when the upload was empty, 500 when completing the update failed, and 200 otherwise.
pub open spec fn spec_ota_status(total_bytes: nat, write_failed: bool, complete_failed: bool) -> u16 {
    if write_failed {
        500
    } else if total_bytes == 0 {
        400
    } else if complete_failed {
        500
    } else {
        200
    }
}

/// Answers a firmware upload of `total_bytes` bytes, given whether writing one of its
/// chunks failed (which ends the upload) and whether completing the update failed (which
/// is only tried for a non-empty upload).
pub fn ota_status(total_bytes: usize, write_failed: bool, complete_failed: bool) -> (code: u16)
    ensures
        code == spec_ota_status(total_bytes as nat, write_failed, complete_failed),
{
    if write_failed {
        500
    } else if total_bytes == 0 {
        400
    } else if complete_failed {
        500
    } else {
        200
    }
}

// ---------------------------------------------------------------------------------------
// Laws
// ---------------------------------------------------------------------------------------

/// What a request persists is what the state holds afterwards: when it changes the
/// vacation settings the new state carries exactly the persisted settings, and otherwise
/// it leaves them alone.
pub proof fn law_persisted_vacation_matches_state(
    v: AppStateView,
    route: Route,
    today_ymd: i64,
    now: Instant,
    elapsed: u64,
)
    ensures
        match spec_vacation_update(v.vacation, route, today_ymd) {
            Some(x) => spec_apply(v, route, today_ymd, now, elapsed).0.vacation == x,
            None => spec_apply(v, route, today_ymd, now, elapsed).0.vacation == v.vacation,
        },
{
}

/// A request whose vacation change cannot be persisted changes nothing and is answered
/// with a server error.
pub proof fn law_failed_save_changes_nothing(
    v: AppStateView,
    route: Route,
    today_ymd: i64,
    now: Instant,
    elapsed: u64,
)
    requires
        spec_vacation_update(v.vacation, route, today_ymd) is Some,
    ensures
        spec_handle(v, route, today_ymd, now, elapsed, false) == (v, WebReplyView::Response(
            save_failed_view(),
        )),
{
}

/// Switching the unit on by hand, or starting a countdown, cancels an active vacation.
pub proof fn law_manual_cooling_ends_vacation(
    v: AppStateView,
    route: Route,
    today_ymd: i64,
    now: Instant,
    elapsed: u64,
)
    requires
        route is CmdOn || (route matches Route::Timer(m) && m > 0),
    ensures
        !spec_apply(v, route, today_ymd, now, elapsed).0.vacation.spec_is_active(today_ymd),
        spec_apply(v, route, today_ymd, now, elapsed).0.manual_override,
{
}

/// The vacation toggle flips whether a vacation is active on the date.
pub proof fn law_vacation_toggle_flips(v: AppStateView, today_ymd: i64, now: Instant, elapsed: u64)
    ensures
        spec_apply(v, Route::VacationToggle, today_ymd, now, elapsed).0.vacation.spec_is_active(
            today_ymd,
        ) == !v.vacation.spec_is_active(today_ymd),
{
}

/// Switching off, or cancelling the countdown, clears the manual override and the
/// countdown, and sends the off command.
pub proof fn law_off_clears_override_and_timer(
    v: AppStateView,
    route: Route,
    today_ymd: i64,
    now: Instant,
    elapsed: u64,
)
    requires
        route == Route::CmdOff || route == Route::Timer(0),
    ensures
        !spec_apply(v, route, today_ymd, now, elapsed).0.manual_override,
        spec_apply(v, route, today_ymd, now, elapsed).0.timer is None,
        spec_apply(v, route, today_ymd, now, elapsed).2 == Some(spec_off_command()),
{
}

/// Requests that read, and requests the API does not know, change nothing and send nothing.
pub proof fn law_reads_and_unknown_requests_change_nothing(
    v: AppStateView,
    route: Route,
    today_ymd: i64,
    now: Instant,
    elapsed: u64,
)
    requires
        route == Route::Index || route == Route::Status || route == Route::UnknownCmd || route
            == Route::ResetWifi || route == Route::NotFound,
    ensures
        spec_apply(v, route, today_ymd, now, elapsed).0 == v,
        spec_apply(v, route, today_ymd, now, elapsed).2 is None,
        spec_vacation_update(v.vacation, route, today_ymd) is None,
{
}

/// Every request is answered: with the status report for `/status`, with 404 exactly for
/// unknown paths and modes, with 501 for `/reset-wifi`, with 500 exactly when a vacation
/// change could not be persisted, and with 200 otherwise.
pub proof fn law_reply_codes(
    v: AppStateView,
    route: Route,
    today_ymd: i64,
    now: Instant,
    elapsed: u64,
    saved: bool,
)
    ensures
        ({
            let r = spec_handle(v, route, today_ymd, now, elapsed, saved).1;
            let failed = spec_vacation_update(v.vacation, route, today_ymd) is Some && !saved;
            &&& (r is Status) == (route == Route::Status)
            &&& r matches WebReplyView::Response(resp) ==> {
                &&& (resp.status_code == 500) == failed
                &&& (resp.status_code == 404) == (route == Route::NotFound || route
                    == Route::UnknownCmd)
                &&& (resp.status_code == 501) == (route == Route::ResetWifi)
                &&& (resp.status_code == 200) == (!failed && route != Route::NotFound && route
                    != Route::UnknownCmd && route != Route::ResetWifi)
            }
        }),
{
}

/// What each control request does, whatever the state and the date:
/// - `/cmd` on at `t` always sends "cool at `t`", sets `t`, holds the manual override and
///   leaves no vacation active;
/// - `/cmd?mode=off` and `/timer?min=0` send "off", end the countdown and drop the override;
/// - `/timer?min=m` with `m > 0` sends "cool at 16" and starts a countdown of `m` minutes
///   (`60 * m` seconds) under manual override;
/// - `/schedule?s=..&e=..` keeps the manual flag, sets the range, and sends "off" exactly
///   when the new settings make a vacation active on the date.
pub proof fn law_control_requests(
    v: AppStateView,
    t: u8,
    m: u32,
    s: i64,
    e: i64,
    today_ymd: i64,
    now: Instant,
    elapsed: u64,
)
    ensures
        ({
            let r = spec_apply(v, Route::CmdOn(t), today_ymd, now, elapsed);
            &&& r.2 == Some(spec_cool_at(t))
            &&& r.0.current_temp == t
            &&& r.0.manual_override
            &&& !r.0.vacation.spec_is_active(today_ymd)
        }),
        ({
            let r = spec_apply(v, Route::CmdOff, today_ymd, now, elapsed);
            &&& r.2 == Some(spec_off_command())
            &&& r.0.timer is None
            &&& !r.0.manual_override
        }),
        ({
            let r = spec_apply(v, Route::Timer(0), today_ymd, now, elapsed);
            &&& r.2 == Some(spec_off_command())
            &&& r.0.timer is None
            &&& !r.0.manual_override
        }),
        m > 0 ==> {
            let r = spec_apply(v, Route::Timer(m), today_ymd, now, elapsed);
            &&& r.2 == Some(spec_cool_at(16))
            &&& r.0.timer matches Some(c) && c.initial_minutes == m && c.duration_secs == 60 * m
            &&& r.0.manual_override
            &&& r.0.current_temp == 16
            &&& !r.0.vacation.spec_is_active(today_ymd)
        },
        ({
            let r = spec_apply(v, Route::Schedule(s, e), today_ymd, now, elapsed);
            &&& r.0.vacation == (VacationSettings {
                manual_vacation: v.vacation.manual_vacation,
                start_date: s,
                end_date: e,
            })
            &&& (r.2 == Some(spec_off_command())) == r.0.vacation.spec_is_active(today_ymd)
            &&& (r.2 is None) == !r.0.vacation.spec_is_active(today_ymd)
        }),
{
}

/// The vacation toggle ends an active vacation, clearing the pause and the range, turning
/// a "Vacation Mode" status back into "Standby" and sending nothing; otherwise it sets the
/// manual pause, keeps the range and sends "off".
pub proof fn law_vacation_toggle(v: AppStateView, today_ymd: i64, now: Instant, elapsed: u64)
    ensures
        v.vacation.spec_is_active(today_ymd) ==> spec_apply(
            v,
            Route::VacationToggle,
            today_ymd,
            now,
            elapsed,
        ).0.status == (if v.status == "Vacation Mode"@ {
            "Standby"@
        } else {
            v.status
        }),
        ({
            let r = spec_apply(v, Route::VacationToggle, today_ymd, now, elapsed);
            &&& v.vacation.spec_is_active(today_ymd) ==> r.2 is None && r.0.vacation == (
            VacationSettings { manual_vacation: false, start_date: 0, end_date: 0 })
            &&& !v.vacation.spec_is_active(today_ymd) ==> r.2 == Some(spec_off_command())
                && r.0.vacation == (VacationSettings {
                manual_vacation: true,
                start_date: v.vacation.start_date,
                end_date: v.vacation.end_date,
            })
        }),
{
}

/// How a query names a request: `/cmd` with mode `off`, `on16` or `on25` switches off or
/// cools at 16 or 25 degrees, and any other mode is unknown; `/timer` takes its `min`
/// parameter, capped at 1440; `/schedule` takes its `s` and `e` parameters; any path the
/// API does not serve is not found.
pub proof fn law_query_routes(q: Seq<(Seq<char>, Seq<char>)>, path: Seq<char>)
    ensures
        spec_query_get(q, "mode"@) == Some("off"@) ==> spec_route("/cmd"@, q) == Route::CmdOff,
        spec_query_get(q, "mode"@) == Some("on16"@) ==> spec_route("/cmd"@, q) == Route::CmdOn(16),
        spec_query_get(q, "mode"@) == Some("on25"@) ==> spec_route("/cmd"@, q) == Route::CmdOn(25),
        !(spec_query_get(q, "mode"@) == Some("off"@) || spec_query_get(q, "mode"@) == Some(
            "on16"@,
        ) || spec_query_get(q, "mode"@) == Some("on25"@)) ==> spec_route("/cmd"@, q)
            == Route::UnknownCmd,
        u32_param(q, "min"@) <= 1440 ==> spec_route("/timer"@, q) == Route::Timer(
            u32_param(q, "min"@),
        ),
        u32_param(q, "min"@) > 1440 ==> spec_route("/timer"@, q) == Route::Timer(1440),
        spec_route("/schedule"@, q) == Route::Schedule(i64_param(q, "s"@), i64_param(q, "e"@)),
        spec_query_get(q, "min"@) is None ==> spec_route("/timer"@, q) == Route::Timer(0),
        spec_query_get(q, "min"@) is Some && spec_parse_u32(spec_query_get(q, "min"@).unwrap())
            is None ==> spec_route("/timer"@, q) == Route::Timer(0),
        spec_query_get(q, "s"@) is None ==> i64_param(q, "s"@) == 0,
        spec_query_get(q, "s"@) matches Some(x) ==> i64_param(q, "s"@) == match spec_parse_i64(x) {
            Some(n) => n,
            None => 0,
        },
        spec_query_get(q, "e"@) is None ==> i64_param(q, "e"@) == 0,
        spec_query_get(q, "min"@) is Some && spec_parse_u32(spec_query_get(q, "min"@).unwrap())
            is Some ==> u32_param(q, "min"@) == spec_parse_u32(
            spec_query_get(q, "min"@).unwrap(),
        ).unwrap(),
        spec_route("/vacation_toggle"@, q) == Route::VacationToggle,
        spec_route("/status"@, q) == Route::Status,
        spec_route("/"@, q) == Route::Index,
        spec_route("/reset-wifi"@, q) == Route::ResetWifi,
        path != "/"@ && path != "/status"@ && path != "/cmd"@ && path != "/timer"@ && path
            != "/vacation_toggle"@ && path != "/schedule"@ && path != "/reset-wifi"@ ==> spec_route(
            path,
            q,
        ) == Route::NotFound,
{
    reveal_strlit("/");
    reveal_strlit("/status");
    reveal_strlit("/cmd");
    reveal_strlit("/timer");
    reveal_strlit("/vacation_toggle");
    reveal_strlit("/schedule");
    reveal_strlit("/reset-wifi");
    assert("/"@.len() == 1 && "/status"@.len() == 7 && "/cmd"@.len() == 4 && "/timer"@.len() == 6
        && "/vacation_toggle"@.len() == 16 && "/schedule"@.len() == 9 && "/reset-wifi"@.len()
        == 11);
    match spec_query_get(q, "mode"@) {
        Some(md) => {
            reveal_strlit("off");
            reveal_strlit("on16");
            reveal_strlit("on25");
            assert("off"@.len() == 3 && "on16"@.len() == 4 && "on25"@.len() == 4);
            assert("on16"@[2] != "on25"@[2]);
        },
        None => {
            reveal_strlit("off");
            reveal_strlit("on16");
            reveal_strlit("on25");
            assert("off"@.len() == 3 && "on16"@.len() == 4 && "on25"@.len() == 4);
            assert(Seq::<char>::empty().len() == 0);
        },
    }
}

/// A request whose vacation change is persisted, or that changes none, sends exactly the
/// command of its state change; one whose change could not be persisted sends nothing.
pub proof fn law_handled_command(
    v: AppStateView,
    route: Route,
    today_ymd: i64,
    now: Instant,
    elapsed: u64,
    saved: bool,
)
    ensures
        saved || spec_vacation_update(v.vacation, route, today_ymd) is None ==> spec_handle_command(
            v,
            route,
            today_ymd,
            now,
            elapsed,
            saved,
        ) == spec_apply(v, route, today_ymd, now, elapsed).2,
        !saved && spec_vacation_update(v.vacation, route, today_ymd) is Some ==> spec_handle_command(
            v,
            route,
            today_ymd,
            now,
            elapsed,
            saved,
        ) is None,
{
}

/// A firmware upload is answered 200 only when it is non-empty and both writing and
/// completing succeeded; an empty upload that wrote nothing is refused with 400; any
/// failed write, and a failed completion of a non-empty upload, give 500.
pub proof fn law_ota_outcome(total_bytes: nat, write_failed: bool, complete_failed: bool)
    ensures
        (spec_ota_status(total_bytes, write_failed, complete_failed) == 200) == (total_bytes > 0
            && !write_failed && !complete_failed),
        (spec_ota_status(total_bytes, write_failed, complete_failed) == 400) == (total_bytes == 0
            && !write_failed),
        (spec_ota_status(total_bytes, write_failed, complete_failed) == 500) == (write_failed || (
        total_bytes > 0 && complete_failed)),
{
}

/// The API only ever cools at 16 or 25 degrees, and countdowns last at most 1440 minutes.
pub proof fn law_routes_are_bounded(path: Seq<char>, q: Seq<(Seq<char>, Seq<char>)>)
    ensures
        spec_route(path, q) matches Route::CmdOn(t) ==> t == 16 || t == 25,
        spec_route(path, q) matches Route::Timer(m) ==> m <= MAX_TIMER_MINUTES,
{
}

} // verus!
