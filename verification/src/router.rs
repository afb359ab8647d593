//! Which response a request gets. The path names what is asked about, the
//! method says what is asked; the store and the body of the request decide
//! the rest.

use crate::bridge::json_text_of;
use crate::data::database::Database;
use crate::http::http_header::{cookie_of, HttpHeader, HttpHeaderType, HttpStatus, Line};
use crate::http::http_method::HttpMethod;
use crate::http::http_path::{HttpPath, PathKind};
use crate::http::http_request::{HttpRequest, RequestView};
use crate::http::http_response::{error_text, HeaderKind, HttpResponse, ResponseView};
use crate::json::{JsonMember, JsonValue, JsonView};
use crate::models::base_model::{answers_delete, answers_insert, answers_update, identifier_at};
use crate::models::base_model::{parse_error_text, segment_id, BaseModel};
use crate::models::sensor_model::{sensor_stored, SensorView};
use crate::models::session_model::{session_stored, SessionView};
use crate::models::session_sensor_data_model::{reading_stored, SessionSensorDataView};
use crate::models::session_sensor_model::{link_stored, SessionSensorView};
use crate::models::user_model::{user_stored, UserView};
use crate::models::{Sensor, Session, SessionSensor, SessionSensorData, User};
use crate::text::{i64_to_string, str_eq, trim_end_nul};
use vstd::prelude::*;

verus! {

/// What a request is answered with.
pub enum Reply {
    /// This response.
    Response(HttpResponse),
    /// The page that the file of this name holds.
    View(String),
}

/// The mathematical value of a `Reply`.
pub enum ReplyView {
    Response(ResponseView),
    View(Seq<char>),
}

impl View for Reply {
    type V = ReplyView;

    open spec fn view(&self) -> ReplyView {
        match self {
            Reply::Response(r) => ReplyView::Response(r@),
            Reply::View(name) => ReplyView::View(name@),
        }
    }
}

/// The session cookie that the headers of a request carry.
pub open spec fn session_cookie_of(headers: Seq<Line>) -> Option<Seq<char>> {
    cookie_of(headers, HttpHeaderType::SessionID.name())
}

/// A classified path written out: the prefix of the route, then the sub-path.
pub open spec fn path_text(path: (PathKind, Seq<char>)) -> Seq<char> {
    path.0.prefix() + path.1
}

/// `401 Unauthorized`.
pub open spec fn is_unauthorized(r: ResponseView) -> bool {
    r.is(
        HttpStatus::Unauthorized,
        HeaderKind::Json,
        error_text("Invalid authentication credentials."@),
    )
}

/// `403 Forbidden`.
pub open spec fn is_forbidden(r: ResponseView) -> bool {
    r.is(HttpStatus::Forbidden, HeaderKind::Json, error_text("User not authorized."@))
}

/// `404 Not Found` for `resource`.
pub open spec fn is_not_found(r: ResponseView, resource: Seq<char>) -> bool {
    r.is(HttpStatus::NotFound, HeaderKind::Json, error_text(resource + " not found"@))
}

/// `400 Bad Request` with `message`.
pub open spec fn is_bad_request(r: ResponseView, message: Seq<char>) -> bool {
    r.is(HttpStatus::BadRequest, HeaderKind::Json, error_text(message))
}

/// `400 Bad Request` for a request without the body that `required` asks for.
pub open spec fn is_missing_body(r: ResponseView, required: Seq<char>) -> bool {
    is_bad_request(r, "Missing request body."@ + required)
}

/// `400 Bad Request` for a request whose body cannot be used.
pub open spec fn is_invalid_body(r: ResponseView, hint: Seq<char>) -> bool {
    is_bad_request(r, "Invalid request body."@ + hint)
}

/// The answer to a preflight.
pub open spec fn is_preflight(r: ResponseView) -> bool {
    r.is(HttpStatus::NoContent, HeaderKind::Options, Seq::empty())
}

/// `204 No Content` that hands the session `id` to the client.
pub open spec fn is_session(r: ResponseView, id: Seq<char>) -> bool {
    r.is(HttpStatus::NoContent, HeaderKind::Session(id), Seq::empty())
}

/// `204 No Content` that hands some session to the client.
pub open spec fn is_some_session(r: ResponseView) -> bool {
    exists|id: Seq<char>| #[trigger] is_session(r, id)
}

/// `200 OK` that shows a record of kind `M`.
pub open spec fn shows<M: BaseModel>(r: ResponseView) -> bool {
    exists|model: M|
        r.is(HttpStatus::OK, HeaderKind::Json, trim_end_nul(#[trigger] model.shown()))
}

/// The JSON document of a list: an object with the list under `key`.
pub open spec fn list_document(key: Seq<char>, items: Seq<JsonView>) -> JsonView {
    JsonView::Object(seq![(key, JsonView::Array(items))])
}

/// `200 OK` with this JSON document as body.
pub open spec fn is_document(r: ResponseView, document: JsonView) -> bool {
    r.is(HttpStatus::OK, HeaderKind::Json, trim_end_nul(json_text_of(document)))
}

/// `200 OK` with a list under `key`.
pub open spec fn lists(r: ResponseView, key: Seq<char>) -> bool {
    exists|items: Seq<JsonView>| is_document(r, #[trigger] list_document(key, items))
}

/// What is shown of a sensor in a list: its identifier and its type.
pub open spec fn sensor_document(id: int, sensor_type: Seq<char>) -> JsonView {
    JsonView::Object(
        seq![
            ("id"@, JsonView::Number(crate::text::signed_decimal(id))),
            ("type"@, JsonView::String(sensor_type)),
        ],
    )
}

/// What is shown of a session in a list: its identifier and its user.
pub open spec fn session_document(id: int, username: Seq<char>) -> JsonView {
    JsonView::Object(
        seq![
            ("session_id"@, JsonView::Number(crate::text::signed_decimal(id))),
            ("username"@, JsonView::String(username)),
        ],
    )
}

/// What is shown of a link in a list: its three identifiers.
pub open spec fn link_document(id: int, session_id: int, sensor_id: int) -> JsonView {
    JsonView::Object(
        seq![
            ("id"@, JsonView::Number(crate::text::signed_decimal(id))),
            ("session_id"@, JsonView::Number(crate::text::signed_decimal(session_id))),
            ("sensor_id"@, JsonView::Number(crate::text::signed_decimal(sensor_id))),
        ],
    )
}

/// Whether `r` answers a request that only an administrator may make, where
/// `granted` says whether `r` is what an administrator gets.
///
/// Without a session cookie the answer is `401 Unauthorized`. With one, the
/// store decides: `401` where it knows no user for the session, `403
/// Forbidden` where the user is no administrator.
pub open spec fn answers_admin(headers: Seq<Line>, r: ResponseView, granted: bool) -> bool {
    match session_cookie_of(headers) {
        None => is_unauthorized(r),
        Some(_) => is_unauthorized(r) || is_forbidden(r) || granted,
    }
}

/// Whether `r` answers a request that needs its body: where the body could
/// not be read, `r` is `400 Bad Request` with the reason; `otherwise` decides
/// in every other case.
pub open spec fn answers_body(
    body: Option<JsonView>,
    body_error: Option<Seq<char>>,
    r: ResponseView,
    otherwise: bool,
) -> bool {
    match (body, body_error) {
        (None, Some(reason)) => is_invalid_body(r, reason),
        _ => otherwise,
    }
}

/// The response for a body that could not be read, if that is the case.
fn broken_body(body: &Option<JsonValue>, body_error: &Option<String>) -> (r: Option<HttpResponse>)
    ensures
        match r {
            Some(response) => body is None && (body_error matches Some(reason)
                && is_invalid_body(response@, reason@)),
            None => !(body is None && body_error is Some),
        },
{
    match (body, body_error) {
        (None, Some(reason)) => Some(HttpResponse::invalid_body(Some(reason.as_str()))),
        _ => None,
    }
}

/// An object made of members.
fn object(members: Vec<JsonMember>) -> (document: JsonValue)
    ensures
        document@ == JsonView::Object(Seq::new(members@.len(), |i: int| members@[i]@)),
{
    let document = JsonValue::Object(members);
    proof {
        JsonValue::lemma_object_view(members);
        assert(document@->Object_0 =~= Seq::new(members@.len(), |i: int| members@[i]@));
    }
    document
}

/// A member of an object.
fn member(name: &str, value: JsonValue) -> (m: JsonMember)
    ensures
        m@ == (name@, value@),
{
    JsonMember { name: String::from_str(name), value }
}

/// A number.
fn number(n: i64) -> (document: JsonValue)
    ensures
        document@ == JsonView::Number(crate::text::signed_decimal(n as int)),
{
    JsonValue::Number(i64_to_string(n))
}

/// A string.
fn string(text: &str) -> (document: JsonValue)
    ensures
        document@ == JsonView::String(text@),
{
    JsonValue::String(String::from_str(text))
}

/// `200 OK` with the list `items` under `key`.
pub fn list_response(key: &str, items: Vec<JsonValue>) -> (r: HttpResponse)
    ensures
        is_document(r@, list_document(key@, JsonValue::Array(items)@->Array_0)),
        lists(r@, key@),
{
    let array = JsonValue::Array(items);
    let mut members: Vec<JsonMember> = Vec::new();
    members.push(member(key, array));
    let document = object(members);
    assert(document@->Object_0 =~= seq![(key@, array@)]);
    proof {
        JsonValue::lemma_array_view(items);
    }
    HttpResponse::from_vec(crate::bridge::json_text(&document))
}

/// What is shown of a sensor in a list.
pub fn sensor_item(sensor: &Sensor) -> (document: JsonValue)
    ensures
        document@ == sensor_document(sensor@.id, sensor@.sensor_type),
{
    let mut members: Vec<JsonMember> = Vec::new();
    members.push(member("id", number(*sensor.get_id())));
    members.push(member("type", string(sensor.get_sensor_type())));
    let document = object(members);
    assert(document@->Object_0 =~= sensor_document(sensor@.id, sensor@.sensor_type)->Object_0);
    document
}

/// What is shown of a session in a list.
pub fn session_item(session: &Session) -> (document: JsonValue)
    ensures
        document@ == session_document(session@.id, session@.username),
{
    let mut members: Vec<JsonMember> = Vec::new();
    members.push(member("session_id", number(*session.get_id())));
    members.push(member("username", string(session.get_username())));
    let document = object(members);
    assert(document@->Object_0 =~= session_document(session@.id, session@.username)->Object_0);
    document
}

/// What is shown of a link in a list.
pub fn link_item(link: &SessionSensor) -> (document: JsonValue)
    ensures
        document@ == link_document(link@.id, link@.session_id, link@.sensor_id),
{
    let mut members: Vec<JsonMember> = Vec::new();
    members.push(member("id", number(*link.get_id())));
    members.push(member("session_id", number(*link.get_session_id())));
    members.push(member("sensor_id", number(*link.get_sensor_id())));
    let document = object(members);
    assert(document@->Object_0 =~= link_document(
        link@.id,
        link@.session_id,
        link@.sensor_id,
    )->Object_0);
    document
}

/// The list of the names of `users`, under `users`.
pub fn users_response(users: &Vec<User>) -> (r: HttpResponse)
    ensures
        is_document(
            r@,
            list_document(
                "users"@,
                Seq::new(users@.len(), |i: int| JsonView::String(users@[i]@.username)),
            ),
        ),
        lists(r@, "users"@),
{
    let mut items: Vec<JsonValue> = Vec::new();
    let mut i: usize = 0;
    while i < users.len()
        invariant
            i <= users@.len(),
            items@.len() == i,
            forall|k: int| 0 <= k < i ==> (#[trigger] items@[k])@ == JsonView::String(users@[k]@.username),
        decreases users.len() - i,
    {
        items.push(string(users[i].get_username()));
        i += 1;
    }
    proof {
        JsonValue::lemma_array_view(items);
        assert(JsonValue::Array(items)@->Array_0 =~= Seq::new(
            users@.len(),
            |i: int| JsonView::String(users@[i]@.username),
        ));
    }
    list_response("users", items)
}

/// The list of `sensors`, under `sensors`.
pub fn sensors_response(sensors: &Vec<Sensor>) -> (r: HttpResponse)
    ensures
        is_document(
            r@,
            list_document(
                "sensors"@,
                Seq::new(sensors@.len(), |i: int| sensor_document(sensors@[i]@.id, sensors@[i]@.sensor_type)),
            ),
        ),
        lists(r@, "sensors"@),
{
    let mut items: Vec<JsonValue> = Vec::new();
    let mut i: usize = 0;
    while i < sensors.len()
        invariant
            i <= sensors@.len(),
            items@.len() == i,
            forall|k: int| 0 <= k < i ==> (#[trigger] items@[k])@ == sensor_document(sensors@[k]@.id, sensors@[k]@.sensor_type),
        decreases sensors.len() - i,
    {
        items.push(sensor_item(&sensors[i]));
        i += 1;
    }
    proof {
        JsonValue::lemma_array_view(items);
        assert(JsonValue::Array(items)@->Array_0 =~= Seq::new(
            sensors@.len(),
            |i: int| sensor_document(sensors@[i]@.id, sensors@[i]@.sensor_type),
        ));
    }
    list_response("sensors", items)
}

/// The list of `sessions`, under `sessions`.
pub fn sessions_response(sessions: &Vec<Session>) -> (r: HttpResponse)
    ensures
        is_document(
            r@,
            list_document(
                "sessions"@,
                Seq::new(sessions@.len(), |i: int| session_document(sessions@[i]@.id, sessions@[i]@.username)),
            ),
        ),
        lists(r@, "sessions"@),
{
    let mut items: Vec<JsonValue> = Vec::new();
    let mut i: usize = 0;
    while i < sessions.len()
        invariant
            i <= sessions@.len(),
            items@.len() == i,
            forall|k: int| 0 <= k < i ==> (#[trigger] items@[k])@ == session_document(sessions@[k]@.id, sessions@[k]@.username),
        decreases sessions.len() - i,
    {
        items.push(session_item(&sessions[i]));
        i += 1;
    }
    proof {
        JsonValue::lemma_array_view(items);
        assert(JsonValue::Array(items)@->Array_0 =~= Seq::new(
            sessions@.len(),
            |i: int| session_document(sessions@[i]@.id, sessions@[i]@.username),
        ));
    }
    list_response("sessions", items)
}

/// The list of `links`, under `sessions_sensors`.
pub fn links_response(links: &Vec<SessionSensor>) -> (r: HttpResponse)
    ensures
        is_document(
            r@,
            list_document(
                "sessions_sensors"@,
                Seq::new(links@.len(), |i: int| link_document(links@[i]@.id, links@[i]@.session_id, links@[i]@.sensor_id)),
            ),
        ),
        lists(r@, "sessions_sensors"@),
{
    let mut items: Vec<JsonValue> = Vec::new();
    let mut i: usize = 0;
    while i < links.len()
        invariant
            i <= links@.len(),
            items@.len() == i,
            forall|k: int| 0 <= k < i ==> (#[trigger] items@[k])@ == link_document(links@[k]@.id, links@[k]@.session_id, links@[k]@.sensor_id),
        decreases links.len() - i,
    {
        items.push(link_item(&links[i]));
        i += 1;
    }
    proof {
        JsonValue::lemma_array_view(items);
        assert(JsonValue::Array(items)@->Array_0 =~= Seq::new(
            links@.len(),
            |i: int| link_document(links@[i]@.id, links@[i]@.session_id, links@[i]@.sensor_id),
        ));
    }
    list_response("sessions_sensors", items)
}

/// The list of `readings`, under `datapoints`.
pub fn readings_response(readings: &Vec<SessionSensorData>) -> (r: HttpResponse)
    ensures
        is_document(
            r@,
            list_document(
                "datapoints"@,
                Seq::new(readings@.len(), |i: int| readings@[i]@.public_document()),
            ),
        ),
        lists(r@, "datapoints"@),
{
    let mut items: Vec<JsonValue> = Vec::new();
    let mut i: usize = 0;
    while i < readings.len()
        invariant
            i <= readings@.len(),
            items@.len() == i,
            forall|k: int| 0 <= k < i ==> (#[trigger] items@[k])@ == readings@[k]@.public_document(),
        decreases readings.len() - i,
    {
        items.push(readings[i].public_document());
        i += 1;
    }
    proof {
        JsonValue::lemma_array_view(items);
        assert(JsonValue::Array(items)@->Array_0 =~= Seq::new(
            readings@.len(),
            |i: int| readings@[i]@.public_document(),
        ));
    }
    list_response("datapoints", items)
}

/// Whether the session of the request belongs to an administrator; if not,
/// the response that says so.
fn admin_gate<D: Database>(database: &D, headers: &HttpHeader) -> (r: Result<(), HttpResponse>)
    ensures
        match r {
            Ok(_) => session_cookie_of(headers@) is Some,
            Err(refusal) => answers_admin(headers@, refusal@, false),
        },
{
    match headers.get_cookie(HttpHeaderType::SessionID.as_str()) {
        Some(session_id) => match database.get_session_user(session_id.as_str()) {
            Ok(user) => {
                if !database.is_admin(&user) {
                    Err(HttpResponse::forbidden())
                } else {
                    Ok(())
                }
            },
            Err(_) => Err(HttpResponse::not_authorized()),
        },
        None => Err(HttpResponse::not_authorized()),
    }
}

/// Whether `r` answers a request about logging in and out.
///
/// Only `POST` is answered. `/login` takes the user that the body describes
/// and hands out a session, or answers `401`. `/logout` and `/renew` take the
/// session cookie of the request; the first hands out an empty session, the
/// second a new one; both answer `404` where the store knows no such session,
/// and `401` without a cookie.
pub open spec fn answers_authentication(
    request: RequestView,
    body_error: Option<Seq<char>>,
    r: ResponseView,
) -> bool {
    let sub = request.path.1;
    if request.method != HttpMethod::Post {
        is_not_found(r, path_text(request.path))
    } else if sub == "/login"@ {
        answers_body(
            request.body,
            body_error,
            r,
            match request.body {
                None => is_missing_body(r, User::required_text()),
                Some(json) => if User::describes(json) {
                    is_some_session(r) || is_unauthorized(r)
                } else {
                    is_invalid_body(r, parse_error_text(User::kind_name_text()))
                },
            },
        )
    } else if sub == "/logout"@ {
        match session_cookie_of(request.headers) {
            Some(_) => is_session(r, Seq::empty()) || is_not_found(r, "Session"@),
            None => is_unauthorized(r),
        }
    } else if sub == "/renew"@ {
        match session_cookie_of(request.headers) {
            Some(_) => is_some_session(r) || is_not_found(r, "Session"@),
            None => is_unauthorized(r),
        }
    } else {
        is_not_found(r, path_text(request.path))
    }
}

/// Whether `r` answers a request about users.
///
/// `GET` without a segment lists the users for an administrator; `GET
/// /profile` shows the user of the session; `GET` with a name shows that
/// user.
pub open spec fn answers_users(
    request: RequestView,
    body_error: Option<Seq<char>>,
    r: ResponseView,
) -> bool {
    let sub = request.path.1;
    match request.method {
        HttpMethod::Get => match HttpPath::segment(sub, 0) {
            None => answers_admin(
                request.headers,
                r,
                lists(r, "users"@) || is_bad_request(r, "Failed to fetch users from database."@),
            ),
            Some(name) => if name == "profile"@ {
                match session_cookie_of(request.headers) {
                    Some(_) => shows::<User>(r) || is_not_found(r, "User"@),
                    None => is_unauthorized(r),
                }
            } else {
                shows::<User>(r) || is_not_found(r, path_text(request.path))
            },
        },
        HttpMethod::Post => answers_body(
            request.body,
            body_error,
            r,
            answers_insert::<User>(request.body, r),
        ),
        HttpMethod::Patch => answers_body(
            request.body,
            body_error,
            r,
            answers_update::<User>(request.body, r),
        ),
        HttpMethod::Delete => answers_delete::<User>(r),
        HttpMethod::Options => is_preflight(r),
        HttpMethod::Error => is_not_found(r, path_text(request.path)),
    }
}

/// Whether `r` answers a request about sensors.
///
/// `GET` without a segment lists the sensors for an administrator; `GET`
/// with a number shows the sensor of that number.
pub open spec fn answers_sensors(
    request: RequestView,
    body_error: Option<Seq<char>>,
    r: ResponseView,
) -> bool {
    let sub = request.path.1;
    match request.method {
        HttpMethod::Get => match HttpPath::segment(sub, 0) {
            None => answers_admin(
                request.headers,
                r,
                lists(r, "sensors"@) || is_bad_request(
                    r,
                    "failed to fetch sensors from database."@,
                ),
            ),
            Some(_) => (identifier_at(sub, 0) is Ok && shows::<Sensor>(r)) || is_not_found(
                r,
                path_text(request.path),
            ),
        },
        HttpMethod::Post => answers_body(
            request.body,
            body_error,
            r,
            answers_insert::<Sensor>(request.body, r),
        ),
        HttpMethod::Patch => answers_body(
            request.body,
            body_error,
            r,
            answers_update::<Sensor>(request.body, r),
        ),
        HttpMethod::Delete => answers_delete::<Sensor>(r),
        HttpMethod::Options => is_preflight(r),
        HttpMethod::Error => is_not_found(r, path_text(request.path)),
    }
}

/// Whether `r` answers a request about sessions.
///
/// `GET` without a segment lists the sessions for an administrator; `GET
/// /user/<name>` lists the sessions of a user; `GET /id/<number>` shows the
/// session of that number.
pub open spec fn answers_sessions(
    request: RequestView,
    body_error: Option<Seq<char>>,
    r: ResponseView,
) -> bool {
    let sub = request.path.1;
    match request.method {
        HttpMethod::Get => match HttpPath::segment(sub, 0) {
            None => answers_admin(
                request.headers,
                r,
                lists(r, "sessions"@) || is_bad_request(
                    r,
                    "failed to fetch sessions from the database."@,
                ),
            ),
            Some(what) => if what == "user"@ {
                match HttpPath::segment(sub, 1) {
                    Some(_) => lists(r, "sessions"@) || is_bad_request(
                        r,
                        "failed to fetch user sessions from the database."@,
                    ),
                    None => is_not_found(r, path_text(request.path)),
                }
            } else if what == "id"@ {
                match HttpPath::segment(sub, 1) {
                    Some(_) => (identifier_at(sub, 1) is Ok && shows::<Session>(r))
                        || is_bad_request(r, "failed to fetch session from the database."@),
                    None => is_not_found(r, path_text(request.path)),
                }
            } else {
                is_not_found(r, path_text(request.path))
            },
        },
        HttpMethod::Post => answers_body(
            request.body,
            body_error,
            r,
            answers_insert::<Session>(request.body, r),
        ),
        HttpMethod::Patch => answers_body(
            request.body,
            body_error,
            r,
            answers_update::<Session>(request.body, r),
        ),
        HttpMethod::Delete => answers_delete::<Session>(r),
        HttpMethod::Options => is_preflight(r),
        HttpMethod::Error => is_not_found(r, path_text(request.path)),
    }
}

/// Whether `r` answers a request about the links between sessions and
/// sensors.
///
/// `GET` without a segment lists the links for an administrator; `GET
/// /session/<number>` lists the links of a session; `GET
/// /session-sensor/<number>` shows the link of that number.
pub open spec fn answers_links(
    request: RequestView,
    body_error: Option<Seq<char>>,
    r: ResponseView,
) -> bool {
    let sub = request.path.1;
    match request.method {
        HttpMethod::Get => match HttpPath::segment(sub, 0) {
            None => answers_admin(
                request.headers,
                r,
                lists(r, "sessions_sensors"@) || is_bad_request(
                    r,
                    "failed to fetch sessions sensors from the database."@,
                ),
            ),
            Some(what) => if what == "session"@ {
                match HttpPath::segment(sub, 1) {
                    Some(_) => (identifier_at(sub, 1) is Ok && lists(r, "sessions_sensors"@))
                        || is_bad_request(
                        r,
                        "failed to fetch session sensors from the database."@,
                    ),
                    None => is_not_found(r, path_text(request.path)),
                }
            } else if what == "session-sensor"@ {
                match HttpPath::segment(sub, 1) {
                    Some(_) => (identifier_at(sub, 1) is Ok && shows::<SessionSensor>(r))
                        || is_bad_request(
                        r,
                        "failed to fetch session sensor from the database."@,
                    ),
                    None => is_not_found(r, path_text(request.path)),
                }
            } else {
                is_not_found(r, path_text(request.path))
            },
        },
        HttpMethod::Post => answers_body(
            request.body,
            body_error,
            r,
            answers_insert::<SessionSensor>(request.body, r),
        ),
        HttpMethod::Patch => answers_body(
            request.body,
            body_error,
            r,
            answers_update::<SessionSensor>(request.body, r),
        ),
        HttpMethod::Delete => answers_delete::<SessionSensor>(r),
        HttpMethod::Options => is_preflight(r),
        HttpMethod::Error => is_not_found(r, path_text(request.path)),
    }
}

/// Whether `r` answers a request about readings.
///
/// `GET` without a segment lists the readings for an administrator; `GET
/// /session/<number>` lists the readings of a session; `GET /id/<number>`
/// lists the readings of a link; `GET /<number>/<time>` shows one reading.
/// `POST` inserts one reading, `POST /batch` many.
pub open spec fn answers_readings(
    request: RequestView,
    body_error: Option<Seq<char>>,
    r: ResponseView,
) -> bool {
    let sub = request.path.1;
    match request.method {
        HttpMethod::Get => match HttpPath::segment(sub, 0) {
            None => answers_admin(
                request.headers,
                r,
                lists(r, "datapoints"@) || is_bad_request(
                    r,
                    "failed to fetch sessions sensors data from the database."@,
                ),
            ),
            Some(what) => match HttpPath::segment(sub, 1) {
                None => is_not_found(r, path_text(request.path)),
                Some(_) => if what == "session"@ || what == "id"@ {
                    (identifier_at(sub, 1) is Ok && lists(r, "datapoints"@)) || is_not_found(
                        r,
                        path_text(request.path),
                    )
                } else {
                    (identifier_at(sub, 0) is Ok && shows::<SessionSensorData>(r))
                        || is_not_found(r, path_text(request.path))
                },
            },
        },
        HttpMethod::Post => if sub.len() == 0 {
            answers_body(
                request.body,
                body_error,
                r,
                answers_insert::<SessionSensorData>(request.body, r),
            )
        } else if sub == "/batch"@ {
            answers_body(
                request.body,
                body_error,
                r,
                crate::models::session_sensor_data_model::answers_batch(request.body, r),
            )
        } else {
            is_not_found(r, path_text(request.path))
        },
        HttpMethod::Patch => answers_body(
            request.body,
            body_error,
            r,
            answers_update::<SessionSensorData>(request.body, r),
        ),
        HttpMethod::Delete => answers_delete::<SessionSensorData>(r),
        HttpMethod::Options => is_preflight(r),
        HttpMethod::Error => is_not_found(r, path_text(request.path)),
    }
}

/// Whether `reply` answers `request`, where `body_error` says why the body
/// of the request could not be read, if it could not.
///
/// The index path is answered with the index page. A path that names no
/// route is answered with `404 Not Found` and the path. Every other path is
/// answered as its route says. Where a route needs the body of the request
/// and the body could not be read, the answer is `400 Bad Request` with the
/// reason.
pub open spec fn answers(
    request: RequestView,
    body_error: Option<Seq<char>>,
    reply: ReplyView,
) -> bool {
    match request.path.0 {
        PathKind::Index => reply == ReplyView::View("index.html"@),
        PathKind::NotFound => reply matches ReplyView::Response(r) && is_not_found(
            r,
            request.path.1,
        ),
        PathKind::Authentication => reply matches ReplyView::Response(r)
            && answers_authentication(request, body_error, r),
        PathKind::User => reply matches ReplyView::Response(r) && answers_users(request, body_error, r),
        PathKind::Sensor => reply matches ReplyView::Response(r) && answers_sensors(request, body_error, r),
        PathKind::Session => reply matches ReplyView::Response(r) && answers_sessions(request, body_error, r),
        PathKind::SessionSensor => reply matches ReplyView::Response(r) && answers_links(
            request,
            body_error,
            r,
        ),
        PathKind::SessionSensorData => reply matches ReplyView::Response(r) && answers_readings(
            request,
            body_error,
            r,
        ),
    }
}

/// Whether `reply` is what comes of the insertion that `request` asks for.
///
/// A `POST` whose body describes a record of the kind that its path names is
/// answered with what comes of handing that record to `database`: `201
/// Created` with the record that the store made, or `400 Bad Request` where
/// the store made none. A reading is inserted only under the empty sub-path.
pub open spec fn inserts<D: Database>(database: &D, request: RequestView, reply: ReplyView) -> bool {
    (request.method is Post && request.body is Some) ==> {
        let json = request.body->Some_0;
        match request.path.0 {
            PathKind::User => UserView::of_json(json) is Some ==> (reply matches ReplyView::Response(r)
                && user_stored(database, json, r)),
            PathKind::Sensor => SensorView::of_json(json) is Some ==> (
            reply matches ReplyView::Response(r) && sensor_stored(database, json, r)),
            PathKind::Session => SessionView::of_json(json) is Some ==> (
            reply matches ReplyView::Response(r) && session_stored(database, json, r)),
            PathKind::SessionSensor => SessionSensorView::of_json(json) is Some ==> (
            reply matches ReplyView::Response(r) && link_stored(database, json, r)),
            PathKind::SessionSensorData => (request.path.1.len() == 0
                && SessionSensorDataView::of_json(json) is Some) ==> (
            reply matches ReplyView::Response(r) && reading_stored(database, json, r)),
            _ => true,
        }
    }
}

/// A user that is posted is created under its name, and the password hash
/// is not in the answer: where the store makes every user under the name it
/// was handed, a `POST` to the users route whose body describes a user is
/// answered with `201 Created` and the JSON text that holds that name alone.
pub proof fn lemma_posted_user_is_created<D: Database>(
    database: &D,
    request: RequestView,
    reply: ReplyView,
)
    requires
        request.path.0 == PathKind::User,
        request.method is Post,
        request.body matches Some(json) && UserView::of_json(json) is Some,
        inserts(database, request, reply),
        forall|user: User, outcome: Result<User, String>| #[trigger]
            call_ensures(D::insert_user, (database, &user), outcome) ==> (outcome matches Ok(made)
                && made@.username == user@.username),
    ensures
        reply matches ReplyView::Response(r) && r.is(
            HttpStatus::Created,
            HeaderKind::Json,
            trim_end_nul(
                "{\"username\":\""@ + UserView::of_json(request.body->Some_0)->Some_0.username
                    + "\"}"@,
            ),
        ),
{
}

/// What a request that could not be read is answered with.
pub open spec fn unreadable_text(reason: Seq<char>) -> Seq<char> {
    "Failed to parse request on the server: "@ + reason
}

/// The response for a page that was read, or `404 Not Found` where there is
/// no page.
pub fn generate_html_response(page: Option<String>) -> (r: HttpResponse)
    ensures
        match page {
            Some(content) => r@.is(HttpStatus::OK, HeaderKind::Html, content@),
            None => r@.is(
                HttpStatus::NotFound,
                HeaderKind::Html,
                trim_end_nul(crate::http::http_response::not_found_page()),
            ),
        },
{
    match page {
        Some(content) => HttpResponse::html_page(content),
        None => HttpResponse::html_404(),
    }
}

/// `404 Not Found` for the path of a request.
fn path_not_found(path: &HttpPath) -> (r: HttpResponse)
    ensures
        is_not_found(r@, path_text(path@)),
{
    HttpResponse::json_404(path.to_string().as_str())
}

/// Answers a request about logging in and out.
fn route_authentication<D: Database>(
    database: &D,
    request: HttpRequest,
    body_error: Option<String>,
) -> (r: HttpResponse)
    ensures
        answers_authentication(
            request@,
            match body_error {
                Some(e) => Some(e@),
                None => None,
            },
            r@,
        ),
{
    let HttpRequest { method, path, parameters: _, headers, body } = request;
    let sub = path.subpath().as_str();
    if method != HttpMethod::Post {
        return path_not_found(&path);
    }
    if str_eq(sub, "/login") {
        match broken_body(&body, &body_error) {
            Some(refusal) => {
                return refusal;
            },
            None => {},
        }
        match body {
            Some(json) => match User::from_json(json) {
                Ok(user) => match database.login(&user) {
                    Ok(session_id) => {
                        let r = HttpResponse::session_response(session_id);
                        assert(is_session(r@, session_id@));
                        r
                    },
                    Err(_) => HttpResponse::not_authorized(),
                },
                Err(message) => HttpResponse::invalid_body(Some(message.as_str())),
            },
            None => HttpResponse::missing_body(Some(User::required_values())),
        }
    } else if str_eq(sub, "/logout") {
        match headers.get_cookie(HttpHeaderType::SessionID.as_str()) {
            Some(session_id) => match database.logout(session_id.as_str()) {
                Ok(_) => HttpResponse::session_response(String::new()),
                Err(_) => HttpResponse::json_404("Session"),
            },
            None => HttpResponse::not_authorized(),
        }
    } else if str_eq(sub, "/renew") {
        match headers.get_cookie(HttpHeaderType::SessionID.as_str()) {
            Some(session_id) => match database.renew_session(session_id.as_str()) {
                Ok(new_session_id) => {
                    let r = HttpResponse::session_response(new_session_id);
                    assert(is_session(r@, new_session_id@));
                    r
                },
                Err(_) => HttpResponse::json_404("Session"),
            },
            None => HttpResponse::not_authorized(),
        }
    } else {
        path_not_found(&path)
    }
}

/// Answers a request about users.
fn route_users<D: Database>(
    database: &D,
    request: HttpRequest,
    body_error: Option<String>,
) -> (r: HttpResponse)
    ensures
        answers_users(
            request@,
            match body_error {
                Some(e) => Some(e@),
                None => None,
            },
            r@,
        ),
        (request@.method is Post && request@.body is Some && UserView::of_json(
            request@.body->Some_0,
        ) is Some) ==> user_stored(database, request@.body->Some_0, r@),
{
    let HttpRequest { method, path, parameters: _, headers, body } = request;
    let sub = path.subpath().as_str();
    match method {
        HttpMethod::Get => match HttpPath::subsection(sub, 0) {
            None => match admin_gate(database, &headers) {
                Err(refusal) => refusal,
                Ok(_) => match database.get_users() {
                    Ok(users) => users_response(&users),
                    Err(_) => HttpResponse::bad_request("Failed to fetch users from database."),
                },
            },
            Some(name) => {
                if str_eq(name, "profile") {
                    match headers.get_cookie(HttpHeaderType::SessionID.as_str()) {
                        Some(session_id) => match database.get_session_user(session_id.as_str()) {
                            Ok(user) => user.to_ok_response(),
                            Err(_) => HttpResponse::json_404("User"),
                        },
                        None => HttpResponse::not_authorized(),
                    }
                } else {
                    match database.get_user(name) {
                        Ok(user) => user.to_ok_response(),
                        Err(_) => path_not_found(&path),
                    }
                }
            },
        },
        HttpMethod::Post => match broken_body(&body, &body_error) {
            Some(refusal) => refusal,
            None => User::insert_model(database, body),
        },
        HttpMethod::Patch => match broken_body(&body, &body_error) {
            Some(refusal) => refusal,
            None => User::update_model(database, sub, body),
        },
        HttpMethod::Delete => User::delete_model(database, sub),
        HttpMethod::Options => HttpResponse::options_response(),
        HttpMethod::Error => path_not_found(&path),
    }
}

/// Answers a request about sensors.
fn route_sensors<D: Database>(
    database: &D,
    request: HttpRequest,
    body_error: Option<String>,
) -> (r: HttpResponse)
    ensures
        answers_sensors(
            request@,
            match body_error {
                Some(e) => Some(e@),
                None => None,
            },
            r@,
        ),
        (request@.method is Post && request@.body is Some && SensorView::of_json(
            request@.body->Some_0,
        ) is Some) ==> sensor_stored(database, request@.body->Some_0, r@),
{
    let HttpRequest { method, path, parameters: _, headers, body } = request;
    let sub = path.subpath().as_str();
    match method {
        HttpMethod::Get => match HttpPath::subsection(sub, 0) {
            None => match admin_gate(database, &headers) {
                Err(refusal) => refusal,
                Ok(_) => match database.get_sensors() {
                    Ok(sensors) => sensors_response(&sensors),
                    Err(_) => HttpResponse::bad_request("failed to fetch sensors from database."),
                },
            },
            Some(_) => match segment_id(sub, 0) {
                Ok(id) => match database.get_sensor(id) {
                    Ok(sensor) => sensor.to_ok_response(),
                    Err(_) => path_not_found(&path),
                },
                Err(_) => path_not_found(&path),
            },
        },
        HttpMethod::Post => match broken_body(&body, &body_error) {
            Some(refusal) => refusal,
            None => Sensor::insert_model(database, body),
        },
        HttpMethod::Patch => match broken_body(&body, &body_error) {
            Some(refusal) => refusal,
            None => Sensor::update_model(database, sub, body),
        },
        HttpMethod::Delete => Sensor::delete_model(database, sub),
        HttpMethod::Options => HttpResponse::options_response(),
        HttpMethod::Error => path_not_found(&path),
    }
}

/// Answers a request about sessions.
fn route_sessions<D: Database>(
    database: &D,
    request: HttpRequest,
    body_error: Option<String>,
) -> (r: HttpResponse)
    ensures
        answers_sessions(
            request@,
            match body_error {
                Some(e) => Some(e@),
                None => None,
            },
            r@,
        ),
        (request@.method is Post && request@.body is Some && SessionView::of_json(
            request@.body->Some_0,
        ) is Some) ==> session_stored(database, request@.body->Some_0, r@),
{
    let HttpRequest { method, path, parameters: _, headers, body } = request;
    let sub = path.subpath().as_str();
    match method {
        HttpMethod::Get => match HttpPath::subsection(sub, 0) {
            None => match admin_gate(database, &headers) {
                Err(refusal) => refusal,
                Ok(_) => match database.get_all_sessions() {
                    Ok(sessions) => sessions_response(&sessions),
                    Err(_) => HttpResponse::bad_request(
                        "failed to fetch sessions from the database.",
                    ),
                },
            },
            Some(what) => {
                if str_eq(what, "user") {
                    match HttpPath::subsection(sub, 1) {
                        Some(username) => match database.get_user_sessions(username) {
                            Ok(sessions) => sessions_response(&sessions),
                            Err(_) => HttpResponse::bad_request(
                                "failed to fetch user sessions from the database.",
                            ),
                        },
                        None => path_not_found(&path),
                    }
                } else if str_eq(what, "id") {
                    match HttpPath::subsection(sub, 1) {
                        Some(_) => {
                            let found = match segment_id(sub, 1) {
                                Ok(id) => database.get_session(id),
                                Err(reason) => Err(reason),
                            };
                            match found {
                                Ok(session) => session.to_ok_response(),
                                Err(_) => HttpResponse::bad_request(
                                    "failed to fetch session from the database.",
                                ),
                            }
                        },
                        None => path_not_found(&path),
                    }
                } else {
                    path_not_found(&path)
                }
            },
        },
        HttpMethod::Post => match broken_body(&body, &body_error) {
            Some(refusal) => refusal,
            None => Session::insert_model(database, body),
        },
        HttpMethod::Patch => match broken_body(&body, &body_error) {
            Some(refusal) => refusal,
            None => Session::update_model(database, sub, body),
        },
        HttpMethod::Delete => Session::delete_model(database, sub),
        HttpMethod::Options => HttpResponse::options_response(),
        HttpMethod::Error => path_not_found(&path),
    }
}

/// Answers a request about the links between sessions and sensors.
fn route_links<D: Database>(
    database: &D,
    request: HttpRequest,
    body_error: Option<String>,
) -> (r: HttpResponse)
    ensures
        answers_links(
            request@,
            match body_error {
                Some(e) => Some(e@),
                None => None,
            },
            r@,
        ),
        (request@.method is Post && request@.body is Some && SessionSensorView::of_json(
            request@.body->Some_0,
        ) is Some) ==> link_stored(database, request@.body->Some_0, r@),
{
    let HttpRequest { method, path, parameters: _, headers, body } = request;
    let sub = path.subpath().as_str();
    match method {
        HttpMethod::Get => match HttpPath::subsection(sub, 0) {
            None => match admin_gate(database, &headers) {
                Err(refusal) => refusal,
                Ok(_) => match database.get_sessions_sensors() {
                    Ok(links) => links_response(&links),
                    Err(_) => HttpResponse::bad_request(
                        "failed to fetch sessions sensors from the database.",
                    ),
                },
            },
            Some(what) => {
                if str_eq(what, "session") {
                    match HttpPath::subsection(sub, 1) {
                        Some(_) => {
                            let found = match segment_id(sub, 1) {
                                Ok(id) => database.get_session_sensors(id),
                                Err(reason) => Err(reason),
                            };
                            match found {
                                Ok(links) => links_response(&links),
                                Err(_) => HttpResponse::bad_request(
                                    "failed to fetch session sensors from the database.",
                                ),
                            }
                        },
                        None => path_not_found(&path),
                    }
                } else if str_eq(what, "session-sensor") {
                    match HttpPath::subsection(sub, 1) {
                        Some(_) => {
                            let found = match segment_id(sub, 1) {
                                Ok(id) => database.get_session_sensor(id),
                                Err(reason) => Err(reason),
                            };
                            match found {
                                Ok(link) => link.to_ok_response(),
                                Err(_) => HttpResponse::bad_request(
                                    "failed to fetch session sensor from the database.",
                                ),
                            }
                        },
                        None => path_not_found(&path),
                    }
                } else {
                    path_not_found(&path)
                }
            },
        },
        HttpMethod::Post => match broken_body(&body, &body_error) {
            Some(refusal) => refusal,
            None => SessionSensor::insert_model(database, body),
        },
        HttpMethod::Patch => match broken_body(&body, &body_error) {
            Some(refusal) => refusal,
            None => SessionSensor::update_model(database, sub, body),
        },
        HttpMethod::Delete => SessionSensor::delete_model(database, sub),
        HttpMethod::Options => HttpResponse::options_response(),
        HttpMethod::Error => path_not_found(&path),
    }
}

/// Answers a request about readings.
fn route_readings<D: Database>(
    database: &D,
    request: HttpRequest,
    body_error: Option<String>,
) -> (r: HttpResponse)
    ensures
        answers_readings(
            request@,
            match body_error {
                Some(e) => Some(e@),
                None => None,
            },
            r@,
        ),
        (request@.path.1.len() == 0 && request@.method is Post && request@.body is Some && SessionSensorDataView::of_json(
            request@.body->Some_0,
        ) is Some) ==> reading_stored(database, request@.body->Some_0, r@),
{
    let HttpRequest { method, path, parameters: _, headers, body } = request;
    let sub = path.subpath().as_str();
    match method {
        HttpMethod::Get => match HttpPath::subsection(sub, 0) {
            None => match admin_gate(database, &headers) {
                Err(refusal) => refusal,
                Ok(_) => match database.get_sessions_sensors_data() {
                    Ok(readings) => readings_response(&readings),
                    Err(_) => HttpResponse::bad_request(
                        "failed to fetch sessions sensors data from the database.",
                    ),
                },
            },
            Some(what) => match HttpPath::subsection(sub, 1) {
                None => path_not_found(&path),
                Some(second) => {
                    if str_eq(what, "session") {
                        let found = match segment_id(sub, 1) {
                            Ok(id) => database.get_sessions_sensor_data(id),
                            Err(reason) => Err(reason),
                        };
                        match found {
                            Ok(readings) => readings_response(&readings),
                            Err(_) => path_not_found(&path),
                        }
                    } else if str_eq(what, "id") {
                        let found = match segment_id(sub, 1) {
                            Ok(id) => database.get_session_sensor_data(id),
                            Err(reason) => Err(reason),
                        };
                        match found {
                            Ok(readings) => readings_response(&readings),
                            Err(_) => path_not_found(&path),
                        }
                    } else {
                        let found = match segment_id(sub, 0) {
                            Ok(id) => database.get_session_sensor_datapoint(id, second),
                            Err(reason) => Err(reason),
                        };
                        match found {
                            Ok(reading) => reading.to_ok_response(),
                            Err(_) => path_not_found(&path),
                        }
                    }
                },
            },
        },
        HttpMethod::Post => {
            proof {
                reveal_strlit("");
                reveal_strlit("/batch");
                assert((sub@.len() == 0) == (sub@ =~= ""@));
            }
            if str_eq(sub, "") {
                match broken_body(&body, &body_error) {
                    Some(refusal) => refusal,
                    None => SessionSensorData::insert_model(database, body),
                }
            } else if str_eq(sub, "/batch") {
                match broken_body(&body, &body_error) {
                    Some(refusal) => refusal,
                    None => SessionSensorData::try_batch_model(database, body),
                }
            } else {
                path_not_found(&path)
            }
        },
        HttpMethod::Patch => match broken_body(&body, &body_error) {
            Some(refusal) => refusal,
            None => SessionSensorData::update_model(database, sub, body),
        },
        HttpMethod::Delete => SessionSensorData::delete_model(database, sub),
        HttpMethod::Options => HttpResponse::options_response(),
        HttpMethod::Error => path_not_found(&path),
    }
}

/// Answers a request. `body_error` says why the body of the request could not
/// be read, if it could not.
pub fn route<D: Database>(
    database: &D,
    request: HttpRequest,
    body_error: Option<String>,
) -> (reply: Reply)
    ensures
        answers(
            request@,
            match body_error {
                Some(e) => Some(e@),
                None => None,
            },
            reply@,
        ),
        inserts(database, request@, reply@),
{
    match request.path.kind() {
        PathKind::Index => Reply::View(String::from_str("index.html")),
        PathKind::NotFound => Reply::Response(
            HttpResponse::json_404(request.path.subpath().as_str()),
        ),
        PathKind::Authentication => Reply::Response(route_authentication(database, request, body_error)),
        PathKind::User => Reply::Response(route_users(database, request, body_error)),
        PathKind::Sensor => Reply::Response(route_sensors(database, request, body_error)),
        PathKind::Session => Reply::Response(route_sessions(database, request, body_error)),
        PathKind::SessionSensor => Reply::Response(route_links(database, request, body_error)),
        PathKind::SessionSensorData => Reply::Response(route_readings(database, request, body_error)),
    }
}

/// Answers what came of reading a request: the request is routed, with the
/// reason why its body could not be read, if there is one; a reading that
/// failed is answered with `400 Bad Request` and the reason.
pub fn answer<D: Database>(
    database: &D,
    outcome: Result<(HttpRequest, Option<String>), String>,
) -> (reply: Reply)
    ensures
        match outcome {
            Ok((request, body_error)) => answers(
                request@,
                match body_error {
                    Some(e) => Some(e@),
                    None => None,
                },
                reply@,
            ) && inserts(database, request@, reply@),
            Err(reason) => reply@ matches ReplyView::Response(r) && is_bad_request(
                r,
                unreadable_text(reason@),
            ),
        },
{
    match outcome {
        Ok((request, body_error)) => route(database, request, body_error),
        Err(reason) => {
            let mut message = String::from_str("Failed to parse request on the server: ");
            message.append(reason.as_str());
            Reply::Response(HttpResponse::bad_request(message.as_str()))
        },
    }
}

} // verus!
