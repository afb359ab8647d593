use tcp_server::connection::{ReadAction, ReadEvent, RequestReader};
use tcp_server::data::{Database, MockDatabase};
use tcp_server::http::{HttpHeader, HttpMethod, HttpPath, HttpRequest, HttpResponse, HttpStatus};
use tcp_server::json::{JsonMember, JsonValue};
use tcp_server::models::{BaseModel, Sensor, Session, SessionSensor, SessionSensorData, User};
use tcp_server::router::{answer, generate_html_response, list_response, route, Reply};

/// A store that refuses everything.
struct Refusing;

fn no<T>() -> Result<T, String> {
    Err("refused".to_string())
}

impl Database for Refusing {
    fn temp_session_id_solution(&self) {}
    fn get_session_user(&self, _: &str) -> Result<User, String> {
        no()
    }
    fn is_admin(&self, _: &User) -> bool {
        false
    }
    fn login(&self, _: &User) -> Result<String, String> {
        no()
    }
    fn logout(&self, _: &str) -> Result<(), String> {
        no()
    }
    fn renew_session(&self, _: &str) -> Result<String, String> {
        no()
    }
    fn insert_user(&self, _: &User) -> Result<User, String> {
        no()
    }
    fn get_users(&self) -> Result<Vec<User>, String> {
        no()
    }
    fn get_user(&self, _: &str) -> Result<User, String> {
        no()
    }
    fn update_user(&self, _: &str, _: &User) -> Result<User, String> {
        no()
    }
    fn delete_user(&self, _: &str) -> Result<(), String> {
        no()
    }
    fn insert_sensor(&self, _: &Sensor) -> Result<Sensor, String> {
        no()
    }
    fn get_sensors(&self) -> Result<Vec<Sensor>, String> {
        no()
    }
    fn get_sensor(&self, _: i64) -> Result<Sensor, String> {
        no()
    }
    fn update_sensor(&self, _: i64, _: &Sensor) -> Result<Sensor, String> {
        no()
    }
    fn delete_sensor(&self, _: i64) -> Result<(), String> {
        no()
    }
    fn insert_session(&self, _: &Session) -> Result<Session, String> {
        no()
    }
    fn get_session(&self, _: i64) -> Result<Session, String> {
        no()
    }
    fn get_user_sessions(&self, _: &str) -> Result<Vec<Session>, String> {
        no()
    }
    fn get_all_sessions(&self) -> Result<Vec<Session>, String> {
        no()
    }
    fn update_session(&self, _: i64, _: &Session) -> Result<Session, String> {
        no()
    }
    fn delete_session(&self, _: i64) -> Result<(), String> {
        no()
    }
    fn insert_session_sensor(&self, _: &SessionSensor) -> Result<SessionSensor, String> {
        no()
    }
    fn get_sessions_sensors(&self) -> Result<Vec<SessionSensor>, String> {
        no()
    }
    fn get_session_sensors(&self, _: i64) -> Result<Vec<SessionSensor>, String> {
        no()
    }
    fn get_session_sensor(&self, _: i64) -> Result<SessionSensor, String> {
        no()
    }
    fn update_session_sensor(&self, _: i64, _: &SessionSensor) -> Result<SessionSensor, String> {
        no()
    }
    fn delete_session_sensor(&self, _: i64) -> Result<(), String> {
        no()
    }
    fn insert_session_sensor_data(&self, _: &SessionSensorData) -> Result<SessionSensorData, String> {
        no()
    }
    fn batch_session_sensor_data(
        &self,
        _: &Vec<SessionSensorData>,
    ) -> Result<Vec<SessionSensorData>, String> {
        no()
    }
    fn get_sessions_sensors_data(&self) -> Result<Vec<SessionSensorData>, String> {
        no()
    }
    fn get_sessions_sensor_data(&self, _: i64) -> Result<Vec<SessionSensorData>, String> {
        no()
    }
    fn get_session_sensor_data(&self, _: i64) -> Result<Vec<SessionSensorData>, String> {
        no()
    }
    fn get_session_sensor_datapoint(&self, _: i64, _: &str) -> Result<SessionSensorData, String> {
        no()
    }
    fn update_session_sensor_datapoint(
        &self,
        _: i64,
        _: &str,
        _: &SessionSensorData,
    ) -> Result<SessionSensorData, String> {
        no()
    }
    fn delete_session_sensor_datapoint(&self, _: i64, _: &str) -> Result<(), String> {
        no()
    }
}

/// A store that knows the session of every cookie but grants nothing.
struct NoAdmin;

impl Database for NoAdmin {
    fn temp_session_id_solution(&self) {}
    fn get_session_user(&self, s: &str) -> Result<User, String> {
        MockDatabase::new().get_session_user(s)
    }
    fn is_admin(&self, _: &User) -> bool {
        false
    }
    fn login(&self, u: &User) -> Result<String, String> {
        MockDatabase::new().login(u)
    }
    fn logout(&self, s: &str) -> Result<(), String> {
        MockDatabase::new().logout(s)
    }
    fn renew_session(&self, s: &str) -> Result<String, String> {
        MockDatabase::new().renew_session(s)
    }
    fn insert_user(&self, u: &User) -> Result<User, String> {
        MockDatabase::new().insert_user(u)
    }
    fn get_users(&self) -> Result<Vec<User>, String> {
        MockDatabase::new().get_users()
    }
    fn get_user(&self, n: &str) -> Result<User, String> {
        MockDatabase::new().get_user(n)
    }
    fn update_user(&self, n: &str, u: &User) -> Result<User, String> {
        MockDatabase::new().update_user(n, u)
    }
    fn delete_user(&self, n: &str) -> Result<(), String> {
        MockDatabase::new().delete_user(n)
    }
    fn insert_sensor(&self, s: &Sensor) -> Result<Sensor, String> {
        MockDatabase::new().insert_sensor(s)
    }
    fn get_sensors(&self) -> Result<Vec<Sensor>, String> {
        MockDatabase::new().get_sensors()
    }
    fn get_sensor(&self, i: i64) -> Result<Sensor, String> {
        MockDatabase::new().get_sensor(i)
    }
    fn update_sensor(&self, i: i64, s: &Sensor) -> Result<Sensor, String> {
        MockDatabase::new().update_sensor(i, s)
    }
    fn delete_sensor(&self, i: i64) -> Result<(), String> {
        MockDatabase::new().delete_sensor(i)
    }
    fn insert_session(&self, s: &Session) -> Result<Session, String> {
        MockDatabase::new().insert_session(s)
    }
    fn get_session(&self, i: i64) -> Result<Session, String> {
        MockDatabase::new().get_session(i)
    }
    fn get_user_sessions(&self, n: &str) -> Result<Vec<Session>, String> {
        MockDatabase::new().get_user_sessions(n)
    }
    fn get_all_sessions(&self) -> Result<Vec<Session>, String> {
        MockDatabase::new().get_all_sessions()
    }
    fn update_session(&self, i: i64, s: &Session) -> Result<Session, String> {
        MockDatabase::new().update_session(i, s)
    }
    fn delete_session(&self, i: i64) -> Result<(), String> {
        MockDatabase::new().delete_session(i)
    }
    fn insert_session_sensor(&self, s: &SessionSensor) -> Result<SessionSensor, String> {
        MockDatabase::new().insert_session_sensor(s)
    }
    fn get_sessions_sensors(&self) -> Result<Vec<SessionSensor>, String> {
        MockDatabase::new().get_sessions_sensors()
    }
    fn get_session_sensors(&self, i: i64) -> Result<Vec<SessionSensor>, String> {
        MockDatabase::new().get_session_sensors(i)
    }
    fn get_session_sensor(&self, i: i64) -> Result<SessionSensor, String> {
        MockDatabase::new().get_session_sensor(i)
    }
    fn update_session_sensor(&self, i: i64, s: &SessionSensor) -> Result<SessionSensor, String> {
        MockDatabase::new().update_session_sensor(i, s)
    }
    fn delete_session_sensor(&self, i: i64) -> Result<(), String> {
        MockDatabase::new().delete_session_sensor(i)
    }
    fn insert_session_sensor_data(&self, d: &SessionSensorData) -> Result<SessionSensorData, String> {
        MockDatabase::new().insert_session_sensor_data(d)
    }
    fn batch_session_sensor_data(
        &self,
        d: &Vec<SessionSensorData>,
    ) -> Result<Vec<SessionSensorData>, String> {
        MockDatabase::new().batch_session_sensor_data(d)
    }
    fn get_sessions_sensors_data(&self) -> Result<Vec<SessionSensorData>, String> {
        MockDatabase::new().get_sessions_sensors_data()
    }
    fn get_sessions_sensor_data(&self, i: i64) -> Result<Vec<SessionSensorData>, String> {
        MockDatabase::new().get_sessions_sensor_data(i)
    }
    fn get_session_sensor_data(&self, i: i64) -> Result<Vec<SessionSensorData>, String> {
        MockDatabase::new().get_session_sensor_data(i)
    }
    fn get_session_sensor_datapoint(&self, i: i64, t: &str) -> Result<SessionSensorData, String> {
        MockDatabase::new().get_session_sensor_datapoint(i, t)
    }
    fn update_session_sensor_datapoint(
        &self,
        i: i64,
        t: &str,
        d: &SessionSensorData,
    ) -> Result<SessionSensorData, String> {
        MockDatabase::new().update_session_sensor_datapoint(i, t, d)
    }
    fn delete_session_sensor_datapoint(&self, i: i64, t: &str) -> Result<(), String> {
        MockDatabase::new().delete_session_sensor_datapoint(i, t)
    }
}

fn read(bytes: &[u8]) -> (HttpRequest, Option<String>) {
    match RequestReader::new().step(ReadEvent::Data(bytes.to_vec())) {
        ReadAction::Done(request, error) => (request, error),
        _ => panic!("the bytes hold no whole request"),
    }
}

fn request(
    method: &str,
    target: &str,
    cookie: Option<&str>,
    body: Option<&str>,
) -> (HttpRequest, Option<String>) {
    let mut text = format!("{method} {target} HTTP/1.1\r\nHost: h\r\n");
    if let Some(c) = cookie {
        text.push_str(&format!("Cookie: {c}\r\n"));
    }
    if let Some(b) = body {
        text.push_str(&format!("Content-Length: {}\r\n", b.len()));
    }
    text.push_str("\r\n");
    text.push_str(body.unwrap_or(""));
    read(text.as_bytes())
}

fn respond<D: Database>(db: &D, r: (HttpRequest, Option<String>)) -> (HttpStatus, String) {
    match route(db, r.0, r.1) {
        Reply::Response(response) => {
            assert_eq!(
                response.headers.get("access-control-allow-credentials"),
                Some(&"true".to_string())
            );
            (response.status, response.body)
        },
        Reply::View(name) => panic!("unexpected view {name}"),
    }
}

fn mock(method: &str, target: &str, cookie: Option<&str>, body: Option<&str>) -> (HttpStatus, String) {
    respond(&MockDatabase::new(), request(method, target, cookie, body))
}

fn refused(method: &str, target: &str, cookie: Option<&str>, body: Option<&str>) -> (HttpStatus, String) {
    respond(&Refusing, request(method, target, cookie, body))
}

fn is(status: HttpStatus, body: &str) -> (HttpStatus, String) {
    (status, body.to_string())
}

const COOKIE: Option<&str> = Some("session_id=abc; theme=dark");
const UNAUTHORIZED: &str = "{\"error\":\"Invalid authentication credentials.\"}";
const FORBIDDEN: &str = "{\"error\":\"User not authorized.\"}";

#[test]
fn post_user_end_to_end() {
    let bytes =
        b"POST /users HTTP/1.1\r\nHost: h\r\nContent-Length: 38\r\n\r\n{\"username\":\"bob\",\"password_hash\":\"h\"}";
    let (request, body_error) = read(bytes);
    assert_eq!(body_error, None);
    assert_eq!(request.method, HttpMethod::Post);
    assert_eq!(request.path, HttpPath::User(String::new()));
    assert_eq!(
        request.body,
        Some(JsonValue::Object(vec![
            JsonMember { name: "password_hash".to_string(), value: JsonValue::String("h".to_string()) },
            JsonMember { name: "username".to_string(), value: JsonValue::String("bob".to_string()) },
        ]))
    );
    let response = match route(&MockDatabase::new(), request, body_error) {
        Reply::Response(r) => r,
        Reply::View(_) => panic!("expected a response"),
    };
    assert_eq!(response.status, HttpStatus::Created);
    assert_eq!(response.body, "{\"username\":\"bob\"}");
    let wire = response.to_string();
    assert!(wire.starts_with("HTTP/1.1 201 Created\r\ncontent-length: 18\r\n"));
    assert!(wire.ends_with("\r\n\r\n{\"username\":\"bob\"}"));
    assert!(!wire.contains("password"));
    assert!(wire.contains("\r\ncontent-type: application/json\r\n"));
}

#[test]
fn index_is_answered_with_the_index_page() {
    match route(&MockDatabase::new(), request("GET", "/", None, None).0, None) {
        Reply::View(name) => assert_eq!(name, "index.html"),
        Reply::Response(_) => panic!("expected a view"),
    }
    match route(&Refusing, request("DELETE", "//x", None, None).0, None) {
        Reply::View(name) => assert_eq!(name, "index.html"),
        Reply::Response(_) => panic!("expected a view"),
    }
}

#[test]
fn unknown_path_is_404_with_the_path() {
    assert_eq!(
        mock("GET", "/unknown/x", None, None),
        is(HttpStatus::NotFound, "{\"error\":\"/unknown/x not found\"}")
    );
    assert_eq!(mock("POST", "nothing", None, None), is(HttpStatus::NotFound, "{\"error\":\"nothing not found\"}"));
}

#[test]
fn unreadable_request_is_400() {
    match answer(&MockDatabase::new(), Err("Connection closed after 0 attempts.".to_string())) {
        Reply::Response(r) => {
            assert_eq!(r.status, HttpStatus::BadRequest);
            assert_eq!(
                r.body,
                "{\"error\":\"Failed to parse request on the server: Connection closed after 0 attempts.\"}"
            );
        },
        Reply::View(_) => panic!("expected a response"),
    }
    match answer(&MockDatabase::new(), Ok(request("GET", "/nope", None, None))) {
        Reply::Response(r) => assert_eq!(r.status, HttpStatus::NotFound),
        Reply::View(_) => panic!("expected a response"),
    }
}

#[test]
fn pages() {
    let r = generate_html_response(Some("<p>hi</p>\0".to_string()));
    assert_eq!(r.status, HttpStatus::OK);
    assert_eq!(r.body, "<p>hi</p>\0");
    assert_eq!(r.headers.get("content-type"), Some(&"application/html".to_string()));
    let r = generate_html_response(None);
    assert_eq!(r.status, HttpStatus::NotFound);
    assert_eq!(r.body, "<html><body><h1>404 Not Found</h1></body></html>");
    let r = HttpResponse::html_page(String::new());
    assert_eq!(r.status, HttpStatus::OK);
}

#[test]
fn login_logout_renew() {
    let user = "{\"username\":\"bob\",\"password_hash\":\"h\"}";
    let r = match route(&MockDatabase::new(), request("POST", "/authentication/login", None, Some(user)).0, None) {
        Reply::Response(r) => r,
        _ => panic!(),
    };
    assert_eq!(r.status, HttpStatus::NoContent);
    assert_eq!(r.body, "");
    assert_eq!(
        r.headers.get("set-cookie"),
        Some(&"session_id=cookie_session_id; HttpOnly; SameSite=Strict; Max-Age=3600; Path=/".to_string())
    );
    assert_eq!(r.headers.get("access-control-expose-headers"), Some(&"session_id".to_string()));
    assert_eq!(refused("POST", "/authentication/login", None, Some(user)), is(HttpStatus::Unauthorized, UNAUTHORIZED));
    assert_eq!(
        mock("POST", "/authentication/login", None, None),
        is(
            HttpStatus::BadRequest,
            "{\"error\":\"Missing request body. Requires values \\\"username\\\": string and \\\"password_hash\\\": string\"}"
        )
    );
    assert_eq!(
        mock("POST", "/authentication/login", None, Some("{\"username\":\"bob\"}")),
        is(
            HttpStatus::BadRequest,
            "{\"error\":\"Invalid request body.failed to parse to user.Error creating user.\"}"
        )
    );

    let r = match route(&MockDatabase::new(), request("POST", "/authentication/logout", COOKIE, None).0, None) {
        Reply::Response(r) => r,
        _ => panic!(),
    };
    assert_eq!(r.status, HttpStatus::NoContent);
    assert_eq!(
        r.headers.get("set-cookie"),
        Some(&"session_id=; HttpOnly; SameSite=Strict; Max-Age=3600; Path=/".to_string())
    );
    assert_eq!(mock("POST", "/authentication/logout", None, None), is(HttpStatus::Unauthorized, UNAUTHORIZED));
    assert_eq!(
        refused("POST", "/authentication/logout", COOKIE, None),
        is(HttpStatus::NotFound, "{\"error\":\"Session not found\"}")
    );

    let r = match route(&MockDatabase::new(), request("POST", "/authentication/renew", COOKIE, None).0, None) {
        Reply::Response(r) => r,
        _ => panic!(),
    };
    assert_eq!(
        r.headers.get("set-cookie"),
        Some(&"session_id=cookie_session_id2; HttpOnly; SameSite=Strict; Max-Age=3600; Path=/".to_string())
    );
    assert_eq!(mock("POST", "/authentication/renew", None, None), is(HttpStatus::Unauthorized, UNAUTHORIZED));
    assert_eq!(
        refused("POST", "/authentication/renew", COOKIE, None),
        is(HttpStatus::NotFound, "{\"error\":\"Session not found\"}")
    );

    assert_eq!(
        mock("POST", "/authentication/other", COOKIE, None),
        is(HttpStatus::NotFound, "{\"error\":\"/authentication/other not found\"}")
    );
    assert_eq!(
        mock("GET", "/authentication/login", COOKIE, None),
        is(HttpStatus::NotFound, "{\"error\":\"/authentication/login not found\"}")
    );
    assert_eq!(
        mock("OPTIONS", "/authentication", None, None),
        is(HttpStatus::NotFound, "{\"error\":\"/authentication not found\"}")
    );
}

#[test]
fn users_get() {
    assert_eq!(
        mock("GET", "/users", COOKIE, None),
        is(HttpStatus::OK, "{\"users\":[\"user_1\",\"user_2\",\"user_3\",\"user_4\"]}")
    );
    assert_eq!(mock("GET", "/users", None, None), is(HttpStatus::Unauthorized, UNAUTHORIZED));
    assert_eq!(mock("GET", "/users", Some("other=1"), None), is(HttpStatus::Unauthorized, UNAUTHORIZED));
    assert_eq!(refused("GET", "/users", COOKIE, None), is(HttpStatus::Unauthorized, UNAUTHORIZED));
    assert_eq!(respond(&NoAdmin, request("GET", "/users", COOKIE, None)), is(HttpStatus::Forbidden, FORBIDDEN));
    assert_eq!(mock("GET", "/users/profile", COOKIE, None), is(HttpStatus::OK, "{\"username\":\"abc\"}"));
    assert_eq!(mock("GET", "/users/profile", None, None), is(HttpStatus::Unauthorized, UNAUTHORIZED));
    assert_eq!(
        refused("GET", "/users/profile", COOKIE, None),
        is(HttpStatus::NotFound, "{\"error\":\"User not found\"}")
    );
    assert_eq!(mock("GET", "/users/alice", None, None), is(HttpStatus::OK, "{\"username\":\"alice\"}"));
    assert_eq!(mock("GET", "/users/", None, None), is(HttpStatus::OK, "{\"username\":\"\"}"));
    assert_eq!(
        refused("GET", "/users/alice", None, None),
        is(HttpStatus::NotFound, "{\"error\":\"/users/alice not found\"}")
    );
}

#[test]
fn users_change() {
    let body = "{\"username\":\"bob\",\"password_hash\":\"h\"}";
    assert_eq!(mock("POST", "/users", None, Some(body)), is(HttpStatus::Created, "{\"username\":\"bob\"}"));
    assert_eq!(
        refused("POST", "/users", None, Some(body)),
        is(HttpStatus::BadRequest, "{\"error\":\"Error creating user.\"}")
    );
    assert_eq!(
        mock("POST", "/users", None, Some("[1]")),
        is(
            HttpStatus::BadRequest,
            "{\"error\":\"Invalid request body.failed to parse to user.Error creating user.\"}"
        )
    );
    assert_eq!(
        mock("POST", "/users", None, Some("{not json")),
        is(
            HttpStatus::BadRequest,
            "{\"error\":\"Invalid request body.Failed to parse request body to json value: key must be a string at line 1 column 2\"}"
        )
    );
    assert_eq!(
        mock("POST", "/users", None, Some("\0\0\0")),
        is(
            HttpStatus::BadRequest,
            "{\"error\":\"Missing request body. Requires values \\\"username\\\": string and \\\"password_hash\\\": string\"}"
        )
    );
    assert_eq!(
        mock("PATCH", "/users/alice", None, Some("{\"username\":\"\",\"password_hash\":\"n\"}")),
        is(HttpStatus::OK, "{\"username\":\"alice\"}")
    );
    assert_eq!(
        mock("PATCH", "/users", None, Some(body)),
        is(HttpStatus::NotFound, "{\"error\":\"user not found\"}")
    );
    assert_eq!(
        refused("PATCH", "/users/alice", None, Some(body)),
        is(HttpStatus::NotFound, "{\"error\":\"user not found\"}")
    );
    assert_eq!(
        mock("PATCH", "/users/alice", None, Some("{}")),
        is(HttpStatus::BadRequest, "{\"error\":\"Error creating user.\"}")
    );
    assert_eq!(
        mock("PATCH", "/users/alice", None, None),
        is(
            HttpStatus::BadRequest,
            "{\"error\":\"Missing request body. Requires values \\\"username\\\": string and \\\"password_hash\\\": string\"}"
        )
    );
    assert_eq!(mock("DELETE", "/users/alice", None, None), is(HttpStatus::NoContent, ""));
    assert_eq!(
        mock("DELETE", "/users", None, None),
        is(HttpStatus::NotFound, "{\"error\":\"user not found\"}")
    );
    assert_eq!(
        refused("DELETE", "/users/alice", None, None),
        is(HttpStatus::NotFound, "{\"error\":\"user not found\"}")
    );
    assert_eq!(
        mock("FETCH", "/users/alice", None, None),
        is(HttpStatus::NotFound, "{\"error\":\"/users/alice not found\"}")
    );
}

#[test]
fn preflight_is_answered_on_every_record_route() {
    for target in ["/users", "/sensors/1", "/sessions", "/sessions-sensors/x", "/sessions-sensors-data"] {
        let r = match route(&Refusing, request("OPTIONS", target, None, None).0, None) {
            Reply::Response(r) => r,
            _ => panic!(),
        };
        assert_eq!(r.status, HttpStatus::NoContent);
        assert_eq!(r.body, "");
        assert_eq!(
            r.headers.get("access-control-allow-methods"),
            Some(&"GET, POST, PATCH, DELETE, OPTIONS".to_string())
        );
    }
}

#[test]
fn sensors() {
    assert_eq!(
        mock("GET", "/sensors", COOKIE, None),
        is(
            HttpStatus::OK,
            "{\"sensors\":[{\"id\":1,\"type\":\"sensor_type_1\"},{\"id\":2,\"type\":\"sensor_type_2\"},{\"id\":3,\"type\":\"sensor_type_3\"},{\"id\":4,\"type\":\"sensor_type_4\"}]}"
        )
    );
    assert_eq!(mock("GET", "/sensors", None, None), is(HttpStatus::Unauthorized, UNAUTHORIZED));
    assert_eq!(respond(&NoAdmin, request("GET", "/sensors", COOKIE, None)), is(HttpStatus::Forbidden, FORBIDDEN));
    assert_eq!(
        mock("GET", "/sensors/17", None, None),
        is(HttpStatus::OK, "{\"id\":\"17\", \"type\":\"sensor_type\"}")
    );
    assert_eq!(
        mock("GET", "/sensors/-17/more", None, None),
        is(HttpStatus::OK, "{\"id\":\"-17\", \"type\":\"sensor_type\"}")
    );
    assert_eq!(
        mock("GET", "/sensors/seventeen", None, None),
        is(HttpStatus::NotFound, "{\"error\":\"/sensors/seventeen not found\"}")
    );
    assert_eq!(
        refused("GET", "/sensors/17", None, None),
        is(HttpStatus::NotFound, "{\"error\":\"/sensors/17 not found\"}")
    );
    assert_eq!(
        mock("POST", "/sensors", None, Some("{\"type\":\"thermo\"}")),
        is(HttpStatus::Created, "{\"id\":\"67890\", \"type\":\"thermo\"}")
    );
    assert_eq!(
        mock("POST", "/sensors", None, None),
        is(
            HttpStatus::BadRequest,
            "{\"error\":\"Missing request body. Requires value \\\"type\\\": string\"}"
        )
    );
    assert_eq!(
        mock("PATCH", "/sensors/5", None, Some("{\"id\":-1,\"type\":\"\"}")),
        is(HttpStatus::OK, "{\"id\":\"5\", \"type\":\"sensor_type\"}")
    );
    assert_eq!(
        mock("PATCH", "/sensors/5", None, Some("{\"type\":\"thermo\"}")),
        is(HttpStatus::OK, "{\"id\":\"0\", \"type\":\"thermo\"}")
    );
    assert_eq!(
        mock("PATCH", "/sensors/five", None, Some("{\"type\":\"thermo\"}")),
        is(HttpStatus::NotFound, "{\"error\":\"sensor not found\"}")
    );
    assert_eq!(mock("DELETE", "/sensors/5", None, None), is(HttpStatus::NoContent, ""));
    assert_eq!(
        mock("DELETE", "/sensors/9223372036854775808", None, None),
        is(HttpStatus::NotFound, "{\"error\":\"sensor not found\"}")
    );
}

#[test]
fn sessions() {
    assert_eq!(
        mock("GET", "/sessions", COOKIE, None),
        is(
            HttpStatus::OK,
            "{\"sessions\":[{\"session_id\":1,\"username\":\"username_1\"},{\"session_id\":2,\"username\":\"username_2\"},{\"session_id\":3,\"username\":\"username_3\"},{\"session_id\":4,\"username\":\"username_4\"}]}"
        )
    );
    assert_eq!(
        mock("GET", "/sessions/user/bob", None, None),
        is(
            HttpStatus::OK,
            "{\"sessions\":[{\"session_id\":1,\"username\":\"bob\"},{\"session_id\":2,\"username\":\"bob\"},{\"session_id\":3,\"username\":\"bob\"},{\"session_id\":4,\"username\":\"bob\"}]}"
        )
    );
    assert_eq!(
        refused("GET", "/sessions/user/bob", None, None),
        is(HttpStatus::BadRequest, "{\"error\":\"failed to fetch user sessions from the database.\"}")
    );
    assert_eq!(
        mock("GET", "/sessions/user", None, None),
        is(HttpStatus::NotFound, "{\"error\":\"/sessions/user not found\"}")
    );
    assert_eq!(
        mock("GET", "/sessions/id/8", None, None),
        is(HttpStatus::OK, "{\"session_id\":\"8\", \"username\":\"username\"}")
    );
    assert_eq!(
        mock("GET", "/sessions/id/eight", None, None),
        is(HttpStatus::BadRequest, "{\"error\":\"failed to fetch session from the database.\"}")
    );
    assert_eq!(
        refused("GET", "/sessions/id/8", None, None),
        is(HttpStatus::BadRequest, "{\"error\":\"failed to fetch session from the database.\"}")
    );
    assert_eq!(
        mock("GET", "/sessions/id", None, None),
        is(HttpStatus::NotFound, "{\"error\":\"/sessions/id not found\"}")
    );
    assert_eq!(
        mock("GET", "/sessions/8", None, None),
        is(HttpStatus::NotFound, "{\"error\":\"/sessions/8 not found\"}")
    );
    assert_eq!(
        mock("POST", "/sessions", None, Some("{\"username\":\"bob\"}")),
        is(HttpStatus::Created, "{\"session_id\":\"12345\", \"username\":\"bob\"}")
    );
    assert_eq!(mock("DELETE", "/sessions/3", None, None), is(HttpStatus::NoContent, ""));
}

#[test]
fn links() {
    assert_eq!(
        mock("GET", "/sessions-sensors", COOKIE, None),
        is(
            HttpStatus::OK,
            "{\"sessions_sensors\":[{\"id\":1,\"sensor_id\":1,\"session_id\":1},{\"id\":2,\"sensor_id\":2,\"session_id\":2},{\"id\":3,\"sensor_id\":3,\"session_id\":3},{\"id\":4,\"sensor_id\":4,\"session_id\":4}]}"
        )
    );
    assert_eq!(
        mock("GET", "/sessions-sensors/session/9", None, None),
        is(
            HttpStatus::OK,
            "{\"sessions_sensors\":[{\"id\":1,\"sensor_id\":1,\"session_id\":9},{\"id\":2,\"sensor_id\":2,\"session_id\":9},{\"id\":3,\"sensor_id\":3,\"session_id\":9},{\"id\":4,\"sensor_id\":4,\"session_id\":9}]}"
        )
    );
    assert_eq!(
        mock("GET", "/sessions-sensors/session/x", None, None),
        is(HttpStatus::BadRequest, "{\"error\":\"failed to fetch session sensors from the database.\"}")
    );
    assert_eq!(
        mock("GET", "/sessions-sensors/session", None, None),
        is(HttpStatus::NotFound, "{\"error\":\"/sessions-sensors/session not found\"}")
    );
    assert_eq!(
        mock("GET", "/sessions-sensors/session-sensor/5", None, None),
        is(HttpStatus::OK, "{\"id\":\"5\", \"session_id\":\"6\", \"sensor_id\":\"7\"}")
    );
    assert_eq!(
        mock("GET", "/sessions-sensors/session-sensor/9223372036854775807", None, None),
        is(HttpStatus::BadRequest, "{\"error\":\"failed to fetch session sensor from the database.\"}")
    );
    assert_eq!(
        mock("GET", "/sessions-sensors/other/5", None, None),
        is(HttpStatus::NotFound, "{\"error\":\"/sessions-sensors/other/5 not found\"}")
    );
    assert_eq!(
        mock("POST", "/sessions-sensors", None, Some("{\"session_id\":2,\"sensor_id\":3}")),
        is(HttpStatus::Created, "{\"id\":\"1\", \"session_id\":\"2\", \"sensor_id\":\"3\"}")
    );
    assert_eq!(
        refused("GET", "/sessions-sensors", COOKIE, None),
        is(HttpStatus::Unauthorized, UNAUTHORIZED)
    );
}

#[test]
fn readings() {
    assert_eq!(
        mock("GET", "/sessions-sensors-data", COOKIE, None),
        is(
            HttpStatus::OK,
            "{\"datapoints\":[{\"data_blob\":{},\"datetime\":\"datetime_1\",\"id\":1},{\"data_blob\":{},\"datetime\":\"datetime_2\",\"id\":2},{\"data_blob\":{},\"datetime\":\"datetime_3\",\"id\":3},{\"data_blob\":{},\"datetime\":\"datetime_4\",\"id\":4}]}"
        )
    );
    assert_eq!(
        mock("GET", "/sessions-sensors-data/id/7", None, None),
        is(
            HttpStatus::OK,
            "{\"datapoints\":[{\"data_blob\":{},\"datetime\":\"datetime_1\",\"id\":7},{\"data_blob\":{},\"datetime\":\"datetime_2\",\"id\":7},{\"data_blob\":{},\"datetime\":\"datetime_3\",\"id\":7},{\"data_blob\":{},\"datetime\":\"datetime_4\",\"id\":7}]}"
        )
    );
    assert_eq!(mock("GET", "/sessions-sensors-data/session/7", None, None).0, HttpStatus::OK);
    assert_eq!(
        mock("GET", "/sessions-sensors-data/session/x", None, None),
        is(HttpStatus::NotFound, "{\"error\":\"/sessions-sensors-data/session/x not found\"}")
    );
    assert_eq!(
        mock("GET", "/sessions-sensors-data/session", None, None),
        is(HttpStatus::NotFound, "{\"error\":\"/sessions-sensors-data/session not found\"}")
    );
    assert_eq!(
        mock("GET", "/sessions-sensors-data/3/2025-01-01T00:00", None, None),
        is(HttpStatus::OK, "{\"data_blob\":{},\"datetime\":\"2025-01-01T00:00\",\"id\":3}")
    );
    assert_eq!(
        mock("GET", "/sessions-sensors-data/three/now", None, None),
        is(HttpStatus::NotFound, "{\"error\":\"/sessions-sensors-data/three/now not found\"}")
    );
    assert_eq!(
        mock("GET", "/sessions-sensors-data/3", None, None),
        is(HttpStatus::NotFound, "{\"error\":\"/sessions-sensors-data/3 not found\"}")
    );
    assert_eq!(
        mock("POST", "/sessions-sensors-data", None, Some("{\"datetime\":\"t\",\"data_blob\":{\"v\":[1,2]}}")),
        is(HttpStatus::Created, "{\"data_blob\":{\"v\":[1,2]},\"datetime\":\"t\",\"id\":0}")
    );
    assert_eq!(
        mock("PATCH", "/sessions-sensors-data/3/now", None, Some("{\"datetime\":\"\",\"data_blob\":null}")),
        is(HttpStatus::OK, "{\"data_blob\":{},\"datetime\":\"now\",\"id\":3}")
    );
    assert_eq!(
        mock("PATCH", "/sessions-sensors-data/3", None, Some("{\"datetime\":\"\",\"data_blob\":null}")),
        is(HttpStatus::NotFound, "{\"error\":\"session sensor data not found\"}")
    );
    assert_eq!(mock("DELETE", "/sessions-sensors-data/3/now", None, None), is(HttpStatus::NoContent, ""));
    assert_eq!(
        mock("DELETE", "/sessions-sensors-data/3", None, None),
        is(HttpStatus::NotFound, "{\"error\":\"session sensor data not found\"}")
    );
    assert_eq!(
        mock("POST", "/sessions-sensors-data/other", None, Some("{}")),
        is(HttpStatus::NotFound, "{\"error\":\"/sessions-sensors-data/other not found\"}")
    );
    assert_eq!(
        refused("GET", "/sessions-sensors-data", COOKIE, None),
        is(HttpStatus::Unauthorized, UNAUTHORIZED)
    );
}

#[test]
fn lists_that_the_store_refuses_are_400() {
    struct Admin;
    impl Database for Admin {
        fn temp_session_id_solution(&self) {}
        fn get_session_user(&self, s: &str) -> Result<User, String> {
            MockDatabase::new().get_session_user(s)
        }
        fn is_admin(&self, _: &User) -> bool {
            true
        }
        fn login(&self, _: &User) -> Result<String, String> {
            no()
        }
        fn logout(&self, _: &str) -> Result<(), String> {
            no()
        }
        fn renew_session(&self, _: &str) -> Result<String, String> {
            no()
        }
        fn insert_user(&self, _: &User) -> Result<User, String> {
            no()
        }
        fn get_users(&self) -> Result<Vec<User>, String> {
            no()
        }
        fn get_user(&self, _: &str) -> Result<User, String> {
            no()
        }
        fn update_user(&self, _: &str, _: &User) -> Result<User, String> {
            no()
        }
        fn delete_user(&self, _: &str) -> Result<(), String> {
            no()
        }
        fn insert_sensor(&self, _: &Sensor) -> Result<Sensor, String> {
            no()
        }
        fn get_sensors(&self) -> Result<Vec<Sensor>, String> {
            no()
        }
        fn get_sensor(&self, _: i64) -> Result<Sensor, String> {
            no()
        }
        fn update_sensor(&self, _: i64, _: &Sensor) -> Result<Sensor, String> {
            no()
        }
        fn delete_sensor(&self, _: i64) -> Result<(), String> {
            no()
        }
        fn insert_session(&self, _: &Session) -> Result<Session, String> {
            no()
        }
        fn get_session(&self, _: i64) -> Result<Session, String> {
            no()
        }
        fn get_user_sessions(&self, _: &str) -> Result<Vec<Session>, String> {
            no()
        }
        fn get_all_sessions(&self) -> Result<Vec<Session>, String> {
            no()
        }
        fn update_session(&self, _: i64, _: &Session) -> Result<Session, String> {
            no()
        }
        fn delete_session(&self, _: i64) -> Result<(), String> {
            no()
        }
        fn insert_session_sensor(&self, _: &SessionSensor) -> Result<SessionSensor, String> {
            no()
        }
        fn get_sessions_sensors(&self) -> Result<Vec<SessionSensor>, String> {
            no()
        }
        fn get_session_sensors(&self, _: i64) -> Result<Vec<SessionSensor>, String> {
            no()
        }
        fn get_session_sensor(&self, _: i64) -> Result<SessionSensor, String> {
            no()
        }
        fn update_session_sensor(&self, _: i64, _: &SessionSensor) -> Result<SessionSensor, String> {
            no()
        }
        fn delete_session_sensor(&self, _: i64) -> Result<(), String> {
            no()
        }
        fn insert_session_sensor_data(&self, _: &SessionSensorData) -> Result<SessionSensorData, String> {
            no()
        }
        fn batch_session_sensor_data(
            &self,
            _: &Vec<SessionSensorData>,
        ) -> Result<Vec<SessionSensorData>, String> {
            no()
        }
        fn get_sessions_sensors_data(&self) -> Result<Vec<SessionSensorData>, String> {
            no()
        }
        fn get_sessions_sensor_data(&self, _: i64) -> Result<Vec<SessionSensorData>, String> {
            no()
        }
        fn get_session_sensor_data(&self, _: i64) -> Result<Vec<SessionSensorData>, String> {
            no()
        }
        fn get_session_sensor_datapoint(&self, _: i64, _: &str) -> Result<SessionSensorData, String> {
            no()
        }
        fn update_session_sensor_datapoint(
            &self,
            _: i64,
            _: &str,
            _: &SessionSensorData,
        ) -> Result<SessionSensorData, String> {
            no()
        }
        fn delete_session_sensor_datapoint(&self, _: i64, _: &str) -> Result<(), String> {
            no()
        }
    }
    for (target, message) in [
        ("/users", "Failed to fetch users from database."),
        ("/sensors", "failed to fetch sensors from database."),
        ("/sessions", "failed to fetch sessions from the database."),
        ("/sessions-sensors", "failed to fetch sessions sensors from the database."),
        ("/sessions-sensors-data", "failed to fetch sessions sensors data from the database."),
    ] {
        assert_eq!(
            respond(&Admin, request("GET", target, COOKIE, None)),
            is(HttpStatus::BadRequest, &format!("{{\"error\":\"{message}\"}}"))
        );
    }
}

#[test]
fn batch_of_readings() {
    let hint = " Requires the values \\\"datapoints\\\": array [ { \\\"id\\\": i64, \\\"datetime\\\": string, \\\"data_blob\\\": string }, ... ]";
    let good = "{\"datapoints\":[{\"id\":1,\"datetime\":\"a\",\"data_blob\":{}},{\"datetime\":\"b\",\"data_blob\":\"raw\"},[null,\"c\",3]]}";
    assert_eq!(mock("POST", "/sessions-sensors-data/batch", None, Some(good)), is(HttpStatus::NoContent, ""));
    assert_eq!(
        mock("POST", "/sessions-sensors-data/batch", None, Some("{\"datapoints\":[]}")),
        is(HttpStatus::NoContent, "")
    );
    assert_eq!(
        refused("POST", "/sessions-sensors-data/batch", None, Some(good)),
        is(HttpStatus::BadRequest, &format!("{{\"error\":\"{hint}\"}}"))
    );
    for bad in [
        "{\"datapoints\":[{\"id\":1,\"datetime\":\"a\",\"data_blob\":{}},{\"datetime\":\"b\"}]}",
        "{\"datapoints\":{}}",
        "{\"datapoint\":[]}",
        "[]",
        "17",
    ] {
        assert_eq!(
            mock("POST", "/sessions-sensors-data/batch", None, Some(bad)),
            is(HttpStatus::BadRequest, &format!("{{\"error\":\"Invalid request body.{hint}\"}}")),
            "{bad}"
        );
    }
    assert_eq!(
        mock("POST", "/sessions-sensors-data/batch", None, None),
        is(HttpStatus::BadRequest, &format!("{{\"error\":\"Missing request body.{hint}\"}}"))
    );
    let r = SessionSensorData::batched(Ok(vec![]));
    assert_eq!(r.status, HttpStatus::NoContent);
}

#[test]
fn list_response_holds_the_list_under_its_key() {
    let r = list_response("things", vec![JsonValue::Null, JsonValue::Bool(true)]);
    assert_eq!(r.status, HttpStatus::OK);
    assert_eq!(r.body, "{\"things\":[null,true]}");
    let r = list_response("", vec![]);
    assert_eq!(r.body, "{\"\":[]}");
    let h = HttpHeader::new();
    assert_eq!(h.to_string(), "");
}

#[test]
fn body_that_could_not_be_read_is_400_where_a_body_is_needed() {
    let invalid = "{\"error\":\"Invalid request body.Failed to parse request body to json value: expected value at line 1 column 1\"}";
    for (method, target) in [
        ("POST", "/authentication/login"),
        ("POST", "/users"),
        ("PATCH", "/users/bob"),
        ("POST", "/sensors"),
        ("PATCH", "/sensors/1"),
        ("POST", "/sessions"),
        ("PATCH", "/sessions/1"),
        ("POST", "/sessions-sensors"),
        ("PATCH", "/sessions-sensors/1"),
        ("POST", "/sessions-sensors-data"),
        ("POST", "/sessions-sensors-data/batch"),
        ("PATCH", "/sessions-sensors-data/1/now"),
    ] {
        assert_eq!(mock(method, target, COOKIE, Some("oops")), is(HttpStatus::BadRequest, invalid), "{method} {target}");
        assert_eq!(refused(method, target, None, Some("oops")), is(HttpStatus::BadRequest, invalid));
    }
    // where no body is needed, a body that could not be read does no harm
    assert_eq!(mock("GET", "/users/alice", None, Some("oops")), is(HttpStatus::OK, "{\"username\":\"alice\"}"));
    assert_eq!(mock("DELETE", "/users/alice", None, Some("oops")), is(HttpStatus::NoContent, ""));
    assert_eq!(
        mock("POST", "/authentication/logout", None, Some("oops")),
        is(HttpStatus::Unauthorized, UNAUTHORIZED)
    );
    assert_eq!(
        mock("POST", "/sessions-sensors-data/other", None, Some("oops")),
        is(HttpStatus::NotFound, "{\"error\":\"/sessions-sensors-data/other not found\"}")
    );
    // a reason that comes with a body that was read is not looked at
    let (request, _) = request("POST", "/users", None, Some("{\"username\":\"bob\",\"password_hash\":\"h\"}"));
    match route(&MockDatabase::new(), request, Some("stale".to_string())) {
        Reply::Response(r) => assert_eq!(r.status, HttpStatus::Created),
        Reply::View(_) => panic!("expected a response"),
    }
}

#[test]
fn posted_record_is_answered_by_what_the_store_made() {
    let cases = [
        ("/users", "{\"username\":\"eve\",\"password_hash\":\"secret\"}", "{\"username\":\"eve\"}", "user"),
        ("/sensors", "{\"type\":\"gyro\"}", "{\"id\":\"67890\", \"type\":\"gyro\"}", "sensor"),
        ("/sessions", "{\"username\":\"eve\"}", "{\"session_id\":\"12345\", \"username\":\"eve\"}", "session"),
        (
            "/sessions-sensors",
            "{\"session_id\":7,\"sensor_id\":9}",
            "{\"id\":\"1\", \"session_id\":\"7\", \"sensor_id\":\"9\"}",
            "session sensor",
        ),
        (
            "/sessions-sensors-data",
            "{\"datetime\":\"now\",\"data_blob\":{}}",
            "{\"data_blob\":{},\"datetime\":\"now\",\"id\":0}",
            "session sensor data",
        ),
    ];
    for (target, body, made, kind) in cases {
        assert_eq!(mock("POST", target, None, Some(body)), is(HttpStatus::Created, made), "{target}");
        assert_eq!(
            refused("POST", target, None, Some(body)),
            is(HttpStatus::BadRequest, &format!("{{\"error\":\"Error creating {kind}.\"}}")),
            "{target}"
        );
    }
}

#[test]
fn posted_record_goes_through_insert_model() {
    let body = JsonValue::Object(vec![
        JsonMember { name: "username".to_string(), value: JsonValue::String("eve".to_string()) },
        JsonMember { name: "password_hash".to_string(), value: JsonValue::String("secret".to_string()) },
    ]);
    let made = User::insert_model(&MockDatabase::new(), Some(body.clone()));
    assert_eq!(made.status, HttpStatus::Created);
    assert_eq!(made.body, "{\"username\":\"eve\"}");
    let refused = User::insert_model(&Refusing, Some(body));
    assert_eq!(refused.status, HttpStatus::BadRequest);
    assert_eq!(refused.body, "{\"error\":\"Error creating user.\"}");
    let sensor = JsonValue::Object(vec![JsonMember {
        name: "type".to_string(),
        value: JsonValue::String("gyro".to_string()),
    }]);
    let made = Sensor::insert_model(&MockDatabase::new(), Some(sensor));
    assert_eq!(made.status, HttpStatus::Created);
    assert_eq!(made.body, "{\"id\":\"67890\", \"type\":\"gyro\"}");
    let missing = Sensor::insert_model(&MockDatabase::new(), None);
    assert_eq!(missing.status, HttpStatus::BadRequest);
    assert_eq!(missing.body, "{\"error\":\"Missing request body. Requires value \\\"type\\\": string\"}");
    let wrong = Session::insert_model(&MockDatabase::new(), Some(JsonValue::Null));
    assert_eq!(wrong.status, HttpStatus::BadRequest);
    assert_eq!(
        wrong.body,
        "{\"error\":\"Invalid request body.failed to parse to session.Error creating session.\"}"
    );
}

#[test]
fn interfaces_return_what_the_store_answers() {
    let mock = MockDatabase::new();
    assert_eq!(
        User::insert_interface(&mock, User::new("eve".to_string(), "secret".to_string())),
        Ok(User::new("eve".to_string(), "secret".to_string()))
    );
    assert_eq!(
        User::insert_interface(&Refusing, User::new("eve".to_string(), "secret".to_string())),
        Err("refused".to_string())
    );
    assert_eq!(
        Sensor::update_interface(&mock, "/5", Sensor::new(-1, String::new())),
        Ok(Sensor::new(5, "sensor_type".to_string()))
    );
    assert_eq!(
        Sensor::update_interface(&mock, "/5/rest", Sensor::new(8, "gyro".to_string())),
        Ok(Sensor::new(8, "gyro".to_string()))
    );
    assert_eq!(
        Sensor::update_interface(&Refusing, "/5", Sensor::new(8, "gyro".to_string())),
        Err("refused".to_string())
    );
    assert_eq!(Sensor::delete_interface(&mock, "/5"), Ok(()));
    assert_eq!(Sensor::delete_interface(&Refusing, "/5"), Err("refused".to_string()));
    assert_eq!(
        Sensor::delete_interface(&mock, "/five"),
        Err("Failed to parse id to i64: invalid digit found in string".to_string())
    );
    assert_eq!(
        Session::delete_interface(&Refusing, ""),
        Err("Missing identifier in path: ".to_string())
    );
    assert_eq!(User::delete_interface(&mock, "/eve"), Ok(()));
    assert_eq!(User::delete_interface(&Refusing, "/eve"), Err("refused".to_string()));
    assert_eq!(
        User::delete_interface(&mock, "eve"),
        Err("Missing identifier in path: eve".to_string())
    );
    assert_eq!(SessionSensorData::delete_interface(&mock, "/5/now"), Ok(()));
    assert_eq!(SessionSensorData::delete_interface(&Refusing, "/5/now"), Err("refused".to_string()));
    assert_eq!(
        SessionSensorData::delete_interface(&mock, "/5"),
        Err("Missing identifier in path: /5".to_string())
    );
    assert_eq!(
        SessionSensorData::delete_interface(&Refusing, "/x/now"),
        Err("Failed to parse id to i64: invalid digit found in string".to_string())
    );
}
