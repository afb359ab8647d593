use tcp_server::http::{HttpPath, PathKind};

fn path(text: &str) -> HttpPath {
    HttpPath::from_string(text.to_string())
}

#[test]
fn known_prefix_gives_its_variant_with_the_remainder() {
    assert_eq!(path("/users/alice"), HttpPath::User("/alice".to_string()));
    assert_eq!(path("/users"), HttpPath::User(String::new()));
    assert_eq!(path("/users/"), HttpPath::User("/".to_string()));
    assert_eq!(path("/authentication/login"), HttpPath::Authentication("/login".to_string()));
    assert_eq!(path("/sensors/17"), HttpPath::Sensor("/17".to_string()));
    assert_eq!(path("/sessions/id/4"), HttpPath::Session("/id/4".to_string()));
    assert_eq!(path("/sessions-sensors/session/1"), HttpPath::SessionSensor("/session/1".to_string()));
    assert_eq!(
        path("/sessions-sensors-data/session/42"),
        HttpPath::SessionSensorData("/session/42".to_string())
    );
}

#[test]
fn index_is_the_single_slash() {
    assert_eq!(path("/"), HttpPath::Index(String::new()));
    assert_eq!(path("//x"), HttpPath::Index("/x".to_string()));
}

#[test]
fn unknown_prefix_is_not_found_with_the_whole_path() {
    assert_eq!(path("/unknown"), HttpPath::NotFound("/unknown".to_string()));
    assert_eq!(path("/unknown/deep/er"), HttpPath::NotFound("/unknown/deep/er".to_string()));
    assert_eq!(path("/user"), HttpPath::NotFound("/user".to_string()));
    assert_eq!(path("/usersx/1"), HttpPath::NotFound("/usersx/1".to_string()));
    assert_eq!(path("users"), HttpPath::NotFound("users".to_string()));
}

#[test]
fn empty_path_is_not_found() {
    assert_eq!(path(""), HttpPath::NotFound(String::new()));
}

#[test]
fn first_character_counts_as_the_leading_slash() {
    assert_eq!(path("xusers/alice"), HttpPath::User("/alice".to_string()));
    assert_eq!(path("\u{e9}users/alice"), HttpPath::User("/alice".to_string()));
}

#[test]
fn path_writes_back_prefix_and_subpath() {
    assert_eq!(path("/users/alice").to_string(), "/users/alice");
    assert_eq!(path("/users/alice").base_path(), "/users");
    assert_eq!(path("/nothing/here").to_string(), "/nothing/here");
    assert_eq!(path("/nothing/here").base_path(), "");
    assert_eq!(path("/").to_string(), "/");
    assert_eq!(HttpPath::SessionSensorData("/batch".to_string()).to_string(), "/sessions-sensors-data/batch");
}

#[test]
fn path_kind_and_subpath_are_read_back() {
    let p = path("/sensors/3/x");
    assert_eq!(p.kind(), PathKind::Sensor);
    assert_eq!(p.subpath(), "/3/x");
    assert_eq!(p.clone(), p);
}

#[test]
fn variants_are_the_eight_routes_in_order() {
    let v = HttpPath::variants();
    assert_eq!(v.len(), 8);
    assert_eq!(v[0], HttpPath::Index(String::new()));
    assert_eq!(v[1], HttpPath::NotFound(String::new()));
    assert_eq!(v[2], HttpPath::Authentication(String::new()));
    assert_eq!(v[3], HttpPath::User(String::new()));
    assert_eq!(v[4], HttpPath::Sensor(String::new()));
    assert_eq!(v[5], HttpPath::Session(String::new()));
    assert_eq!(v[6], HttpPath::SessionSensor(String::new()));
    assert_eq!(v[7], HttpPath::SessionSensorData(String::new()));
    let bases: Vec<String> = v.iter().map(|p| p.base_path()).collect();
    assert_eq!(
        bases,
        vec![
            "/",
            "",
            "/authentication",
            "/users",
            "/sensors",
            "/sessions",
            "/sessions-sensors",
            "/sessions-sensors-data"
        ]
    );
}

#[test]
fn subsection_counts_segments_after_the_leading_slash() {
    assert_eq!(HttpPath::subsection("/session/42", 0), Some("session"));
    assert_eq!(HttpPath::subsection("/session/42", 1), Some("42"));
    assert_eq!(HttpPath::subsection("/session/42", 2), None);
    assert_eq!(HttpPath::subsection("/session/42", 5), None);
    assert_eq!(HttpPath::subsection("", 0), None);
}

#[test]
fn subsection_edge_cases() {
    assert_eq!(HttpPath::subsection("/", 0), Some(""));
    assert_eq!(HttpPath::subsection("/a/", 1), Some(""));
    assert_eq!(HttpPath::subsection("/a//b", 1), Some(""));
    assert_eq!(HttpPath::subsection("/a//b", 2), Some("b"));
    assert_eq!(HttpPath::subsection("a/b", 0), Some("b"));
    assert_eq!(HttpPath::subsection("a", 0), None);
    assert_eq!(HttpPath::subsection("/a", usize::MAX), None);
    assert_eq!(HttpPath::subsection("/\u{e9}t\u{e9}/\u{4e16}", 0), Some("\u{e9}t\u{e9}"));
    assert_eq!(HttpPath::subsection("/\u{e9}t\u{e9}/\u{4e16}", 1), Some("\u{4e16}"));
}
