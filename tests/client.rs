use api_client::credentials::Credentials;
use api_client::format::{
    decimal_string, format_outcome, format_response, status_is_success, Endpoint, FormatError,
};
use api_client::json::{parse, str_member, to_pretty_string_literal, Json};
use api_client::menu::{
    build_request, command_of, menu_lines, parse_choice, parse_u32, request_failure_line, step,
    Action, Command, MenuEvent, MenuState,
};

fn creds(token: Option<&str>) -> Credentials {
    Credentials {
        email: "a@b.c".to_string(),
        password: "pw".to_string(),
        token: token.map(|t| t.to_string()),
    }
}

fn lines(v: &[&str]) -> Vec<String> {
    v.iter().map(|s| s.to_string()).collect()
}

const BASE: &str = "http://localhost:8000/api/v1/private/profile/my";

#[test]
fn each_choice_sends_its_url_with_two_headers() {
    let c = creds(Some("tok123"));
    let expected = [
        ("1", BASE.to_string(), Endpoint::Profile),
        ("2", format!("{}/documents", BASE), Endpoint::Documents),
        ("3", format!("{}/notifications", BASE), Endpoint::Notifications),
        ("4", format!("{}/devices", BASE), Endpoint::Devices),
    ];
    for (line, url, endpoint) in expected.iter() {
        let (state, action) = step(MenuState::AwaitingInput, &MenuEvent::Line(line.to_string()), &c);
        assert_eq!(state, MenuState::Dispatching(*endpoint));
        match action {
            Action::Send(r) => {
                assert_eq!(&r.url, url);
                assert_eq!(r.endpoint, *endpoint);
                assert_eq!(
                    r.headers,
                    vec![
                        ("Authorization".to_string(), "tok123".to_string()),
                        ("User-Agent".to_string(), "insomnia/8.4.0".to_string()),
                    ]
                );
            }
            _ => panic!("expected a request"),
        }
    }
}

#[test]
fn build_request_sends_raw_token() {
    let r = build_request(Endpoint::Devices, &"abc".to_string());
    assert_eq!(r.url, format!("{}/devices", BASE));
    assert_eq!(r.headers[0], ("Authorization".to_string(), "abc".to_string()));
    assert_eq!(r.headers.len(), 2);
}

#[test]
fn profile_greeting() {
    let out = format_response(Endpoint::Profile, r#"{"first_name":"Ann","id":"42"}"#);
    assert_eq!(out, Ok(lines(&["Hi, Ann!", "Your id: 42"])));
}

#[test]
fn profile_defaults_to_unknown() {
    let out = format_response(Endpoint::Profile, "{}");
    assert_eq!(out, Ok(lines(&["Hi, Unknown!", "Your id: Unknown"])));
}

#[test]
fn profile_non_string_fields_default() {
    let out = format_response(Endpoint::Profile, r#"{"first_name":7,"id":null}"#);
    assert_eq!(out, Ok(lines(&["Hi, Unknown!", "Your id: Unknown"])));
}

#[test]
fn profile_malformed_body_is_error() {
    assert_eq!(format_response(Endpoint::Profile, "{not json"), Err(FormatError::MalformedBody));
}

#[test]
fn notifications_one_block() {
    let out = format_response(
        Endpoint::Notifications,
        r#"[{"message":"m1","created_by":"a1","created_at":"t1"}]"#,
    );
    assert_eq!(
        out,
        Ok(lines(&[
            "Notifications:",
            "--------------",
            "Message: m1",
            "Author: a1",
            "Time: t1",
            "____________",
        ]))
    );
}

#[test]
fn notifications_empty() {
    assert_eq!(format_response(Endpoint::Notifications, "[]"), Ok(lines(&["Notifications:"])));
}

#[test]
fn notifications_defaults_and_non_array() {
    let out = format_response(Endpoint::Notifications, "[{}, {\"message\":\"x\"}]");
    assert_eq!(
        out,
        Ok(lines(&[
            "Notifications:",
            "--------------",
            "Message: No message",
            "Author: Unknown",
            "Time: Unknown",
            "____________",
            "--------------",
            "Message: x",
            "Author: Unknown",
            "Time: Unknown",
            "____________",
        ]))
    );
    assert_eq!(format_response(Endpoint::Notifications, "{\"a\":1}"), Ok(lines(&["Notifications:"])));
    assert_eq!(
        format_response(Endpoint::Notifications, "[1,"),
        Err(FormatError::MalformedBody)
    );
}

#[test]
fn other_endpoints_requote_body() {
    assert_eq!(format_response(Endpoint::Documents, "hello"), Ok(lines(&["\"hello\""])));
    assert_eq!(format_response(Endpoint::Devices, "\"hello\""), Ok(lines(&["\"\\\"hello\\\"\""])));
    assert_ne!(format_response(Endpoint::Documents, "hello"), Ok(lines(&["hello"])));
}

#[test]
fn string_literal_escapes() {
    assert_eq!(to_pretty_string_literal("a\"b\\\n\t\u{1}é"), "\"a\\\"b\\\\\\n\\t\\u0001é\"");
    assert_eq!(to_pretty_string_literal(""), "\"\"");
}

#[test]
fn failed_status_shows_code_only() {
    assert_eq!(format_outcome(Endpoint::Profile, 404, "not json"), Ok(lines(&["Error: 404"])));
    assert_eq!(format_outcome(Endpoint::Devices, 500, ""), Ok(lines(&["Error: 500"])));
    assert_eq!(format_outcome(Endpoint::Documents, 199, "x"), Ok(lines(&["Error: 199"])));
    assert_eq!(format_outcome(Endpoint::Documents, 299, "x"), Ok(lines(&["\"x\""])));
    assert!(status_is_success(200));
    assert!(!status_is_success(300));
}

#[test]
fn decimal_status() {
    assert_eq!(decimal_string(0), "0");
    assert_eq!(decimal_string(404), "404");
    assert_eq!(decimal_string(65535), "65535");
}

#[test]
fn no_token_reports_and_returns() {
    let c = creds(None);
    for line in ["1", "2", "3", "4"] {
        let (state, action) = step(MenuState::AwaitingInput, &MenuEvent::Line(line.to_string()), &c);
        assert_eq!(state, MenuState::AwaitingInput);
        assert!(matches!(action, Action::MissingToken));
        assert_eq!(action.message(), Some("Error: No authentication token found.".to_string()));
    }
}

#[test]
fn exit_choice_stops() {
    let c = creds(Some("t"));
    let (state, action) = step(MenuState::AwaitingInput, &MenuEvent::Line("5\n".to_string()), &c);
    assert_eq!(state, MenuState::Exiting);
    assert!(matches!(action, Action::Exit));
    assert_eq!(action.message(), Some("Exiting...".to_string()));
    let (state, action) = step(state, &MenuEvent::Line("1".to_string()), &c);
    assert_eq!(state, MenuState::Exiting);
    assert!(matches!(action, Action::Stop));
}

#[test]
fn invalid_choices_exit() {
    let c = creds(Some("t"));
    for line in ["abc", "0", "6", "", "-1", "4294967296", "1.0"] {
        let (state, action) = step(MenuState::AwaitingInput, &MenuEvent::Line(line.to_string()), &c);
        assert_eq!(state, MenuState::Exiting);
        assert!(matches!(action, Action::InvalidChoice));
        assert_eq!(action.message(), Some("Invalid choice".to_string()));
    }
}

#[test]
fn request_done_returns_to_menu() {
    let c = creds(Some("t"));
    let (state, action) = step(MenuState::Dispatching(Endpoint::Profile), &MenuEvent::RequestDone, &c);
    assert_eq!(state, MenuState::AwaitingInput);
    assert!(matches!(action, Action::Prompt));
}

#[test]
fn choice_parsing() {
    assert_eq!(parse_choice("  3 \n"), Some(3));
    assert_eq!(parse_choice("+2"), Some(2));
    assert_eq!(parse_choice("007"), Some(7));
    assert_eq!(parse_u32("4294967295"), Some(4294967295));
    assert_eq!(parse_u32("4294967296"), None);
    assert_eq!(parse_u32("+"), None);
    assert_eq!(parse_u32("1a"), None);
    assert_eq!(command_of(Some(5)), Command::Exit);
    assert_eq!(command_of(Some(9)), Command::Invalid);
    assert_eq!(command_of(None), Command::Invalid);
}

#[test]
fn menu_text() {
    assert_eq!(
        menu_lines(),
        lines(&[
            "",
            "Choose an action:",
            "1. Get my profile",
            "2. Get my documents",
            "3. Get notifications",
            "4. Get connected devices",
            "5. Exit",
        ])
    );
    assert_eq!(
        request_failure_line(Endpoint::Devices, "timeout"),
        "Error making connected devices request: timeout"
    );
}

#[test]
fn credentials_from_text() {
    let c = Credentials::from_text(r#"{"email":"e","password":"p","token":"t"}"#).unwrap();
    assert_eq!((c.email.as_str(), c.password.as_str(), c.token.as_deref()), ("e", "p", Some("t")));
    let c = Credentials::from_text(r#"{"email":"e","password":"p","token":null}"#).unwrap();
    assert_eq!(c.token, None);
    assert!(!c.has_token());
    let c = Credentials::from_text(r#"{"email":"e","password":"p"}"#).unwrap();
    assert_eq!(c.token, None);
    assert!(Credentials::from_text(r#"{"password":"p"}"#).is_none());
    assert!(Credentials::from_text(r#"{"email":"e","password":"p","token":5}"#).is_none());
    assert!(Credentials::from_text("not json").is_none());
}

#[test]
fn json_lookup() {
    let j = parse(r#"{"a":"x","b":[1,true,null]}"#).unwrap();
    assert_eq!(str_member(&j, &"a".to_string()), Some(&"x".to_string()));
    assert_eq!(str_member(&j, &"b".to_string()), None);
    assert!(matches!(parse("[1, true, null]"), Some(Json::Array(v)) if v.len() == 3));
    assert!(parse("").is_none());
}
