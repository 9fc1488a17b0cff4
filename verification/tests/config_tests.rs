use midi_ma_bridge::config::{ButtonPosition, Config};
use midi_ma_bridge::ma_interface::ButtonValue;
use midi_ma_bridge::requests::{
    ButtonInputRequest, LoginRequest, PlaybacksRequest, RequestType, SessionIdRequest,
};
use midi_ma_bridge::ma_interface::LoginCredentials;

#[test]
fn default_config_values() {
    let config = Config::default();
    assert_eq!(config.console_ip, "192.168.178.71");
    assert_eq!(config.console_username, "remote");
    assert_eq!(config.console_password, "remote");
    assert!(config.midi_devices.is_empty());
    assert_eq!(config.ma_poll_interval, 10);
}

#[test]
fn session_request_constructors() {
    assert_eq!(SessionIdRequest::new_unknown_session().session, 0);
    assert_eq!(SessionIdRequest::new(&17).session, 17);
    assert_eq!(SessionIdRequest::new(&-4).to_json(), "{\"session\":-4}");
    assert_eq!(SessionIdRequest::new_unknown_session().to_json(), "{\"session\":0}");
}

#[test]
fn login_request_carries_credentials() {
    let creds = LoginCredentials::from_plaintext("user", "secret");
    let request = LoginRequest::new(&creds, &12);
    assert_eq!(request.request_type, "login");
    assert_eq!(request.username, "user");
    assert_eq!(request.password, creds.password_hash);
    assert_eq!(request.session, 12);
    assert_eq!(request.max_requests, 10);
}

#[test]
fn login_request_escapes_the_username() {
    let creds = LoginCredentials {
        username: "a\"b\\c".to_string(),
        password_hash: "00".to_string(),
    };
    let request = LoginRequest::new(&creds, &1);
    assert_eq!(
        request.to_json(),
        "{\"requestType\":\"login\",\"username\":\"a\\\"b\\\\c\",\"password\":\"00\",\"session\":1,\"maxRequests\":10}"
    );
}

#[test]
fn login_request_escapes_control_characters() {
    let creds = LoginCredentials {
        username: "a\nb".to_string(),
        password_hash: "00".to_string(),
    };
    let request = LoginRequest::new(&creds, &1);
    assert_eq!(
        request.to_json(),
        "{\"requestType\":\"login\",\"username\":\"a\\u000ab\",\"password\":\"00\",\"session\":1,\"maxRequests\":10}"
    );
}

#[test]
fn playbacks_request_defaults() {
    let request = PlaybacksRequest::new(&3);
    assert_eq!(request.request_type, "playbacks");
    assert_eq!(request.start_index, vec![0]);
    assert_eq!(request.items_count, vec![10]);
    assert_eq!(request.page_index, 0);
    assert_eq!(request.items_type, vec![2]);
    assert_eq!(request.view, 2);
    assert_eq!(request.exec_button_view_mode, 2);
    assert_eq!(request.buttons_view_mode, 0);
    assert_eq!(request.session, 3);
}

#[test]
fn button_input_request_maps_positions() {
    let top = ButtonValue { exec_index: 1, button_value: true, position: ButtonPosition::Top };
    assert_eq!(ButtonInputRequest::new(0, &top, 0).button_id, 2);
    let mid = ButtonValue { exec_index: 1, button_value: true, position: ButtonPosition::Mid };
    assert_eq!(ButtonInputRequest::new(0, &mid, 0).button_id, 1);
    let bottom =
        ButtonValue { exec_index: 1, button_value: false, position: ButtonPosition::Bottom };
    let request = ButtonInputRequest::new(0, &bottom, 0);
    assert_eq!(request.button_id, 0);
    assert!(!request.pressed);
    assert!(request.released);
    assert_eq!(request.input_type, 0);
    assert_eq!(request.cmdline, "");
}

#[test]
fn request_type_round_trip() {
    assert_eq!(RequestType::from_bytes(b"login"), Ok(RequestType::Login));
    assert_eq!(RequestType::from_bytes(b"playbacks"), Ok(RequestType::Playbacks));
    assert_eq!(RequestType::from_bytes(b"command"), Ok(RequestType::Command));
    assert_eq!(RequestType::from_bytes(b"close"), Ok(RequestType::Close));
    assert_eq!(RequestType::from_bytes(b"other"), Err(()));
    assert_eq!(RequestType::Playbacks.to_string(), "playbacks");
    assert_eq!(RequestType::Login.to_string(), "login");
    assert_eq!(RequestType::Command.to_string(), "command");
    assert_eq!(RequestType::Close.to_string(), "close");
}
