use midi_ma_bridge::config::ButtonPosition;
use midi_ma_bridge::ma_interface::{
    receive_message, ButtonValue, ClientAction, ClientError, LoginCredentials, MaInterface,
    RoutedMessage, ws_url_string,
};
use midi_ma_bridge::normalized::Normalized;

fn credentials() -> LoginCredentials {
    LoginCredentials::from_plaintext("remote", "remote")
}

fn frames_of(actions: &[ClientAction]) -> Vec<String> {
    actions
        .iter()
        .filter_map(|a| match a {
            ClientAction::SendFrame(f) => Some(f.clone()),
            _ => None,
        })
        .collect()
}

/// Drives a fresh client through hello, session assignment and login.
fn run_handshake(client: &mut MaInterface, session: i32) {
    let hello = client.on_frame(br#"{"status":"ok","appType":"gma2"}"#).unwrap();
    assert_eq!(frames_of(&hello), vec!["{\"session\":0}".to_string()]);
    let session_frame = format!("{{\"realtime\":true,\"session\":{}}}", session);
    let actions = client.on_frame(session_frame.as_bytes()).unwrap();
    assert!(matches!(actions[0], ClientAction::StartKeepAlive));
    let login = client
        .on_frame(br#"{"realtime":true,"responseType":"login","result":true}"#)
        .unwrap();
    assert!(login.is_empty());
}

#[test]
fn session_zero_is_the_only_pre_session_frame() {
    // the first and only frame before the session id arrives is {"session":0}
    let mut client = MaInterface::new(credentials());
    assert!(client.on_keep_alive_tick().is_err());
    assert!(client.make_poll_request().is_err());
    assert!(client.send_fader_value(0, 0, Normalized::new(1, 2)).is_err());
    let actions = client.on_frame(b"hello").unwrap();
    let frames = frames_of(&actions);
    assert_eq!(frames, vec!["{\"session\":0}".to_string()]);
    // an unrelated frame while waiting for the session id sends nothing
    let actions = client.on_frame(b"\"noise\"").unwrap();
    assert!(frames_of(&actions).is_empty());
    assert!(client.on_keep_alive_tick().is_err());
    assert!(client.make_poll_request().is_err());
}

#[test]
fn session_response_triggers_keepalive_and_login() {
    let mut client = MaInterface::new(credentials());
    client.on_frame(b"hello").unwrap();
    let actions = client
        .on_frame(br#"{"realtime":true,"session":7,"forceLogin":true}"#)
        .unwrap();
    assert_eq!(actions.len(), 2);
    assert!(matches!(actions[0], ClientAction::StartKeepAlive));
    let expected_hash = format!("{:x}", md5::compute("remote"));
    let expected = format!(
        "{{\"requestType\":\"login\",\"username\":\"remote\",\"password\":\"{}\",\"session\":7,\"maxRequests\":10}}",
        expected_hash
    );
    assert_eq!(frames_of(&actions), vec![expected]);
    assert_eq!(client.get_session_id(), 7);
}

#[test]
fn duplicate_keys_take_the_last_occurrence() {
    // the console is known to repeat forceLogin / worldIndex inside the
    // session-id response
    let mut client = MaInterface::new(credentials());
    client.on_frame(b"hello").unwrap();
    let frame =
        br#"{"realtime":true,"session":3,"forceLogin":true,"worldIndex":1,"session":9,"worldIndex":2}"#;
    client.on_frame(frame).unwrap();
    assert_eq!(client.get_session_id(), 9);
}

#[test]
fn keep_alive_carries_the_session_id() {
    let mut client = MaInterface::new(credentials());
    run_handshake(&mut client, 42);
    assert_eq!(client.on_keep_alive_tick().unwrap(), "{\"session\":42}");
}

#[test]
fn login_failure_is_fatal() {
    let mut client = MaInterface::new(credentials());
    client.on_frame(b"hello").unwrap();
    client.on_frame(br#"{"realtime":true,"session":7}"#).unwrap();
    let verdict = client.on_frame(br#"{"responseType":"login","result":false,"realtime":true}"#);
    assert!(matches!(verdict, Err(ClientError::InvalidCredentials)));
    // a failed client stays failed and sends nothing
    let after = client.on_frame(br#"{"responseType":"login","result":true,"realtime":true}"#);
    assert!(after.unwrap().is_empty());
    assert!(client.make_poll_request().is_err());
}

#[test]
fn poll_request_has_the_documented_shape() {
    let mut client = MaInterface::new(credentials());
    run_handshake(&mut client, 7);
    let expected = "{\"requestType\":\"playbacks\",\"startIndex\":[0],\"itemsCount\":[10],\
                    \"pageIndex\":0,\"itemsType\":[2],\"view\":2,\"execButtonViewMode\":2,\
                    \"buttonsViewMode\":0,\"session\":7}";
    assert_eq!(client.make_poll_request().unwrap(), expected);
}

#[test]
fn fader_value_frame_renders_the_level() {
    let mut client = MaInterface::new(credentials());
    run_handshake(&mut client, 7);
    let frame = client.send_fader_value(3, 0, Normalized::new(64, 127)).unwrap();
    let expected = "{\"requestType\":\"playbacks_userInput\",\"execIndex\":3,\"pageIndex\":0,\
                    \"faderValue\":0.503937,\"type\":1,\"session\":7}";
    assert_eq!(frame, expected);
}

#[test]
fn button_frame_renders_press_and_position() {
    let mut client = MaInterface::new(credentials());
    run_handshake(&mut client, 7);
    let button = ButtonValue { exec_index: 5, button_value: true, position: ButtonPosition::Mid };
    let frame = client.send_button_value(&button, 0).unwrap();
    let expected = "{\"requestType\":\"playbacks_userInput\",\"execIndex\":5,\"pageIndex\":0,\
                    \"cmdline\":\"\",\"buttonId\":1,\"pressed\":true,\"released\":false,\
                    \"type\":0,\"session\":7}";
    assert_eq!(frame, expected);
}

#[test]
fn playbacks_frames_reach_the_poll_waiter_while_running() {
    let mut client = MaInterface::new(credentials());
    run_handshake(&mut client, 7);
    let actions = client
        .on_frame(br#"{"realtime":false,"responseType":"playbacks","responseSubType":2,"iPage":0,"itemGroups":[]}"#)
        .unwrap();
    assert_eq!(actions.len(), 1);
    assert!(matches!(actions[0], ClientAction::DeliverPlaybacks));
}

#[test]
fn demux_routes_by_response_type() {
    assert!(matches!(
        receive_message(br#"{"responseType":"login","result":true,"realtime":true}"#),
        RoutedMessage::Login(_)
    ));
    assert!(matches!(
        receive_message(br#"{"responseType":"playbacks","itemGroups":[]}"#),
        RoutedMessage::Playbacks
    ));
    assert!(matches!(
        receive_message(br#"{"realtime":true,"session":5}"#),
        RoutedMessage::SessionId(_)
    ));
    // recognized but unrouted types are dropped silently
    assert!(matches!(
        receive_message(br#"{"responseType":"command"}"#),
        RoutedMessage::Dropped
    ));
    assert!(matches!(receive_message(br#"{"responseType":"close"}"#), RoutedMessage::Dropped));
    // so is a typed frame whose body does not parse
    assert!(matches!(
        receive_message(br#"{"responseType":"login","realtime":true}"#),
        RoutedMessage::Dropped
    ));
    // and unknown types and unparseable frames
    assert!(matches!(
        receive_message(br#"{"responseType":"somethingelse"}"#),
        RoutedMessage::Dropped
    ));
    assert!(matches!(receive_message(b""), RoutedMessage::Dropped));
    assert!(matches!(receive_message(b"not json"), RoutedMessage::Dropped));
}

#[test]
fn frame_failures_never_tear_down_the_session() {
    // a malformed typed frame or an unrouted type is ignored; the session
    // keeps running
    let mut client = MaInterface::new(credentials());
    run_handshake(&mut client, 7);
    let r = client.on_frame(br#"{"responseType":"login","realtime":true}"#).unwrap();
    assert!(r.is_empty());
    let r = client.on_frame(br#"{"responseType":"command"}"#).unwrap();
    assert!(r.is_empty());
    let r = client.on_frame(b"garbage").unwrap();
    assert!(r.is_empty());
    assert!(client.make_poll_request().is_ok());
}

#[test]
fn reconnect_runs_the_handshake_again() {
    // after a network failure the bridge drops the client and builds a new
    // one over the same credentials; the fresh machine starts from the
    // greeting again
    let mut client = MaInterface::new(credentials());
    run_handshake(&mut client, 7);
    drop(client);
    let mut second = MaInterface::new(credentials());
    run_handshake(&mut second, 8);
    assert_eq!(second.on_keep_alive_tick().unwrap(), "{\"session\":8}");
}

#[test]
fn ws_url_prepends_the_scheme() {
    assert_eq!(ws_url_string("192.168.178.71:8080"), "ws://192.168.178.71:8080");
}

#[test]
fn password_is_hashed_to_lowercase_hex() {
    // the digest of the empty string pins the wrapper down
    let creds = LoginCredentials::from_plaintext("user", "");
    assert_eq!(creds.password_hash, "d41d8cd98f00b204e9800998ecf8427e");
    let creds = LoginCredentials::from_plaintext("user", "remote");
    assert_eq!(creds.password_hash, format!("{:x}", md5::compute("remote")));
    assert_eq!(creds.username, "user");
}
