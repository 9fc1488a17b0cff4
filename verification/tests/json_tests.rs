use midi_ma_bridge::json::{find_field, get_bool_field, get_i32_field, get_string_field};
use midi_ma_bridge::responses::{
    ConnectResponse, LoginRequestResponse, ResponseWithExplicitType, SessionIdResponse,
};

#[test]
fn finds_top_level_fields_only() {
    let frame = br#"{"a":{"session":1},"session":2,"b":[{"session":3}]}"#;
    assert_eq!(get_i32_field(frame, b"session"), Some(2));
}

#[test]
fn last_occurrence_wins() {
    let frame = br#"{"session":1,"x":0,"session":5}"#;
    assert_eq!(get_i32_field(frame, b"session"), Some(5));
}

#[test]
fn skips_strings_with_brackets_and_escapes() {
    let frame = br#"{"label":"a}b\"c{","flag":true}"#;
    assert_eq!(get_bool_field(frame, b"flag"), Some(true));
    assert_eq!(get_string_field(frame, b"label").unwrap(), b"a}b\\\"c{".to_vec());
}

#[test]
fn tolerates_whitespace() {
    let frame = b" { \"realtime\" : true , \"session\" : 9 } ";
    assert_eq!(get_bool_field(frame, b"realtime"), Some(true));
    assert_eq!(get_i32_field(frame, b"session"), Some(9));
}

#[test]
fn negative_and_out_of_range_integers() {
    assert_eq!(get_i32_field(br#"{"n":-12}"#, b"n"), Some(-12));
    assert_eq!(get_i32_field(br#"{"n":2147483647}"#, b"n"), Some(2147483647));
    assert_eq!(get_i32_field(br#"{"n":-2147483648}"#, b"n"), Some(-2147483648));
    assert_eq!(get_i32_field(br#"{"n":2147483648}"#, b"n"), None);
    assert_eq!(get_i32_field(br#"{"n":99999999999999}"#, b"n"), None);
    assert_eq!(get_i32_field(br#"{"n":1.5}"#, b"n"), None);
    assert_eq!(get_i32_field(br#"{"n":"5"}"#, b"n"), None);
}

#[test]
fn malformed_objects_are_refused() {
    assert_eq!(find_field(b"", b"a"), None);
    assert_eq!(find_field(b"[1,2]", b"a"), None);
    assert_eq!(find_field(b"{\"a\":1", b"a"), None);
    assert_eq!(find_field(b"{\"a\" 1}", b"a"), None);
    assert_eq!(find_field(b"{\"a\":\"unterminated}", b"a"), None);
}

#[test]
fn missing_field_is_none() {
    assert_eq!(get_i32_field(br#"{"a":1}"#, b"b"), None);
}

#[test]
fn session_id_response_requires_realtime_and_session() {
    let ok = SessionIdResponse::parse(br#"{"realtime":true,"session":5}"#).unwrap();
    assert!(ok.realtime);
    assert_eq!(ok.session, 5);
    assert_eq!(ok.force_login, None);
    assert_eq!(ok.world_index, None);
    let full = SessionIdResponse::parse(
        br#"{"realtime":false,"session":5,"forceLogin":true,"worldIndex":3}"#,
    )
    .unwrap();
    assert_eq!(full.force_login, Some(true));
    assert_eq!(full.world_index, Some(3));
    assert!(SessionIdResponse::parse(br#"{"realtime":true}"#).is_none());
    assert!(SessionIdResponse::parse(br#"{"session":5}"#).is_none());
    // a present optional field must still parse
    assert!(SessionIdResponse::parse(br#"{"realtime":true,"session":5,"forceLogin":7}"#).is_none());
}

#[test]
fn session_id_response_with_duplicate_world_index() {
    // the server sometimes repeats worldIndex; the last occurrence counts
    let resp = SessionIdResponse::parse(
        br#"{"realtime":true,"session":5,"worldIndex":1,"worldIndex":2}"#,
    )
    .unwrap();
    assert_eq!(resp.world_index, Some(2));
}

#[test]
fn login_response_fields() {
    let resp = LoginRequestResponse::parse(
        br#"{"realtime":true,"responseType":"login","result":true,"prompt":"hi","promptcolor":"ffffff","worldIndex":0}"#,
    )
    .unwrap();
    assert!(resp.result);
    assert!(resp.realtime);
    assert_eq!(resp.response_type, b"login".to_vec());
    assert_eq!(resp.prompt.unwrap(), b"hi".to_vec());
    assert_eq!(resp.prompt_color.unwrap(), b"ffffff".to_vec());
    assert_eq!(resp.world_index, Some(0));
    assert!(LoginRequestResponse::parse(br#"{"responseType":"login","result":true}"#).is_none());
}

#[test]
fn envelope_reads_response_type() {
    let env = ResponseWithExplicitType::parse(br#"{"responseType":"playbacks","x":[1,2]}"#)
        .unwrap();
    assert_eq!(env.response_type, b"playbacks".to_vec());
    assert!(ResponseWithExplicitType::parse(br#"{"realtime":true}"#).is_none());
}

#[test]
fn connect_response_reads_status_and_app_type() {
    let resp = ConnectResponse::parse(br#"{"status":"server ready","appType":"gma2"}"#).unwrap();
    assert_eq!(resp.status, b"server ready".to_vec());
    assert_eq!(resp.app_type, b"gma2".to_vec());
    assert!(ConnectResponse::parse(br#"{"status":"x"}"#).is_none());
}
