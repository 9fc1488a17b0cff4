//! Inbound console responses and their tolerant parsers.
//!
//! The console sends two families: typed responses discriminated by a
//! `responseType` string, and an untyped session-id response. The session-id
//! response is known to repeat keys (`forceLogin`, `worldIndex`) inside one
//! object; the parsers read the last occurrence of every key. Parsed string
//! values are kept as the raw frame bytes between their quotes.

use vstd::prelude::*;

use crate::json::{
    find_field, get_bool_field, get_i32_field, get_string_field, parse_bool_span, parse_i32_span,
    parse_string_span, spec_find_field, spec_get_bool_field, spec_get_i32_field,
    spec_get_string_field, spec_parse_bool_span, spec_parse_i32_span, spec_parse_string_span,
};

verus! {

/// The bytes of the key `responseType`.
pub open spec fn spec_key_response_type() -> Seq<u8> {
    seq![114u8, 101u8, 115u8, 112u8, 111u8, 110u8, 115u8, 101u8, 84u8, 121u8, 112u8, 101u8]
}

/// The bytes of the key `realtime`.
pub open spec fn spec_key_realtime() -> Seq<u8> {
    seq![114u8, 101u8, 97u8, 108u8, 116u8, 105u8, 109u8, 101u8]
}

/// The bytes of the key `session`.
pub open spec fn spec_key_session() -> Seq<u8> {
    seq![115u8, 101u8, 115u8, 115u8, 105u8, 111u8, 110u8]
}

/// The bytes of the key `forceLogin`.
pub open spec fn spec_key_force_login() -> Seq<u8> {
    seq![102u8, 111u8, 114u8, 99u8, 101u8, 76u8, 111u8, 103u8, 105u8, 110u8]
}

/// The bytes of the key `worldIndex`.
pub open spec fn spec_key_world_index() -> Seq<u8> {
    seq![119u8, 111u8, 114u8, 108u8, 100u8, 73u8, 110u8, 100u8, 101u8, 120u8]
}

/// The bytes of the key `result`.
pub open spec fn spec_key_result() -> Seq<u8> {
    seq![114u8, 101u8, 115u8, 117u8, 108u8, 116u8]
}

/// The bytes of the key `prompt`.
pub open spec fn spec_key_prompt() -> Seq<u8> {
    seq![112u8, 114u8, 111u8, 109u8, 112u8, 116u8]
}

/// The bytes of the key `promptcolor`.
pub open spec fn spec_key_prompt_color() -> Seq<u8> {
    seq![112u8, 114u8, 111u8, 109u8, 112u8, 116u8, 99u8, 111u8, 108u8, 111u8, 114u8]
}

/// The bytes of the key `status`.
pub open spec fn spec_key_status() -> Seq<u8> {
    seq![115u8, 116u8, 97u8, 116u8, 117u8, 115u8]
}

/// The bytes of the key `appType`.
pub open spec fn spec_key_app_type() -> Seq<u8> {
    seq![97u8, 112u8, 112u8, 84u8, 121u8, 112u8, 101u8]
}

fn key_response_type() -> (r: [u8; 12])
    ensures
        r@ =~= spec_key_response_type(),
{
    [114, 101, 115, 112, 111, 110, 115, 101, 84, 121, 112, 101]
}

fn key_realtime() -> (r: [u8; 8])
    ensures
        r@ =~= spec_key_realtime(),
{
    [114, 101, 97, 108, 116, 105, 109, 101]
}

fn key_session() -> (r: [u8; 7])
    ensures
        r@ =~= spec_key_session(),
{
    [115, 101, 115, 115, 105, 111, 110]
}

fn key_force_login() -> (r: [u8; 10])
    ensures
        r@ =~= spec_key_force_login(),
{
    [102, 111, 114, 99, 101, 76, 111, 103, 105, 110]
}

fn key_world_index() -> (r: [u8; 10])
    ensures
        r@ =~= spec_key_world_index(),
{
    [119, 111, 114, 108, 100, 73, 110, 100, 101, 120]
}

fn key_result() -> (r: [u8; 6])
    ensures
        r@ =~= spec_key_result(),
{
    [114, 101, 115, 117, 108, 116]
}

fn key_prompt() -> (r: [u8; 6])
    ensures
        r@ =~= spec_key_prompt(),
{
    [112, 114, 111, 109, 112, 116]
}

fn key_prompt_color() -> (r: [u8; 11])
    ensures
        r@ =~= spec_key_prompt_color(),
{
    [112, 114, 111, 109, 112, 116, 99, 111, 108, 111, 114]
}

fn key_status() -> (r: [u8; 6])
    ensures
        r@ =~= spec_key_status(),
{
    [115, 116, 97, 116, 117, 115]
}

fn key_app_type() -> (r: [u8; 7])
    ensures
        r@ =~= spec_key_app_type(),
{
    [97, 112, 112, 84, 121, 112, 101]
}

/// The envelope every typed frame carries: its `responseType` string.
pub struct ResponseWithExplicitType {
    /// Raw bytes of the `responseType` value.
    pub response_type: Vec<u8>,
}

impl ResponseWithExplicitType {
    /// Reads the envelope of a frame: succeeds exactly when the frame is
    /// one object whose last `responseType` member is a string.
    pub fn parse(s: &[u8]) -> (r: Option<ResponseWithExplicitType>)
        ensures
            r matches Some(env) ==> spec_get_string_field(s@, spec_key_response_type())
                == Some(env.response_type@),
            r is None ==> spec_get_string_field(s@, spec_key_response_type()) is None,
    {
        let key = key_response_type();
        match get_string_field(s, key.as_slice()) {
            Some(v) => Some(ResponseWithExplicitType { response_type: v }),
            None => None,
        }
    }
}

/// The untyped session-id response: `{ realtime, session, forceLogin?,
/// worldIndex? }`, duplicate keys tolerated with the last occurrence
/// winning.
#[derive(Clone, Copy, PartialEq, Eq, Structural, Debug)]
pub struct SessionIdResponse {
    pub realtime: bool,
    /// The server-assigned session id.
    pub session: i32,
    pub force_login: Option<bool>,
    pub world_index: Option<i32>,
}

/// What parsing a frame as a session-id response yields: `realtime` and
/// `session` must be present with their types; `forceLogin` and
/// `worldIndex` may be absent, but when present must parse.
pub open spec fn spec_parse_session_id_response(s: Seq<u8>) -> Option<SessionIdResponse> {
    match (spec_get_bool_field(s, spec_key_realtime()), spec_get_i32_field(s, spec_key_session())) {
        (Some(realtime), Some(session)) => {
            let force_login = match spec_find_field(s, spec_key_force_login()) {
                None => Some(None),
                Some(span) => match spec_parse_bool_span(s, span.0, span.1) {
                    None => None,
                    Some(b) => Some(Some(b)),
                },
            };
            let world_index = match spec_find_field(s, spec_key_world_index()) {
                None => Some(None),
                Some(span) => match spec_parse_i32_span(s, span.0, span.1) {
                    None => None,
                    Some(v) => Some(Some(v)),
                },
            };
            match (force_login, world_index) {
                (Some(fl), Some(wi)) => Some(
                    SessionIdResponse { realtime, session, force_login: fl, world_index: wi },
                ),
                _ => None,
            }
        },
        _ => None,
    }
}

impl SessionIdResponse {
    /// Parses a frame as a session-id response, per
    /// [`spec_parse_session_id_response`].
    pub fn parse(s: &[u8]) -> (r: Option<SessionIdResponse>)
        ensures
            r == spec_parse_session_id_response(s@),
    {
        let realtime_key = key_realtime();
        let realtime = match get_bool_field(s, realtime_key.as_slice()) {
            Some(b) => b,
            None => {
                return None;
            },
        };
        let session_key = key_session();
        let session = match get_i32_field(s, session_key.as_slice()) {
            Some(v) => v,
            None => {
                return None;
            },
        };
        let fl_key = key_force_login();
        let force_login = match find_field(s, fl_key.as_slice()) {
            None => None,
            Some((a, b)) => match parse_bool_span(s, a, b) {
                Some(v) => Some(v),
                None => {
                    return None;
                },
            },
        };
        let wi_key = key_world_index();
        let world_index = match find_field(s, wi_key.as_slice()) {
            None => None,
            Some((a, b)) => match parse_i32_span(s, a, b) {
                Some(v) => Some(v),
                None => {
                    return None;
                },
            },
        };
        Some(SessionIdResponse { realtime, session, force_login, world_index })
    }
}

/// The typed login response. Only `result` drives the client; the other
/// fields are carried for completeness.
pub struct LoginRequestResponse {
    pub realtime: bool,
    /// Raw bytes of the `responseType` value.
    pub response_type: Vec<u8>,
    /// Whether the credentials were accepted.
    pub result: bool,
    /// Raw bytes of the optional `prompt` string.
    pub prompt: Option<Vec<u8>>,
    /// Raw bytes of the optional `promptcolor` string.
    pub prompt_color: Option<Vec<u8>>,
    pub world_index: Option<i32>,
}

/// Whether a frame parses as a login response: `realtime`, `responseType`
/// and `result` present with their types, the optional fields parsing when
/// present.
pub open spec fn spec_login_response_ok(s: Seq<u8>) -> bool {
    &&& spec_get_bool_field(s, spec_key_realtime()) is Some
    &&& spec_get_string_field(s, spec_key_response_type()) is Some
    &&& spec_get_bool_field(s, spec_key_result()) is Some
    &&& match spec_find_field(s, spec_key_prompt()) {
        None => true,
        Some(span) => spec_parse_string_span(s, span.0, span.1) is Some,
    }
    &&& match spec_find_field(s, spec_key_prompt_color()) {
        None => true,
        Some(span) => spec_parse_string_span(s, span.0, span.1) is Some,
    }
    &&& match spec_find_field(s, spec_key_world_index()) {
        None => true,
        Some(span) => spec_parse_i32_span(s, span.0, span.1) is Some,
    }
}

impl LoginRequestResponse {
    /// Parses a frame as a login response; succeeds exactly on frames
    /// [`spec_login_response_ok`] admits, reading each field's last
    /// occurrence.
    pub fn parse(s: &[u8]) -> (r: Option<LoginRequestResponse>)
        ensures
            r is Some <==> spec_login_response_ok(s@),
            r matches Some(resp) ==> Some(resp.realtime) == spec_get_bool_field(
                s@,
                spec_key_realtime(),
            ) && Some(resp.response_type@) == spec_get_string_field(s@, spec_key_response_type())
                && Some(resp.result) == spec_get_bool_field(s@, spec_key_result()),
    {
        let realtime_key = key_realtime();
        let realtime = match get_bool_field(s, realtime_key.as_slice()) {
            Some(b) => b,
            None => {
                return None;
            },
        };
        let rt_key = key_response_type();
        let response_type = match get_string_field(s, rt_key.as_slice()) {
            Some(v) => v,
            None => {
                return None;
            },
        };
        let result_key = key_result();
        let result = match get_bool_field(s, result_key.as_slice()) {
            Some(b) => b,
            None => {
                return None;
            },
        };
        let prompt_key = key_prompt();
        let prompt = match find_field(s, prompt_key.as_slice()) {
            None => None,
            Some((a, b)) => match parse_string_span(s, a, b) {
                Some(v) => Some(v),
                None => {
                    return None;
                },
            },
        };
        let pc_key = key_prompt_color();
        let prompt_color = match find_field(s, pc_key.as_slice()) {
            None => None,
            Some((a, b)) => match parse_string_span(s, a, b) {
                Some(v) => Some(v),
                None => {
                    return None;
                },
            },
        };
        let wi_key = key_world_index();
        let world_index = match find_field(s, wi_key.as_slice()) {
            None => None,
            Some((a, b)) => match parse_i32_span(s, a, b) {
                Some(v) => Some(v),
                None => {
                    return None;
                },
            },
        };
        Some(
            LoginRequestResponse {
                realtime,
                response_type,
                result,
                prompt,
                prompt_color,
                world_index,
            },
        )
    }
}

/// The server's greeting frame. The client waits for one message before
/// requesting a session and does not check its body; the definition is kept
/// for completeness.
pub struct ConnectResponse {
    /// Raw bytes of the `status` string.
    pub status: Vec<u8>,
    /// Raw bytes of the `appType` string.
    pub app_type: Vec<u8>,
}

impl ConnectResponse {
    /// Parses a frame as a greeting: `status` and `appType` strings.
    pub fn parse(s: &[u8]) -> (r: Option<ConnectResponse>)
        ensures
            r is Some <==> (spec_get_string_field(s@, spec_key_status()) is Some
                && spec_get_string_field(s@, spec_key_app_type()) is Some),
            r matches Some(resp) ==> Some(resp.status@) == spec_get_string_field(
                s@,
                spec_key_status(),
            ) && Some(resp.app_type@) == spec_get_string_field(s@, spec_key_app_type()),
    {
        let status_key = key_status();
        let status = match get_string_field(s, status_key.as_slice()) {
            Some(v) => v,
            None => {
                return None;
            },
        };
        let at_key = key_app_type();
        let app_type = match get_string_field(s, at_key.as_slice()) {
            Some(v) => v,
            None => {
                return None;
            },
        };
        Some(ConnectResponse { status, app_type })
    }
}

/// A frame holding only the `realtime` flag.
#[derive(Clone, Copy, PartialEq, Eq, Structural, Debug)]
pub struct RealtimeResponse {
    pub realtime: bool,
}

} // verus!
