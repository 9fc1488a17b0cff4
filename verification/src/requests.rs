//! Outbound console requests and their wire form.
//!
//! Every request is serialized by a verified builder whose contract gives
//! the exact character sequence of the JSON text, field for field in the
//! order the console expects.

use vstd::prelude::*;

use crate::config::ButtonPosition;
use crate::json::{
    append_escaped, append_i32, append_u32_array, append_u64, append_digit, spec_escape,
    spec_digit_char, spec_int_digits, spec_nat_digits, spec_u32_array,
};
use crate::ma_interface::{ButtonValue, LoginCredentials};
use crate::normalized::Normalized;

verus! {

/// The response families the console discriminates by its `responseType` /
/// `requestType` string.
#[derive(Clone, Copy, PartialEq, Eq, Structural, Debug)]
pub enum RequestType {
    Command,
    Login,
    Playbacks,
    Close,
}

/// The `requestType` string bytes of each family, as they stand on the
/// wire.
pub open spec fn spec_request_type_of(s: Seq<u8>) -> Option<RequestType> {
    if s =~= seq![99u8, 111u8, 109u8, 109u8, 97u8, 110u8, 100u8] {
        Some(RequestType::Command)
    } else if s =~= seq![108u8, 111u8, 103u8, 105u8, 110u8] {
        Some(RequestType::Login)
    } else if s =~= seq![112u8, 108u8, 97u8, 121u8, 98u8, 97u8, 99u8, 107u8, 115u8] {
        Some(RequestType::Playbacks)
    } else if s =~= seq![99u8, 108u8, 111u8, 115u8, 101u8] {
        Some(RequestType::Close)
    } else {
        None
    }
}

impl RequestType {
    /// Recognizes a raw `responseType` value: `command`, `login`,
    /// `playbacks` or `close`; anything else is refused.
    pub fn from_bytes(s: &[u8]) -> (r: Result<RequestType, ()>)
        ensures
            r matches Ok(t) ==> spec_request_type_of(s@) == Some(t),
            r is Err ==> spec_request_type_of(s@) is None,
    {
        if s.len() == 7 && s[0] == 99 && s[1] == 111 && s[2] == 109 && s[3] == 109 && s[4] == 97
            && s[5] == 110 && s[6] == 100 {
            proof {
                assert(s@ =~= seq![99u8, 111u8, 109u8, 109u8, 97u8, 110u8, 100u8]);
            }
            Ok(RequestType::Command)
        } else if s.len() == 5 && s[0] == 108 && s[1] == 111 && s[2] == 103 && s[3] == 105 && s[4]
            == 110 {
            proof {
                assert(s@ =~= seq![108u8, 111u8, 103u8, 105u8, 110u8]);
            }
            Ok(RequestType::Login)
        } else if s.len() == 9 && s[0] == 112 && s[1] == 108 && s[2] == 97 && s[3] == 121 && s[4]
            == 98 && s[5] == 97 && s[6] == 99 && s[7] == 107 && s[8] == 115 {
            proof {
                assert(s@ =~= seq![112u8, 108u8, 97u8, 121u8, 98u8, 97u8, 99u8, 107u8, 115u8]);
            }
            Ok(RequestType::Playbacks)
        } else if s.len() == 5 && s[0] == 99 && s[1] == 108 && s[2] == 111 && s[3] == 115 && s[4]
            == 101 {
            proof {
                assert(s@ =~= seq![99u8, 108u8, 111u8, 115u8, 101u8]);
            }
            Ok(RequestType::Close)
        } else {
            proof {
                if s@.len() == 7 {
                    assert(!(s@ =~= seq![99u8, 111u8, 109u8, 109u8, 97u8, 110u8, 100u8]));
                }
                if s@.len() == 5 {
                    assert(!(s@ =~= seq![108u8, 111u8, 103u8, 105u8, 110u8]));
                    assert(!(s@ =~= seq![99u8, 108u8, 111u8, 115u8, 101u8]));
                }
                if s@.len() == 9 {
                    assert(!(s@ =~= seq![112u8, 108u8, 97u8, 121u8, 98u8, 97u8, 99u8, 107u8, 115u8]));
                }
            }
            Err(())
        }
    }

    /// The family's `requestType` string.
    pub fn to_string(&self) -> (r: String)
        ensures
            *self is Command ==> r@ == "command"@,
            *self is Login ==> r@ == "login"@,
            *self is Playbacks ==> r@ == "playbacks"@,
            *self is Close ==> r@ == "close"@,
    {
        match self {
            RequestType::Command => "command".to_owned(),
            RequestType::Login => "login".to_owned(),
            RequestType::Playbacks => "playbacks".to_owned(),
            RequestType::Close => "close".to_owned(),
        }
    }
}

/// The wire form of a session-id request: `{"session":N}`. With `N == 0`
/// it asks the server to assign a session id; with the current id it is
/// also the keep-alive frame.
pub open spec fn spec_session_request_json(session: int) -> Seq<char> {
    "{\"session\":"@ + spec_int_digits(session) + "}"@
}

/// The session-id request / keep-alive frame.
#[derive(Clone, Copy, PartialEq, Eq, Structural, Debug)]
pub struct SessionIdRequest {
    pub session: i32,
}

impl SessionIdRequest {
    pub fn new(id: &i32) -> (r: SessionIdRequest)
        ensures
            r.session == *id,
    {
        SessionIdRequest { session: *id }
    }

    /// The request that asks the server to assign a session id.
    pub fn new_unknown_session() -> (r: SessionIdRequest)
        ensures
            r.session == 0,
    {
        SessionIdRequest { session: 0 }
    }

    /// Serializes the request.
    pub fn to_json(&self) -> (r: String)
        ensures
            r@ == spec_session_request_json(self.session as int),
    {
        let mut out = String::new();
        out.append("{\"session\":");
        append_i32(&mut out, self.session);
        out.append("}");
        proof {
            assert(out@ =~= spec_session_request_json(self.session as int));
        }
        out
    }
}

/// The wire form of a login request, password already hashed.
pub open spec fn spec_login_request_json(
    request_type: Seq<char>,
    username: Seq<char>,
    password: Seq<char>,
    session: int,
    max_requests: int,
) -> Seq<char> {
    "{\"requestType\":\""@ + spec_escape(request_type) + "\",\"username\":\""@ + spec_escape(
        username,
    ) + "\",\"password\":\""@ + spec_escape(password) + "\",\"session\":"@ + spec_int_digits(
        session,
    ) + ",\"maxRequests\":"@ + spec_int_digits(max_requests) + "}"@
}

/// The login request.
pub struct LoginRequest {
    pub request_type: String,
    pub username: String,
    /// Lowercase-hex MD5 digest of the plaintext password.
    pub password: String,
    pub session: i32,
    pub max_requests: i32,
}

impl LoginRequest {
    pub fn new(login_credentials: &LoginCredentials, session: &i32) -> (r: LoginRequest)
        ensures
            r.request_type@ == "login"@,
            r.username@ == login_credentials.username@,
            r.password@ == login_credentials.password_hash@,
            r.session == *session,
            r.max_requests == 10,
    {
        LoginRequest {
            request_type: "login".to_owned(),
            max_requests: 10,
            username: login_credentials.username.clone(),
            password: login_credentials.password_hash.clone(),
            session: *session,
        }
    }

    /// Serializes the request.
    pub fn to_json(&self) -> (r: String)
        ensures
            r@ == spec_login_request_json(
                self.request_type@,
                self.username@,
                self.password@,
                self.session as int,
                self.max_requests as int,
            ),
    {
        let mut out = String::new();
        out.append("{\"requestType\":\"");
        append_escaped(&mut out, self.request_type.as_str());
        out.append("\",\"username\":\"");
        append_escaped(&mut out, self.username.as_str());
        out.append("\",\"password\":\"");
        append_escaped(&mut out, self.password.as_str());
        out.append("\",\"session\":");
        append_i32(&mut out, self.session);
        out.append(",\"maxRequests\":");
        append_i32(&mut out, self.max_requests);
        out.append("}");
        proof {
            assert(out@ =~= spec_login_request_json(
                self.request_type@,
                self.username@,
                self.password@,
                self.session as int,
                self.max_requests as int,
            ));
        }
        out
    }
}

/// The wire form of a playbacks poll request.
pub open spec fn spec_playbacks_request_json(
    request_type: Seq<char>,
    start_index: Seq<u32>,
    items_count: Seq<u32>,
    page_index: int,
    items_type: Seq<u32>,
    view: int,
    exec_button_view_mode: int,
    buttons_view_mode: int,
    session: int,
) -> Seq<char> {
    "{\"requestType\":\""@ + spec_escape(request_type) + "\",\"startIndex\":"@ + spec_u32_array(
        start_index,
    ) + ",\"itemsCount\":"@ + spec_u32_array(items_count) + ",\"pageIndex\":"@ + spec_nat_digits(
        page_index,
    ) + ",\"itemsType\":"@ + spec_u32_array(items_type) + ",\"view\":"@ + spec_int_digits(view)
        + ",\"execButtonViewMode\":"@ + spec_int_digits(exec_button_view_mode)
        + ",\"buttonsViewMode\":"@ + spec_int_digits(buttons_view_mode) + ",\"session\":"@
        + spec_int_digits(session) + "}"@
}

/// The playbacks poll request.
pub struct PlaybacksRequest {
    pub request_type: String,
    pub start_index: Vec<u32>,
    pub items_count: Vec<u32>,
    pub page_index: u32,
    pub items_type: Vec<u32>,
    pub view: i32,
    pub exec_button_view_mode: i32,
    pub buttons_view_mode: i32,
    pub session: i32,
}

impl PlaybacksRequest {
    /// The poll the client sends while running: the first ten executors of
    /// page 0, fader view.
    pub fn new(session: &i32) -> (r: PlaybacksRequest)
        ensures
            r.request_type@ == "playbacks"@,
            r.start_index@ =~= seq![0u32],
            r.items_count@ =~= seq![10u32],
            r.page_index == 0,
            r.items_type@ =~= seq![2u32],
            r.view == 2,
            r.exec_button_view_mode == 2,
            r.buttons_view_mode == 0,
            r.session == *session,
    {
        let mut start_index: Vec<u32> = Vec::new();
        start_index.push(0);
        let mut items_count: Vec<u32> = Vec::new();
        items_count.push(10);
        let mut items_type: Vec<u32> = Vec::new();
        items_type.push(2);
        PlaybacksRequest {
            request_type: "playbacks".to_owned(),
            start_index,
            items_count,
            page_index: 0,
            items_type,
            view: 2,
            exec_button_view_mode: 2,
            buttons_view_mode: 0,
            session: *session,
        }
    }

    /// Serializes the request.
    pub fn to_json(&self) -> (r: String)
        ensures
            r@ == spec_playbacks_request_json(
                self.request_type@,
                self.start_index@,
                self.items_count@,
                self.page_index as int,
                self.items_type@,
                self.view as int,
                self.exec_button_view_mode as int,
                self.buttons_view_mode as int,
                self.session as int,
            ),
    {
        let mut out = String::new();
        out.append("{\"requestType\":\"");
        append_escaped(&mut out, self.request_type.as_str());
        out.append("\",\"startIndex\":");
        append_u32_array(&mut out, &self.start_index);
        out.append(",\"itemsCount\":");
        append_u32_array(&mut out, &self.items_count);
        out.append(",\"pageIndex\":");
        append_u64(&mut out, self.page_index as u64);
        out.append(",\"itemsType\":");
        append_u32_array(&mut out, &self.items_type);
        out.append(",\"view\":");
        append_i32(&mut out, self.view);
        out.append(",\"execButtonViewMode\":");
        append_i32(&mut out, self.exec_button_view_mode);
        out.append(",\"buttonsViewMode\":");
        append_i32(&mut out, self.buttons_view_mode);
        out.append(",\"session\":");
        append_i32(&mut out, self.session);
        out.append("}");
        proof {
            assert(out@ =~= spec_playbacks_request_json(
                self.request_type@,
                self.start_index@,
                self.items_count@,
                self.page_index as int,
                self.items_type@,
                self.view as int,
                self.exec_button_view_mode as int,
                self.buttons_view_mode as int,
                self.session as int,
            ));
        }
        out
    }
}

/// The six-digit zero-padded fraction part of a normalized level.
pub open spec fn spec_six_digits(f: int) -> Seq<char> {
    seq![
        spec_digit_char((f / 100000) % 10),
        spec_digit_char((f / 10000) % 10),
        spec_digit_char((f / 1000) % 10),
        spec_digit_char((f / 100) % 10),
        spec_digit_char((f / 10) % 10),
        spec_digit_char(f % 10),
    ]
}

/// The decimal rendering of the fraction `num / den`, rounded to six
/// fractional digits: the console reads it as a JSON number.
pub open spec fn spec_normalized_decimal(num: int, den: int) -> Seq<char> {
    let micro = (num * 1000000 + den / 2) / den;
    spec_nat_digits(micro / 1000000) + seq!['.'] + spec_six_digits(micro % 1000000)
}

/// Appends the decimal rendering of a normalized level.
pub fn append_normalized(out: &mut String, value: Normalized)
    requires
        value.wf(),
    ensures
        final(out)@ == old(out)@ + spec_normalized_decimal(value.num as int, value.den as int),
{
    proof {
        reveal_strlit(".");
    }
    let den = value.den as u64;
    let micro: u64 = (value.num as u64 * 1000000 + den / 2) / den;
    append_u64(out, micro / 1000000);
    out.append(".");
    let f = micro % 1000000;
    append_digit(out, ((f / 100000) % 10) as u8);
    append_digit(out, ((f / 10000) % 10) as u8);
    append_digit(out, ((f / 1000) % 10) as u8);
    append_digit(out, ((f / 100) % 10) as u8);
    append_digit(out, ((f / 10) % 10) as u8);
    append_digit(out, (f % 10) as u8);
    proof {
        assert(final(out)@ =~= old(out)@ + spec_normalized_decimal(
            value.num as int,
            value.den as int,
        ));
    }
}

/// The characters `true` or `false`.
pub open spec fn spec_bool_chars(b: bool) -> Seq<char> {
    if b {
        "true"@
    } else {
        "false"@
    }
}

/// The wire form of a fader move toward the console.
pub open spec fn spec_fader_input_request_json(
    request_type: Seq<char>,
    exec_index: int,
    page_index: int,
    fader_num: int,
    fader_den: int,
    input_type: int,
    session: int,
) -> Seq<char> {
    "{\"requestType\":\""@ + spec_escape(request_type) + "\",\"execIndex\":"@ + spec_nat_digits(
        exec_index,
    ) + ",\"pageIndex\":"@ + spec_nat_digits(page_index) + ",\"faderValue\":"@
        + spec_normalized_decimal(fader_num, fader_den) + ",\"type\":"@ + spec_nat_digits(
        input_type,
    ) + ",\"session\":"@ + spec_int_digits(session) + "}"@
}

/// A fader move sent to the console.
pub struct FaderInputRequest {
    pub request_type: String,
    pub exec_index: u8,
    pub page_index: u32,
    pub fader_value: Normalized,
    pub input_type: u32,
    pub session: i32,
}

impl FaderInputRequest {
    pub fn new(session: i32, exec_index: u8, page_index: u32, fader_value: Normalized) -> (r:
        FaderInputRequest)
        requires
            fader_value.wf(),
        ensures
            r.request_type@ == "playbacks_userInput"@,
            r.exec_index == exec_index,
            r.page_index == page_index,
            r.fader_value == fader_value,
            r.input_type == 1,
            r.session == session,
            r.fader_value.wf(),
    {
        FaderInputRequest {
            request_type: "playbacks_userInput".to_owned(),
            exec_index,
            page_index,
            fader_value,
            input_type: 1,
            session,
        }
    }

    /// Serializes the request.
    pub fn to_json(&self) -> (r: String)
        requires
            self.fader_value.wf(),
        ensures
            r@ == spec_fader_input_request_json(
                self.request_type@,
                self.exec_index as int,
                self.page_index as int,
                self.fader_value.num as int,
                self.fader_value.den as int,
                self.input_type as int,
                self.session as int,
            ),
    {
        let mut out = String::new();
        out.append("{\"requestType\":\"");
        append_escaped(&mut out, self.request_type.as_str());
        out.append("\",\"execIndex\":");
        append_u64(&mut out, self.exec_index as u64);
        out.append(",\"pageIndex\":");
        append_u64(&mut out, self.page_index as u64);
        out.append(",\"faderValue\":");
        append_normalized(&mut out, self.fader_value);
        out.append(",\"type\":");
        append_u64(&mut out, self.input_type as u64);
        out.append(",\"session\":");
        append_i32(&mut out, self.session);
        out.append("}");
        proof {
            assert(out@ =~= spec_fader_input_request_json(
                self.request_type@,
                self.exec_index as int,
                self.page_index as int,
                self.fader_value.num as int,
                self.fader_value.den as int,
                self.input_type as int,
                self.session as int,
            ));
        }
        out
    }
}

/// The console's id for each of an executor's three buttons.
pub open spec fn spec_button_id_of(position: ButtonPosition) -> int {
    match position {
        ButtonPosition::Top => 2,
        ButtonPosition::Mid => 1,
        ButtonPosition::Bottom => 0,
    }
}

/// The wire form of a button press or release toward the console.
pub open spec fn spec_button_input_request_json(
    request_type: Seq<char>,
    exec_index: int,
    page_index: int,
    cmdline: Seq<char>,
    button_id: int,
    pressed: bool,
    released: bool,
    input_type: int,
    session: int,
) -> Seq<char> {
    "{\"requestType\":\""@ + spec_escape(request_type) + "\",\"execIndex\":"@ + spec_nat_digits(
        exec_index,
    ) + ",\"pageIndex\":"@ + spec_nat_digits(page_index) + ",\"cmdline\":\""@ + spec_escape(
        cmdline,
    ) + "\",\"buttonId\":"@ + spec_nat_digits(button_id) + ",\"pressed\":"@ + spec_bool_chars(
        pressed,
    ) + ",\"released\":"@ + spec_bool_chars(released) + ",\"type\":"@ + spec_nat_digits(
        input_type,
    ) + ",\"session\":"@ + spec_int_digits(session) + "}"@
}

/// A button press or release sent to the console.
pub struct ButtonInputRequest {
    pub request_type: String,
    pub exec_index: u8,
    pub page_index: u32,
    pub cmdline: String,
    pub button_id: u8,
    pub pressed: bool,
    pub released: bool,
    pub input_type: u32,
    pub session: i32,
}

impl ButtonInputRequest {
    pub fn new(session: i32, button: &ButtonValue, page_index: u32) -> (r: ButtonInputRequest)
        ensures
            r.request_type@ == "playbacks_userInput"@,
            r.exec_index == button.exec_index,
            r.page_index == page_index,
            r.cmdline@ == Seq::<char>::empty(),
            r.button_id == spec_button_id_of(button.position),
            r.pressed == button.button_value,
            r.released == !button.button_value,
            r.input_type == 0,
            r.session == session,
    {
        ButtonInputRequest {
            request_type: "playbacks_userInput".to_owned(),
            exec_index: button.exec_index,
            page_index,
            pressed: button.button_value,
            released: !button.button_value,
            input_type: 0,
            button_id: match button.position {
                ButtonPosition::Top => 2,
                ButtonPosition::Mid => 1,
                ButtonPosition::Bottom => 0,
            },
            cmdline: String::new(),
            session,
        }
    }

    /// Serializes the request.
    pub fn to_json(&self) -> (r: String)
        ensures
            r@ == spec_button_input_request_json(
                self.request_type@,
                self.exec_index as int,
                self.page_index as int,
                self.cmdline@,
                self.button_id as int,
                self.pressed,
                self.released,
                self.input_type as int,
                self.session as int,
            ),
    {
        let mut out = String::new();
        out.append("{\"requestType\":\"");
        append_escaped(&mut out, self.request_type.as_str());
        out.append("\",\"execIndex\":");
        append_u64(&mut out, self.exec_index as u64);
        out.append(",\"pageIndex\":");
        append_u64(&mut out, self.page_index as u64);
        out.append(",\"cmdline\":\"");
        append_escaped(&mut out, self.cmdline.as_str());
        out.append("\",\"buttonId\":");
        append_u64(&mut out, self.button_id as u64);
        out.append(",\"pressed\":");
        if self.pressed {
            out.append("true");
        } else {
            out.append("false");
        }
        out.append(",\"released\":");
        if self.released {
            out.append("true");
        } else {
            out.append("false");
        }
        out.append(",\"type\":");
        append_u64(&mut out, self.input_type as u64);
        out.append(",\"session\":");
        append_i32(&mut out, self.session);
        out.append("}");
        proof {
            assert(out@ =~= spec_button_input_request_json(
                self.request_type@,
                self.exec_index as int,
                self.page_index as int,
                self.cmdline@,
                self.button_id as int,
                self.pressed,
                self.released,
                self.input_type as int,
                self.session as int,
            ));
        }
        out
    }
}

} // verus!
