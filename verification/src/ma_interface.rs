//! The console client: values exchanged with the device model, the login
//! credentials, the inbound-frame demultiplexer and the session/login state
//! machine.
//!
//! The machine is driven from outside: the rim owns the WebSocket and the
//! timers, feeds every inbound text frame to [`MaInterface::on_frame`], and
//! carries out the returned actions — writing frames to the socket,
//! starting the keep-alive ticker, handing playbacks frames to the poll
//! waiter. All protocol decisions, and every frame ever sent, come from
//! this machine.

use vstd::prelude::*;

use crate::config::ButtonPosition;
use crate::normalized::Normalized;
use crate::requests::{
    spec_request_type_of, spec_session_request_json, spec_login_request_json,
    spec_fader_input_request_json, spec_button_input_request_json, spec_playbacks_request_json,
    ButtonInputRequest, FaderInputRequest, LoginRequest, PlaybacksRequest, RequestType,
    SessionIdRequest,
};
use crate::json::{spec_get_bool_field, spec_get_string_field};
use crate::responses::{
    spec_key_realtime, spec_key_response_type, spec_key_result, spec_login_response_ok,
    spec_parse_session_id_response, LoginRequestResponse, ResponseWithExplicitType,
    SessionIdResponse,
};

verus! {

/// A fader level on its way between a control and the console.
#[derive(Clone, Copy, PartialEq, Eq, Structural, Debug)]
pub struct FaderValue {
    /// The executor the level belongs to.
    pub exec_index: u8,
    /// The level on the console's normalized scale.
    pub fader_value: Normalized,
}

/// A button state on its way between a control and the console.
#[derive(Clone, Copy, PartialEq, Eq, Structural, Debug)]
pub struct ButtonValue {
    /// The executor the button belongs to.
    pub exec_index: u8,
    /// Whether the button is pressed.
    pub button_value: bool,
    /// Which of the executor's buttons it is.
    pub position: ButtonPosition,
}

/// One update carried between subsystems.
#[derive(Clone, Copy, PartialEq, Eq, Structural, Debug)]
pub enum Update {
    FaderUpdate(FaderValue),
    ButtonUpdate(ButtonValue),
}

impl Update {
    /// Every normalized level carried by an update must denote a value.
    pub open spec fn wf(self) -> bool {
        match self {
            Update::FaderUpdate(fv) => fv.fader_value.wf(),
            Update::ButtonUpdate(_) => true,
        }
    }
}

/// The name of the digest that [`md5_hex`] computes: 32 lowercase hex
/// characters determined by the input characters alone.
pub uninterp spec fn md5_hex_of(s: Seq<char>) -> Seq<char>;

/// Relies on `md5::compute` and the lowercase-hex rendering of its
/// `Digest` (two hex digits per digest byte, 16 bytes): the result is a
/// pure function of the input bytes, 32 characters long.
#[verifier::external_body]
fn md5_hex(s: &str) -> (r: String)
    ensures
        r@ == md5_hex_of(s@),
        r@.len() == 32,
{
    format!("{:x}", md5::compute(s.as_bytes()))
}

/// The username and hashed password presented at login.
pub struct LoginCredentials {
    pub username: String,
    /// Lowercase-hex MD5 digest of the plaintext password.
    pub password_hash: String,
}

impl LoginCredentials {
    /// Builds credentials from the configured plaintext: the password is
    /// MD5-hashed to lowercase hex before it ever leaves the process.
    pub fn from_plaintext(username: &str, password: &str) -> (r: LoginCredentials)
        ensures
            r.username@ == username@,
            r.password_hash@ == md5_hex_of(password@),
    {
        LoginCredentials { username: username.to_owned(), password_hash: md5_hex(password) }
    }
}

/// The WebSocket URL for a configured console address.
pub fn ws_url_string(console_ip: &str) -> (r: String)
    ensures
        r@ == "ws://"@ + console_ip@,
{
    let mut out = String::new();
    out.append("ws://");
    out.append(console_ip);
    proof {
        assert(out@ =~= "ws://"@ + console_ip@);
    }
    out
}

/// The lifecycle of the console client. Opening and closing the socket
/// happen outside; the machine starts once the socket is up.
#[derive(Clone, Copy, PartialEq, Eq, Structural, Debug)]
pub enum ClientState {
    /// Waiting for the server's greeting frame; its body is not checked.
    AwaitingServerHello,
    /// The `{"session":0}` request is out; waiting for the assigned id.
    RequestingSession,
    /// The login request is out; waiting for the verdict.
    LoggingIn,
    /// Logged in; polls and user input may flow.
    Running,
    /// Login was rejected: fatal, the credentials are static.
    Failed,
}

/// Where the demultiplexer routes one inbound frame.
pub enum RoutedMessage {
    /// A typed login response.
    Login(LoginRequestResponse),
    /// A typed playbacks response; its nested body is parsed outside.
    Playbacks,
    /// The untyped session-id response.
    SessionId(SessionIdResponse),
    /// Unrecognized, malformed or unrouted — and ignored: an individual
    /// inbound frame failure never tears down the session.
    Dropped,
}

/// Why a client call failed.
#[derive(Clone, Copy, PartialEq, Eq, Structural, Debug)]
pub enum ClientError {
    /// The server rejected the credentials: fatal, the credentials are
    /// static.
    InvalidCredentials,
    /// The machine is not in a state that may emit the requested frame.
    NotReady,
}

/// The demultiplexer's classification of one frame.
#[derive(Clone, Copy, PartialEq, Eq, Structural, Debug)]
pub enum RouteClass {
    Login,
    Playbacks,
    SessionId,
    Dropped,
}

/// How one inbound frame is routed: a frame carrying a `responseType`
/// envelope goes by its type — `login` (when its body parses) and
/// `playbacks` to their queues; a frame without an envelope is tried as a
/// session-id response. Everything else — an unrecognized or unrouted type
/// such as `command` or `close`, or an unparseable body — is dropped
/// silently.
pub open spec fn spec_route_class(s: Seq<u8>) -> RouteClass {
    match spec_get_string_field(s, spec_key_response_type()) {
        Some(t) => match spec_request_type_of(t) {
            Some(RequestType::Login) => if spec_login_response_ok(s) {
                RouteClass::Login
            } else {
                RouteClass::Dropped
            },
            Some(RequestType::Playbacks) => RouteClass::Playbacks,
            Some(_) => RouteClass::Dropped,
            None => RouteClass::Dropped,
        },
        None => match spec_parse_session_id_response(s) {
            Some(_) => RouteClass::SessionId,
            None => RouteClass::Dropped,
        },
    }
}

/// Demultiplexes one inbound frame, per [`spec_route_class`].
pub fn receive_message(s: &[u8]) -> (r: RoutedMessage)
    ensures
        spec_route_class(s@) is Login ==> (r matches RoutedMessage::Login(resp) && Some(
            resp.result,
        ) == spec_get_bool_field(s@, spec_key_result()) && Some(resp.realtime)
            == spec_get_bool_field(s@, spec_key_realtime())),
        spec_route_class(s@) is Playbacks <==> r is Playbacks,
        spec_route_class(s@) is SessionId ==> (r matches RoutedMessage::SessionId(resp) && Some(
            resp,
        ) == spec_parse_session_id_response(s@)),
        spec_route_class(s@) is Dropped <==> r is Dropped,
{
    match ResponseWithExplicitType::parse(s) {
        Some(envelope) => {
            match RequestType::from_bytes(envelope.response_type.as_slice()) {
                Ok(RequestType::Login) => match LoginRequestResponse::parse(s) {
                    Some(resp) => RoutedMessage::Login(resp),
                    None => RoutedMessage::Dropped,
                },
                Ok(RequestType::Playbacks) => RoutedMessage::Playbacks,
                Ok(_) => RoutedMessage::Dropped,
                Err(_) => RoutedMessage::Dropped,
            }
        },
        None => {
            match SessionIdResponse::parse(s) {
                Some(resp) => RoutedMessage::SessionId(resp),
                None => RoutedMessage::Dropped,
            }
        },
    }
}

/// One instruction handed back to the rim that drives the client.
pub enum ClientAction {
    /// Write this frame to the socket.
    SendFrame(String),
    /// The session id is known: start the keep-alive ticker.
    StartKeepAlive,
    /// The frame is a playbacks response: hand it to the poll waiter.
    DeliverPlaybacks,
}

/// Before the server's session-id response has been received, the only
/// frame the client may emit is the `{"session":0}` request.
pub open spec fn spec_pre_session(state: ClientState) -> bool {
    state is AwaitingServerHello || state is RequestingSession
}

/// The session/login state machine of the console client.
pub struct MaInterface {
    pub state: ClientState,
    pub session_id: i32,
    pub credentials: LoginCredentials,
}

impl MaInterface {
    /// The lifecycle state.
    pub open spec fn spec_state(self) -> ClientState {
        self.state
    }

    /// The server-assigned session id; meaningful from `LoggingIn` on.
    pub open spec fn spec_session_id(self) -> i32 {
        self.session_id
    }

    /// The credentials presented at login.
    pub open spec fn spec_credentials(self) -> (Seq<char>, Seq<char>) {
        (self.credentials.username@, self.credentials.password_hash@)
    }

    /// A fresh client over a just-opened socket, waiting for the server's
    /// greeting.
    pub fn new(credentials: LoginCredentials) -> (r: MaInterface)
        ensures
            r.spec_state() is AwaitingServerHello,
            r.spec_credentials() == (credentials.username@, credentials.password_hash@),
    {
        MaInterface { state: ClientState::AwaitingServerHello, session_id: 0, credentials }
    }

    /// The lifecycle state, for the rim that drives the machine.
    pub fn state(&self) -> (r: ClientState)
        ensures
            r == self.spec_state(),
    {
        self.state
    }

    /// The session id, as stored.
    pub fn get_session_id(&self) -> (r: i32)
        ensures
            r == self.spec_session_id(),
    {
        self.session_id
    }

    /// Feeds one inbound frame to the machine and returns the actions the
    /// rim must carry out, in order.
    ///
    /// The greeting frame is consumed unchecked and answered with the
    /// `{"session":0}` request. The session-id response stores the assigned
    /// id, starts the keep-alive and sends the login request. The login
    /// verdict either enters `Running` or fails fatally — the one fatal
    /// error. While `Running`, playbacks frames are handed to the poll
    /// waiter. Everything else, unparseable frames included, is dropped
    /// silently and never tears down the session. Before the session-id
    /// response arrives, no frame but `{"session":0}` is ever emitted.
    pub fn on_frame(&mut self, frame: &[u8]) -> (r: Result<Vec<ClientAction>, ClientError>)
        ensures
            final(self).spec_credentials() == old(self).spec_credentials(),
            (spec_pre_session(old(self).spec_state()) && spec_pre_session(
                final(self).spec_state(),
            )) ==> (r matches Ok(actions) ==> forall|i: int|
                0 <= i < actions@.len() ==> ((#[trigger] actions@[i]) matches
                    ClientAction::SendFrame(f) ==> f@ == spec_session_request_json(0))),
            old(self).spec_state() is AwaitingServerHello ==> (r matches Ok(actions)
                && final(self).spec_state() is RequestingSession && actions@.len() == 1
                && (actions@[0] matches ClientAction::SendFrame(f) && f@
                == spec_session_request_json(0))),
            old(self).spec_state() is RequestingSession ==> (match spec_route_class(frame@) {
                RouteClass::SessionId => (r matches Ok(actions) && final(self).spec_state() is LoggingIn && final(self).spec_session_id()
                    == spec_parse_session_id_response(frame@).unwrap().session && actions@.len()
                    == 2 && actions@[0] is StartKeepAlive && (actions@[1] matches
                    ClientAction::SendFrame(f) && f@ == spec_login_request_json(
                    "login"@,
                    old(self).spec_credentials().0,
                    old(self).spec_credentials().1,
                    spec_parse_session_id_response(frame@).unwrap().session as int,
                    10,
                ))),
                _ => (r matches Ok(actions) && actions@.len() == 0 && *final(self) == *old(self)),
            }),
            old(self).spec_state() is LoggingIn ==> (match spec_route_class(frame@) {
                RouteClass::Login => {
                    if spec_get_bool_field(frame@, spec_key_result()) == Some(true) {
                        r matches Ok(actions) && actions@.len() == 0 && final(self).spec_state() is Running && final(self).spec_session_id() == old(self).spec_session_id()
                    } else {
                        r == Err::<Vec<ClientAction>, ClientError>(ClientError::InvalidCredentials)
                            && final(self).spec_state() is Failed
                    }
                },
                _ => (r matches Ok(actions) && actions@.len() == 0 && *final(self) == *old(self)),
            }),
            old(self).spec_state() is Running ==> (match spec_route_class(frame@) {
                RouteClass::Playbacks => (r matches Ok(actions) && actions@.len() == 1
                    && actions@[0] is DeliverPlaybacks && *final(self) == *old(self)),
                _ => (r matches Ok(actions) && actions@.len() == 0 && *final(self) == *old(self)),
            }),
            old(self).spec_state() is Failed ==> (r matches Ok(actions) && actions@.len() == 0
                && *final(self) == *old(self)),
            r is Err <==> (old(self).spec_state() is LoggingIn && spec_route_class(
                frame@,
            ) is Login && spec_get_bool_field(frame@, spec_key_result()) != Some(true)),
            r is Err ==> r == Err::<Vec<ClientAction>, ClientError>(
                ClientError::InvalidCredentials,
            ),
    {
        match self.state {
            ClientState::AwaitingServerHello => {
                self.state = ClientState::RequestingSession;
                let request = SessionIdRequest::new_unknown_session();
                let mut actions: Vec<ClientAction> = Vec::new();
                actions.push(ClientAction::SendFrame(request.to_json()));
                Ok(actions)
            },
            ClientState::RequestingSession => {
                match receive_message(frame) {
                    RoutedMessage::SessionId(resp) => {
                        self.session_id = resp.session;
                        self.state = ClientState::LoggingIn;
                        let login = LoginRequest::new(&self.credentials, &self.session_id);
                        let mut actions: Vec<ClientAction> = Vec::new();
                        actions.push(ClientAction::StartKeepAlive);
                        actions.push(ClientAction::SendFrame(login.to_json()));
                        Ok(actions)
                    },
                    _ => Ok(Vec::new()),
                }
            },
            ClientState::LoggingIn => {
                match receive_message(frame) {
                    RoutedMessage::Login(resp) => {
                        if resp.result {
                            self.state = ClientState::Running;
                            Ok(Vec::new())
                        } else {
                            self.state = ClientState::Failed;
                            Err(ClientError::InvalidCredentials)
                        }
                    },
                    _ => Ok(Vec::new()),
                }
            },
            ClientState::Running => {
                match receive_message(frame) {
                    RoutedMessage::Playbacks => {
                        let mut actions: Vec<ClientAction> = Vec::new();
                        actions.push(ClientAction::DeliverPlaybacks);
                        Ok(actions)
                    },
                    _ => Ok(Vec::new()),
                }
            },
            ClientState::Failed => Ok(Vec::new()),
        }
    }

    /// The keep-alive frame `{"session":<id>}`, available from the moment
    /// the session id is known. The rim sends it every 4000 ms — strictly
    /// under the server's session timeout.
    pub fn on_keep_alive_tick(&self) -> (r: Result<String, ClientError>)
        ensures
            r is Ok <==> (self.spec_state() is LoggingIn || self.spec_state() is Running),
            r matches Ok(f) ==> f@ == spec_session_request_json(self.spec_session_id() as int),
            spec_pre_session(self.spec_state()) ==> r is Err,
    {
        match self.state {
            ClientState::LoggingIn | ClientState::Running => {
                let request = SessionIdRequest::new(&self.session_id);
                Ok(request.to_json())
            },
            _ => Err(ClientError::NotReady),
        }
    }

    /// The playbacks poll request for the first ten executors of page 0;
    /// only a running client may poll.
    pub fn make_poll_request(&self) -> (r: Result<String, ClientError>)
        ensures
            r is Ok <==> self.spec_state() is Running,
            r matches Ok(f) ==> f@ == spec_playbacks_request_json(
                "playbacks"@,
                seq![0u32],
                seq![10u32],
                0,
                seq![2u32],
                2,
                2,
                0,
                self.spec_session_id() as int,
            ),
    {
        match self.state {
            ClientState::Running => {
                let request = PlaybacksRequest::new(&self.session_id);
                Ok(request.to_json())
            },
            _ => Err(ClientError::NotReady),
        }
    }

    /// The fire-and-forget frame for one fader move; only a running client
    /// may send it.
    pub fn send_fader_value(&self, exec_index: u8, page_index: u32, fader_value: Normalized) -> (r:
        Result<String, ClientError>)
        requires
            fader_value.wf(),
        ensures
            r is Ok <==> self.spec_state() is Running,
            r matches Ok(f) ==> f@ == spec_fader_input_request_json(
                "playbacks_userInput"@,
                exec_index as int,
                page_index as int,
                fader_value.num as int,
                fader_value.den as int,
                1,
                self.spec_session_id() as int,
            ),
    {
        match self.state {
            ClientState::Running => {
                let request = FaderInputRequest::new(
                    self.session_id,
                    exec_index,
                    page_index,
                    fader_value,
                );
                Ok(request.to_json())
            },
            _ => Err(ClientError::NotReady),
        }
    }

    /// The fire-and-forget frame for one button press or release; only a
    /// running client may send it.
    pub fn send_button_value(&self, button: &ButtonValue, page_index: u32) -> (r: Result<
        String,
        ClientError,
    >)
        ensures
            r is Ok <==> self.spec_state() is Running,
            r matches Ok(f) ==> f@ == spec_button_input_request_json(
                "playbacks_userInput"@,
                button.exec_index as int,
                page_index as int,
                Seq::<char>::empty(),
                crate::requests::spec_button_id_of(button.position),
                button.button_value,
                !button.button_value,
                0,
                self.spec_session_id() as int,
            ),
    {
        match self.state {
            ClientState::Running => {
                let request = ButtonInputRequest::new(self.session_id, button, page_index);
                Ok(request.to_json())
            },
            _ => Err(ClientError::NotReady),
        }
    }

    /// The frame for one update from the device model, whichever kind it
    /// carries. Updates travel with the hard-coded page 0.
    pub fn send_update(&self, update: Update) -> (r: Result<String, ClientError>)
        requires
            update.wf(),
        ensures
            r is Ok <==> self.spec_state() is Running,
            update matches Update::FaderUpdate(fv) ==> (r matches Ok(f) ==> f@
                == spec_fader_input_request_json(
                "playbacks_userInput"@,
                fv.exec_index as int,
                0,
                fv.fader_value.num as int,
                fv.fader_value.den as int,
                1,
                self.spec_session_id() as int,
            )),
            update matches Update::ButtonUpdate(bv) ==> (r matches Ok(f) ==> f@
                == spec_button_input_request_json(
                "playbacks_userInput"@,
                bv.exec_index as int,
                0,
                Seq::<char>::empty(),
                crate::requests::spec_button_id_of(bv.position),
                bv.button_value,
                !bv.button_value,
                0,
                self.spec_session_id() as int,
            )),
    {
        match update {
            Update::FaderUpdate(fv) => self.send_fader_value(fv.exec_index, 0, fv.fader_value),
            Update::ButtonUpdate(bv) => self.send_button_value(&bv, 0),
        }
    }
}

/// The fader updates dispatched into the device model after one poll: the
/// level at index `i` belongs to executor `i` (indices wrap at 256, as the
/// executor index on the wire is one byte).
pub fn fader_updates_from_poll(values: &Vec<Normalized>) -> (r: Vec<Update>)
    requires
        forall|i: int| 0 <= i < values@.len() ==> (#[trigger] values@[i]).wf(),
    ensures
        r@.len() == values@.len(),
        forall|i: int|
            0 <= i < values@.len() ==> (#[trigger] r@[i]) == Update::FaderUpdate(
                FaderValue { exec_index: (i % 256) as u8, fader_value: values@[i] },
            ),
        forall|i: int| 0 <= i < r@.len() ==> (#[trigger] r@[i]).wf(),
{
    let mut out: Vec<Update> = Vec::new();
    let mut i: usize = 0;
    while i < values.len()
        invariant
            0 <= i <= values@.len(),
            out@.len() == i,
            forall|j: int| 0 <= j < values@.len() ==> (#[trigger] values@[j]).wf(),
            forall|j: int|
                0 <= j < i ==> (#[trigger] out@[j]) == Update::FaderUpdate(
                    FaderValue { exec_index: (j % 256) as u8, fader_value: values@[j] },
                ),
        decreases values@.len() - i,
    {
        out.push(
            Update::FaderUpdate(
                FaderValue { exec_index: (i % 256) as u8, fader_value: values[i] },
            ),
        );
        i += 1;
    }
    out
}

} // verus!
