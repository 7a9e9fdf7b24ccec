//! The states of a connection and the rules by which a message moves a
//! connection from one state to the next.

use vstd::prelude::*;
use crate::error::{RpcError, SasdError, SasdErrorView, SasdResult};
use crate::message::{
    kind_of, parse_notification, parse_request, response_items, Message, MessageType,
    NotificationMessage, RequestMessage, RequestView, ResponseMessage, ResponseView,
};
use crate::rpc::{CodeConvert, Notice, RequestError, RequestMethod};
use crate::settings::{Platform, SettingsView};
use crate::state::SessionStateHandle;
use crate::store::StoreView;
use crate::value::{Value, ValueView};

pub mod v1;

verus! {

/// The state of a connection.
#[derive(Debug, PartialEq, Eq, Structural)]
pub enum StateValue {
    /// No protocol version has been agreed on yet.
    Start(Start),
    /// Version 1 was agreed on.
    V1(v1::StateValue),
}

impl StateValue {
    /// Whether the state is one of version 1.
    pub fn is_v1(&self) -> (r: bool)
        ensures
            r == (*self is V1),
    {
        match self {
            StateValue::V1(_) => true,
            _ => false,
        }
    }

    /// Whether the state is the start state.
    pub fn is_start(&self) -> (r: bool)
        ensures
            r == (*self is Start),
    {
        match self {
            StateValue::Start(_) => true,
            _ => false,
        }
    }

    /// The state of version 1, if it is one.
    pub fn as_v1(&self) -> (r: Option<&v1::StateValue>)
        ensures
            match r {
                Some(v) => *self == StateValue::V1(*v),
                None => !(*self is V1),
            },
    {
        match self {
            StateValue::V1(v) => Some(v),
            _ => None,
        }
    }

    /// The start state, if it is that.
    pub fn as_start(&self) -> (r: Option<&Start>)
        ensures
            match r {
                Some(s) => *self == StateValue::Start(*s),
                None => !(*self is Start),
            },
    {
        match self {
            StateValue::Start(s) => Some(s),
            _ => None,
        }
    }

    /// Turns the state into the state of version 1, if it is one.
    pub fn to_v1(self) -> (r: Option<v1::StateValue>)
        ensures
            match r {
                Some(v) => self == StateValue::V1(v),
                None => !(self is V1),
            },
    {
        match self {
            StateValue::V1(v) => Some(v),
            _ => None,
        }
    }

    /// Turns the state into the start state, if it is that.
    pub fn to_start(self) -> (r: Option<Start>)
        ensures
            match r {
                Some(s) => self == StateValue::Start(s),
                None => !(self is Start),
            },
    {
        match self {
            StateValue::Start(s) => Some(s),
            _ => None,
        }
    }
}

/// The start state: the client has to ask for a protocol version.
#[derive(Debug, PartialEq, Eq, Structural)]
pub struct Start;

/// The versions of the protocol that the daemon speaks.
#[derive(Debug, PartialEq, Eq, Clone, Copy, Structural)]
pub enum Protocol {
    /// Version 1.
    V1,
}

impl CodeConvert for Protocol {
    open spec fn code(&self) -> u64 {
        match self {
            Protocol::V1 => 1,
        }
    }

    open spec fn decode(n: u64) -> Option<Self> {
        if n == 1 {
            Some(Protocol::V1)
        } else {
            None
        }
    }

    proof fn lemma_code_decode(c: Self) {
    }

    proof fn lemma_decode_code(n: u64) {
    }

    fn from_u64(n: u64) -> (r: Result<Self, RpcError>) {
        if n == 1 {
            Ok(Protocol::V1)
        } else {
            Err(RpcError::InvalidCode)
        }
    }

    fn to_u64(&self) -> (n: u64) {
        match self {
            Protocol::V1 => 1,
        }
    }

    fn max_number() -> (n: u64) {
        1
    }
}

/// A request for a method that every state accepts.
pub type Request = RequestMessage<RequestMethod>;

/// A response to a [`Request`].
pub type Response = ResponseMessage<RequestError>;

/// A notification that every state accepts.
pub type Info = NotificationMessage<Notice>;

/// What handling a message gives: the next state, if the connection goes
/// on in another one, and the message to send back, if there is one.
pub type Dispatched = (Option<StateValue>, Option<Message>);

/// The mathematical model of what handling a message gives.
pub struct Outcome {
    pub next: Option<StateValue>,
    pub reply: Option<Seq<ValueView>>,
}

/// The model of the result of handling a message.
pub open spec fn outcome(r: SasdResult<Dispatched>) -> Result<Outcome, SasdErrorView> {
    match r {
        Ok((next, reply)) => Ok(
            Outcome {
                next,
                reply: match reply {
                    Some(m) => Some(m@),
                    None => None,
                },
            },
        ),
        Err(e) => Err(e@),
    }
}

/// The state in which a connection goes on once a version is agreed on: on
/// Windows the client has to attach first, on Unix it is trusted at once.
pub open spec fn first_state_spec(rpcver: Protocol, platform: Platform) -> StateValue {
    match rpcver {
        Protocol::V1 => match platform {
            Platform::Unix => StateValue::V1(v1::StateValue::Session(v1::Session)),
            Platform::Windows => StateValue::V1(v1::StateValue::InitSession(v1::InitSession)),
        },
    }
}

/// The state in which a connection goes on once a version is agreed on.
pub fn first_state(rpcver: Protocol, platform: Platform) -> (state: StateValue)
    ensures
        state == first_state_spec(rpcver, platform),
{
    match rpcver {
        Protocol::V1 => match platform {
            Platform::Unix => StateValue::V1(v1::StateValue::Session(v1::Session::new())),
            Platform::Windows => StateValue::V1(
                v1::StateValue::InitSession(v1::InitSession::new()),
            ),
        },
    }
}

/// The message that tells the sender of request `id` that the daemon does
/// not speak the version asked for.
pub open spec fn unsupported_version_reply(id: u32) -> Seq<ValueView> {
    response_items(
        ResponseView { id, error: RequestError::VersionUnsupported, result: ValueView::Nil },
    )
}

/// What negotiating a version gives. The request must have one argument,
/// an unsigned integer. If that names a version, the connection goes on in
/// the first state of that version and nothing is sent back. If not, the
/// state stays and the sender is told so.
pub open spec fn version_spec(req: RequestView<RequestMethod>, platform: Platform) -> Result<
    Outcome,
    SasdErrorView,
> {
    if req.args.len() != 1 {
        Err(SasdErrorView::InvalidMessage)
    } else {
        match req.args[0].as_u64() {
            None => Err(SasdErrorView::InvalidMessage),
            Some(ver) => match Protocol::decode(ver) {
                Some(rpcver) => Ok(
                    Outcome { next: Some(first_state_spec(rpcver, platform)), reply: None },
                ),
                None => Ok(
                    Outcome { next: None, reply: Some(unsupported_version_reply(req.id)) },
                ),
            },
        }
    }
}

/// Negotiates the version of the protocol.
pub fn version(req: Request, platform: Platform) -> (r: SasdResult<Dispatched>)
    ensures
        outcome(r) == version_spec(req@, platform),
{
    let request_args = req.message_args();
    if request_args.len() != 1 {
        return Err(SasdError::InvalidMessage);
    }
    assert(req@.args[0] == request_args@[0]@);
    let ver = match request_args[0].as_u64() {
        Some(v) => v,
        None => {
            return Err(SasdError::InvalidMessage);
        },
    };
    match Protocol::from_u64(ver) {
        Ok(rpcver) => Ok((Some(first_state(rpcver, platform)), None)),
        Err(_) => {
            let resp = Response::new(
                req.message_id(),
                RequestError::VersionUnsupported,
                Value::Nil,
            );
            Ok((None, Some(resp.into_message())))
        },
    }
}

/// What the handling of requests that all states share gives for a
/// message, or `None` where it leaves the message to the state.
///
/// The method is the third item. If it is no unsigned integer, the message
/// is invalid. If it is the code of a [`RequestMethod`], the message must
/// be a well-formed request, and the version is negotiated.
pub open spec fn version_envelope(items: Seq<ValueView>, platform: Platform) -> Option<
    Result<Outcome, SasdErrorView>,
> {
    match items[2].as_u64() {
        None => Some(Err(SasdErrorView::InvalidMessage)),
        Some(code) => if RequestMethod::decode(code) is Some {
            match parse_request::<RequestMethod>(items) {
                Err(_) => Some(Err(SasdErrorView::InvalidMessage)),
                Ok(req) => Some(version_spec(req, platform)),
            }
        } else {
            None
        },
    }
}

/// What the handling of notifications that all states share gives for a
/// message, or `None` where it leaves the message to the state.
///
/// The notice is the second item. If it is no unsigned integer, the
/// message is invalid. If it is the code of a [`Notice`], the message must
/// be a well-formed notification, and the connection ends.
pub open spec fn done_envelope(items: Seq<ValueView>) -> Option<Result<Outcome, SasdErrorView>> {
    match items[1].as_u64() {
        None => Some(Err(SasdErrorView::InvalidMessage)),
        Some(code) => if Notice::decode(code) is Some {
            match parse_notification::<Notice>(items) {
                Err(_) => Some(Err(SasdErrorView::InvalidMessage)),
                Ok(_) => Some(Ok(Outcome { next: None, reply: None })),
            }
        } else {
            None
        },
    }
}

/// What the handling that all states share gives for a message, or `None`
/// where it leaves the message to the state. A response is never expected.
pub open spec fn envelope(items: Seq<ValueView>, platform: Platform) -> Option<
    Result<Outcome, SasdErrorView>,
> {
    match kind_of(items) {
        Some(MessageType::Request) => version_envelope(items, platform),
        Some(MessageType::Notification) => done_envelope(items),
        _ => Some(Err(SasdErrorView::UnexpectedMessage)),
    }
}

/// What every state of a connection does with a message.
///
/// A state says in `dispatch_spec` what its own handling of a message may
/// give; the handling that all states share is built on that.
pub trait State {
    /// Whether handling the message `msg` in this state, with the secrets
    /// `before` and the settings `settings`, may leave the secrets as
    /// `after` and give `r`. A state that says nothing else promises
    /// nothing.
    open spec fn dispatch_spec(
        &self,
        before: StoreView,
        settings: SettingsView,
        msg: Seq<ValueView>,
        after: StoreView,
        r: Result<Outcome, SasdErrorView>,
    ) -> bool {
        true
    }

    /// Handles a message that the handling shared by all states has left
    /// to this state.
    fn dispatch(&mut self, state: &mut SessionStateHandle<'_>, msg: Message) -> (r: SasdResult<
        Dispatched,
    >)
        ensures
            old(self).dispatch_spec(
                old(state).store_view(),
                old(state).settings_view(),
                msg@,
                final(state).store_view(),
                outcome(r),
            ),
            final(state).same_frame(old(state)),
            *final(final(state).session_state) == *final(old(state).session_state),
    ;

    /// Handles a request: negotiates the version if the request asks for
    /// that, and leaves any other method to the state.
    fn handle_version(&mut self, state: &mut SessionStateHandle<'_>, msg: Message) -> (r:
        SasdResult<Dispatched>)
        ensures
            match version_envelope(msg@, old(state).settings_view().platform) {
                Some(o) => outcome(r) == o && final(state).store_view() == old(state).store_view(),
                None => old(self).dispatch_spec(
                    old(state).store_view(),
                    old(state).settings_view(),
                    msg@,
                    final(state).store_view(),
                    outcome(r),
                ),
            },
            final(state).same_frame(old(state)),
            *final(final(state).session_state) == *final(old(state).session_state),
    {
        let code = match msg.as_vec()[2].as_u64() {
            Some(c) => c,
            None => {
                return Err(SasdError::InvalidMessage);
            },
        };
        match RequestMethod::from_u64(code) {
            Ok(_) => {
                let request = match Request::from(msg) {
                    Ok(q) => q,
                    Err(_) => {
                        return Err(SasdError::InvalidMessage);
                    },
                };
                let platform = state.server_settings().platform();
                version(request, platform)
            },
            Err(_) => self.dispatch(state, msg),
        }
    }

    /// Handles a notification: ends the connection if the notice says that
    /// the client is done, and leaves any other notice to the state.
    fn handle_done(&mut self, state: &mut SessionStateHandle<'_>, msg: Message) -> (r: SasdResult<
        Dispatched,
    >)
        ensures
            match done_envelope(msg@) {
                Some(o) => outcome(r) == o && final(state).store_view() == old(state).store_view(),
                None => old(self).dispatch_spec(
                    old(state).store_view(),
                    old(state).settings_view(),
                    msg@,
                    final(state).store_view(),
                    outcome(r),
                ),
            },
            final(state).same_frame(old(state)),
            *final(final(state).session_state) == *final(old(state).session_state),
    {
        let code = match msg.as_vec()[1].as_u64() {
            Some(c) => c,
            None => {
                return Err(SasdError::InvalidMessage);
            },
        };
        match Notice::from_u64(code) {
            Ok(_) => {
                match Info::from(msg) {
                    Ok(_) => Ok((None, None)),
                    Err(_) => Err(SasdError::InvalidMessage),
                }
            },
            Err(_) => self.dispatch(state, msg),
        }
    }

    /// Handles a message of any kind.
    fn change(&mut self, state: SessionStateHandle<'_>, msg: Message) -> (r: SasdResult<
        Dispatched,
    >)
        ensures
            match envelope(msg@, state.settings_view().platform) {
                Some(o) => outcome(r) == o && final(state.session_state).session_store@
                    == state.store_view(),
                None => old(self).dispatch_spec(
                    state.store_view(),
                    state.settings_view(),
                    msg@,
                    final(state.session_state).session_store@,
                    outcome(r),
                ),
            },
            final(state.session_state).server_settings == state.now().server_settings,
            final(state.session_state).state == state.now().state,
    {
        let mut state = state;
        match msg.message_type() {
            MessageType::Request => self.handle_version(&mut state, msg),
            MessageType::Notification => self.handle_done(&mut state, msg),
            MessageType::Response => Err(SasdError::UnexpectedMessage),
        }
    }
}

/// How a state is written in the text of an error.
pub open spec fn state_text(v: StateValue) -> Seq<char> {
    match v {
        StateValue::Start(_) => "StateValue::Start(Start)"@,
        StateValue::V1(v1::StateValue::InitSession(_)) => "StateValue::V1(InitSession(InitSession))"@,
        StateValue::V1(v1::StateValue::AuthSession(_)) => "StateValue::V1(AuthSession(AuthSession))"@,
        StateValue::V1(v1::StateValue::Session(_)) => "StateValue::V1(Session(Session))"@,
    }
}

/// The error for a state `given` where the state that is written
/// `expected` was asked for.
pub open spec fn wrong_state(expected: Seq<char>, given: StateValue) -> SasdErrorView {
    SasdErrorView::InvalidStateValue(expected, state_text(given))
}

impl StateValue {
    /// How the state is written in the text of an error.
    pub fn text(&self) -> (s: String)
        ensures
            s@ == state_text(*self),
    {
        match self {
            StateValue::Start(_) => String::from_str("StateValue::Start(Start)"),
            StateValue::V1(v1::StateValue::InitSession(_)) => String::from_str(
                "StateValue::V1(InitSession(InitSession))",
            ),
            StateValue::V1(v1::StateValue::AuthSession(_)) => String::from_str(
                "StateValue::V1(AuthSession(AuthSession))",
            ),
            StateValue::V1(v1::StateValue::Session(_)) => String::from_str(
                "StateValue::V1(Session(Session))",
            ),
        }
    }
}

impl StateValue {
    /// The state in which a connection goes on once this state has handled
    /// a message: the next state if there is one; this state if there is
    /// none but something is sent back; and none, which ends the
    /// connection, if nothing is sent back either.
    pub fn advance(self, next: Option<StateValue>, replied: bool) -> (r: Option<StateValue>)
        ensures
            r == match next {
                Some(n) => Some(n),
                None => if replied {
                    Some(self)
                } else {
                    None
                },
            },
    {
        match next {
            Some(n) => Some(n),
            None => if replied {
                Some(self)
            } else {
                None
            },
        }
    }
}

impl From<Start> for StateValue {
    fn from(s: Start) -> (v: StateValue) {
        StateValue::Start(s)
    }
}

impl vstd::std_specs::convert::FromSpecImpl<Start> for StateValue {
    open spec fn obeys_from_spec() -> bool {
        true
    }

    open spec fn from_spec(s: Start) -> StateValue {
        StateValue::Start(s)
    }
}

impl Start {
    /// The start state.
    pub fn new() -> (s: Start) {
        Start
    }

    /// Takes the start state out of a state value; fails if the value holds
    /// another state.
    pub fn from_value(v: StateValue) -> (r: SasdResult<Start>)
        ensures
            match v {
                StateValue::Start(s) => r == Ok::<Start, SasdError>(s),
                _ => r is Err && r->Err_0@ == wrong_state("StateValue::Start"@, v),
            },
    {
        match v {
            StateValue::Start(s) => Ok(s),
            _ => {
                let expected = String::from_str("StateValue::Start");
                let value = v.text();
                Err(SasdError::InvalidStateValue(expected, value))
            },
        }
    }
}

impl State for Start {
    /// The start state handles no message of its own.
    open spec fn dispatch_spec(
        &self,
        before: StoreView,
        settings: SettingsView,
        msg: Seq<ValueView>,
        after: StoreView,
        r: Result<Outcome, SasdErrorView>,
    ) -> bool {
        after == before && r == Err::<Outcome, SasdErrorView>(SasdErrorView::UnexpectedMessage)
    }

    fn dispatch(&mut self, state: &mut SessionStateHandle<'_>, msg: Message) -> (r: SasdResult<
        Dispatched,
    >) {
        Err(SasdError::UnexpectedMessage)
    }
}

impl State for StateValue {
    /// A state value handles a message as the state that it holds does.
    open spec fn dispatch_spec(
        &self,
        before: StoreView,
        settings: SettingsView,
        msg: Seq<ValueView>,
        after: StoreView,
        r: Result<Outcome, SasdErrorView>,
    ) -> bool {
        match self {
            StateValue::Start(s) => s.dispatch_spec(before, settings, msg, after, r),
            StateValue::V1(v) => v.dispatch_spec(before, settings, msg, after, r),
        }
    }

    fn dispatch(&mut self, state: &mut SessionStateHandle<'_>, msg: Message) -> (r: SasdResult<
        Dispatched,
    >) {
        match self {
            StateValue::Start(s) => s.dispatch(state, msg),
            StateValue::V1(v) => v.dispatch(state, msg),
        }
    }
}

/// Asking for a version that the daemon speaks moves the connection to the
/// first state of the platform, and nothing is sent back.
pub proof fn lemma_version_known(req: RequestView<RequestMethod>, platform: Platform, v: Protocol)
    requires
        req.args == seq![ValueView::Integer(v.code() as int)],
    ensures
        version_spec(req, platform) == Ok::<Outcome, SasdErrorView>(
            Outcome { next: Some(first_state_spec(v, platform)), reply: None },
        ),
        platform == Platform::Unix ==> first_state_spec(v, platform) == StateValue::V1(
            v1::StateValue::Session(v1::Session),
        ),
        platform == Platform::Windows ==> first_state_spec(v, platform) == StateValue::V1(
            v1::StateValue::InitSession(v1::InitSession),
        ),
{
    Protocol::lemma_code_decode(v);
}

/// Asking for a version beyond the last that the daemon speaks leaves the
/// state as it is and is answered with the error for an unsupported
/// version and a nil result.
pub proof fn lemma_version_unknown(req: RequestView<RequestMethod>, platform: Platform, ver: u64)
    requires
        req.args == seq![ValueView::Integer(ver as int)],
        ver > Protocol::V1.code(),
    ensures
        version_spec(req, platform) == Ok::<Outcome, SasdErrorView>(
            Outcome {
                next: None,
                reply: Some(
                    response_items(
                        ResponseView {
                            id: req.id,
                            error: RequestError::VersionUnsupported,
                            result: ValueView::Nil,
                        },
                    ),
                ),
            },
        ),
{
}

/// A request for a version with no argument, or with more than one, is
/// invalid.
pub proof fn lemma_version_arity(req: RequestView<RequestMethod>, platform: Platform)
    requires
        req.args.len() != 1,
    ensures
        version_spec(req, platform) == Err::<Outcome, SasdErrorView>(
            SasdErrorView::InvalidMessage,
        ),
{
}

/// A response is never expected: the handling that all states share
/// refuses it, whatever the state and whatever the response holds.
pub proof fn lemma_response_unexpected(items: Seq<ValueView>, platform: Platform)
    requires
        kind_of(items) == Some(MessageType::Response),
    ensures
        envelope(items, platform) == Some(
            Err::<Outcome, SasdErrorView>(SasdErrorView::UnexpectedMessage),
        ),
{
}

} // verus!
