//! Version 1 of the protocol: the states of the handshake and of the
//! session.
//!
//! A client attaches in [`InitSession`]. Either it presents the tokens that
//! the connection already holds and is trusted at once, or it is issued
//! fresh tokens, of which the auth token reaches it through a file that
//! only the daemon and the client can read. In [`AuthSession`] it proves
//! that it has read that file. In [`Session`] it is trusted.

use vstd::prelude::*;
use crate::error::{SasdError, SasdErrorView, SasdResult};
use crate::message::{
    kind_of, lemma_request_roundtrip, parse_request, request_items, response_items, Message,
    MessageType, RequestMessage, RequestView, ResponseMessage, ResponseView,
};
use crate::protocol;
use crate::protocol::{wrong_state, Dispatched, Outcome, State};
use crate::rpc::v1::{SessionError, SessionMethod};
use crate::rpc::CodeConvert;
use crate::settings::SettingsView;
use crate::state::SessionStateHandle;
use crate::path::join_path;
use crate::store::{
    expected_tokens, token_count, tokens_issued, AuthFile, FileView, SessionStore, StoreView,
    TokenScheme,
};
use crate::token::{
    fill_random, hex_encode, hex_encoding, is_hex_token, is_token, lemma_hex_encoding_is_token,
    open_os_rng,
};
use crate::value::{view_all, Value, ValueView};

verus! {

/// A request for a method of a session.
pub type SessionRequest = RequestMessage<SessionMethod>;

/// A response to a [`SessionRequest`].
pub type SessionResponse = ResponseMessage<SessionError>;

/// The states of version 1.
#[derive(Debug, PartialEq, Eq, Structural)]
pub enum StateValue {
    /// The client has not attached yet.
    InitSession(InitSession),
    /// The client was handed its tokens and has to prove that it holds
    /// them.
    AuthSession(AuthSession),
    /// The client is trusted.
    Session(Session),
}

impl StateValue {
    /// Whether the client is trusted.
    pub fn is_session(&self) -> (r: bool)
        ensures
            r == (*self is Session),
    {
        match self {
            StateValue::Session(_) => true,
            _ => false,
        }
    }

    /// Whether the client has not attached yet.
    pub fn is_initsession(&self) -> (r: bool)
        ensures
            r == (*self is InitSession),
    {
        match self {
            StateValue::InitSession(_) => true,
            _ => false,
        }
    }

    /// Whether the client has to prove that it holds its tokens.
    pub fn is_authsession(&self) -> (r: bool)
        ensures
            r == (*self is AuthSession),
    {
        match self {
            StateValue::AuthSession(_) => true,
            _ => false,
        }
    }

    /// The state of a trusted client, if it is that.
    pub fn as_session(&self) -> (r: Option<&Session>)
        ensures
            match r {
                Some(s) => *self == StateValue::Session(*s),
                None => !(*self is Session),
            },
    {
        match self {
            StateValue::Session(s) => Some(s),
            _ => None,
        }
    }

    /// The state of a client that has not attached, if it is that.
    pub fn as_initsession(&self) -> (r: Option<&InitSession>)
        ensures
            match r {
                Some(s) => *self == StateValue::InitSession(*s),
                None => !(*self is InitSession),
            },
    {
        match self {
            StateValue::InitSession(s) => Some(s),
            _ => None,
        }
    }

    /// The state of a client that has to prove itself, if it is that.
    pub fn as_authsession(&self) -> (r: Option<&AuthSession>)
        ensures
            match r {
                Some(s) => *self == StateValue::AuthSession(*s),
                None => !(*self is AuthSession),
            },
    {
        match self {
            StateValue::AuthSession(s) => Some(s),
            _ => None,
        }
    }

    /// Turns the value into the state of a trusted client, if it is that.
    pub fn to_session(self) -> (r: Option<Session>)
        ensures
            match r {
                Some(s) => self == StateValue::Session(s),
                None => !(self is Session),
            },
    {
        match self {
            StateValue::Session(s) => Some(s),
            _ => None,
        }
    }

    /// Turns the value into the state of a client that has not attached,
    /// if it is that.
    pub fn to_initsession(self) -> (r: Option<InitSession>)
        ensures
            match r {
                Some(s) => self == StateValue::InitSession(s),
                None => !(self is InitSession),
            },
    {
        match self {
            StateValue::InitSession(s) => Some(s),
            _ => None,
        }
    }

    /// Turns the value into the state of a client that has to prove
    /// itself, if it is that.
    pub fn to_authsession(self) -> (r: Option<AuthSession>)
        ensures
            match r {
                Some(s) => self == StateValue::AuthSession(s),
                None => !(self is AuthSession),
            },
    {
        match self {
            StateValue::AuthSession(s) => Some(s),
            _ => None,
        }
    }
}

/// What reading a message as a request of a session gives. The method is
/// the third item; it must be the code of a [`SessionMethod`], and the
/// message must be a well-formed request.
pub open spec fn check_request(items: Seq<ValueView>) -> Result<
    RequestView<SessionMethod>,
    SasdErrorView,
> {
    match items[2].as_u64() {
        None => Err(SasdErrorView::InvalidMessage),
        Some(code) => if SessionMethod::decode(code) is None {
            Err(SasdErrorView::InvalidMessage)
        } else {
            match parse_request::<SessionMethod>(items) {
                Err(_) => Err(SasdErrorView::InvalidMessage),
                Ok(req) => Ok(req),
            }
        },
    }
}

/// The message that answers request `id` with no error and no result.
pub open spec fn nil_reply(id: u32) -> Seq<ValueView> {
    response_items(ResponseView { id, error: SessionError::Nil, result: ValueView::Nil })
}

/// The message that answers request `id` with the error for a failed
/// attach and a text that says what failed.
pub open spec fn invalid_attach_reply(id: u32, text: Seq<char>) -> Seq<ValueView> {
    response_items(
        ResponseView { id, error: SessionError::InvalidAttach, result: ValueView::String(text) },
    )
}

/// What the states of a session share: how they check a request before
/// they act on it.
pub trait SessionState {
    /// Why the state refuses a request, or `None` if it accepts it, where
    /// `scheme` says which tokens a client has to present. A state that
    /// says nothing else accepts every request.
    open spec fn method_fault(&self, req: RequestView<SessionMethod>, scheme: TokenScheme) -> Option<
        SasdErrorView,
    > {
        None
    }

    /// Checks the method and the arguments of a request, and hands the
    /// request back if the state accepts it.
    fn check_msg_method(&self, req: SessionRequest, scheme: TokenScheme) -> (r: SasdResult<
        SessionRequest,
    >)
        ensures
            match self.method_fault(req@, scheme) {
                Some(e) => r is Err && r->Err_0@ == e,
                None => r is Ok && r->Ok_0@ == req@,
            },
    ;

    /// Reads a message as a request of a session and checks it.
    fn check_msg(&self, msg: Message, scheme: TokenScheme) -> (r: SasdResult<SessionRequest>)
        ensures
            match check_request(msg@) {
                Err(e) => r is Err && r->Err_0@ == e,
                Ok(req) => match self.method_fault(req, scheme) {
                    Some(e) => r is Err && r->Err_0@ == e,
                    None => r is Ok && r->Ok_0@ == req,
                },
            },
    {
        let code = match msg.as_vec()[2].as_u64() {
            Some(c) => c,
            None => {
                return Err(SasdError::InvalidMessage);
            },
        };
        if SessionMethod::from_u64(code).is_err() {
            return Err(SasdError::InvalidMessage);
        }
        let req = match SessionRequest::from(msg) {
            Ok(q) => q,
            Err(_) => {
                return Err(SasdError::InvalidMessage);
            },
        };
        self.check_msg_method(req, scheme)
    }
}

/// What checking a message gives in state `s`.
pub open spec fn check_msg_spec<S: SessionState>(
    s: &S,
    items: Seq<ValueView>,
    scheme: TokenScheme,
) -> Result<RequestView<SessionMethod>, SasdErrorView> {
    match check_request(items) {
        Err(e) => Err(e),
        Ok(req) => match s.method_fault(req, scheme) {
            Some(e) => Err(e),
            None => Ok(req),
        },
    }
}

fn holds_text(v: &Value, text: &String) -> (r: bool)
    ensures
        r == (v@.as_str() == Some(text@)),
{
    match v {
        Value::String(s) => *s == *text,
        _ => false,
    }
}

fn reply(resp: SessionResponse) -> (m: Option<Message>)
    ensures
        m is Some,
        m->Some_0@ == response_items(resp@),
{
    Some(resp.into_message())
}

/// The state of a client that is trusted.
#[derive(Debug, PartialEq, Eq, Structural)]
pub struct Session;

impl From<Session> for protocol::StateValue {
    fn from(s: Session) -> (v: protocol::StateValue) {
        protocol::StateValue::V1(StateValue::Session(s))
    }
}

impl vstd::std_specs::convert::FromSpecImpl<Session> for protocol::StateValue {
    open spec fn obeys_from_spec() -> bool {
        true
    }

    open spec fn from_spec(s: Session) -> protocol::StateValue {
        protocol::StateValue::V1(StateValue::Session(s))
    }
}

impl Session {
    /// The state of a client that is trusted.
    pub fn new() -> (s: Session) {
        Session
    }
}

impl SessionState for Session {
    /// No method of a session is served yet: each is refused as
    /// unexpected.
    open spec fn method_fault(&self, req: RequestView<SessionMethod>, scheme: TokenScheme) -> Option<
        SasdErrorView,
    > {
        Some(SasdErrorView::UnexpectedMessage)
    }

    fn check_msg_method(&self, req: SessionRequest, scheme: TokenScheme) -> (r: SasdResult<
        SessionRequest,
    >) {
        Err(SasdError::UnexpectedMessage)
    }
}

impl State for Session {
    /// A request is checked as every request of a session is, and then
    /// refused; anything else is refused at once.
    open spec fn dispatch_spec(
        &self,
        before: StoreView,
        settings: SettingsView,
        msg: Seq<ValueView>,
        after: StoreView,
        r: Result<Outcome, SasdErrorView>,
    ) -> bool {
        &&& after == before
        &&& r is Err
        &&& r->Err_0 == match kind_of(msg) {
            Some(MessageType::Request) => check_msg_spec(self, msg, before.scheme)->Err_0,
            _ => SasdErrorView::UnexpectedMessage,
        }
    }

    fn dispatch(&mut self, state: &mut SessionStateHandle<'_>, msg: Message) -> (r: SasdResult<
        Dispatched,
    >) {
        match msg.message_type() {
            MessageType::Request => {
                let scheme = state.session_state.session_store.scheme;
                match self.check_msg(msg, scheme) {
                    Ok(_) => Err(SasdError::UnexpectedMessage),
                    Err(e) => Err(e),
                }
            },
            _ => Err(SasdError::UnexpectedMessage),
        }
    }
}

/// The state of a client that has to prove that it holds its tokens.
#[derive(Debug, PartialEq, Eq, Structural)]
pub struct AuthSession;

impl From<AuthSession> for protocol::StateValue {
    fn from(s: AuthSession) -> (v: protocol::StateValue) {
        protocol::StateValue::V1(StateValue::AuthSession(s))
    }
}

impl vstd::std_specs::convert::FromSpecImpl<AuthSession> for protocol::StateValue {
    open spec fn obeys_from_spec() -> bool {
        true
    }

    open spec fn from_spec(s: AuthSession) -> protocol::StateValue {
        protocol::StateValue::V1(StateValue::AuthSession(s))
    }
}

/// Whether the arguments are as many texts as the scheme has tokens.
pub open spec fn are_tokens(args: Seq<ValueView>, scheme: TokenScheme) -> bool {
    &&& args.len() == token_count(scheme)
    &&& forall|i: int| 0 <= i < args.len() ==> (#[trigger] args[i]).as_str() is Some
}

/// What the proof of possession gives: the state of a trusted client where
/// the tokens match, and the message to send back.
///
/// The tokens are compared in their order, and the first that differs is
/// named in the answer.
pub open spec fn auth_attach_spec(store: StoreView, req: RequestView<SessionMethod>) -> Result<
    (Option<Session>, Seq<ValueView>),
    SasdErrorView,
> {
    if !are_tokens(req.args, store.scheme) {
        Err(SasdErrorView::InvalidMessage)
    } else if store.scheme == TokenScheme::ClientAndAuth && req.args[0].as_str() != Some(
        store.client_token,
    ) {
        Ok((None, invalid_attach_reply(req.id, "client token doesn't match"@)))
    } else if req.args.last().as_str() != Some(store.auth_token) {
        Ok((None, invalid_attach_reply(req.id, "auth token doesn't match"@)))
    } else {
        Ok((Some(Session), nil_reply(req.id)))
    }
}

impl SessionState for AuthSession {
    /// Only the proof of possession is accepted, with as many texts as
    /// the scheme has tokens.
    open spec fn method_fault(&self, req: RequestView<SessionMethod>, scheme: TokenScheme) -> Option<
        SasdErrorView,
    > {
        if req.method != SessionMethod::AuthAttach {
            Some(SasdErrorView::UnexpectedMessage)
        } else if !are_tokens(req.args, scheme) {
            Some(SasdErrorView::InvalidMessage)
        } else {
            None
        }
    }

    fn check_msg_method(&self, req: SessionRequest, scheme: TokenScheme) -> (r: SasdResult<
        SessionRequest,
    >) {
        match req.message_method() {
            SessionMethod::AuthAttach => {
                if all_texts(req.message_args(), scheme) {
                    Ok(req)
                } else {
                    Err(SasdError::InvalidMessage)
                }
            },
            _ => Err(SasdError::UnexpectedMessage),
        }
    }
}

fn all_texts(args: &Vec<Value>, scheme: TokenScheme) -> (r: bool)
    ensures
        r == are_tokens(view_all(args@), scheme),
{
    if args.len() != scheme.count() {
        return false;
    }
    let mut i: usize = 0;
    while i < args.len()
        invariant
            i <= args.len(),
            forall|j: int| 0 <= j < i ==> (#[trigger] view_all(args@)[j]).as_str() is Some,
        decreases args.len() - i,
    {
        if args[i].as_str().is_none() {
            assert(view_all(args@)[i as int].as_str() is None);
            return false;
        }
        i = i + 1;
    }
    true
}

impl AuthSession {
    /// The state of a client that has to prove that it holds its tokens.
    pub fn new() -> (s: AuthSession) {
        AuthSession
    }

    /// Compares the tokens that the client presents with the tokens of the
    /// connection.
    pub fn auth_attach(&self, state: &mut SessionStateHandle<'_>, req: SessionRequest) -> (r:
        SasdResult<(Option<Session>, Option<Message>)>)
        ensures
            match auth_attach_spec(old(state).store_view(), req@) {
                Err(e) => r is Err && r->Err_0@ == e,
                Ok((next, msg)) => r is Ok && r->Ok_0.0 == next && r->Ok_0.1 is Some
                    && r->Ok_0.1->Some_0@ == msg,
            },
            final(state).store_view() == old(state).store_view(),
            final(state).same_frame(old(state)),
            *final(final(state).session_state) == *final(old(state).session_state),
    {
        let store = &state.session_state.session_store;
        let args = req.message_args();
        if !all_texts(args, store.scheme) {
            return Err(SasdError::InvalidMessage);
        }
        let last = args.len() - 1;
        assert(req@.args[0] == args@[0]@);
        assert(req@.args.last() == args@[last as int]@);
        let errmsg = if store.scheme == TokenScheme::ClientAndAuth && !holds_text(
            &args[0],
            &store.client_token,
        ) {
            Some("client token doesn't match")
        } else if !holds_text(&args[last], &store.auth_token) {
            Some("auth token doesn't match")
        } else {
            None
        };
        let (err, result, next) = match errmsg {
            Some(text) => (SessionError::InvalidAttach, Value::from_str(text), None),
            None => (SessionError::Nil, Value::Nil, Some(Session::new())),
        };
        let resp = SessionResponse::new(req.message_id(), err, result);
        Ok((next, reply(resp)))
    }
}

/// What handling a message in [`AuthSession`] gives.
pub open spec fn auth_dispatch_spec(store: StoreView, msg: Seq<ValueView>) -> Result<
    Outcome,
    SasdErrorView,
> {
    match kind_of(msg) {
        Some(MessageType::Request) => match check_msg_spec(&AuthSession, msg, store.scheme) {
            Err(e) => Err(e),
            Ok(req) => match auth_attach_spec(store, req) {
                Err(e) => Err(e),
                Ok((Some(s), m)) => Ok(
                    Outcome {
                        next: Some(protocol::StateValue::V1(StateValue::Session(s))),
                        reply: Some(m),
                    },
                ),
                Ok((None, m)) => Ok(Outcome { next: None, reply: Some(m) }),
            },
        },
        _ => Err(SasdErrorView::UnexpectedMessage),
    }
}

impl State for AuthSession {
    /// A request must be a proof of possession, which is then judged; the
    /// secrets stay as they are. Anything else is refused.
    open spec fn dispatch_spec(
        &self,
        before: StoreView,
        settings: SettingsView,
        msg: Seq<ValueView>,
        after: StoreView,
        r: Result<Outcome, SasdErrorView>,
    ) -> bool {
        after == before && r == auth_dispatch_spec(before, msg)
    }

    fn dispatch(&mut self, state: &mut SessionStateHandle<'_>, msg: Message) -> (r: SasdResult<
        Dispatched,
    >) {
        match msg.message_type() {
            MessageType::Request => {
                let scheme = state.session_state.session_store.scheme;
                let req = self.check_msg(msg, scheme)?;
                let (newstate, resp) = self.auth_attach(state, req)?;
                let ret = match newstate {
                    Some(s) => (Some(protocol::StateValue::V1(StateValue::Session(s))), resp),
                    None => (None, resp),
                };
                Ok(ret)
            },
            _ => Err(SasdError::UnexpectedMessage),
        }
    }
}

/// The state of a client that has not attached yet.
#[derive(Debug, PartialEq, Eq, Structural)]
pub struct InitSession;

impl From<InitSession> for protocol::StateValue {
    fn from(s: InitSession) -> (v: protocol::StateValue) {
        protocol::StateValue::V1(StateValue::InitSession(s))
    }
}

impl vstd::std_specs::convert::FromSpecImpl<InitSession> for protocol::StateValue {
    open spec fn obeys_from_spec() -> bool {
        true
    }

    open spec fn from_spec(s: InitSession) -> protocol::StateValue {
        protocol::StateValue::V1(StateValue::InitSession(s))
    }
}

/// How many random bytes make a token.
pub const TOKEN_BYTES: usize = 32;

/// How many random bytes make the name of the file for the auth token.
pub const FILE_NAME_BYTES: usize = 8;

/// Whether a client may go without a fresh attach: every token of the
/// scheme has been issued, the client presents as many texts as the scheme
/// has tokens, and each is the token that the connection holds at that
/// place. A connection that was never issued a token trusts no one.
pub open spec fn skip_spec(store: StoreView, args: Seq<ValueView>) -> bool {
    &&& tokens_issued(store)
    &&& match store.scheme {
        TokenScheme::AuthOnly => args.len() == 1 && args[0].as_str() == Some(store.auth_token),
        TokenScheme::ClientAndAuth => args.len() == 2 && args[0].as_str() == Some(
            store.client_token,
        ) && args[1].as_str() == Some(store.auth_token),
    }
}

/// The result of a fresh attach: the tokens that are handed out in the
/// open, then the path of the file that holds the auth token.
pub open spec fn attach_result(store: StoreView, path: Seq<char>) -> ValueView {
    match store.scheme {
        TokenScheme::AuthOnly => ValueView::Array(seq![ValueView::String(path)]),
        TokenScheme::ClientAndAuth => ValueView::Array(
            seq![ValueView::String(store.client_token), ValueView::String(path)],
        ),
    }
}

/// The secrets after a fresh attach with the given tokens and file.
pub open spec fn attach_store(
    before: StoreView,
    client_token: Seq<char>,
    auth_token: Seq<char>,
    file: FileView,
) -> StoreView {
    StoreView {
        scheme: before.scheme,
        client_token: if before.scheme == TokenScheme::ClientAndAuth {
            client_token
        } else {
            before.client_token
        },
        auth_token,
        auth_file: Some(file),
    }
}

/// The answer to a fresh attach that left the secrets as `after`.
pub open spec fn attach_response(id: u32, after: StoreView) -> ResponseView<SessionError> {
    ResponseView {
        id,
        error: SessionError::Nil,
        result: attach_result(after, after.auth_file->Some_0.path),
    }
}

/// Whether `after` may be the secrets after a fresh attach: each token of
/// the scheme is the notation of freshly drawn bytes, and so is the name
/// of the file for the auth token, whose path is what the platform makes
/// of that name in the directory for such files.
pub open spec fn attached(before: StoreView, settings: SettingsView, after: StoreView) -> bool {
    &&& settings.windows is Some
    &&& after.scheme == before.scheme
    &&& is_token(after.auth_token, TOKEN_BYTES as nat)
    &&& before.scheme == TokenScheme::ClientAndAuth ==> is_token(
        after.client_token,
        TOKEN_BYTES as nat,
    )
    &&& before.scheme == TokenScheme::AuthOnly ==> after.client_token == before.client_token
    &&& after.auth_file is Some
    &&& is_token(after.auth_file->Some_0.name, FILE_NAME_BYTES as nat)
}

impl SessionState for InitSession {
    /// Only an attach is accepted, with no argument or with as many as the
    /// scheme has tokens.
    open spec fn method_fault(&self, req: RequestView<SessionMethod>, scheme: TokenScheme) -> Option<
        SasdErrorView,
    > {
        if req.method != SessionMethod::Attach {
            Some(SasdErrorView::UnexpectedMessage)
        } else if req.args.len() == 0 || req.args.len() == token_count(scheme) {
            None
        } else {
            Some(SasdErrorView::InvalidMessage)
        }
    }

    fn check_msg_method(&self, req: SessionRequest, scheme: TokenScheme) -> (r: SasdResult<
        SessionRequest,
    >) {
        match req.message_method() {
            SessionMethod::Attach => {
                let numargs = req.message_args().len();
                if numargs == 0 || numargs == scheme.count() {
                    Ok(req)
                } else {
                    Err(SasdError::InvalidMessage)
                }
            },
            _ => Err(SasdError::UnexpectedMessage),
        }
    }
}

impl InitSession {
    /// The state of a client that has not attached yet.
    pub fn new() -> (s: InitSession) {
        InitSession
    }

    /// Takes the state out of a state value; fails if the value holds
    /// another state.
    pub fn from_value(v: protocol::StateValue) -> (r: SasdResult<InitSession>)
        ensures
            match v {
                protocol::StateValue::V1(StateValue::InitSession(s)) => r == Ok::<
                    InitSession,
                    SasdError,
                >(s),
                _ => r is Err && r->Err_0@ == wrong_state("StateValue::V1(InitSession)"@, v),
            },
    {
        match v {
            protocol::StateValue::V1(StateValue::InitSession(s)) => Ok(s),
            _ => {
                let expected = String::from_str("StateValue::V1(InitSession)");
                let value = v.text();
                Err(SasdError::InvalidStateValue(expected, value))
            },
        }
    }

    /// Writes bytes as a token: two lowercase hexadecimal digits for each
    /// byte, which must fit into one allocation.
    pub fn encode_token(&self, bytes: &Vec<u8>) -> (s: String)
        requires
            2 * bytes@.len() <= isize::MAX,
        ensures
            s@ == hex_encoding(bytes@),
            is_hex_token(s@, bytes@.len()),
    {
        proof {
            lemma_hex_encoding_is_token(bytes@);
        }
        hex_encode(bytes)
    }

    /// Makes a random token: draws `len` bytes from the random source of
    /// the operating system and writes them as `2 * len` lowercase
    /// hexadecimal digits, which must fit into one allocation. Fails only
    /// if the operating system has no random source to offer.
    pub fn make_random_hexstr(&self, len: usize) -> (r: SasdResult<String>)
        requires
            2 * len <= isize::MAX,
        ensures
            match r {
                Ok(s) => is_token(s@, len as nat) && is_hex_token(s@, len as nat),
                Err(e) => e@ == SasdErrorView::InternalError,
            },
    {
        match open_os_rng() {
            Some(rng) => {
                let mut rng = rng;
                let bytes = fill_random(&mut rng, len);
                Ok(self.encode_token(&bytes))
            },
            None => Err(SasdError::InternalError),
        }
    }

    /// Makes the answer to an attach: nil if the client went without a
    /// fresh attach, else the open tokens and the path of the file.
    pub fn make_response(
        &self,
        skip_auth: bool,
        req: SessionRequest,
        store: &SessionStore,
        filepath: Option<&str>,
    ) -> (r: SasdResult<SessionResponse>)
        requires
            !skip_auth ==> filepath is Some,
        ensures
            r is Ok,
            r->Ok_0@ == (ResponseView {
                id: req@.id,
                error: SessionError::Nil,
                result: if skip_auth {
                    ValueView::Nil
                } else {
                    attach_result(store@, filepath->Some_0@)
                },
            }),
    {
        let result = if !skip_auth {
            let mut items: Vec<Value> = Vec::new();
            match store.scheme {
                TokenScheme::AuthOnly => {},
                TokenScheme::ClientAndAuth => {
                    items.push(Value::String(store.client_token.clone()));
                },
            }
            items.push(Value::from_str(filepath.unwrap()));
            let v = Value::from_vec(items);
            assert(v@->Array_0 =~= attach_result(store@, filepath->Some_0@)->Array_0);
            v
        } else {
            Value::Nil
        };
        Ok(SessionResponse::new(req.message_id(), SessionError::Nil, result))
    }

    /// Attaches a client with the given tokens and file: keeps the tokens,
    /// notes the file that is to hold the auth token, and answers with the
    /// open tokens and the path of that file.
    pub fn attach_with(
        &mut self,
        state: &mut SessionStateHandle<'_>,
        req: SessionRequest,
        client_token: String,
        auth_token: String,
        file: AuthFile,
    ) -> (r: SasdResult<SessionResponse>)
        ensures
            final(state).store_view() == attach_store(
                old(state).store_view(),
                client_token@,
                auth_token@,
                file@,
            ),
            r is Ok,
            r->Ok_0@ == attach_response(req@.id, final(state).store_view()),
            final(state).same_frame(old(state)),
            *final(final(state).session_state) == *final(old(state).session_state),
    {
        let reported = file.path.clone();
        match state.session_state.session_store.scheme {
            TokenScheme::AuthOnly => {},
            TokenScheme::ClientAndAuth => {
                state.session_state.session_store.client_token = client_token;
            },
        }
        state.session_state.session_store.auth_token = auth_token;
        state.session_state.session_store.auth_file = Some(file);
        self.make_response(false, req, &state.session_state.session_store, Some(reported.as_str()))
    }

    /// Attaches a client afresh: issues a random token for each token of
    /// the scheme and a random name for the file that is to hold the auth
    /// token, has the platform make the path of that name in the directory
    /// for such files, and goes on as [`InitSession::attach_with`] does.
    ///
    /// Fails, and leaves the secrets alone, if the settings name no such
    /// directory, if the operating system has no random source to offer,
    /// or if the path is no valid text.
    pub fn attach(&mut self, state: &mut SessionStateHandle<'_>, req: SessionRequest) -> (r:
        SasdResult<SessionResponse>)
        ensures
            match r {
                Err(e) => e@ == SasdErrorView::InternalError && final(state).store_view() == old(state).store_view(),
                Ok(resp) => attached(
                    old(state).store_view(),
                    old(state).settings_view(),
                    final(state).store_view(),
                ) && resp@ == attach_response(req@.id, final(state).store_view()),
            },
            old(state).settings_view().windows is None ==> r is Err,
            final(state).same_frame(old(state)),
            *final(final(state).session_state) == *final(old(state).session_state),
    {
        let dir = match state.server_settings().windows() {
            Some(w) => w.token_data_dir.clone(),
            None => {
                return Err(SasdError::InternalError);
            },
        };
        let auth_token = self.make_random_hexstr(TOKEN_BYTES)?;
        let client_token = match state.session_state.session_store.scheme {
            TokenScheme::AuthOnly => String::new(),
            TokenScheme::ClientAndAuth => self.make_random_hexstr(TOKEN_BYTES)?,
        };
        let name = self.make_random_hexstr(FILE_NAME_BYTES)?;
        let path = match join_path(dir.as_str(), name.as_str()) {
            Some(p) => p,
            None => {
                return Err(SasdError::InternalError);
            },
        };
        self.attach_with(state, req, client_token, auth_token, AuthFile { name, path })
    }

    /// Undoes a fresh attach whose file could not be made: puts back the
    /// secrets as they were before the attach, so that no token is kept
    /// for a secret that never reached the client, and gives the error to
    /// report.
    pub fn attach_failed(&mut self, state: &mut SessionStateHandle<'_>, before: SessionStore) -> (e:
        SasdError)
        ensures
            e@ == SasdErrorView::InternalError,
            final(state).store_view() == before@,
            final(state).same_frame(old(state)),
            *final(final(state).session_state) == *final(old(state).session_state),
    {
        state.session_state.session_store = before;
        SasdError::InternalError
    }

    /// Whether the client may go without a fresh attach.
    pub fn can_skip_auth(&self, session_store: &SessionStore, req: &SessionRequest) -> (r: bool)
        ensures
            r == skip_spec(session_store@, req@.args),
    {
        if !session_store.tokens_issued() {
            return false;
        }
        let args = req.message_args();
        match session_store.scheme {
            TokenScheme::AuthOnly => {
                if args.len() != 1 {
                    return false;
                }
                assert(req@.args[0] == args@[0]@);
                holds_text(&args[0], &session_store.auth_token)
            },
            TokenScheme::ClientAndAuth => {
                if args.len() != 2 {
                    return false;
                }
                assert(req@.args[0] == args@[0]@);
                assert(req@.args[1] == args@[1]@);
                holds_text(&args[0], &session_store.client_token) && holds_text(
                    &args[1],
                    &session_store.auth_token,
                )
            },
        }
    }
}

/// The state of a trusted client, as a state of a connection.
pub open spec fn session_state() -> protocol::StateValue {
    protocol::StateValue::V1(StateValue::Session(Session))
}

/// The state of a client that has to prove itself, as a state of a
/// connection.
pub open spec fn auth_state() -> protocol::StateValue {
    protocol::StateValue::V1(StateValue::AuthSession(AuthSession))
}

impl State for InitSession {
    /// A request must be an attach. If it presents the tokens that the
    /// connection holds, the client is trusted at once and the secrets
    /// stay. If not, the client is attached afresh: the secrets are
    /// replaced, and the client has to prove itself next; that fails, and
    /// leaves the secrets alone, if a resource for it is missing.
    /// Anything but a request is refused.
    open spec fn dispatch_spec(
        &self,
        before: StoreView,
        settings: SettingsView,
        msg: Seq<ValueView>,
        after: StoreView,
        r: Result<Outcome, SasdErrorView>,
    ) -> bool {
        match kind_of(msg) {
            Some(MessageType::Request) => match check_msg_spec(self, msg, before.scheme) {
                Err(e) => after == before && r == Err::<Outcome, SasdErrorView>(e),
                Ok(req) => if skip_spec(before, req.args) {
                    after == before && r == Ok::<Outcome, SasdErrorView>(
                        Outcome { next: Some(session_state()), reply: Some(nil_reply(req.id)) },
                    )
                } else {
                    ||| after == before && r == Err::<Outcome, SasdErrorView>(
                        SasdErrorView::InternalError,
                    )
                    ||| attached(before, settings, after) && r == Ok::<Outcome, SasdErrorView>(
                        Outcome {
                            next: Some(auth_state()),
                            reply: Some(response_items(attach_response(req.id, after))),
                        },
                    )
                },
            },
            _ => after == before && r == Err::<Outcome, SasdErrorView>(
                SasdErrorView::UnexpectedMessage,
            ),
        }
    }

    fn dispatch(&mut self, state: &mut SessionStateHandle<'_>, msg: Message) -> (r: SasdResult<
        Dispatched,
    >) {
        match msg.message_type() {
            MessageType::Request => {
                let scheme = state.session_state.session_store.scheme;
                let req = self.check_msg(msg, scheme)?;
                if self.can_skip_auth(&state.session_state.session_store, &req) {
                    let resp = self.make_response(
                        true,
                        req,
                        &state.session_state.session_store,
                        None,
                    )?;
                    Ok((Some(protocol::StateValue::V1(StateValue::Session(Session::new()))), reply(resp)))
                } else {
                    let resp = self.attach(state, req)?;
                    Ok(
                        (
                            Some(protocol::StateValue::V1(StateValue::AuthSession(AuthSession::new()))),
                            reply(resp),
                        ),
                    )
                }
            },
            _ => Err(SasdError::UnexpectedMessage),
        }
    }
}

impl State for StateValue {
    /// A state value handles a message as the state that it holds does.
    open spec fn dispatch_spec(
        &self,
        before: StoreView,
        settings: SettingsView,
        msg: Seq<ValueView>,
        after: StoreView,
        r: Result<Outcome, SasdErrorView>,
    ) -> bool {
        match self {
            StateValue::InitSession(s) => s.dispatch_spec(before, settings, msg, after, r),
            StateValue::AuthSession(s) => s.dispatch_spec(before, settings, msg, after, r),
            StateValue::Session(s) => s.dispatch_spec(before, settings, msg, after, r),
        }
    }

    fn dispatch(&mut self, state: &mut SessionStateHandle<'_>, msg: Message) -> (r: SasdResult<
        Dispatched,
    >) {
        match self {
            StateValue::InitSession(s) => s.dispatch(state, msg),
            StateValue::AuthSession(s) => s.dispatch(state, msg),
            StateValue::Session(s) => s.dispatch(state, msg),
        }
    }
}

/// The file that has to be made before a connection may go on in `next`:
/// the file that the secrets name, where `next` is the state of a client
/// that has to prove itself, and none else. Only a fresh attach leads to
/// that state, and it is the fresh attach that names the file.
pub fn auth_file_due<'a>(next: &Option<protocol::StateValue>, store: &'a SessionStore) -> (r:
    Option<&'a AuthFile>)
    ensures
        match r {
            Some(f) => *next == Some(auth_state()) && store.auth_file == Some(*f),
            None => *next != Some(auth_state()) || store.auth_file is None,
        },
{
    match next {
        Some(protocol::StateValue::V1(StateValue::AuthSession(_))) => match store.auth_file {
            Some(ref f) => Some(f),
            None => None,
        },
        _ => None,
    }
}

/// Only a fresh attach makes a client prove itself: whatever the state and
/// the message, if handling the message moves the connection to the state
/// of a client that has to prove itself, the connection was in the state
/// of a client that had not attached, and the secrets are those of a
/// fresh attach, which name the file for the auth token.
pub proof fn lemma_auth_state_means_attached(
    s: protocol::StateValue,
    before: StoreView,
    settings: SettingsView,
    msg: Seq<ValueView>,
    after: StoreView,
    r: Result<Outcome, SasdErrorView>,
)
    requires
        match protocol::envelope(msg, settings.platform) {
            Some(o) => r == o && after == before,
            None => s.dispatch_spec(before, settings, msg, after, r),
        },
        r is Ok,
        r->Ok_0.next == Some(auth_state()),
    ensures
        s == protocol::StateValue::V1(StateValue::InitSession(InitSession)),
        attached(before, settings, after),
        after.auth_file is Some,
{
}

/// The arguments that present the given tokens.
pub open spec fn token_args(tokens: Seq<Seq<char>>) -> Seq<ValueView> {
    Seq::new(tokens.len(), |i: int| ValueView::String(tokens[i]))
}

/// A request that is written as a message is read back and checked as the
/// request that it is.
pub proof fn lemma_check_request(req: RequestView<SessionMethod>)
    ensures
        kind_of(request_items(req)) == Some(MessageType::Request),
        check_request(request_items(req)) == Ok::<RequestView<SessionMethod>, SasdErrorView>(req),
{
    lemma_request_roundtrip(req);
    SessionMethod::lemma_code_decode(req.method);
}

/// A client that presents exactly the tokens that the connection was
/// issued is trusted at once: the answer has no error and no result, and
/// the secrets stay as they are.
pub proof fn lemma_skip_auth(
    before: StoreView,
    settings: SettingsView,
    req: RequestView<SessionMethod>,
    after: StoreView,
    r: Result<Outcome, SasdErrorView>,
)
    requires
        tokens_issued(before),
        req.method == SessionMethod::Attach,
        req.args == token_args(expected_tokens(before)),
        InitSession.dispatch_spec(before, settings, request_items(req), after, r),
    ensures
        skip_spec(before, req.args),
        after == before,
        r == Ok::<Outcome, SasdErrorView>(
            Outcome { next: Some(session_state()), reply: Some(nil_reply(req.id)) },
        ),
{
    lemma_check_request(req);
}

/// A client that attaches with no token, or with a token that is not the
/// one that the connection was issued, is attached afresh and never
/// trusted at once. Where that succeeds, it is issued fresh tokens and has
/// to prove itself next, and the answer has no error and lists the open
/// tokens and, last, the path of the file for the auth token. Where it
/// fails, the secrets stay as they are.
pub proof fn lemma_no_skip_attaches(
    before: StoreView,
    settings: SettingsView,
    req: RequestView<SessionMethod>,
    after: StoreView,
    r: Result<Outcome, SasdErrorView>,
)
    requires
        req.method == SessionMethod::Attach,
        req.args.len() == 0 || req.args.len() == token_count(before.scheme),
        !tokens_issued(before) || req.args != token_args(expected_tokens(before)),
        InitSession.dispatch_spec(before, settings, request_items(req), after, r),
    ensures
        !skip_spec(before, req.args),
        r is Err ==> after == before && r->Err_0 == SasdErrorView::InternalError,
        r is Ok ==> attached(before, settings, after) && r->Ok_0 == (Outcome {
            next: Some(auth_state()),
            reply: Some(response_items(attach_response(req.id, after))),
        }),
        r is Ok ==> r->Ok_0.next != Some(session_state()),
        attach_response(req.id, after).error == SessionError::Nil,
        attach_response(req.id, after).result is Array,
        after.auth_file is Some ==> attach_response(req.id, after).result->Array_0.last()
            == ValueView::String(after.auth_file->Some_0.path),
{
    lemma_check_request(req);
    if skip_spec(before, req.args) {
        assert(req.args =~= token_args(expected_tokens(before)));
    }
}

/// A connection that was never issued a token trusts no one: whatever a
/// client presents, it is not let through without a fresh attach.
pub proof fn lemma_no_token_no_skip(store: StoreView, args: Seq<ValueView>)
    requires
        !tokens_issued(store),
    ensures
        !skip_spec(store, args),
{
}

/// A client that proves itself with exactly the tokens that the
/// connection holds is trusted: the answer has no error and no result.
pub proof fn lemma_auth_attach_match(store: StoreView, req: RequestView<SessionMethod>)
    requires
        req.method == SessionMethod::AuthAttach,
        req.args == token_args(expected_tokens(store)),
    ensures
        auth_attach_spec(store, req) == Ok::<(Option<Session>, Seq<ValueView>), SasdErrorView>(
            (Some(Session), nil_reply(req.id)),
        ),
        auth_dispatch_spec(store, request_items(req)) == Ok::<Outcome, SasdErrorView>(
            Outcome { next: Some(session_state()), reply: Some(nil_reply(req.id)) },
        ),
{
    lemma_check_request(req);
}

/// A client token that is not the one that the connection holds is
/// refused by name, and the state stays.
pub proof fn lemma_auth_attach_client_mismatch(store: StoreView, req: RequestView<SessionMethod>)
    requires
        store.scheme == TokenScheme::ClientAndAuth,
        are_tokens(req.args, store.scheme),
        req.args[0].as_str() != Some(store.client_token),
    ensures
        auth_attach_spec(store, req) == Ok::<(Option<Session>, Seq<ValueView>), SasdErrorView>(
            (None, invalid_attach_reply(req.id, "client token doesn't match"@)),
        ),
{
}

/// An auth token that is not the one that the connection holds, behind a
/// client token that is, is refused by name, and the state stays.
pub proof fn lemma_auth_attach_auth_mismatch(store: StoreView, req: RequestView<SessionMethod>)
    requires
        are_tokens(req.args, store.scheme),
        store.scheme == TokenScheme::ClientAndAuth ==> req.args[0].as_str() == Some(
            store.client_token,
        ),
        req.args.last().as_str() != Some(store.auth_token),
    ensures
        auth_attach_spec(store, req) == Ok::<(Option<Session>, Seq<ValueView>), SasdErrorView>(
            (None, invalid_attach_reply(req.id, "auth token doesn't match"@)),
        ),
{
}

/// A proof of possession with fewer or more arguments than the scheme has
/// tokens is invalid.
pub proof fn lemma_auth_attach_arity(store: StoreView, req: RequestView<SessionMethod>)
    requires
        req.method == SessionMethod::AuthAttach,
        req.args.len() != token_count(store.scheme),
    ensures
        auth_attach_spec(store, req) == Err::<(Option<Session>, Seq<ValueView>), SasdErrorView>(
            SasdErrorView::InvalidMessage,
        ),
        auth_dispatch_spec(store, request_items(req)) == Err::<Outcome, SasdErrorView>(
            SasdErrorView::InvalidMessage,
        ),
{
    lemma_check_request(req);
}

} // verus!
