use sasd::error::{SasdError, SasdResult};
use sasd::message::{Message, MessageType};
use sasd::protocol::v1::{
    auth_file_due, AuthSession, InitSession, Session, SessionRequest, SessionResponse,
    SessionState as Check, StateValue as V1StateValue,
};
use sasd::protocol::{State, StateValue};
use sasd::rpc::v1::{SessionError, SessionMethod};
use sasd::rpc::CodeConvert;
use sasd::settings::{new_settings_handle, PathStatus, Platform, SettingsBuilder, SettingsHandle};
use sasd::state::SessionState;
use sasd::store::{AuthFile, SessionStore, TokenScheme};
use sasd::value::Value;
use std::path::Path;
use tempdir::TempDir;

/// A state whose check of the method must not be reached.
struct Test;

impl Check for Test {
    fn check_msg_method(
        &self,
        _req: SessionRequest,
        _scheme: TokenScheme,
    ) -> SasdResult<SessionRequest> {
        unreachable!()
    }
}

/// A state whose check of the method is known by its error.
struct Called;

impl Check for Called {
    fn check_msg_method(
        &self,
        _req: SessionRequest,
        _scheme: TokenScheme,
    ) -> SasdResult<SessionRequest> {
        Err(SasdError::Msg("called".to_owned()))
    }
}

fn settings_with_dir(dir: &str) -> SettingsHandle {
    let config = SettingsBuilder::new(Platform::Windows)
        .port(1234)
        .unwrap()
        .windows()
        .token_data_dir(dir.to_owned(), PathStatus::Directory)
        .unwrap()
        .windows_done()
        .unwrap()
        .build()
        .unwrap();
    new_settings_handle(config)
}

fn unix_settings() -> SettingsHandle {
    let config = SettingsBuilder::new(Platform::Unix)
        .port(1234)
        .unwrap()
        .unix()
        .socket_dir("/run".to_owned(), PathStatus::Directory)
        .unwrap()
        .unix_done()
        .unwrap()
        .build()
        .unwrap();
    new_settings_handle(config)
}

fn dummy_session_state_nofs(state: StateValue) -> SessionState {
    let session_store = SessionStore::new("world".to_owned());
    SessionState::new(session_store, settings_with_dir("/does/not/exist"), state)
}

fn dual_session_state(client: &str, auth: &str) -> SessionState {
    let store = SessionStore::with_client_token(client.to_owned(), auth.to_owned());
    let dummy = StateValue::V1(V1StateValue::AuthSession(AuthSession::new()));
    SessionState::new(store, settings_with_dir("/does/not/exist"), dummy)
}

fn init_dummy() -> StateValue {
    StateValue::V1(V1StateValue::InitSession(InitSession::new()))
}

fn auth_dummy() -> StateValue {
    StateValue::V1(V1StateValue::AuthSession(AuthSession::new()))
}

fn raw_request(method: Value, args: Value) -> Message {
    let msgtype = Value::from_u64(MessageType::Request.to_u64());
    let msgid = Value::from_u64(42);
    Message::from(Value::Array(vec![msgtype, msgid, method, args])).unwrap()
}

fn state_after(state: &StateValue) -> Option<StateValue> {
    match state {
        StateValue::V1(V1StateValue::AuthSession(_)) => Some(auth_dummy()),
        StateValue::V1(V1StateValue::InitSession(_)) => Some(init_dummy()),
        StateValue::V1(V1StateValue::Session(_)) => {
            Some(StateValue::V1(V1StateValue::Session(Session::new())))
        }
        StateValue::Start(_) => None,
    }
}

fn is_lower_hex(s: &str) -> bool {
    s.chars().all(|c| matches!(c, '0'..='9' | 'a'..='f'))
}

// ---------------------------------------------------------------------
// check_msg()
// ---------------------------------------------------------------------

#[test]
fn non_u64_method() {
    let msg = raw_request(Value::from_str("hello"), Value::Array(vec![]));
    let test = Test;
    let result = test.check_msg(msg, TokenScheme::AuthOnly);
    let val = match result {
        Err(e) => match e {
            SasdError::InvalidMessage => true,
            _ => false,
        },
        _ => false,
    };
    assert!(val);
}

#[test]
fn invalid_method_code() {
    let msg = raw_request(Value::from_u64(9999), Value::Array(vec![]));
    let test = Test;
    let result = test.check_msg(msg, TokenScheme::AuthOnly);
    let val = match result {
        Err(e) => match e {
            SasdError::InvalidMessage => true,
            _ => false,
        },
        _ => false,
    };
    assert!(val);
}

#[test]
fn invalid_request_message() {
    let msg = raw_request(Value::from_u64(SessionMethod::Attach.to_u64()), Value::from_u64(42));
    let test = Test;
    let result = test.check_msg(msg, TokenScheme::AuthOnly);
    let val = match result {
        Err(e) => match e {
            SasdError::InvalidMessage => true,
            _ => false,
        },
        _ => false,
    };
    assert!(val);
}

#[test]
fn call_check_msg_method() {
    let expected = String::from("called");
    let test = Called;
    let msg = raw_request(Value::from_u64(SessionMethod::Attach.to_u64()), Value::Array(vec![]));
    let result = test.check_msg(msg, TokenScheme::AuthOnly);
    let val = match result {
        Err(e) => match e {
            SasdError::Msg(ref msg) => msg == &expected,
            _ => false,
        },
        _ => false,
    };
    assert!(val);
}

#[test]
fn check_msg_in_the_states_of_the_library() {
    // one message, three states: what comes back is what the state's own
    // check of the method says
    let attach = || raw_request(Value::from_u64(SessionMethod::Attach.to_u64()), Value::Array(vec![]));

    let accepted = InitSession::new().check_msg(attach(), TokenScheme::AuthOnly).unwrap();
    assert_eq!(accepted.message_id(), 42);
    assert_eq!(*accepted.message_method(), SessionMethod::Attach);
    assert!(accepted.message_args().is_empty());

    let result = AuthSession::new().check_msg(attach(), TokenScheme::AuthOnly);
    assert_eq!(result, Err(SasdError::UnexpectedMessage));
    let result = Session::new().check_msg(attach(), TokenScheme::AuthOnly);
    assert_eq!(result, Err(SasdError::UnexpectedMessage));

    for state_check in [
        InitSession::new().check_msg(raw_request(Value::from_str("hello"), Value::Array(vec![])), TokenScheme::AuthOnly),
        InitSession::new().check_msg(raw_request(Value::from_u64(9999), Value::Array(vec![])), TokenScheme::AuthOnly),
        InitSession::new().check_msg(raw_request(Value::from_u64(4), Value::from_u64(42)), TokenScheme::AuthOnly),
    ] {
        assert_eq!(state_check, Err(SasdError::InvalidMessage));
    }
}

#[test]
fn attach_arity() {
    let init = InitSession::new();
    let request = |n: usize| {
        SessionRequest::new(1, SessionMethod::Attach, (0..n).map(|_| Value::from_str("t")).collect())
    };
    assert!(init.check_msg_method(request(0), TokenScheme::AuthOnly).is_ok());
    assert!(init.check_msg_method(request(1), TokenScheme::AuthOnly).is_ok());
    assert_eq!(
        init.check_msg_method(request(2), TokenScheme::AuthOnly),
        Err(SasdError::InvalidMessage)
    );
    assert!(init.check_msg_method(request(0), TokenScheme::ClientAndAuth).is_ok());
    assert_eq!(
        init.check_msg_method(request(1), TokenScheme::ClientAndAuth),
        Err(SasdError::InvalidMessage)
    );
    assert!(init.check_msg_method(request(2), TokenScheme::ClientAndAuth).is_ok());
    assert_eq!(
        init.check_msg_method(request(3), TokenScheme::ClientAndAuth),
        Err(SasdError::InvalidMessage)
    );
    for method in [
        SessionMethod::AuthAttach,
        SessionMethod::KeyList,
        SessionMethod::CreateKey,
        SessionMethod::DeleteKey,
    ] {
        let req = SessionRequest::new(1, method, vec![]);
        assert_eq!(
            init.check_msg_method(req, TokenScheme::AuthOnly),
            Err(SasdError::UnexpectedMessage)
        );
    }
}

// ---------------------------------------------------------------------
// InitSession
// ---------------------------------------------------------------------

#[test]
fn token_len_64() {
    let state = InitSession::new();
    let tok = state.make_random_hexstr(32).unwrap();
    assert_eq!(tok.len(), 64);
}

#[test]
fn tokens_are_lowercase_hex_and_differ() {
    let state = InitSession::new();
    let a = state.make_random_hexstr(32).unwrap();
    let b = state.make_random_hexstr(32).unwrap();
    assert!(is_lower_hex(&a));
    assert!(is_lower_hex(&b));
    assert_ne!(a, b);
    let name = state.make_random_hexstr(8).unwrap();
    assert_eq!(name.len(), 16);
    assert!(is_lower_hex(&name));
    assert_eq!(state.make_random_hexstr(0).unwrap(), "");
    // every digit shows up sooner or later, so the bytes are not handed
    // through as they are
    let long = state.make_random_hexstr(4096).unwrap();
    assert_eq!(long.len(), 8192);
    for digit in "0123456789abcdef".chars() {
        assert!(long.contains(digit));
    }
}

#[test]
fn skip_auth_on_matching_tokens() {
    let auth_token = "world".to_owned();
    let msgargs = vec![Value::from_str(&auth_token)];
    let request = SessionRequest::new(42, SessionMethod::Attach, msgargs);

    let mut init = InitSession::new();
    let session_store = SessionStore::new(auth_token);
    let mut session_state =
        SessionState::new(session_store, settings_with_dir("/does/not/exist"), init_dummy());
    let mut handle = session_state.handle();

    let result = init.dispatch(&mut handle, request.into_message()).unwrap();
    let (state, msg) = match result {
        (Some(s), Some(m)) => (s, m),
        _ => unreachable!(),
    };

    let response = SessionResponse::from(msg).unwrap();
    assert!(state.is_v1());
    assert!(state.as_v1().unwrap().is_session());
    assert_eq!(*response.error_code(), SessionError::Nil);
    assert_eq!(response.result(), &Value::Nil);
    assert_eq!(response.message_id(), 42);
    assert_eq!(session_state.session_store.auth_token, "world");
    assert!(session_state.session_store.auth_file.is_none());
}

#[test]
fn can_skip_auth_cases() {
    let init = InitSession::new();
    let attach = |args: Vec<Value>| SessionRequest::new(1, SessionMethod::Attach, args);
    let single = SessionStore::new("world".to_owned());
    assert!(init.can_skip_auth(&single, &attach(vec![Value::from_str("world")])));
    assert!(!init.can_skip_auth(&single, &attach(vec![])));
    assert!(!init.can_skip_auth(&single, &attach(vec![Value::from_str("World")])));
    assert!(!init.can_skip_auth(&single, &attach(vec![Value::from_u64(1)])));
    assert!(!init.can_skip_auth(
        &single,
        &attach(vec![Value::from_str("world"), Value::from_str("world")])
    ));

    let dual = SessionStore::with_client_token("hello".to_owned(), "world".to_owned());
    let both = |a: &str, b: &str| attach(vec![Value::from_str(a), Value::from_str(b)]);
    assert!(init.can_skip_auth(&dual, &both("hello", "world")));
    assert!(!init.can_skip_auth(&dual, &both("world", "hello")));
    assert!(!init.can_skip_auth(&dual, &both("hello", "wor1d")));
    assert!(!init.can_skip_auth(&dual, &both("hell0", "world")));
    assert!(!init.can_skip_auth(&dual, &attach(vec![Value::from_str("world")])));
    assert!(!init.can_skip_auth(&dual, &attach(vec![])));
}

#[test]
fn do_auth() {
    let request = SessionRequest::new(42, SessionMethod::Attach, vec![]);
    let mut init = InitSession::new();

    let tempdir = TempDir::new("sasd").unwrap();
    let dir = tempdir.path().to_str().unwrap().to_owned();
    let mut session_state =
        SessionState::new(SessionStore::default(), settings_with_dir(&dir), init_dummy());

    let (state, msg) = {
        let mut handle = session_state.handle();
        let result = init.dispatch(&mut handle, request.into_message()).unwrap();
        match result {
            (Some(s), Some(m)) => (s, m),
            _ => unreachable!(),
        }
    };

    let response = SessionResponse::from(msg).unwrap();
    assert!(state.is_v1());
    assert!(state.as_v1().unwrap().is_authsession());
    assert_eq!(*response.error_code(), SessionError::Nil);
    assert_eq!(response.message_id(), 42);

    let result = response.result().as_array().unwrap();
    assert_eq!(result.len(), 1);

    // the file that is to hold the auth token lies in the directory for
    // such files, under a name of 16 hexadecimal digits
    let auth_filepath = result[0].as_str().unwrap();
    let name = auth_filepath.strip_prefix(&format!("{}/", dir)).unwrap();
    assert_eq!(name.len(), 16);
    assert!(is_lower_hex(name));

    // the connection holds the token that the file is to hold, and knows
    // the file by the path that the client was told
    let store = &session_state.session_store;
    assert_eq!(store.auth_file.as_ref().unwrap().path, auth_filepath);
    assert_eq!(store.auth_file.as_ref().unwrap().name, name);
    assert_eq!(store.auth_token.len(), 64);
    assert!(is_lower_hex(&store.auth_token));
    assert_eq!(store.client_token, "");

    // making the file is left to the daemon: the library names it, and
    // says that it is due, but does not touch the directory
    let due = auth_file_due(&state_after(&state), store).unwrap();
    assert_eq!(due.path, auth_filepath);
    let auth_filepath = Path::new(auth_filepath);
    assert_eq!(auth_filepath.parent().unwrap(), tempdir.path());
    assert!(!auth_filepath.exists());
    let dirpath = tempdir.path().to_owned();
    tempdir.close().unwrap();
    assert!(!dirpath.exists());
}

#[test]
fn do_auth_with_client_token() {
    let request = SessionRequest::new(7, SessionMethod::Attach, vec![]);
    let mut init = InitSession::new();
    let mut session_state = SessionState::new(
        SessionStore::empty(TokenScheme::ClientAndAuth),
        settings_with_dir("/var/lib/sasd/"),
        init_dummy(),
    );
    let (state, msg) = init.dispatch(&mut session_state.handle(), request.into_message()).unwrap();
    assert_eq!(state, Some(auth_dummy()));
    let response = SessionResponse::from(msg.unwrap()).unwrap();
    assert_eq!(*response.error_code(), SessionError::Nil);
    let result = response.result().as_array().unwrap();
    assert_eq!(result.len(), 2);

    let store = &session_state.session_store;
    assert_eq!(result[0].as_str().unwrap(), store.client_token);
    assert_eq!(result[1].as_str().unwrap(), store.auth_file.as_ref().unwrap().path);
    assert_eq!(store.client_token.len(), 64);
    assert_eq!(store.auth_token.len(), 64);
    assert!(is_lower_hex(&store.client_token));
    assert!(is_lower_hex(&store.auth_token));
    assert_ne!(store.client_token, store.auth_token);
    // the auth token is never told in the open
    assert!(result.iter().all(|v| v.as_str() != Some(store.auth_token.as_str())));
    let name = store.auth_file.as_ref().unwrap().path.strip_prefix("/var/lib/sasd/").unwrap();
    assert_eq!(name.len(), 16);
}

#[test]
fn mismatched_token_forces_attach() {
    let mut init = InitSession::new();
    let mut session_state = SessionState::new(
        SessionStore::new("world".to_owned()),
        settings_with_dir("/tokens"),
        init_dummy(),
    );
    let request = SessionRequest::new(3, SessionMethod::Attach, vec![Value::from_str("w0rld")]);
    let (state, msg) = init.dispatch(&mut session_state.handle(), request.into_message()).unwrap();
    assert_eq!(state, Some(auth_dummy()));
    let response = SessionResponse::from(msg.unwrap()).unwrap();
    assert_eq!(response.result().as_array().unwrap().len(), 1);
    assert_ne!(session_state.session_store.auth_token, "world");
    assert_eq!(session_state.session_store.auth_token.len(), 64);
}

#[test]
fn attach_with_given_tokens() {
    let file = || AuthFile { name: "00ff".to_owned(), path: "/tokens/00ff".to_owned() };
    let mut init = InitSession::new();
    let mut session_state = SessionState::new(
        SessionStore::empty(TokenScheme::ClientAndAuth),
        settings_with_dir("/tokens"),
        init_dummy(),
    );
    let request = SessionRequest::new(5, SessionMethod::Attach, vec![]);
    let response = init
        .attach_with(
            &mut session_state.handle(),
            request,
            "c1".to_owned(),
            "a1".to_owned(),
            file(),
        )
        .unwrap();
    assert_eq!(response.message_id(), 5);
    assert_eq!(*response.error_code(), SessionError::Nil);
    assert_eq!(
        response.result(),
        &Value::Array(vec![Value::from_str("c1"), Value::from_str("/tokens/00ff")])
    );
    let store = &session_state.session_store;
    assert_eq!(store.client_token, "c1");
    assert_eq!(store.auth_token, "a1");
    assert_eq!(store.auth_file.as_ref().unwrap().path, "/tokens/00ff");
    assert_eq!(store.auth_file.as_ref().unwrap().name, "00ff");

    // with the auth token alone the client token is neither kept nor told
    let mut session_state =
        SessionState::new(SessionStore::default(), settings_with_dir("/tokens"), init_dummy());
    let request = SessionRequest::new(6, SessionMethod::Attach, vec![]);
    let response = init
        .attach_with(
            &mut session_state.handle(),
            request,
            "c1".to_owned(),
            "a1".to_owned(),
            file(),
        )
        .unwrap();
    assert_eq!(response.result(), &Value::Array(vec![Value::from_str("/tokens/00ff")]));
    assert_eq!(session_state.session_store.client_token, "");
    assert_eq!(session_state.session_store.auth_token, "a1");
}

#[test]
fn attach_failed_puts_the_secrets_back() {
    let mut init = InitSession::new();
    let mut session_state = SessionState::new(
        SessionStore::with_client_token("c0".to_owned(), "a0".to_owned()),
        settings_with_dir("/does/not/exist"),
        init_dummy(),
    );
    let before = session_state.session_store.clone();
    let request = SessionRequest::new(5, SessionMethod::Attach, vec![]);
    let (next, reply) = init.dispatch(&mut session_state.handle(), request.into_message()).unwrap();
    assert_eq!(next, Some(auth_dummy()));
    assert!(reply.is_some());
    assert_ne!(session_state.session_store.auth_token, "a0");
    let due = auth_file_due(&next, &session_state.session_store).unwrap().path.clone();
    assert_eq!(due, session_state.session_store.auth_file.as_ref().unwrap().path);

    // the file cannot be made in a directory that is not there
    assert!(!Path::new(&due).parent().unwrap().exists());
    let e = init.attach_failed(&mut session_state.handle(), before);
    assert_eq!(e, SasdError::InternalError);
    let store = &session_state.session_store;
    assert_eq!(store.scheme, TokenScheme::ClientAndAuth);
    assert_eq!(store.client_token, "c0");
    assert_eq!(store.auth_token, "a0");
    assert!(store.auth_file.is_none());
    assert!(!Path::new(&due).exists());
    assert_eq!(session_state.state, init_dummy());
}

#[test]
fn a_file_is_due_after_a_fresh_attach_only() {
    let mut store = SessionStore::new("a".to_owned());
    let session = Some(StateValue::V1(V1StateValue::Session(Session::new())));
    assert!(auth_file_due(&Some(auth_dummy()), &store).is_none());
    store.auth_file = Some(AuthFile { name: "n".to_owned(), path: "/d/n".to_owned() });
    assert_eq!(auth_file_due(&Some(auth_dummy()), &store).unwrap().path, "/d/n");
    assert!(auth_file_due(&session, &store).is_none());
    assert!(auth_file_due(&Some(init_dummy()), &store).is_none());
    assert!(auth_file_due(&None, &store).is_none());
}

#[test]
fn no_token_issued_no_skip() {
    // a connection that was never issued a token trusts no one, not even
    // a client that presents the empty text
    let init = InitSession::new();
    let attach = |args: Vec<Value>| SessionRequest::new(42, SessionMethod::Attach, args);
    let store = SessionStore::default();
    assert!(!init.can_skip_auth(&store, &attach(vec![Value::from_str("")])));
    let dual = SessionStore::empty(TokenScheme::ClientAndAuth);
    assert!(!init.can_skip_auth(&dual, &attach(vec![Value::from_str(""), Value::from_str("")])));
    let half = SessionStore::with_client_token("".to_owned(), "world".to_owned());
    assert!(!init.can_skip_auth(&half, &attach(vec![Value::from_str(""), Value::from_str("world")])));
    let half = SessionStore::with_client_token("hello".to_owned(), "".to_owned());
    assert!(!init.can_skip_auth(&half, &attach(vec![Value::from_str("hello"), Value::from_str("")])));
    assert!(!store.tokens_issued());
    assert!(SessionStore::new("x".to_owned()).tokens_issued());

    let mut init = InitSession::new();
    let mut session_state =
        SessionState::new(SessionStore::default(), settings_with_dir("/tokens"), init_dummy());
    let request = attach(vec![Value::from_str("")]);
    let (next, reply) = init.dispatch(&mut session_state.handle(), request.into_message()).unwrap();
    assert_eq!(next, Some(auth_dummy()));
    let response = SessionResponse::from(reply.unwrap()).unwrap();
    assert_eq!(*response.error_code(), SessionError::Nil);
    assert_eq!(response.result().as_array().unwrap().len(), 1);
    assert_eq!(session_state.session_store.auth_token.len(), 64);
}

#[test]
fn encode_token_values() {
    let init = InitSession::new();
    assert_eq!(init.encode_token(&vec![1, 2, 3, 15, 16]), "0102030f10");
    assert_eq!(init.encode_token(&vec![0x00, 0xff]), "00ff");
    assert_eq!(init.encode_token(&vec![0xab, 0xcd, 0xef, 0x90]), "abcdef90");
    assert_eq!(init.encode_token(&vec![]), "");
    assert_eq!(init.encode_token(b"Hello world!".to_vec().as_ref()), "48656c6c6f20776f726c6421");
    // bytes that differ are written differently
    assert_ne!(init.encode_token(&vec![0x01, 0x10]), init.encode_token(&vec![0x10, 0x01]));
    assert_ne!(init.encode_token(&vec![0x00]), init.encode_token(&vec![0x00, 0x00]));
}

#[test]
fn attach_needs_a_directory_for_the_file() {
    let mut init = InitSession::new();
    let mut session_state =
        SessionState::new(SessionStore::new("old".to_owned()), unix_settings(), init_dummy());
    let request = SessionRequest::new(5, SessionMethod::Attach, vec![]);
    let result = init.dispatch(&mut session_state.handle(), request.into_message());
    assert_eq!(result, Err(SasdError::InternalError));
    assert_eq!(session_state.session_store.auth_token, "old");
    assert!(session_state.session_store.auth_file.is_none());
}

#[test]
fn make_response_results() {
    let init = InitSession::new();
    let store = SessionStore::with_client_token("c".to_owned(), "a".to_owned());
    let request = || SessionRequest::new(11, SessionMethod::Attach, vec![]);
    let skipped = init.make_response(true, request(), &store, None).unwrap();
    assert_eq!(skipped.message_id(), 11);
    assert_eq!(*skipped.error_code(), SessionError::Nil);
    assert!(skipped.result().is_nil());
    let full = init.make_response(false, request(), &store, Some("/p/f")).unwrap();
    assert_eq!(
        full.result(),
        &Value::Array(vec![Value::from_str("c"), Value::from_str("/p/f")])
    );
    let single = SessionStore::new("a".to_owned());
    let full = init.make_response(false, request(), &single, Some("/p/f")).unwrap();
    assert_eq!(full.result(), &Value::Array(vec![Value::from_str("/p/f")]));
}

#[test]
fn init_session_refuses_notifications() {
    let msg = Message::from(Value::Array(vec![
        Value::from_u64(MessageType::Notification.to_u64()),
        Value::from_u64(42),
        Value::Array(vec![]),
    ]))
    .unwrap();
    let mut session_state = dummy_session_state_nofs(init_dummy());
    let result = InitSession::new().dispatch(&mut session_state.handle(), msg);
    assert_eq!(result, Err(SasdError::UnexpectedMessage));
}

// ---------------------------------------------------------------------
// AuthSession
// ---------------------------------------------------------------------

#[test]
fn non_authattach_msg_error() {
    let request = SessionRequest::new(42, SessionMethod::Attach, vec![]);
    let mut auth = AuthSession::new();
    let mut session_state = dummy_session_state_nofs(auth_dummy());
    let result = {
        let mut handle = session_state.handle();
        auth.dispatch(&mut handle, request.into_message())
    };
    let testval = match result {
        Ok(_) => false,
        Err(e) => match e {
            SasdError::UnexpectedMessage => true,
            _ => false,
        },
    };
    assert!(testval);
}

#[test]
fn authattach_args_error() {
    for numargs in [0usize, 2, 3, 10, 100] {
        let mut args = Vec::new();
        for i in 0..numargs {
            args.push(Value::from_u64(i as u64));
        }
        let request = SessionRequest::new(42, SessionMethod::AuthAttach, args);
        let mut auth = AuthSession::new();
        let mut session_state = dummy_session_state_nofs(auth_dummy());
        let result = {
            let mut handle = session_state.handle();
            auth.dispatch(&mut handle, request.into_message())
        };
        let testval = match result {
            Ok(_) => false,
            Err(e) => match e {
                SasdError::InvalidMessage => true,
                _ => false,
            },
        };
        assert!(testval);
    }
    // with two tokens, one argument is one too few and three are one too many
    for numargs in [0usize, 1, 3] {
        let args = (0..numargs).map(|_| Value::from_str("x")).collect();
        let request = SessionRequest::new(42, SessionMethod::AuthAttach, args);
        let mut session_state = dual_session_state("x", "x");
        let result = AuthSession::new().dispatch(&mut session_state.handle(), request.into_message());
        assert_eq!(result, Err(SasdError::InvalidMessage));
    }
}

#[test]
fn authattach_token_must_be_text() {
    let request = SessionRequest::new(42, SessionMethod::AuthAttach, vec![Value::from_u64(1)]);
    let mut session_state = dummy_session_state_nofs(auth_dummy());
    let result = AuthSession::new().dispatch(&mut session_state.handle(), request.into_message());
    assert_eq!(result, Err(SasdError::InvalidMessage));
}

#[test]
fn auth_token_nomatch() {
    let auth_token = "HELLO".to_owned();
    let request = SessionRequest::new(
        42,
        SessionMethod::AuthAttach,
        vec![Value::from_str(&auth_token[..])],
    );
    let mut auth = AuthSession::new();
    let mut session_state = dummy_session_state_nofs(auth_dummy());
    session_state.session_store().auth_token = "NOTCORRECT".to_owned();

    let (state, msg) = {
        let mut handle = session_state.handle();
        auth.dispatch(&mut handle, request.into_message()).unwrap()
    };

    let resp = SessionResponse::from(msg.unwrap()).unwrap();
    assert_eq!(*resp.error_code(), SessionError::InvalidAttach);
    let result = resp.result().as_str().unwrap();
    assert_eq!(result, "auth token doesn't match");
    assert_eq!(resp.message_id(), 42);
    assert!(state.is_none());
}

#[test]
fn auth_token_match() {
    let auth_token = "HELLO".to_owned();
    let request = SessionRequest::new(
        42,
        SessionMethod::AuthAttach,
        vec![Value::from_str(&auth_token[..])],
    );
    let mut auth = AuthSession::new();
    let mut session_state = dummy_session_state_nofs(auth_dummy());
    session_state.session_store().auth_token = auth_token;

    let (state, msg) = {
        let mut handle = session_state.handle();
        auth.dispatch(&mut handle, request.into_message()).unwrap()
    };

    let resp = SessionResponse::from(msg.unwrap()).unwrap();
    assert_eq!(*resp.error_code(), SessionError::Nil);
    assert!(resp.result().is_nil());

    let testval = match state {
        Some(StateValue::V1(ref v1)) => v1.is_session(),
        _ => false,
    };
    assert!(testval);
}

#[test]
fn auth_attach_with_client_token() {
    let auth = AuthSession::new();
    let attempt = |client: &str, token: &str| {
        let mut session_state = dual_session_state("hello", "world");
        let request = SessionRequest::new(
            9,
            SessionMethod::AuthAttach,
            vec![Value::from_str(client), Value::from_str(token)],
        );
        let (next, msg) = auth.auth_attach(&mut session_state.handle(), request).unwrap();
        assert_eq!(session_state.session_store.client_token, "hello");
        assert_eq!(session_state.session_store.auth_token, "world");
        let resp = SessionResponse::from(msg.unwrap()).unwrap();
        assert_eq!(resp.message_id(), 9);
        (next, *resp.error_code(), resp.result().as_str().map(|s| s.to_owned()))
    };
    assert_eq!(attempt("hello", "world"), (Some(Session::new()), SessionError::Nil, None));
    assert_eq!(
        attempt("HELLO", "world"),
        (None, SessionError::InvalidAttach, Some("client token doesn't match".to_owned()))
    );
    // the client token is judged first
    assert_eq!(
        attempt("HELLO", "WORLD"),
        (None, SessionError::InvalidAttach, Some("client token doesn't match".to_owned()))
    );
    assert_eq!(
        attempt("hello", "WORLD"),
        (None, SessionError::InvalidAttach, Some("auth token doesn't match".to_owned()))
    );
    assert_eq!(
        attempt("world", "hello"),
        (None, SessionError::InvalidAttach, Some("client token doesn't match".to_owned()))
    );
}

#[test]
fn auth_attach_refuses_malformed_arguments() {
    let auth = AuthSession::new();
    let mut session_state = dual_session_state("hello", "world");
    let request = SessionRequest::new(
        9,
        SessionMethod::AuthAttach,
        vec![Value::from_str("hello"), Value::Nil],
    );
    let result = auth.auth_attach(&mut session_state.handle(), request);
    assert_eq!(result, Err(SasdError::InvalidMessage));
    let request = SessionRequest::new(9, SessionMethod::AuthAttach, vec![Value::from_str("hello")]);
    let result = auth.auth_attach(&mut session_state.handle(), request);
    assert_eq!(result, Err(SasdError::InvalidMessage));
}

// ---------------------------------------------------------------------
// Session and the whole handshake
// ---------------------------------------------------------------------

#[test]
fn session_refuses_every_method() {
    let mut session = Session::new();
    let mut session_state = dummy_session_state_nofs(auth_dummy());
    for method in [
        SessionMethod::Attach,
        SessionMethod::AuthAttach,
        SessionMethod::KeyList,
        SessionMethod::CreateKey,
        SessionMethod::DeleteKey,
    ] {
        let request = SessionRequest::new(1, method, vec![]);
        let result = session.dispatch(&mut session_state.handle(), request.into_message());
        assert_eq!(result, Err(SasdError::UnexpectedMessage));
    }
    // what is no request of a session at all is invalid
    let msg = raw_request(Value::from_u64(12), Value::Array(vec![]));
    let result = session.dispatch(&mut session_state.handle(), msg);
    assert_eq!(result, Err(SasdError::InvalidMessage));
    let msg = raw_request(Value::from_str("x"), Value::Array(vec![]));
    let result = session.dispatch(&mut session_state.handle(), msg);
    assert_eq!(result, Err(SasdError::InvalidMessage));
}

#[test]
fn whole_handshake() {
    let mut session_state = SessionState::new(
        SessionStore::empty(TokenScheme::ClientAndAuth),
        settings_with_dir("/tokens"),
        init_dummy(),
    );
    let mut state = init_dummy();

    // attach afresh
    let attach = SessionRequest::new(1, SessionMethod::Attach, vec![]);
    let (next, _) = state.change(session_state.handle(), attach.into_message()).unwrap();
    let mut state = next.unwrap();
    assert_eq!(state, auth_dummy());

    // a wrong proof leaves the state as it is
    let wrong = SessionRequest::new(
        2,
        SessionMethod::AuthAttach,
        vec![Value::from_str("x"), Value::from_str("y")],
    );
    let (next, msg) = state.change(session_state.handle(), wrong.into_message()).unwrap();
    assert!(next.is_none());
    let resp = SessionResponse::from(msg.unwrap()).unwrap();
    assert_eq!(*resp.error_code(), SessionError::InvalidAttach);

    // the right one is accepted
    let client = session_state.session_store.client_token.clone();
    let auth = session_state.session_store.auth_token.clone();
    let right = SessionRequest::new(
        3,
        SessionMethod::AuthAttach,
        vec![Value::from_str(&client), Value::from_str(&auth)],
    );
    let (next, msg) = state.change(session_state.handle(), right.into_message()).unwrap();
    assert_eq!(next, Some(StateValue::V1(V1StateValue::Session(Session::new()))));
    let resp = SessionResponse::from(msg.unwrap()).unwrap();
    assert_eq!(*resp.error_code(), SessionError::Nil);
    assert!(resp.result().is_nil());

    // and a later connection that holds the same tokens may skip the attach
    let mut state = init_dummy();
    let again = SessionRequest::new(
        4,
        SessionMethod::Attach,
        vec![Value::from_str(&client), Value::from_str(&auth)],
    );
    let (next, msg) = state.change(session_state.handle(), again.into_message()).unwrap();
    assert_eq!(next, Some(StateValue::V1(V1StateValue::Session(Session::new()))));
    assert!(SessionResponse::from(msg.unwrap()).unwrap().result().is_nil());
}

#[test]
fn session_codes() {
    assert_eq!(SessionMethod::Attach.to_u64(), 4);
    assert_eq!(SessionMethod::AuthAttach.to_u64(), 5);
    assert_eq!(SessionMethod::KeyList.to_u64(), 6);
    assert_eq!(SessionMethod::CreateKey.to_u64(), 7);
    assert_eq!(SessionMethod::DeleteKey.to_u64(), 8);
    assert_eq!(SessionMethod::max_number(), 8);
    assert_eq!(SessionError::Nil.to_u64(), 0);
    assert_eq!(SessionError::InvalidAttach.to_u64(), 9);
    assert_eq!(SessionError::KeyExists.to_u64(), 10);
    assert_eq!(SessionError::KeyNotFound.to_u64(), 11);
    assert_eq!(SessionMethod::from_u64(5), Ok(SessionMethod::AuthAttach));
    assert!(SessionMethod::from_u64(3).is_err());
    assert!(SessionMethod::from_u64(9).is_err());
    assert_eq!(SessionError::from_u64(9), Ok(SessionError::InvalidAttach));
    assert!(SessionError::from_u64(1).is_err());
}
