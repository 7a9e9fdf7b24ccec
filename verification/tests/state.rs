use sasd::protocol::{Start, StateValue};
use sasd::rpc::v1::{ProtocolError, ProtocolMethod};
use sasd::rpc::CodeConvert;
use sasd::settings::{new_settings_handle, PathStatus, Platform, SettingsBuilder, SettingsHandle};
use sasd::state::{SessionState, SessionStateHandle};
use sasd::store::{AuthFile, SessionStore, TokenScheme};

fn settings() -> SettingsHandle {
    let config = SettingsBuilder::new(Platform::Windows)
        .port(2048)
        .unwrap()
        .windows()
        .token_data_dir("/tokens".to_owned(), PathStatus::Directory)
        .unwrap()
        .windows_done()
        .unwrap()
        .build()
        .unwrap();
    new_settings_handle(config)
}

#[test]
fn session_store_constructors() {
    let store = SessionStore::new("abc".to_owned());
    assert_eq!(store.scheme, TokenScheme::AuthOnly);
    assert_eq!(store.auth_token, "abc");
    assert_eq!(store.client_token, "");
    assert!(store.auth_file.is_none());

    let store = SessionStore::default();
    assert_eq!(store.scheme, TokenScheme::AuthOnly);
    assert_eq!(store.auth_token, "");
    assert_eq!(store.client_token, "");
    assert!(store.auth_file.is_none());

    let store = SessionStore::with_client_token("c".to_owned(), "a".to_owned());
    assert_eq!(store.scheme, TokenScheme::ClientAndAuth);
    assert_eq!(store.client_token, "c");
    assert_eq!(store.auth_token, "a");
    assert!(store.auth_file.is_none());

    let store = SessionStore::empty(TokenScheme::ClientAndAuth);
    assert_eq!(store.scheme, TokenScheme::ClientAndAuth);
    assert_eq!(store.client_token, "");
    assert_eq!(store.auth_token, "");

    assert_eq!(TokenScheme::AuthOnly.count(), 1);
    assert_eq!(TokenScheme::ClientAndAuth.count(), 2);
}

#[test]
fn session_state_gives_what_it_was_made_of() {
    let mut session_state = SessionState::new(
        SessionStore::new("abc".to_owned()),
        settings(),
        StateValue::Start(Start::new()),
    );
    assert_eq!(session_state.server_settings().port(), 2048);
    assert_eq!(session_state.session_store().auth_token, "abc");
    assert_eq!(session_state.state, StateValue::Start(Start::new()));

    session_state.session_store().auth_token = "xyz".to_owned();
    assert_eq!(session_state.session_store.auth_token, "xyz");
    assert_eq!(session_state.server_settings().port(), 2048);
}

#[test]
fn handle_shows_the_connection() {
    let mut session_state = SessionState::new(
        SessionStore::new("abc".to_owned()),
        settings(),
        StateValue::Start(Start::new()),
    );
    {
        let mut handle = session_state.handle();
        assert_eq!(handle.server_settings().port(), 2048);
        assert_eq!(
            handle.server_settings().windows().unwrap().token_data_dir,
            "/tokens"
        );
        assert_eq!(handle.session_store().auth_token, "abc");
        handle.session_store().auth_file = Some(AuthFile { name: "f".to_owned(), path: "/tokens/f".to_owned() });
    }
    assert_eq!(session_state.session_store.auth_file.as_ref().unwrap().path, "/tokens/f");
    {
        let mut handle = SessionStateHandle::new(&mut session_state);
        handle.session_store().auth_token.push('d');
    }
    assert_eq!(session_state.session_store.auth_token, "abcd");
    assert_eq!(session_state.state, StateValue::Start(Start::new()));
}

#[test]
fn protocol_codes() {
    let methods = [
        (ProtocolMethod::ProtocolStart, 12u64),
        (ProtocolMethod::ProtocolWrite, 13),
        (ProtocolMethod::ProtocolRead, 14),
        (ProtocolMethod::ProtocolConfirm, 15),
        (ProtocolMethod::ProtocolNeedKey, 16),
        (ProtocolMethod::ProtocolNeedKeyDone, 17),
        (ProtocolMethod::ProtocolAuthInfo, 18),
    ];
    for (method, code) in methods {
        assert_eq!(method.to_u64(), code);
        assert_eq!(ProtocolMethod::from_u64(code), Ok(method));
    }
    assert!(ProtocolMethod::from_u64(11).is_err());
    assert!(ProtocolMethod::from_u64(19).is_err());
    assert_eq!(ProtocolMethod::max_number(), 18);

    let errors = [
        (ProtocolError::Nil, 0u64),
        (ProtocolError::UnknownProtocol, 19),
        (ProtocolError::InvalidProtocolMessage, 20),
        (ProtocolError::ProtocolError, 21),
        (ProtocolError::ProtocolNeedKey, 22),
        (ProtocolError::ProtocolNeedConfirmation, 23),
        (ProtocolError::InvalidProtocolAuth, 24),
    ];
    for (error, code) in errors {
        assert_eq!(error.to_u64(), code);
        assert_eq!(ProtocolError::from_u64(code), Ok(error));
    }
    assert!(ProtocolError::from_u64(1).is_err());
    assert!(ProtocolError::from_u64(25).is_err());
    assert_eq!(ProtocolError::max_number(), 24);
}
