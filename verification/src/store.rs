//! The secrets of one connection.

use vstd::prelude::*;

verus! {

/// Which tokens a client has to present.
#[derive(Debug, PartialEq, Eq, Clone, Copy, Structural)]
pub enum TokenScheme {
    /// The auth token alone.
    AuthOnly,
    /// The client token, then the auth token.
    ClientAndAuth,
}

/// The file through which the auth token reaches the client. The file
/// holds the token and nothing else, and lives as long as the connection
/// keeps it open.
#[derive(Debug, Clone)]
pub struct AuthFile {
    /// The name of the file within its directory.
    pub name: String,
    /// Where the file is.
    pub path: String,
}

/// The mathematical model of an [`AuthFile`].
pub struct FileView {
    pub name: Seq<char>,
    pub path: Seq<char>,
}

impl View for AuthFile {
    type V = FileView;

    open spec fn view(&self) -> FileView {
        FileView { name: self.name@, path: self.path@ }
    }
}

/// The secrets of one connection: the tokens that were issued and the file
/// that holds the auth token, if one is open.
#[derive(Debug, Clone)]
pub struct SessionStore {
    pub scheme: TokenScheme,
    pub client_token: String,
    pub auth_token: String,
    pub auth_file: Option<AuthFile>,
}

/// The mathematical model of a [`SessionStore`].
pub struct StoreView {
    pub scheme: TokenScheme,
    pub client_token: Seq<char>,
    pub auth_token: Seq<char>,
    pub auth_file: Option<FileView>,
}

impl View for SessionStore {
    type V = StoreView;

    open spec fn view(&self) -> StoreView {
        StoreView {
            scheme: self.scheme,
            client_token: self.client_token@,
            auth_token: self.auth_token@,
            auth_file: match self.auth_file {
                Some(f) => Some(f@),
                None => None,
            },
        }
    }
}

/// How many tokens a client has to present.
pub open spec fn token_count(scheme: TokenScheme) -> nat {
    match scheme {
        TokenScheme::AuthOnly => 1,
        TokenScheme::ClientAndAuth => 2,
    }
}

/// The tokens that a client has to present, in their order.
pub open spec fn expected_tokens(store: StoreView) -> Seq<Seq<char>> {
    match store.scheme {
        TokenScheme::AuthOnly => seq![store.auth_token],
        TokenScheme::ClientAndAuth => seq![store.client_token, store.auth_token],
    }
}

/// Whether every token of the scheme has been issued. A token that was
/// never issued is the empty text, and no client can present it.
pub open spec fn tokens_issued(store: StoreView) -> bool {
    match store.scheme {
        TokenScheme::AuthOnly => store.auth_token.len() > 0,
        TokenScheme::ClientAndAuth => store.client_token.len() > 0 && store.auth_token.len() > 0,
    }
}

impl TokenScheme {
    /// How many tokens a client has to present.
    pub fn count(&self) -> (n: usize)
        ensures
            n == token_count(*self),
    {
        match self {
            TokenScheme::AuthOnly => 1,
            TokenScheme::ClientAndAuth => 2,
        }
    }
}

impl SessionStore {
    /// Whether every token of the scheme has been issued.
    pub fn tokens_issued(&self) -> (r: bool)
        ensures
            r == tokens_issued(self@),
    {
        match self.scheme {
            TokenScheme::AuthOnly => !self.auth_token.as_str().is_empty(),
            TokenScheme::ClientAndAuth => !self.client_token.as_str().is_empty()
                && !self.auth_token.as_str().is_empty(),
        }
    }

    /// The store of a connection that knows its client by the auth token
    /// alone.
    pub fn new(auth_token: String) -> (store: Self)
        ensures
            store@ == (StoreView {
                scheme: TokenScheme::AuthOnly,
                client_token: Seq::<char>::empty(),
                auth_token: auth_token@,
                auth_file: None,
            }),
    {
        SessionStore {
            scheme: TokenScheme::AuthOnly,
            client_token: String::new(),
            auth_token,
            auth_file: None,
        }
    }

    /// The store of a connection that knows its client by a client token
    /// and an auth token.
    pub fn with_client_token(client_token: String, auth_token: String) -> (store: Self)
        ensures
            store@ == (StoreView {
                scheme: TokenScheme::ClientAndAuth,
                client_token: client_token@,
                auth_token: auth_token@,
                auth_file: None,
            }),
    {
        SessionStore {
            scheme: TokenScheme::ClientAndAuth,
            client_token,
            auth_token,
            auth_file: None,
        }
    }

    /// The store with no token issued yet, for the given scheme.
    pub fn empty(scheme: TokenScheme) -> (store: Self)
        ensures
            store@ == (StoreView {
                scheme,
                client_token: Seq::<char>::empty(),
                auth_token: Seq::<char>::empty(),
                auth_file: None,
            }),
    {
        SessionStore {
            scheme,
            client_token: String::new(),
            auth_token: String::new(),
            auth_file: None,
        }
    }
}

impl Default for SessionStore {
    /// The store with no token issued yet, for the auth token alone.
    fn default() -> (store: Self)
        ensures
            store@ == (StoreView {
                scheme: TokenScheme::AuthOnly,
                client_token: Seq::<char>::empty(),
                auth_token: Seq::<char>::empty(),
                auth_file: None,
            }),
    {
        SessionStore::empty(TokenScheme::AuthOnly)
    }
}

} // verus!
