//! What a connection holds besides its state: the shared settings and its
//! own secrets.

use vstd::prelude::*;
use crate::protocol::StateValue;
use crate::settings::{SettingsHandle, SettingsView};
use crate::store::{SessionStore, StoreView};

verus! {

/// All that belongs to one connection.
#[derive(Debug)]
pub struct SessionState {
    pub session_store: SessionStore,
    pub server_settings: SettingsHandle,
    pub state: StateValue,
}

impl SessionState {
    /// What a new connection holds.
    pub fn new(session_store: SessionStore, server_settings: SettingsHandle, state: StateValue) -> (r:
        SessionState)
        ensures
            r.session_store == session_store,
            r.server_settings == server_settings,
            r.state == state,
    {
        SessionState { session_store, server_settings, state }
    }

    /// The secrets of the connection.
    pub fn session_store(&mut self) -> (store: &mut SessionStore)
        ensures
            *store == old(self).session_store,
            final(self).session_store == *final(store),
            final(self).server_settings == old(self).server_settings,
            final(self).state == old(self).state,
    {
        &mut self.session_store
    }

    /// The settings of the server.
    pub fn server_settings(&self) -> (settings: &SettingsHandle)
        ensures
            *settings == self.server_settings,
    {
        &self.server_settings
    }

    /// The view that a state gets of the connection.
    pub fn handle(&mut self) -> (handle: SessionStateHandle<'_>)
        ensures
            handle.now() == *old(self),
            *final(handle.session_state) == *final(self),
    {
        SessionStateHandle::new(self)
    }
}

/// The view that a state gets of the connection while it handles a message:
/// it may read the settings, and read and change the secrets.
pub struct SessionStateHandle<'a> {
    pub session_state: &'a mut SessionState,
}

impl<'a> SessionStateHandle<'a> {
    /// What the connection holds now.
    pub open spec fn now(&self) -> SessionState {
        *self.session_state
    }

    /// The secrets of the connection, as they are now.
    pub open spec fn store_view(&self) -> StoreView {
        self.now().session_store@
    }

    /// The settings of the server.
    pub open spec fn settings_view(&self) -> SettingsView {
        (*self.now().server_settings)@
    }

    /// Whether two views show the same settings and the same state: what a
    /// state must leave alone.
    pub open spec fn same_frame(&self, other: &SessionStateHandle<'a>) -> bool {
        &&& self.now().server_settings == other.now().server_settings
        &&& self.now().state == other.now().state
    }

    /// The view of a connection.
    pub fn new(session_state: &'a mut SessionState) -> (handle: Self)
        ensures
            handle.now() == *old(session_state),
            *final(handle.session_state) == *final(session_state),
    {
        SessionStateHandle { session_state }
    }

    /// The secrets of the connection.
    pub fn session_store(&mut self) -> (store: &mut SessionStore)
        ensures
            *store == old(self).now().session_store,
            final(self).now().session_store == *final(store),
            final(self).same_frame(old(self)),
            *final(final(self).session_state) == *final(old(self).session_state),
    {
        &mut self.session_state.session_store
    }

    /// The settings of the server.
    pub fn server_settings(&self) -> (settings: &SettingsHandle)
        ensures
            *settings == self.now().server_settings,
    {
        &self.session_state.server_settings
    }
}

} // verus!
