//! The state of a compositor session that its rules decide on: whether it
//! keeps running, and how many clients it serves.
//!
//! Resource limits from [`crate::wm::security`] are enforced here to keep
//! clients from exhausting the compositor.

use crate::wm::input::keybindings::KeyAction;
use crate::wm::input::spec_execute_action;
use crate::wm::security::{MAX_CLIENTS, MAX_SURFACES_PER_CLIENT, MAX_TOTAL_SURFACES};
use vstd::prelude::*;

verus! {

/// Whether the compositor runs, and the number of its clients.
#[derive(Debug, Clone, Copy, PartialEq, Eq, Structural)]
pub struct SessionState {
    /// Whether the compositor should keep running.
    running: bool,
    /// Number of connected clients.
    client_count: usize,
}

impl SessionState {
    /// The number of connected clients.
    pub closed spec fn spec_client_count(&self) -> usize {
        self.client_count
    }

    /// Whether the compositor should keep running.
    pub closed spec fn spec_is_running(&self) -> bool {
        self.running
    }

    /// Whether another client may connect: fewer than [`MAX_CLIENTS`] are
    /// connected.
    pub open spec fn spec_can_accept_client(&self) -> bool {
        self.client_count() < MAX_CLIENTS
    }

    /// Whether a client with `client_surfaces` surfaces may create another
    /// one when there are `total_surfaces` in all: neither the limit for
    /// one client nor the limit for all of them is reached.
    pub open spec fn spec_can_create_surface(client_surfaces: usize, total_surfaces: usize) -> bool {
        client_surfaces < MAX_SURFACES_PER_CLIENT && total_surfaces < MAX_TOTAL_SURFACES
    }

    /// A running session without clients.
    pub fn new() -> (state: SessionState)
        ensures
            state.is_running(),
            state.client_count() == 0,
    {
        SessionState { running: true, client_count: 0 }
    }

    /// Whether another client may connect.
    #[verifier::when_used_as_spec(spec_can_accept_client)]
    pub fn can_accept_client(&self) -> (r: bool)
        ensures
            r == self.spec_can_accept_client(),
    {
        self.client_count < MAX_CLIENTS
    }

    /// Called when a client has connected.
    pub fn client_connected(&mut self)
        ensures
            final(self).is_running() == old(self).is_running(),
            old(self).client_count() < usize::MAX ==> final(self).client_count() == old(
                self,
            ).client_count() + 1,
            old(self).client_count() == usize::MAX ==> final(self).client_count() == usize::MAX,
    {
        if self.client_count < usize::MAX {
            self.client_count += 1;
        }
    }

    /// Called when a client disconnects.
    pub fn client_disconnected(&mut self)
        ensures
            final(self).is_running() == old(self).is_running(),
            old(self).client_count() > 0 ==> final(self).client_count() == old(
                self,
            ).client_count() - 1,
            old(self).client_count() == 0 ==> final(self).client_count() == 0,
    {
        if self.client_count > 0 {
            self.client_count -= 1;
        }
    }

    /// Get the current number of connected clients.
    #[verifier::when_used_as_spec(spec_client_count)]
    pub fn client_count(&self) -> (count: usize)
        ensures
            count == self.spec_client_count(),
    {
        self.client_count
    }

    /// Whether the compositor should keep running.
    #[verifier::when_used_as_spec(spec_is_running)]
    pub fn is_running(&self) -> (running: bool)
        ensures
            running == self.spec_is_running(),
    {
        self.running
    }

    /// Check if we can accept more surfaces from a client.
    #[verifier::when_used_as_spec(spec_can_create_surface)]
    pub fn can_create_surface(client_surfaces: usize, total_surfaces: usize) -> (r: bool)
        ensures
            r == Self::spec_can_create_surface(client_surfaces, total_surfaces),
    {
        client_surfaces < MAX_SURFACES_PER_CLIENT && total_surfaces < MAX_TOTAL_SURFACES
    }

    /// Carries out a compositor action: quitting stops the session, every
    /// other action leaves it as it is.
    pub fn execute_action(&mut self, action: KeyAction)
        ensures
            final(self).is_running() == spec_execute_action(old(self).is_running(), action),
            final(self).client_count() == old(self).client_count(),
    {
        self.running = crate::wm::input::execute_action(self.running, action);
    }

    /// Stops the session, as when its window is closed.
    pub fn request_close(&mut self)
        ensures
            !final(self).is_running(),
            final(self).client_count() == old(self).client_count(),
    {
        self.running = false;
    }
}

} // verus!
