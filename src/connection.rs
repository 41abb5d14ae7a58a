use vstd::prelude::*;

use crate::error::SyncError;

verus! {

/// At most one live session with the renderer. A successful connect puts its
/// session in place of any earlier one; a failed one changes nothing.
pub struct RendererConnection<C> {
    handle: Option<C>,
}

impl<C> RendererConnection<C> {
    /// The session held, if any.
    pub closed spec fn session(&self) -> Option<C> {
        self.handle
    }

    /// No session yet.
    pub fn new() -> (r: RendererConnection<C>)
        ensures
            r.session() is None,
    {
        RendererConnection { handle: None }
    }

    /// Whether a session is held.
    pub fn is_connected(&self) -> (r: bool)
        ensures
            r == self.session() is Some,
    {
        self.handle.is_some()
    }

    /// The session held; `NotConnected` where there is none.
    pub fn current(&self) -> (r: Result<&C, SyncError>)
        ensures
            match self.session() {
                Some(c) => r == Ok::<&C, SyncError>(&c),
                None => r == Err::<&C, SyncError>(SyncError::NotConnected),
            },
    {
        match &self.handle {
            Some(c) => Ok(c),
            None => Err(SyncError::NotConnected),
        }
    }

    /// Takes in what a connect attempt gave: a new session replaces the one
    /// held and `true` comes back; a failure keeps the session held, which
    /// stays usable, and `false` comes back.
    pub fn connect_result<E>(&mut self, attempt: Result<C, E>) -> (r: bool)
        ensures
            r == attempt is Ok,
            match attempt {
                Ok(c) => final(self).session() == Some(c),
                Err(_) => final(self).session() == old(self).session(),
            },
    {
        match attempt {
            Ok(c) => {
                self.handle = Some(c);
                true
            },
            Err(_) => false,
        }
    }
}

} // verus!
