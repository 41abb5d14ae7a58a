use vstd::prelude::*;

verus! {

/// Why a synchronisation with the renderer did not go through.
#[derive(Clone, Copy, Debug, PartialEq, Eq, Structural)]
pub enum SyncError {
    /// No session with the renderer is held.
    NotConnected,
    /// The element's settings could not be read.
    RemoteFetchFailed,
    /// The merged settings could not be written back.
    RemoteWriteFailed,
    /// The element's settings are not a keyed object.
    MalformedRemoteSettings,
}

} // verus!
