use vstd::prelude::*;

use crate::connection::RendererConnection;
use crate::settings::{default_settings, Settings};
use crate::songs::SongList;

verus! {

#[verifier::external_type_specification]
#[verifier::external_body]
pub struct ExObsClient(obws::Client);

/// Everything the process keeps: the session with the renderer, the song
/// list and the current settings. Each part can be put behind a lock of its
/// own by whoever shares the state.
pub struct AppState {
    pub client: RendererConnection<obws::Client>,
    pub songs: SongList,
    pub settings: Settings,
}

impl AppState {
    /// No session, no songs, and the built-in settings.
    pub fn new() -> (r: AppState)
        ensures
            r.client.session() is None,
            r.songs@.len() == 0,
            default_settings(r.settings),
    {
        AppState {
            client: RendererConnection::new(),
            songs: SongList::new(),
            settings: Settings::get_default(),
        }
    }
}

} // verus!
