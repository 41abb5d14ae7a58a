use vstd::prelude::*;
use vstd::string::StringExecFns;

use crate::connection::RendererConnection;
use crate::display::{display_of, display_text};
use crate::error::SyncError;
use crate::json::{
    bool_value, entries, extend_entries, insert_entry, into_object, json_bool, json_string,
    json_uint, new_object, object_entries, object_value, string_value, uint_value,
};
use crate::settings::Settings;
use crate::songs::{titles, SongList};

verus! {

/// The font size written with every style update.
pub const FONT_SIZE: usize = 300;

/// What a settings object of the renderer holds, as key/value pairs.
pub type Entries = Map<Seq<char>, serde_json::Value>;

/// The outcome of a merge, seen through the pairs of the map it built.
pub open spec fn entries_of(r: Result<serde_json::Map<String, serde_json::Value>, SyncError>) -> Result<
    Entries,
    SyncError,
> {
    match r {
        Ok(m) => Ok(entries(m)),
        Err(e) => Err(e),
    }
}

/// The settings read from the element, or why there are none to merge into:
/// nothing was read, or what was read is not an object.
pub open spec fn fetched_entries(fetched: Option<serde_json::Value>) -> Result<Entries, SyncError> {
    match fetched {
        None => Err(SyncError::RemoteFetchFailed),
        Some(v) => match object_entries(v) {
            None => Err(SyncError::MalformedRemoteSettings),
            Some(e) => Ok(e),
        },
    }
}

/// The fetched settings with only the `text` key set to `text`.
pub open spec fn merged_text(fetched: Option<serde_json::Value>, text: Seq<char>) -> Result<
    Entries,
    SyncError,
> {
    match fetched_entries(fetched) {
        Ok(e) => Ok(e.insert("text"@, json_string(text))),
        Err(err) => Err(err),
    }
}

/// Writes `text` under the `text` key of the settings read from the element
/// and keeps every other key as it was.
pub fn merge_text(fetched: Option<serde_json::Value>, text: String) -> (r: Result<
    serde_json::Map<String, serde_json::Value>,
    SyncError,
>)
    ensures
        entries_of(r) == merged_text(fetched, text@),
{
    let v = match fetched {
        Some(v) => v,
        None => return Err(SyncError::RemoteFetchFailed),
    };
    let mut m = match into_object(v) {
        Some(m) => m,
        None => return Err(SyncError::MalformedRemoteSettings),
    };
    insert_entry(&mut m, String::from_str("text"), string_value(text));
    Ok(m)
}

/// The keys that a style update writes.
pub open spec fn style_keys() -> Set<Seq<char>> {
    set!["scene_name"@, "color"@, "font"@, "outline"@, "outline_size"@, "outline_color"@]
}

/// The nested font descriptor: the family and the fixed size.
pub open spec fn font_entries(s: Settings) -> Entries {
    map!["face"@ => json_string(s.font_family@), "size"@ => json_uint(FONT_SIZE as nat)]
}

/// The style keys of `e` hold the values that `s` gives them.
pub open spec fn holds_style(e: Entries, s: Settings) -> bool {
    &&& e["scene_name"@] == json_string(s.scene_name@)
    &&& e["color"@] == json_uint(s.font_color as nat)
    &&& object_entries(e["font"@]) == Some(font_entries(s))
    &&& e["outline"@] == json_bool(s.outline)
    &&& e["outline_size"@] == json_uint(s.outline_width as nat)
    &&& e["outline_color"@] == json_uint(s.outline_color as nat)
}

/// `m` is `base` with the style keys of `s` written over it: those keys hold
/// the style, every other key of `base` is kept, and no other key is added.
pub open spec fn styled_over(m: Entries, base: Entries, s: Settings) -> bool {
    &&& m.dom() == base.dom().union(style_keys())
    &&& forall|k: Seq<char>|
        base.contains_key(k) && !style_keys().contains(k) ==> #[trigger] m[k] == base[k]
    &&& holds_style(m, s)
}

/// The key literals are pairwise distinct.
proof fn lemma_style_keys_distinct()
    ensures
        "scene_name"@ != "color"@,
        "scene_name"@ != "font"@,
        "scene_name"@ != "outline"@,
        "scene_name"@ != "outline_size"@,
        "scene_name"@ != "outline_color"@,
        "color"@ != "font"@,
        "color"@ != "outline"@,
        "color"@ != "outline_size"@,
        "color"@ != "outline_color"@,
        "font"@ != "outline"@,
        "font"@ != "outline_size"@,
        "font"@ != "outline_color"@,
        "outline"@ != "outline_size"@,
        "outline"@ != "outline_color"@,
        "outline_size"@ != "outline_color"@,
        "face"@ != "size"@,
{
    reveal_strlit("scene_name");
    reveal_strlit("color");
    reveal_strlit("font");
    reveal_strlit("outline");
    reveal_strlit("outline_size");
    reveal_strlit("outline_color");
    reveal_strlit("face");
    reveal_strlit("size");
    assert("scene_name"@[0] != "color"@[0]);
    assert("scene_name"@[0] != "font"@[0]);
    assert("scene_name"@[0] != "outline"@[0]);
    assert("scene_name"@[0] != "outline_size"@[0]);
    assert("scene_name"@[0] != "outline_color"@[0]);
    assert("color"@[0] != "font"@[0]);
    assert("color"@[0] != "outline"@[0]);
    assert("color"@[0] != "outline_size"@[0]);
    assert("color"@[0] != "outline_color"@[0]);
    assert("font"@[0] != "outline"@[0]);
    assert("font"@[0] != "outline_size"@[0]);
    assert("font"@[0] != "outline_color"@[0]);
    assert("outline"@.len() != "outline_size"@.len());
    assert("outline"@.len() != "outline_color"@.len());
    assert("outline_size"@[8] != "outline_color"@[8]);
    assert("face"@[0] != "size"@[0]);
}

/// The style keys and their values for `settings`, and nothing else.
pub fn create_additional_settings(settings: &Settings) -> (r: serde_json::Map<
    String,
    serde_json::Value,
>)
    ensures
        entries(r).dom() == style_keys(),
        holds_style(entries(r), *settings),
{
    let mut additional = new_object();
    insert_entry(
        &mut additional,
        String::from_str("scene_name"),
        string_value(settings.scene_name.clone()),
    );
    insert_entry(&mut additional, String::from_str("color"), uint_value(settings.font_color));
    let mut font = new_object();
    insert_entry(&mut font, String::from_str("face"), string_value(settings.font_family.clone()));
    insert_entry(&mut font, String::from_str("size"), uint_value(FONT_SIZE));
    insert_entry(&mut additional, String::from_str("font"), object_value(font));
    insert_entry(&mut additional, String::from_str("outline"), bool_value(settings.outline));
    insert_entry(
        &mut additional,
        String::from_str("outline_size"),
        uint_value(settings.outline_width),
    );
    insert_entry(
        &mut additional,
        String::from_str("outline_color"),
        uint_value(settings.outline_color),
    );
    proof {
        lemma_style_keys_distinct();
        assert(entries(font) =~= font_entries(*settings));
        assert(entries(additional).dom() =~= style_keys());
    }
    additional
}

/// The fetched settings with the style keys of `settings` written over them.
pub fn merge_style(fetched: Option<serde_json::Value>, settings: &Settings) -> (r: Result<
    serde_json::Map<String, serde_json::Value>,
    SyncError,
>)
    ensures
        fetched_entries(fetched) is Err ==> entries_of(r) == fetched_entries(fetched),
        fetched_entries(fetched) is Ok ==> r is Ok && styled_over(
            entries(r->Ok_0),
            fetched_entries(fetched)->Ok_0,
            *settings,
        ),
{
    let v = match fetched {
        Some(v) => v,
        None => return Err(SyncError::RemoteFetchFailed),
    };
    let mut m = match into_object(v) {
        Some(m) => m,
        None => return Err(SyncError::MalformedRemoteSettings),
    };
    let ghost base = entries(m);
    let additional = create_additional_settings(settings);
    let ghost added = entries(additional);
    extend_entries(&mut m, additional);
    proof {
        assert(entries(m).dom() =~= base.dom().union(style_keys()));
        assert(entries(m) == base.union_prefer_right(added));
        assert(holds_style(entries(m), *settings));
    }
    Ok(m)
}

/// What a display refresh writes: the element's name and its new text.
#[derive(Debug)]
pub struct SyncRequest {
    pub element: String,
    pub text: String,
}

/// Decides a display refresh: with a session, the element named in the
/// settings gets the titles joined by the settings' line breaks; without
/// one, `NotConnected` and no remote call.
pub fn sync_request<C>(
    connection: &RendererConnection<C>,
    songs: &SongList,
    settings: &Settings,
) -> (r: Result<SyncRequest, SyncError>)
    ensures
        r is Err <==> connection.session() is None,
        r is Err ==> r == Err::<SyncRequest, SyncError>(SyncError::NotConnected),
        r is Ok ==> r->Ok_0.element@ == settings.text_name@ && r->Ok_0.text@ == display_of(
            titles(songs@),
            settings.line_breaks as nat,
        ),
{
    if !connection.is_connected() {
        return Err(SyncError::NotConnected);
    }
    let text = display_text(songs, settings.line_breaks);
    Ok(SyncRequest { element: settings.text_name.clone(), text })
}

/// The first step of applying new settings: with a session, the name of the
/// element whose settings are to be read, taken from the new settings;
/// without one, `NotConnected`.
pub open spec fn apply_start(connected: bool, new: Settings) -> Result<Seq<char>, SyncError> {
    if connected {
        Ok(new.text_name@)
    } else {
        Err(SyncError::NotConnected)
    }
}

/// Decides the first step of applying new settings (see `apply_start`).
pub fn apply_request<C>(connection: &RendererConnection<C>, new: &Settings) -> (r: Result<
    String,
    SyncError,
>)
    ensures
        match (r, apply_start(connection.session() is Some, *new)) {
            (Ok(name), Ok(expected)) => name@ == expected,
            (Err(e), Err(expected)) => e == expected,
            _ => false,
        },
{
    if !connection.is_connected() {
        return Err(SyncError::NotConnected);
    }
    Ok(new.text_name.clone())
}

/// The stored settings and the result after an update whose remote part
/// ended with `outcome`. The new settings are kept once the merged settings
/// were sent, whether or not the write went through; where the update
/// stopped earlier the stored settings stay.
pub open spec fn committed(stored: Settings, new: Settings, outcome: Result<(), SyncError>) -> (
    Settings,
    Result<(), SyncError>,
) {
    match outcome {
        Ok(()) => (new, Ok(())),
        Err(SyncError::RemoteWriteFailed) => (new, outcome),
        Err(_) => (stored, outcome),
    }
}

/// Ends an update of the settings (see `committed`).
pub fn commit_style(stored: &mut Settings, new: Settings, outcome: Result<(), SyncError>) -> (r:
    Result<(), SyncError>)
    ensures
        (*final(stored), r) == committed(*old(stored), new, outcome),
{
    match outcome {
        Ok(()) => {
            *stored = new;
            Ok(())
        },
        Err(SyncError::RemoteWriteFailed) => {
            *stored = new;
            Err(SyncError::RemoteWriteFailed)
        },
        Err(e) => Err(e),
    }
}

/// Applying new settings without a session stops at its first step with
/// `NotConnected`, and the stored settings stay as they were.
pub proof fn lemma_disconnected_apply_keeps_settings(stored: Settings, new: Settings)
    ensures
        apply_start(false, new) == Err::<Seq<char>, SyncError>(SyncError::NotConnected),
        committed(stored, new, Err(SyncError::NotConnected)) == (
            stored,
            Err::<(), SyncError>(SyncError::NotConnected),
        ),
{
}

} // verus!
