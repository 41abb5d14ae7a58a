use serde_json::Value;
use setlist_sync::connection::RendererConnection;
use setlist_sync::engine::{
    apply_request, commit_style, create_additional_settings, merge_style, merge_text,
    sync_request, FONT_SIZE,
};
use setlist_sync::error::SyncError;
use setlist_sync::settings::Settings;
use setlist_sync::songs::SongList;
use setlist_sync::state::AppState;

fn parse(text: &str) -> Value {
    serde_json::from_str(text).unwrap()
}

fn style(text_name: &str, line_breaks: usize) -> Settings {
    Settings {
        scene_name: "Main".to_string(),
        text_name: text_name.to_string(),
        font_family: "Mono".to_string(),
        font_color: 16777215,
        outline: false,
        outline_width: 3,
        outline_color: 255,
        line_breaks,
    }
}

fn connected() -> RendererConnection<u32> {
    let mut c = RendererConnection::new();
    assert!(c.connect_result::<()>(Ok(7)));
    c
}

#[test]
fn merge_text_overwrites_only_text() {
    let fetched = parse("{\"text\": \"old\", \"color\": 42, \"unrelated\": true}");
    let merged = merge_text(Some(fetched), "X".to_string()).unwrap();
    assert_eq!(
        Value::Object(merged),
        parse("{\"text\": \"X\", \"color\": 42, \"unrelated\": true}")
    );
}

#[test]
fn merge_text_adds_missing_text_key() {
    let merged = merge_text(Some(parse("{\"a\": [1, 2]}")), "T".to_string()).unwrap();
    assert_eq!(Value::Object(merged), parse("{\"a\": [1, 2], \"text\": \"T\"}"));
}

#[test]
fn merge_text_without_fetch_fails() {
    assert_eq!(
        merge_text(None, "X".to_string()).unwrap_err(),
        SyncError::RemoteFetchFailed
    );
}

#[test]
fn merge_text_on_non_object_is_malformed() {
    assert_eq!(
        merge_text(Some(parse("[1, 2]")), "X".to_string()).unwrap_err(),
        SyncError::MalformedRemoteSettings
    );
}

#[test]
fn additional_settings_hold_owned_style_keys() {
    let m = create_additional_settings(&style("el", 1));
    let expected = parse(
        "{\"scene_name\": \"Main\", \"color\": 16777215, \
          \"font\": {\"face\": \"Mono\", \"size\": 300}, \
          \"outline\": false, \"outline_size\": 3, \"outline_color\": 255}",
    );
    assert_eq!(Value::Object(m), expected);
    assert_eq!(FONT_SIZE, 300);
}

#[test]
fn merge_style_keeps_unowned_keys() {
    let fetched = parse("{\"text\": \"keep\", \"color\": 1, \"unrelated\": true}");
    let merged = merge_style(Some(fetched), &style("el", 1)).unwrap();
    let expected = parse(
        "{\"text\": \"keep\", \"unrelated\": true, \"scene_name\": \"Main\", \
          \"color\": 16777215, \"font\": {\"face\": \"Mono\", \"size\": 300}, \
          \"outline\": false, \"outline_size\": 3, \"outline_color\": 255}",
    );
    assert_eq!(Value::Object(merged), expected);
}

#[test]
fn merge_style_errors() {
    assert_eq!(
        merge_style(None, &style("el", 1)).unwrap_err(),
        SyncError::RemoteFetchFailed
    );
    assert_eq!(
        merge_style(Some(Value::String("x".to_string())), &style("el", 1)).unwrap_err(),
        SyncError::MalformedRemoteSettings
    );
    let empty = merge_style(Some(Value::Object(serde_json::Map::new())), &style("el", 1)).unwrap();
    assert_eq!(empty.len(), 6);
}

#[test]
fn sync_request_needs_a_session() {
    let disconnected: RendererConnection<u32> = RendererConnection::new();
    let mut songs = SongList::new();
    songs.append("A".to_string());
    assert_eq!(
        sync_request(&disconnected, &songs, &style("el", 1)).unwrap_err(),
        SyncError::NotConnected
    );
}

#[test]
fn sync_request_names_element_and_joins_titles() {
    let mut songs = SongList::new();
    songs.append("A".to_string());
    songs.append("B".to_string());
    songs.append("C".to_string());
    let req = sync_request(&connected(), &songs, &style("setlist", 2)).unwrap();
    assert_eq!(req.element, "setlist");
    assert_eq!(req.text, "A\n\nB\n\nC");
}

#[test]
fn apply_when_disconnected_is_not_connected_and_keeps_settings() {
    let mut state = AppState::new();
    let new = style("other", 5);
    let started = apply_request(&state.client, &new);
    assert_eq!(started.clone().unwrap_err(), SyncError::NotConnected);
    let r = commit_style(&mut state.settings, new, Err(SyncError::NotConnected));
    assert_eq!(r, Err(SyncError::NotConnected));
    assert_eq!(state.settings.text_name, "setli");
    assert_eq!(state.settings.line_breaks, 1);
}

#[test]
fn apply_request_uses_new_element_name() {
    assert_eq!(apply_request(&connected(), &style("next", 1)).unwrap(), "next");
}

#[test]
fn commit_keeps_new_settings_even_when_write_failed() {
    let mut stored = Settings::get_default();
    let r = commit_style(&mut stored, style("w", 2), Err(SyncError::RemoteWriteFailed));
    assert_eq!(r, Err(SyncError::RemoteWriteFailed));
    assert_eq!(stored.text_name, "w");
    let r = commit_style(&mut stored, style("v", 3), Ok(()));
    assert_eq!(r, Ok(()));
    assert_eq!(stored.text_name, "v");
    assert_eq!(stored.line_breaks, 3);
}

#[test]
fn commit_keeps_old_settings_when_fetch_failed() {
    let mut stored = Settings::get_default();
    let r = commit_style(&mut stored, style("w", 2), Err(SyncError::RemoteFetchFailed));
    assert_eq!(r, Err(SyncError::RemoteFetchFailed));
    let r2 = commit_style(&mut stored, style("w", 2), Err(SyncError::MalformedRemoteSettings));
    assert_eq!(r2, Err(SyncError::MalformedRemoteSettings));
    assert_eq!(stored.text_name, "setli");
}
