use setlist_sync::songs::{SongList, SongListError};

fn titles_of(list: &SongList) -> Vec<String> {
    list.list().into_iter().map(|s| s.title).collect()
}

#[test]
fn append_assigns_length_plus_one_and_empty_artist() {
    let mut list = SongList::new();
    assert!(list.append("A".to_string()));
    assert!(list.append("".to_string()));
    let songs = list.list();
    assert_eq!(songs.len(), 2);
    assert_eq!(songs[0].id, 1);
    assert_eq!(songs[0].title, "A");
    assert_eq!(songs[0].artist, "");
    assert_eq!(songs[1].id, 2);
    assert_eq!(songs[1].title, "");
}

#[test]
fn remove_shifts_later_entries_and_keeps_their_ids() {
    let mut list = SongList::new();
    list.append("A".to_string());
    list.append("B".to_string());
    list.append("C".to_string());
    assert_eq!(list.remove(0), Ok(()));
    let songs = list.list();
    assert_eq!(titles_of(&list), vec!["B", "C"]);
    assert_eq!(songs[0].id, 2);
    assert_eq!(songs[1].id, 3);
}

#[test]
fn ids_can_collide_after_a_removal() {
    let mut list = SongList::new();
    list.append("A".to_string());
    list.append("B".to_string());
    list.remove(0).unwrap();
    list.append("C".to_string());
    let ids: Vec<usize> = list.list().iter().map(|s| s.id).collect();
    assert_eq!(ids, vec![2, 2]);
}

#[test]
fn remove_at_length_is_out_of_bounds_and_keeps_list() {
    let mut list = SongList::new();
    list.append("A".to_string());
    list.append("B".to_string());
    let len = list.list().len();
    assert_eq!(list.remove(len), Err(SongListError::IndexOutOfBounds));
    assert_eq!(titles_of(&list), vec!["A", "B"]);
}

#[test]
fn remove_on_empty_list_is_out_of_bounds() {
    let mut list = SongList::new();
    assert_eq!(list.remove(0), Err(SongListError::IndexOutOfBounds));
    assert_eq!(list.len(), 0);
}

#[test]
fn length_follows_appends_and_successful_removes() {
    let mut list = SongList::new();
    list.append("A".to_string());
    list.append("B".to_string());
    list.append("C".to_string());
    list.remove(1).unwrap();
    assert!(list.remove(5).is_err());
    list.append("D".to_string());
    assert_eq!(list.len(), 3);
    assert_eq!(titles_of(&list), vec!["A", "C", "D"]);
}
