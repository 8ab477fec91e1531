use grease::error::GreaseError;
use grease::song::{
    GigSong, MediaType, NewGigSong, NewSongLink, Song, SongLink, SongLinkUpdate, StorageType,
};

fn song() -> Song {
    Song { id: 7, title: "Ramblin' Wreck".to_owned(), info: None, current: true, key: None, starting_pitch: None, mode: None }
}

fn link(id: i32, kind: &str, name: &str) -> SongLink {
    SongLink { id, song: 7, type_: kind.to_owned(), name: name.to_owned(), target: format!("{}.pdf", name) }
}

fn media(name: &str, order: i32) -> MediaType {
    MediaType { name: name.to_owned(), order, storage: StorageType::Local }
}

#[test]
fn links_are_sorted_into_sections_by_kind() {
    let links = vec![link(1, "Sheet Music", "A"), link(2, "MIDIs", "B"), link(3, "Sheet Music", "C")];
    let data = Song::load_with_data(song(), links, vec![media("Sheet Music", 1), media("MIDIs", 2), media("Performances", 3)]).unwrap();
    assert_eq!(data.song.id, 7);
    assert_eq!(data.links.len(), 3);
    assert_eq!(data.links[0].name, "Sheet Music");
    assert_eq!(data.links[0].links.iter().map(|l| l.id).collect::<Vec<_>>(), vec![1, 3]);
    assert_eq!(data.links[1].links.iter().map(|l| l.id).collect::<Vec<_>>(), vec![2]);
    assert!(data.links[2].links.is_empty());
}

#[test]
fn links_of_unknown_kinds_are_a_server_error() {
    let links = vec![link(1, "Kazoo", "A"), link(2, "Sheet Music", "B"), link(3, "Kazoo", "C")];
    match Song::load_with_data(song(), links, vec![media("Sheet Music", 1)]) {
        Err(GreaseError::ServerError(message)) => {
            assert_eq!(message, "song had links with unexpected types: [\"Kazoo\"]");
        }
        other => panic!("expected a server error, got {:?}", other.map(|d| d.links.len())),
    }
}

#[test]
fn local_targets_are_percent_encoded() {
    assert_eq!(SongLink::stored_target("foo bar?", StorageType::Local), "foo%20bar%3F");
    assert_eq!(SongLink::stored_target("foo bar?", StorageType::Remote), "foo bar?");
    assert_eq!(SongLink::stored_target("caf\u{e9}.mp3", StorageType::Local), "caf%C3%A9.mp3");
    let created = SongLink::create(
        12,
        7,
        NewSongLink { type_: "MIDIs".to_owned(), name: "Tenor".to_owned(), target: "tenor part.mid".to_owned() },
        StorageType::Local,
    );
    assert_eq!(created.id, 12);
    assert_eq!(created.target, "tenor%20part.mid");
}

#[test]
fn updating_a_local_link_moves_its_file_when_the_target_changes() {
    let old = SongLink { id: 1, song: 7, type_: "MIDIs".to_owned(), name: "Tenor".to_owned(), target: "tenor.mid".to_owned() };
    let moved = old.update(SongLinkUpdate { name: "Tenor 1".to_owned(), target: "tenor 1.mid".to_owned() }, StorageType::Local);
    // The stored target is the new one as given; the file moves to its
    // percent-encoded form.
    assert_eq!(moved.target, "tenor 1.mid");
    assert_eq!(moved.file_target, "tenor%201.mid");
    assert!(moved.move_file);
    let same = old.update(SongLinkUpdate { name: "Tenor".to_owned(), target: "tenor.mid".to_owned() }, StorageType::Local);
    assert!(!same.move_file);
    let remote = old.update(SongLinkUpdate { name: "Tenor".to_owned(), target: "https://x.org".to_owned() }, StorageType::Remote);
    assert!(!remote.move_file);
    assert_eq!(remote.target, "https://x.org");
    assert_eq!(remote.file_target, "https://x.org");
}

#[test]
fn setlist_is_numbered_from_one() {
    let set = GigSong::update_for_event(5, &vec![NewGigSong { song: 3 }, NewGigSong { song: 9 }]);
    assert_eq!(set, vec![GigSong { event: 5, song: 3, order: 1 }, GigSong { event: 5, song: 9, order: 2 }]);
    assert!(GigSong::update_for_event(5, &vec![]).is_empty());
}

#[test]
fn missing_songs_and_links() {
    match Song::load(4, None) {
        Err(GreaseError::BadRequest(message)) => assert_eq!(message, "No song with id 4."),
        _ => panic!("expected an error"),
    }
    match SongLink::load(11, None) {
        Err(GreaseError::BadRequest(message)) => assert_eq!(message, "no song link with id 11"),
        _ => panic!("expected an error"),
    }
    assert_eq!(Song::load(7, Some(song())).unwrap().title, "Ramblin' Wreck");
}

#[test]
fn deleting_a_local_link_removes_its_file() {
    let local = SongLink { id: 1, song: 7, type_: "MIDIs".to_owned(), name: "Tenor".to_owned(), target: "tenor%201.mid".to_owned() };
    assert_eq!(local.delete(StorageType::Local), Some("../httpsdocs/music/tenor%201.mid".to_owned()));
    assert_eq!(local.delete(StorageType::Remote), None);
}

#[test]
fn an_updated_local_link_moves_its_file() {
    let old = SongLink { id: 3, song: 7, type_: "MIDIs".to_owned(), name: "Tenor".to_owned(), target: "tenor.mid".to_owned() };
    let change = old.update(SongLinkUpdate { name: "Tenor 1".to_owned(), target: "tenor 1.mid".to_owned() }, StorageType::Local);
    assert_eq!(
        old.file_move(&change, true).unwrap(),
        Some(("../httpsdocs/music/tenor.mid".to_owned(), "../httpsdocs/music/tenor%201.mid".to_owned()))
    );
    match old.file_move(&change, false) {
        Err(GreaseError::BadRequest(m)) => {
            assert_eq!(m, "Song link 'Tenor' has no associated file. Consider deleting and recreating the link.")
        },
        _ => panic!("expected a bad request"),
    }
    let same = old.update(SongLinkUpdate { name: "Tenor".to_owned(), target: "tenor.mid".to_owned() }, StorageType::Local);
    assert_eq!(old.file_move(&same, false).unwrap(), None);
}
