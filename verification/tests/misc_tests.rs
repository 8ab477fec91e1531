use grease::error::GreaseError;
use grease::misc::{
    MeetingMinutes, MusicFile, NewMeetingMinutes, NewTodo, NewValue, Todo, UpdatedMeetingMinutes, Variable,
};

#[test]
fn minutes_hide_private_notes() {
    let minutes = MeetingMinutes::create(3, NewMeetingMinutes { name: "Officers".to_owned() }, 19_000);
    assert_eq!(minutes.date, 19_000);
    assert_eq!(minutes.private, None);
    let minutes = minutes.update(UpdatedMeetingMinutes {
        name: "Officers 2".to_owned(),
        private: Some("secret".to_owned()),
        public: Some("hello".to_owned()),
    });
    let officer = minutes.to_view(true);
    assert_eq!(officer.private, Some("secret".to_owned()));
    assert_eq!(officer.date, 19_000 * 86_400_000);
    let member = minutes.to_view(false);
    assert_eq!(member.private, None);
    assert_eq!(member.public, Some("hello".to_owned()));
    assert_eq!(member.name, "Officers 2");
    match MeetingMinutes::load(8, None) {
        Err(GreaseError::BadRequest(message)) => assert_eq!(message, "No meeting minutes with id 8."),
        _ => panic!("expected an error"),
    }
}

#[test]
fn variables_report_replaced_values() {
    let existing = Variable { key: "theme".to_owned(), value: "dark".to_owned() };
    let (stored, old) = Variable::set("theme".to_owned(), NewValue { value: "light".to_owned() }, Some(existing));
    assert_eq!(stored.value, "light");
    assert_eq!(old, Some("dark".to_owned()));
    let (_, none) = Variable::set("new".to_owned(), NewValue { value: "v".to_owned() }, None);
    assert_eq!(none, None);
    assert_eq!(Variable::unset(Some(stored)), Some("light".to_owned()));
    assert_eq!(Variable::unset(None), None);
}

#[test]
fn music_files_live_in_the_music_directory() {
    assert_eq!(MusicFile::named("uploads/tenor.mid").unwrap(), "../httpsdocs/music/tenor.mid");
    assert_eq!(MusicFile::named("bass.pdf").unwrap(), "../httpsdocs/music/bass.pdf");
    assert_eq!(MusicFile::named("folder/..").unwrap_err(), "Failed to get file name");
    assert_eq!(MusicFile::named("/").unwrap_err(), "Failed to get file name");
}

#[test]
fn a_todo_for_each_member() {
    let todos = Todo::create(&NewTodo { text: "Learn notes".to_owned(), members: vec!["a".to_owned(), "b".to_owned()] });
    assert_eq!(todos.len(), 2);
    assert_eq!(todos[1].member, "b");
    assert_eq!(todos[0].text, "Learn notes");
}

#[test]
fn links_need_their_files() {
    assert!(MusicFile::ensure_exists(true).is_ok());
    assert_eq!(
        MusicFile::ensure_exists(false).unwrap_err(),
        "the file doesn't exist yet and must be uploaded before a link to it can be made"
    );
}
