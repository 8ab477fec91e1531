use grease::attendance::AbsenceRequestState;
use grease::event::GigRequestStatus;
use grease::member::Enrollment;
use grease::song::{Key, SongMode, StorageType};

#[test]
fn key_texts_round_trip() {
    let keys = [
        Key::AFlat, Key::A, Key::ASharp, Key::BFlat, Key::B, Key::BSharp, Key::CFlat, Key::C,
        Key::CSharp, Key::DFlat, Key::D, Key::DSharp, Key::EFlat, Key::E, Key::ESharp, Key::FFlat,
        Key::F, Key::FSharp, Key::GFlat, Key::G, Key::GSharp,
    ];
    for key in keys {
        assert_eq!(Key::parse(key.as_str()), Some(key));
    }
    assert_eq!(Key::AFlat.as_str(), "A\u{266D}");
    assert_eq!(Key::FSharp.as_str(), "F\u{266F}");
    assert_eq!(Key::parse("A#"), None);
    assert_eq!(Key::parse("H"), None);
}

#[test]
fn song_mode_texts_round_trip() {
    let modes = [
        SongMode::Major, SongMode::Minor, SongMode::Dorian, SongMode::Phrygian, SongMode::Lydian,
        SongMode::Myxolydian, SongMode::Locrian,
    ];
    for mode in modes {
        assert_eq!(SongMode::parse(mode.as_str()), Some(mode));
    }
    assert_eq!(SongMode::Myxolydian.as_str(), "myxolydian");
    assert_eq!(SongMode::parse("Major"), None);
}

#[test]
fn storage_and_state_texts_round_trip() {
    assert_eq!(StorageType::parse("local"), Some(StorageType::Local));
    assert_eq!(StorageType::Remote.as_str(), "remote");
    assert_eq!(StorageType::parse("cloud"), None);
    for state in [AbsenceRequestState::Approved, AbsenceRequestState::Denied, AbsenceRequestState::Pending] {
        assert_eq!(AbsenceRequestState::parse(state.as_str()), Some(state));
    }
    for status in [GigRequestStatus::Pending, GigRequestStatus::Accepted, GigRequestStatus::Dismissed] {
        assert_eq!(GigRequestStatus::parse(status.as_str()), Some(status));
    }
    assert_eq!(Enrollment::parse("class"), Some(Enrollment::Class));
    assert_eq!(Enrollment::Club.as_str(), "club");
    assert_eq!(Enrollment::parse("Club"), None);
}

#[test]
fn enrollment_form_field() {
    assert_eq!(Enrollment::from_form_field(None), Some(None));
    assert_eq!(Enrollment::from_form_field(Some("")), Some(None));
    assert_eq!(Enrollment::from_form_field(Some("inactive")), Some(None));
    assert_eq!(Enrollment::from_form_field(Some("class")), Some(Some(Enrollment::Class)));
    assert_eq!(Enrollment::from_form_field(Some("club")), Some(Some(Enrollment::Club)));
    assert_eq!(Enrollment::from_form_field(Some("alumni")), None);
}
