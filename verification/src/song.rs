//! Songs of the repertoire, their links, and the order of a gig's set.

use crate::error::GreaseError;
use crate::text::{concat3, decimal, int_decimal, owned, str_eq};
use vstd::prelude::*;

verus! {

/// A pitch, as a song's key or starting pitch.
#[derive(Debug, Clone, Copy, PartialEq, Eq, Structural)]
pub enum Key {
    /// A flat.
    AFlat,
    /// A natural.
    A,
    /// A sharp.
    ASharp,
    /// B flat.
    BFlat,
    /// B natural.
    B,
    /// B sharp.
    BSharp,
    /// C flat.
    CFlat,
    /// C natural.
    C,
    /// C sharp.
    CSharp,
    /// D flat.
    DFlat,
    /// D natural.
    D,
    /// D sharp.
    DSharp,
    /// E flat.
    EFlat,
    /// E natural.
    E,
    /// E sharp.
    ESharp,
    /// F flat.
    FFlat,
    /// F natural.
    F,
    /// F sharp.
    FSharp,
    /// G flat.
    GFlat,
    /// G natural.
    G,
    /// G sharp.
    GSharp,
}

/// The text that stands for each [`Key`].
pub open spec fn key_text(value: Key) -> Seq<char> {
    match value {
        Key::AFlat => "A\u{266D}"@,
        Key::A => "A"@,
        Key::ASharp => "A\u{266F}"@,
        Key::BFlat => "B\u{266D}"@,
        Key::B => "B"@,
        Key::BSharp => "B\u{266F}"@,
        Key::CFlat => "C\u{266D}"@,
        Key::C => "C"@,
        Key::CSharp => "C\u{266F}"@,
        Key::DFlat => "D\u{266D}"@,
        Key::D => "D"@,
        Key::DSharp => "D\u{266F}"@,
        Key::EFlat => "E\u{266D}"@,
        Key::E => "E"@,
        Key::ESharp => "E\u{266F}"@,
        Key::FFlat => "F\u{266D}"@,
        Key::F => "F"@,
        Key::FSharp => "F\u{266F}"@,
        Key::GFlat => "G\u{266D}"@,
        Key::G => "G"@,
        Key::GSharp => "G\u{266F}"@,
    }
}

impl Key {
    /// The text that stands for this value.
    pub fn as_str(&self) -> (text: &'static str)
        ensures
            text@ == key_text(*self),
    {
        match self {
            Key::AFlat => "A\u{266D}",
            Key::A => "A",
            Key::ASharp => "A\u{266F}",
            Key::BFlat => "B\u{266D}",
            Key::B => "B",
            Key::BSharp => "B\u{266F}",
            Key::CFlat => "C\u{266D}",
            Key::C => "C",
            Key::CSharp => "C\u{266F}",
            Key::DFlat => "D\u{266D}",
            Key::D => "D",
            Key::DSharp => "D\u{266F}",
            Key::EFlat => "E\u{266D}",
            Key::E => "E",
            Key::ESharp => "E\u{266F}",
            Key::FFlat => "F\u{266D}",
            Key::F => "F",
            Key::FSharp => "F\u{266F}",
            Key::GFlat => "G\u{266D}",
            Key::G => "G",
            Key::GSharp => "G\u{266F}",
        }
    }

    /// The value that `text` stands for, if any.
    pub fn parse(text: &str) -> (value: Option<Key>)
        ensures
            match value {
                Some(v) => key_text(v) == text@,
                None => forall|v: Key| key_text(v) != text@,
            },
    {
        if str_eq(text, "A\u{266D}") {
            return Some(Key::AFlat);
        }
        if str_eq(text, "A") {
            return Some(Key::A);
        }
        if str_eq(text, "A\u{266F}") {
            return Some(Key::ASharp);
        }
        if str_eq(text, "B\u{266D}") {
            return Some(Key::BFlat);
        }
        if str_eq(text, "B") {
            return Some(Key::B);
        }
        if str_eq(text, "B\u{266F}") {
            return Some(Key::BSharp);
        }
        if str_eq(text, "C\u{266D}") {
            return Some(Key::CFlat);
        }
        if str_eq(text, "C") {
            return Some(Key::C);
        }
        if str_eq(text, "C\u{266F}") {
            return Some(Key::CSharp);
        }
        if str_eq(text, "D\u{266D}") {
            return Some(Key::DFlat);
        }
        if str_eq(text, "D") {
            return Some(Key::D);
        }
        if str_eq(text, "D\u{266F}") {
            return Some(Key::DSharp);
        }
        if str_eq(text, "E\u{266D}") {
            return Some(Key::EFlat);
        }
        if str_eq(text, "E") {
            return Some(Key::E);
        }
        if str_eq(text, "E\u{266F}") {
            return Some(Key::ESharp);
        }
        if str_eq(text, "F\u{266D}") {
            return Some(Key::FFlat);
        }
        if str_eq(text, "F") {
            return Some(Key::F);
        }
        if str_eq(text, "F\u{266F}") {
            return Some(Key::FSharp);
        }
        if str_eq(text, "G\u{266D}") {
            return Some(Key::GFlat);
        }
        if str_eq(text, "G") {
            return Some(Key::G);
        }
        if str_eq(text, "G\u{266F}") {
            return Some(Key::GSharp);
        }
        proof {
            assert forall|v: Key| key_text(v) != text@ by {
                reveal_strlit("A\u{266D}");
                reveal_strlit("A");
                reveal_strlit("A\u{266F}");
                reveal_strlit("B\u{266D}");
                reveal_strlit("B");
                reveal_strlit("B\u{266F}");
                reveal_strlit("C\u{266D}");
                reveal_strlit("C");
                reveal_strlit("C\u{266F}");
                reveal_strlit("D\u{266D}");
                reveal_strlit("D");
                reveal_strlit("D\u{266F}");
                reveal_strlit("E\u{266D}");
                reveal_strlit("E");
                reveal_strlit("E\u{266F}");
                reveal_strlit("F\u{266D}");
                reveal_strlit("F");
                reveal_strlit("F\u{266F}");
                reveal_strlit("G\u{266D}");
                reveal_strlit("G");
                reveal_strlit("G\u{266F}");
            }
        }
        None
    }
}

/// No two pitches share a text, so reading back a pitch's text gives the pitch.
pub proof fn law_key_text_is_unambiguous(a: Key, b: Key)
    ensures
        key_text(a) == key_text(b) ==> a == b,
{
    reveal_strlit("A\u{266D}");
    reveal_strlit("A");
    reveal_strlit("A\u{266F}");
    reveal_strlit("B\u{266D}");
    reveal_strlit("B");
    reveal_strlit("B\u{266F}");
    reveal_strlit("C\u{266D}");
    reveal_strlit("C");
    reveal_strlit("C\u{266F}");
    reveal_strlit("D\u{266D}");
    reveal_strlit("D");
    reveal_strlit("D\u{266F}");
    reveal_strlit("E\u{266D}");
    reveal_strlit("E");
    reveal_strlit("E\u{266F}");
    reveal_strlit("F\u{266D}");
    reveal_strlit("F");
    reveal_strlit("F\u{266F}");
    reveal_strlit("G\u{266D}");
    reveal_strlit("G");
    reveal_strlit("G\u{266F}");
    assert({
        let text = key_text(Key::AFlat);
        text.len() == 2 && text[0] == 'A' && text[1] == '\u{266D}'
    });
    assert({
        let text = key_text(Key::A);
        text.len() == 1 && text[0] == 'A'
    });
    assert({
        let text = key_text(Key::ASharp);
        text.len() == 2 && text[0] == 'A' && text[1] == '\u{266F}'
    });
    assert({
        let text = key_text(Key::BFlat);
        text.len() == 2 && text[0] == 'B' && text[1] == '\u{266D}'
    });
    assert({
        let text = key_text(Key::B);
        text.len() == 1 && text[0] == 'B'
    });
    assert({
        let text = key_text(Key::BSharp);
        text.len() == 2 && text[0] == 'B' && text[1] == '\u{266F}'
    });
    assert({
        let text = key_text(Key::CFlat);
        text.len() == 2 && text[0] == 'C' && text[1] == '\u{266D}'
    });
    assert({
        let text = key_text(Key::C);
        text.len() == 1 && text[0] == 'C'
    });
    assert({
        let text = key_text(Key::CSharp);
        text.len() == 2 && text[0] == 'C' && text[1] == '\u{266F}'
    });
    assert({
        let text = key_text(Key::DFlat);
        text.len() == 2 && text[0] == 'D' && text[1] == '\u{266D}'
    });
    assert({
        let text = key_text(Key::D);
        text.len() == 1 && text[0] == 'D'
    });
    assert({
        let text = key_text(Key::DSharp);
        text.len() == 2 && text[0] == 'D' && text[1] == '\u{266F}'
    });
    assert({
        let text = key_text(Key::EFlat);
        text.len() == 2 && text[0] == 'E' && text[1] == '\u{266D}'
    });
    assert({
        let text = key_text(Key::E);
        text.len() == 1 && text[0] == 'E'
    });
    assert({
        let text = key_text(Key::ESharp);
        text.len() == 2 && text[0] == 'E' && text[1] == '\u{266F}'
    });
    assert({
        let text = key_text(Key::FFlat);
        text.len() == 2 && text[0] == 'F' && text[1] == '\u{266D}'
    });
    assert({
        let text = key_text(Key::F);
        text.len() == 1 && text[0] == 'F'
    });
    assert({
        let text = key_text(Key::FSharp);
        text.len() == 2 && text[0] == 'F' && text[1] == '\u{266F}'
    });
    assert({
        let text = key_text(Key::GFlat);
        text.len() == 2 && text[0] == 'G' && text[1] == '\u{266D}'
    });
    assert({
        let text = key_text(Key::G);
        text.len() == 1 && text[0] == 'G'
    });
    assert({
        let text = key_text(Key::GSharp);
        text.len() == 2 && text[0] == 'G' && text[1] == '\u{266F}'
    });
}

/// The mode a song is in.
#[derive(Debug, Clone, Copy, PartialEq, Eq, Structural)]
pub enum SongMode {
    /// The major mode.
    Major,
    /// The minor mode.
    Minor,
    /// The dorian mode.
    Dorian,
    /// The phrygian mode.
    Phrygian,
    /// The lydian mode.
    Lydian,
    /// The myxolydian mode.
    Myxolydian,
    /// The locrian mode.
    Locrian,
}

/// The text that stands for each [`SongMode`].
pub open spec fn song_mode_text(value: SongMode) -> Seq<char> {
    match value {
        SongMode::Major => "major"@,
        SongMode::Minor => "minor"@,
        SongMode::Dorian => "dorian"@,
        SongMode::Phrygian => "phrygian"@,
        SongMode::Lydian => "lydian"@,
        SongMode::Myxolydian => "myxolydian"@,
        SongMode::Locrian => "locrian"@,
    }
}

impl SongMode {
    /// The text that stands for this value.
    pub fn as_str(&self) -> (text: &'static str)
        ensures
            text@ == song_mode_text(*self),
    {
        match self {
            SongMode::Major => "major",
            SongMode::Minor => "minor",
            SongMode::Dorian => "dorian",
            SongMode::Phrygian => "phrygian",
            SongMode::Lydian => "lydian",
            SongMode::Myxolydian => "myxolydian",
            SongMode::Locrian => "locrian",
        }
    }

    /// The value that `text` stands for, if any.
    pub fn parse(text: &str) -> (value: Option<SongMode>)
        ensures
            match value {
                Some(v) => song_mode_text(v) == text@,
                None => forall|v: SongMode| song_mode_text(v) != text@,
            },
    {
        if str_eq(text, "major") {
            return Some(SongMode::Major);
        }
        if str_eq(text, "minor") {
            return Some(SongMode::Minor);
        }
        if str_eq(text, "dorian") {
            return Some(SongMode::Dorian);
        }
        if str_eq(text, "phrygian") {
            return Some(SongMode::Phrygian);
        }
        if str_eq(text, "lydian") {
            return Some(SongMode::Lydian);
        }
        if str_eq(text, "myxolydian") {
            return Some(SongMode::Myxolydian);
        }
        if str_eq(text, "locrian") {
            return Some(SongMode::Locrian);
        }
        proof {
            assert forall|v: SongMode| song_mode_text(v) != text@ by {
                reveal_strlit("major");
                reveal_strlit("minor");
                reveal_strlit("dorian");
                reveal_strlit("phrygian");
                reveal_strlit("lydian");
                reveal_strlit("myxolydian");
                reveal_strlit("locrian");
            }
        }
        None
    }
}

/// No two modes share a text, so reading back a mode's text gives the mode.
pub proof fn law_song_mode_text_is_unambiguous(a: SongMode, b: SongMode)
    ensures
        song_mode_text(a) == song_mode_text(b) ==> a == b,
{
    reveal_strlit("major");
    reveal_strlit("minor");
    reveal_strlit("dorian");
    reveal_strlit("phrygian");
    reveal_strlit("lydian");
    reveal_strlit("myxolydian");
    reveal_strlit("locrian");
    assert({
        let text = song_mode_text(SongMode::Major);
        text.len() == 5 && text[0] == 'm' && text[1] == 'a' && text[2] == 'j'
    });
    assert({
        let text = song_mode_text(SongMode::Minor);
        text.len() == 5 && text[0] == 'm' && text[1] == 'i' && text[2] == 'n'
    });
    assert({
        let text = song_mode_text(SongMode::Dorian);
        text.len() == 6 && text[0] == 'd' && text[1] == 'o' && text[2] == 'r'
    });
    assert({
        let text = song_mode_text(SongMode::Phrygian);
        text.len() == 8 && text[0] == 'p' && text[1] == 'h' && text[2] == 'r'
    });
    assert({
        let text = song_mode_text(SongMode::Lydian);
        text.len() == 6 && text[0] == 'l' && text[1] == 'y' && text[2] == 'd'
    });
    assert({
        let text = song_mode_text(SongMode::Myxolydian);
        text.len() == 10 && text[0] == 'm' && text[1] == 'y' && text[2] == 'x'
    });
    assert({
        let text = song_mode_text(SongMode::Locrian);
        text.len() == 7 && text[0] == 'l' && text[1] == 'o' && text[2] == 'c'
    });
}

/// Where the files of a kind of link live.
#[derive(Debug, Clone, Copy, PartialEq, Eq, Structural)]
pub enum StorageType {
    /// On this server, in the music directory.
    Local,
    /// Elsewhere on the web.
    Remote,
}

/// The text that stands for each [`StorageType`].
pub open spec fn storage_type_text(value: StorageType) -> Seq<char> {
    match value {
        StorageType::Local => "local"@,
        StorageType::Remote => "remote"@,
    }
}

impl StorageType {
    /// The text that stands for this value.
    pub fn as_str(&self) -> (text: &'static str)
        ensures
            text@ == storage_type_text(*self),
    {
        match self {
            StorageType::Local => "local",
            StorageType::Remote => "remote",
        }
    }

    /// The value that `text` stands for, if any.
    pub fn parse(text: &str) -> (value: Option<StorageType>)
        ensures
            match value {
                Some(v) => storage_type_text(v) == text@,
                None => forall|v: StorageType| storage_type_text(v) != text@,
            },
    {
        if str_eq(text, "local") {
            return Some(StorageType::Local);
        }
        if str_eq(text, "remote") {
            return Some(StorageType::Remote);
        }
        proof {
            assert forall|v: StorageType| storage_type_text(v) != text@ by {
                reveal_strlit("local");
                reveal_strlit("remote");
            }
        }
        None
    }
}

/// No two storage types share a text, so reading back a storage type's text gives it.
pub proof fn law_storage_type_text_is_unambiguous(a: StorageType, b: StorageType)
    ensures
        storage_type_text(a) == storage_type_text(b) ==> a == b,
{
    reveal_strlit("local");
    reveal_strlit("remote");
    assert({
        let text = storage_type_text(StorageType::Local);
        text.len() == 5 && text[0] == 'l' && text[1] == 'o' && text[2] == 'c'
    });
    assert({
        let text = storage_type_text(StorageType::Remote);
        text.len() == 6 && text[0] == 'r' && text[1] == 'e' && text[2] == 'm'
    });
}

/// A song of the repertoire.
#[derive(Debug)]
pub struct Song {
    /// The ID of the song.
    pub id: i32,
    /// The title of the song.
    pub title: String,
    /// Notes on the song: changes to the music, who wrote it, soloists.
    pub info: Option<String>,
    /// Whether it is in this semester's repertoire.
    pub current: bool,
    /// The key of the song.
    pub key: Option<Key>,
    /// The starting pitch of the song.
    pub starting_pitch: Option<Key>,
    /// The mode of the song.
    pub mode: Option<SongMode>,
}

/// A link from a song to a file or a page: sheet music, a recording.
#[derive(Debug)]
pub struct SongLink {
    /// The ID of the link.
    pub id: i32,
    /// The ID of the song it belongs to.
    pub song: i32,
    /// The kind of media it points to (the name of a [`MediaType`]).
    pub type_: String,
    /// The name of the link.
    pub name: String,
    /// Where the link points.
    pub target: String,
}

/// A kind of media that songs link to.
#[derive(Debug)]
pub struct MediaType {
    /// The name of the kind.
    pub name: String,
    /// Where sections of this kind come on a song's page.
    pub order: i32,
    /// Where its files live.
    pub storage: StorageType,
}

/// The links of a song of one kind of media.
#[derive(Debug)]
pub struct SongLinkSection {
    /// The name of the kind of media.
    pub name: String,
    /// The song's links of that kind.
    pub links: Vec<SongLink>,
}

/// A song with its links, in one section per kind of media.
#[derive(Debug)]
pub struct SongData {
    /// The song.
    pub song: Song,
    /// One section per kind of media, in the kinds' order.
    pub links: Vec<SongLinkSection>,
}

impl SongLink {
    /// A copy of this link.
    pub fn copy(&self) -> (link: SongLink)
        ensures
            link == *self,
    {
        SongLink {
            id: self.id,
            song: self.song,
            type_: self.type_.clone(),
            name: self.name.clone(),
            target: self.target.clone(),
        }
    }
}

/// The links of kind `kind`, in their order.
pub open spec fn links_of_type(links: Seq<SongLink>, kind: Seq<char>) -> Seq<SongLink>
    decreases links.len(),
{
    if links.len() == 0 {
        Seq::empty()
    } else {
        let rest = links_of_type(links.drop_last(), kind);
        if links.last().type_@ == kind {
            rest.push(links.last())
        } else {
            rest
        }
    }
}

/// Whether some kind of media is named `kind`.
pub open spec fn is_known_type(media_types: Seq<MediaType>, kind: Seq<char>) -> bool {
    exists|j: int| 0 <= j < media_types.len() && (#[trigger] media_types[j]).name@ == kind
}

/// The kinds of the links that no kind of media is named after, each once,
/// in the order they first occur.
pub open spec fn unexpected_types(links: Seq<SongLink>, media_types: Seq<MediaType>) -> Seq<Seq<char>>
    decreases links.len(),
{
    if links.len() == 0 {
        Seq::empty()
    } else {
        let rest = unexpected_types(links.drop_last(), media_types);
        let kind = links.last().type_@;
        if !is_known_type(media_types, kind) && !rest.contains(kind) {
            rest.push(kind)
        } else {
            rest
        }
    }
}

/// The links in the section of the `i`-th kind of media: those of its kind,
/// unless an earlier kind has the same name and took them.
pub open spec fn section_links(links: Seq<SongLink>, media_types: Seq<MediaType>, i: int) -> Seq<SongLink> {
    if exists|j: int| 0 <= j < i && (#[trigger] media_types[j]).name@ == media_types[i].name@ {
        Seq::empty()
    } else {
        links_of_type(links, media_types[i].name@)
    }
}

/// The texts of a list of strings.
pub open spec fn texts(items: Seq<String>) -> Seq<Seq<char>> {
    items.map_values(|item: String| item@)
}

/// A list of texts as Rust's `Debug` formatting writes it.
pub uninterp spec fn spec_debug_texts(items: Seq<Seq<char>>) -> Seq<char>;

/// Formats a list of strings for an error message.
///
/// Calls std's `format!("{:?}", items)`; trusted to depend on the texts
/// alone.
#[verifier::external_body]
fn debug_texts(items: &Vec<String>) -> (text: String)
    ensures
        text@ == spec_debug_texts(texts(items@)),
{
    format!("{:?}", items)
}

/// The start of the error for links of unknown kinds.
pub open spec fn unexpected_types_prefix() -> Seq<char> {
    "song had links with unexpected types: "@
}

fn is_known_type_exec(media_types: &Vec<MediaType>, kind: &str) -> (known: bool)
    ensures
        known == is_known_type(media_types@, kind@),
{
    let mut j: usize = 0;
    while j < media_types.len()
        invariant
            0 <= j <= media_types@.len(),
            forall|q: int| 0 <= q < j ==> (#[trigger] media_types@[q]).name@ != kind@,
        decreases media_types@.len() - j,
    {
        if str_eq(media_types[j].name.as_str(), kind) {
            return true;
        }
        j += 1;
    }
    false
}

fn contains_text(items: &Vec<String>, text: &str) -> (found: bool)
    ensures
        found == texts(items@).contains(text@),
{
    let mut j: usize = 0;
    while j < items.len()
        invariant
            0 <= j <= items@.len(),
            forall|q: int| 0 <= q < j ==> (#[trigger] items@[q])@ != text@,
        decreases items@.len() - j,
    {
        if str_eq(items[j].as_str(), text) {
            assert(texts(items@)[j as int] == text@);
            return true;
        }
        j += 1;
    }
    false
}

fn links_of_type_exec(links: &Vec<SongLink>, kind: &str) -> (found: Vec<SongLink>)
    ensures
        found@ == links_of_type(links@, kind@),
{
    let mut found: Vec<SongLink> = Vec::new();
    let mut k: usize = 0;
    while k < links.len()
        invariant
            0 <= k <= links@.len(),
            found@ == links_of_type(links@.take(k as int), kind@),
        decreases links@.len() - k,
    {
        assert(links@.take(k as int + 1).drop_last() =~= links@.take(k as int));
        if str_eq(links[k].type_.as_str(), kind) {
            found.push(links[k].copy());
        }
        k += 1;
    }
    assert(links@.take(links@.len() as int) =~= links@);
    found
}

impl Song {
    /// The song with its links sorted into one section per kind of media,
    /// given its links (ordered by name) and the kinds of media (in their
    /// order). A link of a kind that no kind of media is named after is a
    /// server error that lists those kinds.
    pub fn load_with_data(song: Song, song_links: Vec<SongLink>, media_types: Vec<MediaType>) -> (result: Result<
        SongData,
        GreaseError,
    >)
        ensures
            unexpected_types(song_links@, media_types@).len() > 0 ==> (result matches Err(
                GreaseError::ServerError(m),
            ) && m@ == unexpected_types_prefix() + spec_debug_texts(unexpected_types(song_links@, media_types@))),
            unexpected_types(song_links@, media_types@).len() == 0 ==> (result matches Ok(data) && data.song
                == song && data.links@.len() == media_types@.len() && forall|i: int|
                0 <= i < media_types@.len() ==> (#[trigger] data.links@[i]).name == media_types@[i].name
                    && data.links@[i].links@ == section_links(song_links@, media_types@, i)),
    {
        let mut sections: Vec<SongLinkSection> = Vec::new();
        let mut i: usize = 0;
        while i < media_types.len()
            invariant
                0 <= i <= media_types@.len(),
                sections@.len() == i,
                forall|q: int|
                    0 <= q < i ==> (#[trigger] sections@[q]).name == media_types@[q].name && sections@[q].links@
                        == section_links(song_links@, media_types@, q),
            decreases media_types@.len() - i,
        {
            let name = media_types[i].name.as_str();
            let mut taken = false;
            let mut j: usize = 0;
            while j < i
                invariant
                    0 <= j <= i < media_types@.len(),
                    name@ == media_types@[i as int].name@,
                    taken <==> exists|q: int| 0 <= q < j && (#[trigger] media_types@[q]).name@ == name@,
                decreases i - j,
            {
                if str_eq(media_types[j].name.as_str(), name) {
                    taken = true;
                }
                j += 1;
            }
            let links = if taken {
                Vec::new()
            } else {
                links_of_type_exec(&song_links, name)
            };
            sections.push(SongLinkSection { name: media_types[i].name.clone(), links });
            i += 1;
        }
        let mut unexpected: Vec<String> = Vec::new();
        let mut k: usize = 0;
        while k < song_links.len()
            invariant
                0 <= k <= song_links@.len(),
                texts(unexpected@) == unexpected_types(song_links@.take(k as int), media_types@),
            decreases song_links@.len() - k,
        {
            assert(song_links@.take(k as int + 1).drop_last() =~= song_links@.take(k as int));
            let kind = song_links[k].type_.as_str();
            if !is_known_type_exec(&media_types, kind) && !contains_text(&unexpected, kind) {
                let ghost before = unexpected@;
                unexpected.push(kind.to_string());
                assert(texts(unexpected@) =~= texts(before).push(kind@));
            }
            k += 1;
        }
        assert(song_links@.take(song_links@.len() as int) =~= song_links@);
        if unexpected.len() > 0 {
            let listed = debug_texts(&unexpected);
            proof {
                reveal_strlit("");
            }
            return Err(
                GreaseError::ServerError(concat3("song had links with unexpected types: ", listed.as_str(), "")),
            );
        }
        Ok(SongData { song, links: sections })
    }
}

proof fn lemma_links_of_type_keeps(links: Seq<SongLink>, kind: Seq<char>, k: int)
    requires
        0 <= k < links.len(),
        links[k].type_@ == kind,
    ensures
        links_of_type(links, kind).contains(links[k]),
    decreases links.len(),
{
    let rest = links_of_type(links.drop_last(), kind);
    if k == links.len() - 1 {
        assert(links_of_type(links, kind) == rest.push(links.last()));
        assert(links_of_type(links, kind)[rest.len() as int] == links[k]);
    } else {
        lemma_links_of_type_keeps(links.drop_last(), kind, k);
        assert(links.drop_last()[k] == links[k]);
        let j = choose|j: int| 0 <= j < rest.len() && rest[j] == links[k];
        if links.last().type_@ == kind {
            assert(links_of_type(links, kind)[j] == links[k]);
        } else {
            assert(links_of_type(links, kind)[j] == links[k]);
        }
    }
}

proof fn lemma_known_when_nothing_unexpected(links: Seq<SongLink>, media_types: Seq<MediaType>, k: int)
    requires
        0 <= k < links.len(),
        unexpected_types(links, media_types).len() == 0,
    ensures
        is_known_type(media_types, links[k].type_@),
    decreases links.len(),
{
    let rest = unexpected_types(links.drop_last(), media_types);
    let kind = links.last().type_@;
    if !is_known_type(media_types, kind) && !rest.contains(kind) {
        assert(unexpected_types(links, media_types).len() == rest.len() + 1);
    }
    assert(rest.len() == 0) by {
        if rest.len() > 0 {
            if !is_known_type(media_types, kind) && !rest.contains(kind) {
                assert(unexpected_types(links, media_types) == rest.push(kind));
            } else {
                assert(unexpected_types(links, media_types) == rest);
            }
        }
    }
    if k == links.len() - 1 {
        if !is_known_type(media_types, kind) {
            assert(!rest.contains(kind));
            assert(unexpected_types(links, media_types) == rest.push(kind));
        }
    } else {
        lemma_known_when_nothing_unexpected(links.drop_last(), media_types, k);
        assert(links.drop_last()[k] == links[k]);
    }
}

/// Whether the `i`-th kind of media is the first one named `kind`.
pub open spec fn is_first_media_type_named(media_types: Seq<MediaType>, kind: Seq<char>, i: int) -> bool {
    &&& 0 <= i < media_types.len()
    &&& media_types[i].name@ == kind
    &&& forall|j: int| 0 <= j < i ==> (#[trigger] media_types[j]).name@ != kind
}

/// When a song's links load without error, no link is lost: every link is
/// in the section of the first kind of media named after its kind.
pub proof fn law_no_link_is_lost(links: Seq<SongLink>, media_types: Seq<MediaType>, k: int)
    requires
        0 <= k < links.len(),
        unexpected_types(links, media_types).len() == 0,
    ensures
        exists|i: int|
            is_first_media_type_named(media_types, links[k].type_@, i) && (#[trigger] section_links(
                links,
                media_types,
                i,
            )).contains(links[k]),
{
    let kind = links[k].type_@;
    lemma_known_when_nothing_unexpected(links, media_types, k);
    let some = choose|j: int| 0 <= j < media_types.len() && (#[trigger] media_types[j]).name@ == kind;
    let i = lemma_first_media_type_named(media_types, kind, some);
    lemma_links_of_type_keeps(links, kind, k);
    assert(section_links(links, media_types, i) == links_of_type(links, kind));
}

proof fn lemma_first_media_type_named(media_types: Seq<MediaType>, kind: Seq<char>, some: int) -> (i: int)
    requires
        0 <= some < media_types.len(),
        media_types[some].name@ == kind,
    ensures
        is_first_media_type_named(media_types, kind, i),
    decreases some,
{
    if exists|j: int| 0 <= j < some && (#[trigger] media_types[j]).name@ == kind {
        let j = choose|j: int| 0 <= j < some && (#[trigger] media_types[j]).name@ == kind;
        lemma_first_media_type_named(media_types, kind, j)
    } else {
        some
    }
}

/// Percent-encoding of a byte: whether it is in the encode set that url's
/// `DEFAULT_ENCODE_SET` names (controls, non-ASCII bytes, space, `"`, `#`,
/// `<`, `>`, `` ` ``, `?`, `{` and `}`).
pub open spec fn in_default_encode_set(byte: u8) -> bool {
    byte < 0x20 || byte > 0x7e || byte == 0x20 || byte == 0x22 || byte == 0x23 || byte == 0x3c || byte == 0x3e
        || byte == 0x60 || byte == 0x3f || byte == 0x7b || byte == 0x7d
}

/// An upper-case hexadecimal digit.
pub open spec fn hex_digit(n: int) -> char {
    if n < 10 {
        (('0' as int) + n) as char
    } else {
        (('A' as int) + n - 10) as char
    }
}

/// Bytes with those of the encode set written as `%XX`.
pub open spec fn percent_encode_bytes(bytes: Seq<u8>) -> Seq<char>
    decreases bytes.len(),
{
    if bytes.len() == 0 {
        Seq::empty()
    } else {
        let byte = bytes[0];
        (if in_default_encode_set(byte) {
            seq!['%', hex_digit((byte / 16) as int), hex_digit((byte % 16) as int)]
        } else {
            seq![byte as char]
        }) + percent_encode_bytes(bytes.drop_first())
    }
}

/// A text's UTF-8 bytes, percent-encoded with the default encode set.
pub open spec fn spec_percent_encoded(text: Seq<char>) -> Seq<char> {
    percent_encode_bytes(vstd::utf8::encode_utf8(text))
}

/// Percent-encodes a text for a URL path.
///
/// Calls `url::percent_encoding::utf8_percent_encode(text,
/// DEFAULT_ENCODE_SET)` and collects it into a string. Trusted to write
/// every UTF-8 byte of the text in the set as `%` and two upper-case hex
/// digits and to keep the others, as the crate's source does.
#[verifier::external_body]
fn percent_encode_path(text: &str) -> (encoded: String)
    ensures
        encoded@ == spec_percent_encoded(text@),
{
    url::percent_encoding::utf8_percent_encode(text, url::percent_encoding::DEFAULT_ENCODE_SET).to_string()
}

/// The target to store for a link: percent-encoded for files on this
/// server, as given for links elsewhere.
pub open spec fn spec_stored_target(target: Seq<char>, storage: StorageType) -> Seq<char> {
    match storage {
        StorageType::Local => spec_percent_encoded(target),
        StorageType::Remote => target,
    }
}

/// A new link of a song.
#[derive(Debug)]
pub struct NewSongLink {
    /// The kind of media.
    pub type_: String,
    /// The name of the link.
    pub name: String,
    /// Where the link points.
    pub target: String,
}

/// The new name and target of a link.
#[derive(Debug)]
pub struct SongLinkUpdate {
    /// The new name.
    pub name: String,
    /// The new target.
    pub target: String,
}

/// What updating a link stores, where its file goes, and whether the file
/// has to move.
#[derive(Debug)]
pub struct SongLinkChange {
    /// The name to store.
    pub name: String,
    /// The target to store: the new target as given.
    pub target: String,
    /// Where the link's file now belongs: the new target, percent-encoded
    /// when its files live on this server.
    pub file_target: String,
    /// Whether the link's file on this server moves from the old target to
    /// `file_target`.
    pub move_file: bool,
}

impl SongLink {
    /// The target to store for a link of a kind of media with `storage`.
    pub fn stored_target(target: &str, storage: StorageType) -> (stored: String)
        ensures
            stored@ == spec_stored_target(target@, storage),
    {
        match storage {
            StorageType::Local => percent_encode_path(target),
            StorageType::Remote => owned(target),
        }
    }

    /// The link to store for a new link of a song, whose kind of media has
    /// `storage`, with the ID `id` it is given.
    pub fn create(id: i32, song_id: i32, new_link: NewSongLink, storage: StorageType) -> (link: SongLink)
        ensures
            link.id == id,
            link.song == song_id,
            link.type_ == new_link.type_,
            link.name == new_link.name,
            link.target@ == spec_stored_target(new_link.target@, storage),
    {
        let target = Self::stored_target(new_link.target.as_str(), storage);
        SongLink { id, song: song_id, type_: new_link.type_, name: new_link.name, target }
    }

    /// The file to remove with this link, whose kind of media has
    /// `storage`: its target in the music directory when its files live on
    /// this server.
    pub fn delete(&self, storage: StorageType) -> (file: Option<String>)
        ensures
            storage == StorageType::Local ==> (file matches Some(f) && f@ == "../httpsdocs/music/"@ + self.target@),
            storage == StorageType::Remote ==> file is None,
    {
        match storage {
            StorageType::Local => {
                let path = concat3("../httpsdocs/music/", self.target.as_str(), "");
                proof {
                    reveal_strlit("");
                }
                Some(path)
            },
            StorageType::Remote => None,
        }
    }

    /// What updating this link stores: the new name and the new target as
    /// given (the update's fields are stored as they are, unlike a new
    /// link's target, which is stored percent-encoded). When the link's files
    /// live on this server its file belongs at the percent-encoded new
    /// target, and moves there when that differs from the old target.
    pub fn update(&self, updated_link: SongLinkUpdate, storage: StorageType) -> (change: SongLinkChange)
        ensures
            change.name == updated_link.name,
            change.target == updated_link.target,
            change.file_target@ == spec_stored_target(updated_link.target@, storage),
            change.move_file == (storage == StorageType::Local && self.target@ != spec_stored_target(
                updated_link.target@,
                storage,
            )),
    {
        let file_target = Self::stored_target(updated_link.target.as_str(), storage);
        let move_file = match storage {
            StorageType::Local => !str_eq(self.target.as_str(), file_target.as_str()),
            StorageType::Remote => false,
        };
        SongLinkChange { name: updated_link.name, target: updated_link.target, file_target, move_file }
    }
}

/// Where a link's file with target `target` lives on this server.
pub open spec fn music_path(target: Seq<char>) -> Seq<char> {
    "../httpsdocs/music/"@ + target
}

/// The file move an update of a link makes: from the old target's path to
/// the new one's, when the file has to move.
pub open spec fn spec_file_move(old_target: Seq<char>, new_target: Seq<char>, move_file: bool) -> Option<
    (Seq<char>, Seq<char>),
> {
    if move_file {
        Some((music_path(old_target), music_path(new_target)))
    } else {
        None
    }
}

/// The files on this server after a file move, if there is one.
pub open spec fn files_after_move(files: Set<Seq<char>>, file_move: Option<(Seq<char>, Seq<char>)>) -> Set<
    Seq<char>,
> {
    match file_move {
        Some((from, to)) => files.remove(from).insert(to),
        None => files,
    }
}

/// The characters of a pair of paths, if there is one.
pub open spec fn paths_view(paths: Option<(String, String)>) -> Option<(Seq<char>, Seq<char>)> {
    match paths {
        Some((from, to)) => Some((from@, to@)),
        None => None,
    }
}

/// The message for a link whose file is missing when it has to move.
pub open spec fn missing_file_message(link_name: Seq<char>) -> Seq<char> {
    "Song link '"@ + link_name + "' has no associated file. Consider deleting and recreating the link."@
}

impl SongLink {
    /// The file move that `change` (an update of this link) makes, as the
    /// paths to move from and to; refused when the file has to move but the
    /// old one does not exist (`old_file_exists`).
    pub fn file_move(&self, change: &SongLinkChange, old_file_exists: bool) -> (result: Result<
        Option<(String, String)>,
        GreaseError,
    >)
        ensures
            change.move_file && !old_file_exists ==> (result matches Err(GreaseError::BadRequest(m)) && m@
                == missing_file_message(self.name@)),
            !(change.move_file && !old_file_exists) ==> (result matches Ok(paths) && paths_view(paths)
                == spec_file_move(self.target@, change.file_target@, change.move_file)),
    {
        if !change.move_file {
            return Ok(None);
        }
        if !old_file_exists {
            return Err(
                GreaseError::BadRequest(
                    concat3(
                        "Song link '",
                        self.name.as_str(),
                        "' has no associated file. Consider deleting and recreating the link.",
                    ),
                ),
            );
        }
        let from = concat3("../httpsdocs/music/", self.target.as_str(), "");
        let to = concat3("../httpsdocs/music/", change.file_target.as_str(), "");
        proof {
            reveal_strlit("");
        }
        Ok(Some((from, to)))
    }
}

/// Different targets live at different paths.
proof fn lemma_music_path_injective(a: Seq<char>, b: Seq<char>)
    ensures
        music_path(a) == music_path(b) ==> a == b,
{
    reveal_strlit("../httpsdocs/music/");
    let n = "../httpsdocs/music/"@.len() as int;
    if music_path(a) == music_path(b) {
        assert(music_path(a).subrange(n, music_path(a).len() as int) =~= a);
        assert(music_path(b).subrange(n, music_path(b).len() as int) =~= b);
    }
}

/// A link whose files live on this server keeps its file through an
/// update: after the update's file move, the file exists at the
/// percent-encoded new target, and when the file moved, nothing is left at
/// the old target. The stored target names that file when percent-encoding
/// leaves the new target as it is.
pub proof fn law_updated_link_keeps_its_file(
    link: SongLink,
    updated_link: SongLinkUpdate,
    change: SongLinkChange,
    files: Set<Seq<char>>,
)
    requires
        change.target == updated_link.target,
        change.file_target@ == spec_stored_target(updated_link.target@, StorageType::Local),
        change.move_file == (link.target@ != change.file_target@),
        files.contains(music_path(link.target@)),
    ensures
        files_after_move(files, spec_file_move(link.target@, change.file_target@, change.move_file)).contains(
            music_path(change.file_target@),
        ),
        change.move_file ==> !files_after_move(
            files,
            spec_file_move(link.target@, change.file_target@, change.move_file),
        ).contains(music_path(link.target@)),
        spec_percent_encoded(updated_link.target@) == updated_link.target@ ==> files_after_move(
            files,
            spec_file_move(link.target@, change.file_target@, change.move_file),
        ).contains(music_path(change.target@)),
{
    lemma_music_path_injective(link.target@, change.file_target@);
}

/// A song's place in the set of a gig.
#[derive(Debug, Clone, Copy, PartialEq, Eq, Structural)]
pub struct GigSong {
    /// The ID of the gig's event.
    pub event: i32,
    /// The ID of the song.
    pub song: i32,
    /// The song's place in the set, from 1.
    pub order: i32,
}

/// A song of a new set.
#[derive(Debug, Clone, Copy, PartialEq, Eq, Structural)]
pub struct NewGigSong {
    /// The ID of the song.
    pub song: i32,
}

impl GigSong {
    /// The set of a gig's event, numbered from 1 in the order given.
    pub fn update_for_event(event_id: i32, updated_setlist: &Vec<NewGigSong>) -> (set: Vec<GigSong>)
        requires
            updated_setlist@.len() < i32::MAX,
        ensures
            set@.len() == updated_setlist@.len(),
            forall|i: int|
                0 <= i < set@.len() ==> #[trigger] set@[i] == (GigSong {
                    event: event_id,
                    song: updated_setlist@[i].song,
                    order: (i + 1) as i32,
                }),
    {
        let mut set: Vec<GigSong> = Vec::new();
        let mut i: usize = 0;
        while i < updated_setlist.len()
            invariant
                0 <= i <= updated_setlist@.len() < i32::MAX,
                set@.len() == i,
                forall|q: int|
                    0 <= q < i ==> #[trigger] set@[q] == (GigSong {
                        event: event_id,
                        song: updated_setlist@[q].song,
                        order: (q + 1) as i32,
                    }),
            decreases updated_setlist@.len() - i,
        {
            set.push(GigSong { event: event_id, song: updated_setlist[i].song, order: (i + 1) as i32 });
            i += 1;
        }
        set
    }
}

impl Song {
    /// The song found for `song_id`, or the error for a missing one.
    pub fn load(song_id: i32, found: Option<Song>) -> (result: Result<Song, GreaseError>)
        ensures
            found matches Some(song) ==> result == Ok::<Song, GreaseError>(song),
            found is None ==> (result matches Err(GreaseError::BadRequest(m)) && m@ == "No song with id "@
                + int_decimal(song_id as int) + "."@),
    {
        match found {
            Some(song) => Ok(song),
            None => {
                let id_text = decimal(song_id as i64);
                Err(GreaseError::BadRequest(concat3("No song with id ", id_text.as_str(), ".")))
            },
        }
    }
}

impl SongLink {
    /// The link found for `link_id`, or the error for a missing one.
    pub fn load(link_id: i32, found: Option<SongLink>) -> (result: Result<SongLink, GreaseError>)
        ensures
            found matches Some(link) ==> result == Ok::<SongLink, GreaseError>(link),
            found is None ==> (result matches Err(GreaseError::BadRequest(m)) && m@ == "no song link with id "@
                + int_decimal(link_id as int)),
    {
        match found {
            Some(link) => Ok(link),
            None => {
                let id_text = decimal(link_id as i64);
                let message = concat3("no song link with id ", id_text.as_str(), "");
                proof {
                    reveal_strlit("");
                }
                Err(GreaseError::BadRequest(message))
            },
        }
    }
}

} // verus!
