//! The records of the catalog and the commands that act on them, each with
//! the mathematical value that contracts speak of.

use vstd::prelude::*;

verus! {

/// A globally unique identifier, held as its 128 bits.
#[derive(Clone, Copy, Debug, PartialEq, Eq, Structural, Hash)]
pub struct Id {
    pub value: u128,
}

/// The value of an optional text.
pub open spec fn text_of(text: Option<String>) -> Option<Seq<char>> {
    match text {
        Some(s) => Some(s@),
        None => None,
    }
}

/// A copy of an optional text.
pub fn copy_text(text: &Option<String>) -> (copy: Option<String>)
    ensures
        text_of(copy) == text_of(*text),
{
    match text {
        Some(s) => Some(s.clone()),
        None => None,
    }
}

/// The value of a stored song.
pub struct SongData {
    pub song_id: Id,
    pub title: Seq<char>,
    pub artist: Seq<char>,
    pub genre_id: Option<Id>,
    pub release_year: Option<i32>,
    pub audio_file_path: Option<Seq<char>>,
}

/// The value of a genre.
pub struct GenreData {
    pub genre_id: Id,
    pub genre_name: Seq<char>,
}

/// The value of a song as it is read: its fields and the name of its genre.
pub struct SongViewData {
    pub song_id: Id,
    pub title: Seq<char>,
    pub artist: Seq<char>,
    pub genre_id: Option<Id>,
    pub genre_name: Option<Seq<char>>,
    pub release_year: Option<i32>,
    pub audio_file_path: Option<Seq<char>>,
}

/// The value of a command that creates a song.
pub struct CreateSongData {
    pub title: Seq<char>,
    pub artist: Seq<char>,
    pub genre_id: Option<Id>,
    pub release_year: Option<i32>,
    pub audio_file_path: Option<Seq<char>>,
}

/// The value of a command that updates a song: an absent field is left as
/// it is stored.
pub struct UpdateSongData {
    pub title: Option<Seq<char>>,
    pub artist: Option<Seq<char>>,
    pub genre_id: Option<Id>,
    pub release_year: Option<i32>,
    pub audio_file_path: Option<Seq<char>>,
}

/// A song as the `songs` table stores it.
#[derive(Clone, Debug, PartialEq, Eq)]
pub struct Song {
    pub song_id: Id,
    pub title: String,
    pub artist: String,
    pub genre_id: Option<Id>,
    pub release_year: Option<i32>,
    pub audio_file_path: Option<String>,
}

/// A genre as the `genres` table stores it.
#[derive(Clone, Debug, PartialEq, Eq)]
pub struct Genre {
    pub genre_id: Id,
    pub genre_name: String,
}

/// A song joined with the name of its genre: the shape that reads and writes
/// answer with.
#[derive(Clone, Debug, PartialEq, Eq)]
pub struct SongView {
    pub song_id: Id,
    pub title: String,
    pub artist: String,
    pub genre_id: Option<Id>,
    pub genre_name: Option<String>,
    pub release_year: Option<i32>,
    pub audio_file_path: Option<String>,
}

/// The validated command that creates a song.
#[derive(Clone, Debug, PartialEq, Eq)]
pub struct CreateSongRequest {
    pub title: String,
    pub artist: String,
    pub genre_id: Option<Id>,
    pub release_year: Option<i32>,
    pub audio_file_path: Option<String>,
}

/// The validated command that updates a song.
#[derive(Clone, Debug, PartialEq, Eq)]
pub struct UpdateSongRequest {
    pub title: Option<String>,
    pub artist: Option<String>,
    pub genre_id: Option<Id>,
    pub release_year: Option<i32>,
    pub audio_file_path: Option<String>,
}

/// The validated command that creates a genre.
#[derive(Clone, Debug, PartialEq, Eq)]
pub struct CreateGenreRequest {
    pub genre_name: String,
}

impl View for Song {
    type V = SongData;

    open spec fn view(&self) -> SongData {
        SongData {
            song_id: self.song_id,
            title: self.title@,
            artist: self.artist@,
            genre_id: self.genre_id,
            release_year: self.release_year,
            audio_file_path: text_of(self.audio_file_path),
        }
    }
}

impl View for Genre {
    type V = GenreData;

    open spec fn view(&self) -> GenreData {
        GenreData { genre_id: self.genre_id, genre_name: self.genre_name@ }
    }
}

impl View for SongView {
    type V = SongViewData;

    open spec fn view(&self) -> SongViewData {
        SongViewData {
            song_id: self.song_id,
            title: self.title@,
            artist: self.artist@,
            genre_id: self.genre_id,
            genre_name: text_of(self.genre_name),
            release_year: self.release_year,
            audio_file_path: text_of(self.audio_file_path),
        }
    }
}

impl View for CreateSongRequest {
    type V = CreateSongData;

    open spec fn view(&self) -> CreateSongData {
        CreateSongData {
            title: self.title@,
            artist: self.artist@,
            genre_id: self.genre_id,
            release_year: self.release_year,
            audio_file_path: text_of(self.audio_file_path),
        }
    }
}

impl View for UpdateSongRequest {
    type V = UpdateSongData;

    open spec fn view(&self) -> UpdateSongData {
        UpdateSongData {
            title: text_of(self.title),
            artist: text_of(self.artist),
            genre_id: self.genre_id,
            release_year: self.release_year,
            audio_file_path: text_of(self.audio_file_path),
        }
    }
}

impl View for CreateGenreRequest {
    type V = Seq<char>;

    open spec fn view(&self) -> Seq<char> {
        self.genre_name@
    }
}

/// The stored value if the update leaves the field out, else the new one.
pub open spec fn coalesce<T>(supplied: Option<T>, stored: T) -> T {
    match supplied {
        Some(v) => v,
        None => stored,
    }
}

/// The optional stored value if the update leaves the field out, else the
/// new one: an update cannot clear a field.
pub open spec fn coalesce_optional<T>(supplied: Option<T>, stored: Option<T>) -> Option<T> {
    match supplied {
        Some(v) => Some(v),
        None => stored,
    }
}

impl SongData {
    /// The row that a create command stores under a fresh identifier.
    pub open spec fn created(song_id: Id, command: CreateSongData) -> SongData {
        SongData {
            song_id,
            title: command.title,
            artist: command.artist,
            genre_id: command.genre_id,
            release_year: command.release_year,
            audio_file_path: command.audio_file_path,
        }
    }

    /// The row after an update: field by field, what the command supplies
    /// replaces what is stored, and the identifier stays.
    pub open spec fn merged(self, command: UpdateSongData) -> SongData {
        SongData {
            song_id: self.song_id,
            title: coalesce(command.title, self.title),
            artist: coalesce(command.artist, self.artist),
            genre_id: coalesce_optional(command.genre_id, self.genre_id),
            release_year: coalesce_optional(command.release_year, self.release_year),
            audio_file_path: coalesce_optional(command.audio_file_path, self.audio_file_path),
        }
    }

    /// The row read together with the given genre name.
    pub open spec fn with_genre_name(self, genre_name: Option<Seq<char>>) -> SongViewData {
        SongViewData {
            song_id: self.song_id,
            title: self.title,
            artist: self.artist,
            genre_id: self.genre_id,
            genre_name,
            release_year: self.release_year,
            audio_file_path: self.audio_file_path,
        }
    }
}

impl Song {
    /// The row that a create command stores under a fresh identifier.
    pub fn create(song_id: Id, command: &CreateSongRequest) -> (row: Song)
        ensures
            row@ == SongData::created(song_id, command@),
    {
        Song {
            song_id,
            title: command.title.clone(),
            artist: command.artist.clone(),
            genre_id: command.genre_id,
            release_year: command.release_year,
            audio_file_path: copy_text(&command.audio_file_path),
        }
    }

    /// This row after an update. A field that the command supplies replaces
    /// the stored one; a field that it leaves out stays as it is.
    pub fn merge(&self, command: &UpdateSongRequest) -> (row: Song)
        ensures
            row@ == self@.merged(command@),
    {
        Song {
            song_id: self.song_id,
            title: match &command.title {
                Some(t) => t.clone(),
                None => self.title.clone(),
            },
            artist: match &command.artist {
                Some(a) => a.clone(),
                None => self.artist.clone(),
            },
            genre_id: match command.genre_id {
                Some(g) => Some(g),
                None => self.genre_id,
            },
            release_year: match command.release_year {
                Some(y) => Some(y),
                None => self.release_year,
            },
            audio_file_path: match &command.audio_file_path {
                Some(p) => Some(p.clone()),
                None => copy_text(&self.audio_file_path),
            },
        }
    }

    /// This row read together with the given genre name.
    pub fn with_genre_name(&self, genre_name: Option<String>) -> (view: SongView)
        ensures
            view@ == self@.with_genre_name(text_of(genre_name)),
    {
        SongView {
            song_id: self.song_id,
            title: self.title.clone(),
            artist: self.artist.clone(),
            genre_id: self.genre_id,
            genre_name,
            release_year: self.release_year,
            audio_file_path: copy_text(&self.audio_file_path),
        }
    }
}

impl Genre {
    /// A copy of this genre.
    pub fn copy(&self) -> (genre: Genre)
        ensures
            genre@ == self@,
    {
        Genre { genre_id: self.genre_id, genre_name: self.genre_name.clone() }
    }
}

} // verus!
