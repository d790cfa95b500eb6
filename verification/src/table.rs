//! The mathematical state of the two tables and what each operation of the
//! data layer does to it.

use vstd::prelude::*;
use crate::error::AppError;
use crate::model::{GenreData, Id, SongData, SongViewData, CreateSongData, UpdateSongData};

verus! {

/// Whether one of the rows carries this identifier.
pub open spec fn stores_song(songs: Seq<SongData>, song_id: Id) -> bool {
    exists|i: int| 0 <= i < songs.len() && (#[trigger] songs[i]).song_id == song_id
}

/// A position at which a row carries this identifier, if one does.
pub open spec fn position_of_song(songs: Seq<SongData>, song_id: Id) -> int {
    choose|i: int| 0 <= i < songs.len() && (#[trigger] songs[i]).song_id == song_id
}

/// Whether one of the genres carries this identifier.
pub open spec fn stores_genre(genres: Seq<GenreData>, genre_id: Id) -> bool {
    exists|i: int| 0 <= i < genres.len() && (#[trigger] genres[i]).genre_id == genre_id
}

/// A position at which a genre carries this identifier, if one does.
pub open spec fn position_of_genre(genres: Seq<GenreData>, genre_id: Id) -> int {
    choose|i: int| 0 <= i < genres.len() && (#[trigger] genres[i]).genre_id == genre_id
}

/// The name that an outer join on these genres finds for a reference: that
/// of the genre with this identifier, and none where the reference is absent
/// or no such genre is stored.
pub open spec fn joined_genre_name(genres: Seq<GenreData>, genre_id: Option<Id>) -> Option<
    Seq<char>,
> {
    match genre_id {
        Some(g) => if stores_genre(genres, g) {
            Some(genres[position_of_genre(genres, g)].genre_name)
        } else {
            None
        },
        None => None,
    }
}

/// The state of the catalog: the rows of both tables, in the order in which
/// they were inserted, and whether a song's genre must exist.
pub struct CatalogData {
    pub songs: Seq<SongData>,
    pub genres: Seq<GenreData>,
    pub enforces_genre_reference: bool,
}

impl CatalogData {
    /// The catalog without any row.
    pub open spec fn empty(enforces_genre_reference: bool) -> CatalogData {
        CatalogData { songs: Seq::empty(), genres: Seq::empty(), enforces_genre_reference }
    }

    /// Whether a song with this identifier is stored.
    pub open spec fn holds_song(self, song_id: Id) -> bool {
        stores_song(self.songs, song_id)
    }

    /// Where the song with this identifier is stored, if one is.
    pub open spec fn song_index(self, song_id: Id) -> int {
        position_of_song(self.songs, song_id)
    }

    /// Whether a genre with this identifier is stored.
    pub open spec fn holds_genre(self, genre_id: Id) -> bool {
        stores_genre(self.genres, genre_id)
    }

    /// Where the genre with this identifier is stored, if one is.
    pub open spec fn genre_index(self, genre_id: Id) -> int {
        position_of_genre(self.genres, genre_id)
    }

    /// Whether a song may carry this reference to a genre.
    pub open spec fn accepts_genre(self, genre_id: Option<Id>) -> bool {
        match genre_id {
            Some(g) => self.enforces_genre_reference ==> self.holds_genre(g),
            None => true,
        }
    }

    /// No identifier is stored twice, and where references are enforced
    /// every song's genre exists.
    pub open spec fn wf(self) -> bool {
        &&& forall|i: int, j: int|
            0 <= i < self.songs.len() && 0 <= j < self.songs.len() && i != j ==> (
            #[trigger] self.songs[i]).song_id != (#[trigger] self.songs[j]).song_id
        &&& forall|i: int, j: int|
            0 <= i < self.genres.len() && 0 <= j < self.genres.len() && i != j ==> (
            #[trigger] self.genres[i]).genre_id != (#[trigger] self.genres[j]).genre_id
        &&& forall|i: int|
            0 <= i < self.songs.len() ==> self.accepts_genre((#[trigger] self.songs[i]).genre_id)
    }

    /// The name that the outer join finds for a reference to a genre.
    pub open spec fn genre_name(self, genre_id: Option<Id>) -> Option<Seq<char>> {
        joined_genre_name(self.genres, genre_id)
    }

    /// A row as it is read from this catalog.
    pub open spec fn view_of(self, row: SongData) -> SongViewData {
        row.with_genre_name(self.genre_name(row.genre_id))
    }

    /// Every song, each joined with its genre's name.
    pub open spec fn list_songs(self) -> Seq<SongViewData> {
        Seq::new(self.songs.len(), |i: int| self.view_of(self.songs[i]))
    }

    /// The song with this identifier.
    pub open spec fn get_song(self, song_id: Id) -> Result<SongViewData, AppError> {
        if self.holds_song(song_id) {
            Ok(self.view_of(self.songs[self.song_index(song_id)]))
        } else {
            Err(AppError::NotFound)
        }
    }

    /// What inserting a song under a fresh identifier answers.
    pub open spec fn create_song(self, song_id: Id, command: CreateSongData) -> Result<
        SongViewData,
        AppError,
    > {
        if self.holds_song(song_id) || !self.accepts_genre(command.genre_id) {
            Err(AppError::ConstraintViolation)
        } else {
            Ok(self.view_of(SongData::created(song_id, command)))
        }
    }

    /// The catalog after inserting a song: one more row on success, the
    /// same catalog on failure.
    pub open spec fn after_create_song(self, song_id: Id, command: CreateSongData) -> CatalogData {
        if self.create_song(song_id, command) is Ok {
            CatalogData { songs: self.songs.push(SongData::created(song_id, command)), ..self }
        } else {
            self
        }
    }

    /// What updating the song with this identifier answers.
    pub open spec fn update_song(self, song_id: Id, command: UpdateSongData) -> Result<
        SongViewData,
        AppError,
    > {
        if !self.holds_song(song_id) {
            Err(AppError::NotFound)
        } else if !self.accepts_genre(command.genre_id) {
            Err(AppError::ConstraintViolation)
        } else {
            Ok(self.view_of(self.songs[self.song_index(song_id)].merged(command)))
        }
    }

    /// The catalog after updating a song: the row replaced by the merged one
    /// on success, the same catalog on failure.
    pub open spec fn after_update_song(self, song_id: Id, command: UpdateSongData) -> CatalogData {
        if self.update_song(song_id, command) is Ok {
            let at = self.song_index(song_id);
            CatalogData { songs: self.songs.update(at, self.songs[at].merged(command)), ..self }
        } else {
            self
        }
    }

    /// The catalog after deleting the song with this identifier: without
    /// that row if it was stored, the same catalog if it was not.
    pub open spec fn after_delete_song(self, song_id: Id) -> CatalogData {
        if self.holds_song(song_id) {
            CatalogData { songs: self.songs.remove(self.song_index(song_id)), ..self }
        } else {
            self
        }
    }

    /// Every genre.
    pub open spec fn list_genres(self) -> Seq<GenreData> {
        self.genres
    }

    /// What inserting a genre under a fresh identifier answers. Names need
    /// not be unique.
    pub open spec fn create_genre(self, genre_id: Id, genre_name: Seq<char>) -> Result<
        GenreData,
        AppError,
    > {
        if self.holds_genre(genre_id) {
            Err(AppError::ConstraintViolation)
        } else {
            Ok(GenreData { genre_id, genre_name })
        }
    }

    /// The catalog after inserting a genre.
    pub open spec fn after_create_genre(self, genre_id: Id, genre_name: Seq<char>) -> CatalogData {
        if self.create_genre(genre_id, genre_name) is Ok {
            CatalogData { genres: self.genres.push(GenreData { genre_id, genre_name }), ..self }
        } else {
            self
        }
    }

    /// In a well-formed catalog the row at a position is the one that its
    /// identifier finds.
    pub proof fn song_found_where_stored(self, at: int)
        requires
            self.wf(),
            0 <= at < self.songs.len(),
        ensures
            self.holds_song(self.songs[at].song_id),
            self.song_index(self.songs[at].song_id) == at,
    {
    }

    /// In a well-formed catalog the genre at a position is the one that its
    /// identifier finds.
    pub proof fn genre_found_where_stored(self, at: int)
        requires
            self.wf(),
            0 <= at < self.genres.len(),
        ensures
            self.holds_genre(self.genres[at].genre_id),
            self.genre_index(self.genres[at].genre_id) == at,
    {
    }

    /// The empty catalog is well-formed.
    pub proof fn empty_is_wf(enforces_genre_reference: bool)
        ensures
            CatalogData::empty(enforces_genre_reference).wf(),
    {
    }

    /// Inserting a song keeps the catalog well-formed.
    pub proof fn create_song_keeps_wf(self, song_id: Id, command: CreateSongData)
        requires
            self.wf(),
        ensures
            self.after_create_song(song_id, command).wf(),
    {
        let next = self.after_create_song(song_id, command);
        if self.create_song(song_id, command) is Ok {
            assert forall|i: int| 0 <= i < next.songs.len() implies next.accepts_genre(
                (#[trigger] next.songs[i]).genre_id,
            ) by {
                if i < self.songs.len() {
                    assert(next.songs[i] == self.songs[i]);
                }
            }
        }
    }

    /// Updating a song keeps the catalog well-formed.
    pub proof fn update_song_keeps_wf(self, song_id: Id, command: UpdateSongData)
        requires
            self.wf(),
        ensures
            self.after_update_song(song_id, command).wf(),
    {
        let next = self.after_update_song(song_id, command);
        if self.update_song(song_id, command) is Ok {
            let at = self.song_index(song_id);
            assert forall|i: int| 0 <= i < next.songs.len() implies next.accepts_genre(
                (#[trigger] next.songs[i]).genre_id,
            ) by {
                if i != at {
                    assert(next.songs[i] == self.songs[i]);
                } else {
                    assert(self.accepts_genre(self.songs[at].genre_id));
                }
            }
            assert forall|i: int, j: int|
                0 <= i < next.songs.len() && 0 <= j < next.songs.len() && i != j implies (
            #[trigger] next.songs[i]).song_id != (#[trigger] next.songs[j]).song_id by {
                assert(next.songs[i].song_id == self.songs[i].song_id);
                assert(next.songs[j].song_id == self.songs[j].song_id);
            }
        }
    }

    /// Deleting a song keeps the catalog well-formed.
    pub proof fn delete_song_keeps_wf(self, song_id: Id)
        requires
            self.wf(),
        ensures
            self.after_delete_song(song_id).wf(),
    {
        let next = self.after_delete_song(song_id);
        if self.holds_song(song_id) {
            let at = self.song_index(song_id);
            assert forall|i: int| 0 <= i < next.songs.len() implies #[trigger] next.songs[i]
                == self.songs[if i < at { i } else { i + 1 }] by {}
            assert forall|i: int, j: int|
                0 <= i < next.songs.len() && 0 <= j < next.songs.len() && i != j implies (
            #[trigger] next.songs[i]).song_id != (#[trigger] next.songs[j]).song_id by {
                let oi = if i < at { i } else { i + 1 };
                let oj = if j < at { j } else { j + 1 };
                assert(next.songs[i] == self.songs[oi]);
                assert(next.songs[j] == self.songs[oj]);
            }
            assert forall|i: int| 0 <= i < next.songs.len() implies next.accepts_genre(
                (#[trigger] next.songs[i]).genre_id,
            ) by {
                let oi = if i < at { i } else { i + 1 };
                assert(next.songs[i] == self.songs[oi]);
            }
        }
    }

    /// Inserting a genre keeps the catalog well-formed.
    pub proof fn create_genre_keeps_wf(self, genre_id: Id, genre_name: Seq<char>)
        requires
            self.wf(),
        ensures
            self.after_create_genre(genre_id, genre_name).wf(),
    {
        let next = self.after_create_genre(genre_id, genre_name);
        if self.create_genre(genre_id, genre_name) is Ok {
            assert forall|g: Id| self.holds_genre(g) implies next.holds_genre(g) by {
                let k = self.genre_index(g);
                assert(next.genres[k] == self.genres[k]);
            }
            assert forall|i: int| 0 <= i < next.songs.len() implies next.accepts_genre(
                (#[trigger] next.songs[i]).genre_id,
            ) by {
                assert(self.accepts_genre(self.songs[i].genre_id));
            }
        }
    }
}

} // verus!
