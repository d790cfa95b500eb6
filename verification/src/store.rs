//! An in-memory catalog: the data layer's operations on rows held in
//! vectors, each proved to do what the table model says.

use vstd::prelude::*;
use crate::error::AppError;
use crate::model::{
    text_of, CreateGenreRequest, CreateSongRequest, Genre, Id, Song, SongData, SongView,
    UpdateSongRequest,
};
use crate::table::CatalogData;

verus! {

/// The values of a sequence of records.
pub open spec fn values_of<T: View>(items: Seq<T>) -> Seq<T::V> {
    Seq::new(items.len(), |i: int| items[i]@)
}

/// The value of an operation's answer: that of the record on success, the
/// failure itself otherwise.
pub open spec fn answer_of<T: View>(answer: Result<T, AppError>) -> Result<T::V, AppError> {
    match answer {
        Ok(record) => Ok(record@),
        Err(e) => Err(e),
    }
}

/// The songs and genres of a catalog, held in memory.
pub struct Catalog {
    songs: Vec<Song>,
    genres: Vec<Genre>,
    enforces_genre_reference: bool,
}

impl View for Catalog {
    type V = CatalogData;

    closed spec fn view(&self) -> CatalogData {
        CatalogData {
            songs: values_of(self.songs@),
            genres: values_of(self.genres@),
            enforces_genre_reference: self.enforces_genre_reference,
        }
    }
}

impl Catalog {
    /// Whether the catalog is well-formed: every constructor establishes
    /// this and every operation keeps it.
    pub open spec fn wf(&self) -> bool {
        self@.wf()
    }

    /// An empty catalog. With `enforces_genre_reference` a song can only
    /// refer to a genre that is stored.
    pub fn new(enforces_genre_reference: bool) -> (catalog: Catalog)
        ensures
            catalog@ == CatalogData::empty(enforces_genre_reference),
            catalog.wf(),
    {
        let catalog = Catalog { songs: Vec::new(), genres: Vec::new(), enforces_genre_reference };
        assert(catalog@.songs =~= Seq::empty());
        assert(catalog@.genres =~= Seq::empty());
        catalog
    }

    /// The position of the song with this identifier.
    fn find_song(&self, song_id: Id) -> (found: Option<usize>)
        requires
            self.wf(),
        ensures
            found is Some <==> self@.holds_song(song_id),
            found is Some ==> found->0 == self@.song_index(song_id),
    {
        let mut i: usize = 0;
        while i < self.songs.len()
            invariant
                self.wf(),
                i <= self.songs.len(),
                forall|k: int| 0 <= k < i ==> (#[trigger] self@.songs[k]).song_id != song_id,
            decreases self.songs.len() - i,
        {
            if self.songs[i].song_id == song_id {
                proof {
                    self@.song_found_where_stored(i as int);
                }
                return Some(i);
            }
            i += 1;
        }
        None
    }

    /// The position of the genre with this identifier.
    fn find_genre(&self, genre_id: Id) -> (found: Option<usize>)
        requires
            self.wf(),
        ensures
            found is Some <==> self@.holds_genre(genre_id),
            found is Some ==> found->0 == self@.genre_index(genre_id),
    {
        let mut i: usize = 0;
        while i < self.genres.len()
            invariant
                self.wf(),
                i <= self.genres.len(),
                forall|k: int| 0 <= k < i ==> (#[trigger] self@.genres[k]).genre_id != genre_id,
            decreases self.genres.len() - i,
        {
            if self.genres[i].genre_id == genre_id {
                proof {
                    self@.genre_found_where_stored(i as int);
                }
                return Some(i);
            }
            i += 1;
        }
        None
    }

    /// Whether a song may carry this reference to a genre.
    fn accepts_genre(&self, genre_id: Option<Id>) -> (accepted: bool)
        requires
            self.wf(),
        ensures
            accepted == self@.accepts_genre(genre_id),
    {
        match genre_id {
            Some(g) => !self.enforces_genre_reference || self.find_genre(g).is_some(),
            None => true,
        }
    }

    /// The name of the genre that a song refers to, as the outer join finds
    /// it: none for an absent reference or a genre that is not stored.
    pub fn genre_name(&self, genre_id: Option<Id>) -> (name: Option<String>)
        requires
            self.wf(),
        ensures
            text_of(name) == self@.genre_name(genre_id),
    {
        match genre_id {
            Some(g) => match self.find_genre(g) {
                Some(at) => Some(self.genres[at].genre_name.clone()),
                None => None,
            },
            None => None,
        }
    }

    /// A row as it is read: joined with its genre's name.
    fn read(&self, row: &Song) -> (view: SongView)
        requires
            self.wf(),
        ensures
            view@ == self@.view_of(row@),
    {
        let name = self.genre_name(row.genre_id);
        row.with_genre_name(name)
    }

    /// Every song, each joined with its genre's name, in the order of
    /// insertion.
    pub fn list_songs(&self) -> (views: Vec<SongView>)
        requires
            self.wf(),
        ensures
            values_of(views@) == self@.list_songs(),
    {
        let mut views: Vec<SongView> = Vec::new();
        let mut i: usize = 0;
        while i < self.songs.len()
            invariant
                self.wf(),
                i <= self.songs.len(),
                views@.len() == i,
                forall|k: int| 0 <= k < i ==> (#[trigger] views@[k])@ == self@.view_of(self@.songs[k]),
            decreases self.songs.len() - i,
        {
            let view = self.read(&self.songs[i]);
            views.push(view);
            i += 1;
        }
        assert(values_of(views@) =~= self@.list_songs());
        views
    }

    /// Stores a new song under `song_id`, which the caller has generated.
    /// Fails with `ConstraintViolation`, and stores nothing, if the
    /// identifier is taken or the genre is required to exist and does not.
    pub fn create_song(&mut self, song_id: Id, command: &CreateSongRequest) -> (answer: Result<
        SongView,
        AppError,
    >)
        requires
            old(self).wf(),
        ensures
            final(self).wf(),
            final(self)@ == old(self)@.after_create_song(song_id, command@),
            answer_of(answer) == old(self)@.create_song(song_id, command@),
    {
        proof {
            self@.create_song_keeps_wf(song_id, command@);
        }
        if self.find_song(song_id).is_some() || !self.accepts_genre(command.genre_id) {
            return Err(AppError::ConstraintViolation);
        }
        let row = Song::create(song_id, command);
        let view = self.read(&row);
        self.songs.push(row);
        assert(self@.songs =~= old(self)@.songs.push(SongData::created(song_id, command@)));
        Ok(view)
    }

    /// The song with this identifier, or `NotFound` if none is stored.
    pub fn get_song(&self, song_id: Id) -> (answer: Result<SongView, AppError>)
        requires
            self.wf(),
        ensures
            answer_of(answer) == self@.get_song(song_id),
    {
        match self.find_song(song_id) {
            Some(at) => Ok(self.read(&self.songs[at])),
            None => Err(AppError::NotFound),
        }
    }

    /// Replaces the fields that the command supplies in the song with this
    /// identifier and leaves the others as they are. Fails with `NotFound`
    /// if no such song is stored, and with `ConstraintViolation` if the
    /// genre supplied is required to exist and does not; then nothing
    /// changes.
    pub fn update_song(&mut self, song_id: Id, command: &UpdateSongRequest) -> (answer: Result<
        SongView,
        AppError,
    >)
        requires
            old(self).wf(),
        ensures
            final(self).wf(),
            final(self)@ == old(self)@.after_update_song(song_id, command@),
            answer_of(answer) == old(self)@.update_song(song_id, command@),
    {
        proof {
            self@.update_song_keeps_wf(song_id, command@);
        }
        match self.find_song(song_id) {
            None => Err(AppError::NotFound),
            Some(at) => {
                if !self.accepts_genre(command.genre_id) {
                    return Err(AppError::ConstraintViolation);
                }
                let row = self.songs[at].merge(command);
                let view = self.read(&row);
                self.songs[at] = row;
                assert(self@.songs =~= old(self)@.songs.update(
                    at as int,
                    old(self)@.songs[at as int].merged(command@),
                ));
                Ok(view)
            },
        }
    }

    /// Removes the song with this identifier if it is stored. Succeeds
    /// either way.
    pub fn delete_song(&mut self, song_id: Id) -> (answer: Result<(), AppError>)
        requires
            old(self).wf(),
        ensures
            final(self).wf(),
            final(self)@ == old(self)@.after_delete_song(song_id),
            answer is Ok,
    {
        proof {
            self@.delete_song_keeps_wf(song_id);
        }
        match self.find_song(song_id) {
            Some(at) => {
                self.songs.remove(at);
                assert(self@.songs =~= old(self)@.songs.remove(at as int));
            },
            None => {},
        }
        Ok(())
    }

    /// Every genre, in the order of insertion.
    pub fn list_genres(&self) -> (genres: Vec<Genre>)
        ensures
            values_of(genres@) == self@.list_genres(),
    {
        let mut genres: Vec<Genre> = Vec::new();
        let mut i: usize = 0;
        while i < self.genres.len()
            invariant
                i <= self.genres.len(),
                genres@.len() == i,
                forall|k: int| 0 <= k < i ==> (#[trigger] genres@[k])@ == self@.genres[k],
            decreases self.genres.len() - i,
        {
            genres.push(self.genres[i].copy());
            i += 1;
        }
        assert(values_of(genres@) =~= self@.list_genres());
        genres
    }

    /// Stores a new genre under `genre_id`, which the caller has generated.
    /// Fails with `ConstraintViolation` only if the identifier is taken:
    /// two genres may share a name.
    pub fn create_genre(&mut self, genre_id: Id, command: &CreateGenreRequest) -> (answer: Result<
        Genre,
        AppError,
    >)
        requires
            old(self).wf(),
        ensures
            final(self).wf(),
            final(self)@ == old(self)@.after_create_genre(genre_id, command@),
            answer_of(answer) == old(self)@.create_genre(genre_id, command@),
    {
        proof {
            self@.create_genre_keeps_wf(genre_id, command@);
        }
        if self.find_genre(genre_id).is_some() {
            return Err(AppError::ConstraintViolation);
        }
        let genre = Genre { genre_id, genre_name: command.genre_name.clone() };
        let answer = genre.copy();
        self.genres.push(genre);
        assert(self@.genres =~= old(self)@.genres.push(answer@));
        Ok(answer)
    }
}

} // verus!
