//! What holds of the data layer's operations taken together, proved over the
//! table model that the operations are specified by.

use vstd::prelude::*;
use crate::error::AppError;
use crate::model::{CreateSongData, Id, SongData, SongViewData, UpdateSongData};
use crate::table::CatalogData;

verus! {

/// The update that supplies a title and nothing else.
pub open spec fn title_only(title: Seq<char>) -> UpdateSongData {
    UpdateSongData {
        title: Some(title),
        artist: None,
        genre_id: None,
        release_year: None,
        audio_file_path: None,
    }
}

/// A song that was created is read back, by the identifier it was created
/// under, exactly as the creation answered it, and carries the fields of the
/// command.
pub proof fn created_song_is_read_back(catalog: CatalogData, song_id: Id, command: CreateSongData)
    requires
        catalog.wf(),
        catalog.create_song(song_id, command) is Ok,
    ensures
        catalog.after_create_song(song_id, command).get_song(song_id) == catalog.create_song(
            song_id,
            command,
        ),
        catalog.create_song(song_id, command)->Ok_0.song_id == song_id,
        catalog.create_song(song_id, command)->Ok_0.title == command.title,
        catalog.create_song(song_id, command)->Ok_0.artist == command.artist,
        catalog.create_song(song_id, command)->Ok_0.genre_id == command.genre_id,
        catalog.create_song(song_id, command)->Ok_0.release_year == command.release_year,
        catalog.create_song(song_id, command)->Ok_0.audio_file_path == command.audio_file_path,
{
    let next = catalog.after_create_song(song_id, command);
    catalog.create_song_keeps_wf(song_id, command);
    assert(next.songs[catalog.songs.len() as int] == SongData::created(song_id, command));
    next.song_found_where_stored(catalog.songs.len() as int);
}

/// Creating a song leaves every other song as it was read before.
pub proof fn created_song_leaves_others(
    catalog: CatalogData,
    song_id: Id,
    command: CreateSongData,
    other: Id,
)
    requires
        catalog.wf(),
        other != song_id,
    ensures
        catalog.after_create_song(song_id, command).get_song(other) == catalog.get_song(other),
{
    let next = catalog.after_create_song(song_id, command);
    catalog.create_song_keeps_wf(song_id, command);
    if catalog.create_song(song_id, command) is Ok {
        if catalog.holds_song(other) {
            let at = catalog.song_index(other);
            assert(next.songs[at] == catalog.songs[at]);
            next.song_found_where_stored(at);
        } else if next.holds_song(other) {
            let at = next.song_index(other);
            assert(at < catalog.songs.len());
            assert(catalog.songs[at] == next.songs[at]);
        }
    }
}

/// An update answers with the merged row: a field that the command supplies
/// has the new value, a field that it leaves out has the value read before,
/// and the identifier stays.
pub proof fn update_merges_field_by_field(catalog: CatalogData, song_id: Id, command: UpdateSongData)
    requires
        catalog.wf(),
        catalog.update_song(song_id, command) is Ok,
    ensures
        catalog.get_song(song_id) is Ok,
        ({
            let before = catalog.get_song(song_id)->Ok_0;
            let after = catalog.update_song(song_id, command)->Ok_0;
            &&& after.song_id == song_id
            &&& after.title == if command.title is Some { command.title->0 } else { before.title }
            &&& after.artist == if command.artist is Some {
                command.artist->0
            } else {
                before.artist
            }
            &&& after.genre_id == if command.genre_id is Some {
                command.genre_id
            } else {
                before.genre_id
            }
            &&& after.release_year == if command.release_year is Some {
                command.release_year
            } else {
                before.release_year
            }
            &&& after.audio_file_path == if command.audio_file_path is Some {
                command.audio_file_path
            } else {
                before.audio_file_path
            }
            &&& command.genre_id is None ==> after.genre_name == before.genre_name
        }),
{
}

/// An update that supplies only a title succeeds on every stored song and
/// leaves artist, genre, genre name, release year and audio file path as
/// they were read before.
pub proof fn update_of_title_keeps_other_fields(catalog: CatalogData, song_id: Id, title: Seq<char>)
    requires
        catalog.wf(),
        catalog.holds_song(song_id),
    ensures
        catalog.update_song(song_id, title_only(title)) is Ok,
        ({
            let before = catalog.get_song(song_id)->Ok_0;
            let after = catalog.update_song(song_id, title_only(title))->Ok_0;
            &&& after.song_id == before.song_id
            &&& after.title == title
            &&& after.artist == before.artist
            &&& after.genre_id == before.genre_id
            &&& after.genre_name == before.genre_name
            &&& after.release_year == before.release_year
            &&& after.audio_file_path == before.audio_file_path
        }),
{
}

/// A song that was updated is read back exactly as the update answered it.
pub proof fn updated_song_is_read_back(catalog: CatalogData, song_id: Id, command: UpdateSongData)
    requires
        catalog.wf(),
        catalog.update_song(song_id, command) is Ok,
    ensures
        catalog.after_update_song(song_id, command).get_song(song_id) == catalog.update_song(
            song_id,
            command,
        ),
{
    let next = catalog.after_update_song(song_id, command);
    let at = catalog.song_index(song_id);
    catalog.update_song_keeps_wf(song_id, command);
    assert(next.songs[at] == catalog.songs[at].merged(command));
    next.song_found_where_stored(at);
}

/// An update changes no identifier: the same songs are stored before and
/// after it, whether it succeeds or fails.
pub proof fn update_keeps_identifiers(
    catalog: CatalogData,
    song_id: Id,
    command: UpdateSongData,
    other: Id,
)
    requires
        catalog.wf(),
    ensures
        catalog.after_update_song(song_id, command).holds_song(other) == catalog.holds_song(other),
        catalog.after_update_song(song_id, command).songs.len() == catalog.songs.len(),
{
    let next = catalog.after_update_song(song_id, command);
    if catalog.update_song(song_id, command) is Ok {
        if catalog.holds_song(other) {
            let at = catalog.song_index(other);
            assert(next.songs[at].song_id == other);
        }
        if next.holds_song(other) {
            let at = next.song_index(other);
            assert(catalog.songs[at].song_id == other);
        }
    }
}

/// Deleting a song that is not stored changes nothing.
pub proof fn delete_of_missing_song_changes_nothing(catalog: CatalogData, song_id: Id)
    requires
        !catalog.holds_song(song_id),
    ensures
        catalog.after_delete_song(song_id) == catalog,
{
}

/// After a delete the song is not stored, so a read of it fails with
/// `NotFound` and a second delete changes nothing.
pub proof fn delete_is_idempotent(catalog: CatalogData, song_id: Id)
    requires
        catalog.wf(),
    ensures
        !catalog.after_delete_song(song_id).holds_song(song_id),
        catalog.after_delete_song(song_id).get_song(song_id) == Err::<SongViewData, AppError>(
            AppError::NotFound,
        ),
        catalog.after_delete_song(song_id).after_delete_song(song_id) == catalog.after_delete_song(
            song_id,
        ),
{
    let next = catalog.after_delete_song(song_id);
    if catalog.holds_song(song_id) {
        let at = catalog.song_index(song_id);
        if next.holds_song(song_id) {
            let k = next.song_index(song_id);
            let from = if k < at { k } else { k + 1 };
            assert(next.songs[k] == catalog.songs[from]);
            assert(catalog.songs[from].song_id == catalog.songs[at].song_id);
        }
    }
}

/// Deleting a song leaves every other song as it was read before.
pub proof fn delete_leaves_others(catalog: CatalogData, song_id: Id, other: Id)
    requires
        catalog.wf(),
        other != song_id,
    ensures
        catalog.after_delete_song(song_id).get_song(other) == catalog.get_song(other),
{
    let next = catalog.after_delete_song(song_id);
    catalog.delete_song_keeps_wf(song_id);
    if catalog.holds_song(song_id) {
        let at = catalog.song_index(song_id);
        if catalog.holds_song(other) {
            let from = catalog.song_index(other);
            let k = if from < at { from } else { from - 1 };
            assert(next.songs[k] == catalog.songs[from]);
            next.song_found_where_stored(k);
        } else if next.holds_song(other) {
            let k = next.song_index(other);
            let from = if k < at { k } else { k + 1 };
            assert(next.songs[k] == catalog.songs[from]);
        }
    }
}

/// A read fails exactly when no song with the identifier is stored, and
/// then with `NotFound`.
pub proof fn missing_song_is_not_found(catalog: CatalogData, song_id: Id)
    ensures
        !catalog.holds_song(song_id) <==> catalog.get_song(song_id) is Err,
        catalog.get_song(song_id) is Err ==> catalog.get_song(song_id) == Err::<SongViewData, AppError>(
            AppError::NotFound,
        ),
{
}

/// A song that refers to a stored genre is read with that genre's name.
pub proof fn genre_name_is_that_of_the_genre(catalog: CatalogData, row: SongData, at: int)
    requires
        catalog.wf(),
        0 <= at < catalog.genres.len(),
        row.genre_id == Some(catalog.genres[at].genre_id),
    ensures
        catalog.view_of(row).genre_name == Some(catalog.genres[at].genre_name),
{
    catalog.genre_found_where_stored(at);
}

/// A song without a reference to a genre, or with a reference to a genre
/// that is not stored, is read without a genre name.
pub proof fn no_genre_no_name(catalog: CatalogData, row: SongData)
    requires
        row.genre_id is None || !catalog.holds_genre(row.genre_id->0),
    ensures
        catalog.view_of(row).genre_name is None,
{
}

/// Every song that a listing or a read answers with is a stored row joined
/// with its genre's name, and a listing answers with each stored row once.
pub proof fn reads_are_joined_rows(catalog: CatalogData, at: int)
    requires
        catalog.wf(),
        0 <= at < catalog.songs.len(),
    ensures
        catalog.list_songs().len() == catalog.songs.len(),
        catalog.list_songs()[at] == catalog.view_of(catalog.songs[at]),
        catalog.get_song(catalog.songs[at].song_id) == Ok::<SongViewData, AppError>(catalog.list_songs()[at]),
        catalog.list_songs()[at].genre_name == catalog.genre_name(catalog.songs[at].genre_id),
{
    catalog.song_found_where_stored(at);
}

/// Every song that a create, a read or an update answers with carries the
/// name that the join finds for its own reference to a genre.
pub proof fn answers_carry_the_joined_name(
    catalog: CatalogData,
    song_id: Id,
    created: CreateSongData,
    updated: UpdateSongData,
)
    ensures
        catalog.get_song(song_id) is Ok ==> catalog.get_song(song_id)->Ok_0.genre_name
            == catalog.genre_name(catalog.get_song(song_id)->Ok_0.genre_id),
        catalog.create_song(song_id, created) is Ok ==> catalog.create_song(
            song_id,
            created,
        )->Ok_0.genre_name == catalog.genre_name(created.genre_id),
        catalog.update_song(song_id, updated) is Ok ==> catalog.update_song(
            song_id,
            updated,
        )->Ok_0.genre_name == catalog.genre_name(
            catalog.update_song(song_id, updated)->Ok_0.genre_id,
        ),
{
}

/// A song created without a reference to a genre, under an identifier that
/// is not stored yet, is answered without genre and without genre name.
pub proof fn created_song_without_genre_has_no_name(
    catalog: CatalogData,
    song_id: Id,
    command: CreateSongData,
)
    requires
        catalog.wf(),
        !catalog.holds_song(song_id),
        command.genre_id is None,
    ensures
        catalog.create_song(song_id, command) is Ok,
        catalog.create_song(song_id, command)->Ok_0.genre_id is None,
        catalog.create_song(song_id, command)->Ok_0.genre_name is None,
        catalog.after_create_song(song_id, command).get_song(song_id) == catalog.create_song(
            song_id,
            command,
        ),
{
    created_song_is_read_back(catalog, song_id, command);
}

/// A song created with a reference to a stored genre, under an identifier
/// that is not stored yet, is answered with that genre's name, and a read
/// right after answers the same.
pub proof fn created_song_has_its_genres_name(
    catalog: CatalogData,
    song_id: Id,
    command: CreateSongData,
    at: int,
)
    requires
        catalog.wf(),
        !catalog.holds_song(song_id),
        0 <= at < catalog.genres.len(),
        command.genre_id == Some(catalog.genres[at].genre_id),
    ensures
        catalog.create_song(song_id, command) is Ok,
        catalog.create_song(song_id, command)->Ok_0.genre_id == command.genre_id,
        catalog.create_song(song_id, command)->Ok_0.genre_name == Some(
            catalog.genres[at].genre_name,
        ),
        catalog.after_create_song(song_id, command).get_song(song_id) == catalog.create_song(
            song_id,
            command,
        ),
{
    catalog.genre_found_where_stored(at);
    created_song_is_read_back(catalog, song_id, command);
}

/// An update that supplies a reference to a stored genre answers with that
/// genre's name, and one that supplies none keeps the name read before.
pub proof fn updated_song_has_its_genres_name(
    catalog: CatalogData,
    song_id: Id,
    command: UpdateSongData,
    at: int,
)
    requires
        catalog.wf(),
        catalog.holds_song(song_id),
        0 <= at < catalog.genres.len(),
        command.genre_id == Some(catalog.genres[at].genre_id),
    ensures
        catalog.update_song(song_id, command) is Ok,
        catalog.update_song(song_id, command)->Ok_0.genre_id == command.genre_id,
        catalog.update_song(song_id, command)->Ok_0.genre_name == Some(
            catalog.genres[at].genre_name,
        ),
{
    catalog.genre_found_where_stored(at);
}

/// Where references are enforced, every stored song that refers to a genre
/// is read with a genre name.
pub proof fn enforced_reference_has_a_name(catalog: CatalogData, at: int)
    requires
        catalog.wf(),
        catalog.enforces_genre_reference,
        0 <= at < catalog.songs.len(),
    ensures
        catalog.songs[at].genre_id is Some ==> catalog.view_of(catalog.songs[at]).genre_name is Some,
{
}

/// Creating a genre changes no song that is stored, and gives a name to
/// exactly those that refer to the new identifier.
pub proof fn created_genre_names_its_songs(
    catalog: CatalogData,
    genre_id: Id,
    genre_name: Seq<char>,
    row: SongData,
)
    requires
        catalog.wf(),
        catalog.create_genre(genre_id, genre_name) is Ok,
    ensures
        catalog.after_create_genre(genre_id, genre_name).songs == catalog.songs,
        row.genre_id == Some(genre_id) ==> catalog.after_create_genre(genre_id, genre_name).view_of(
            row,
        ).genre_name == Some(genre_name),
        row.genre_id != Some(genre_id) ==> catalog.after_create_genre(genre_id, genre_name).view_of(
            row,
        ) == catalog.view_of(row),
{
    let next = catalog.after_create_genre(genre_id, genre_name);
    catalog.create_genre_keeps_wf(genre_id, genre_name);
    let last = catalog.genres.len() as int;
    assert(next.genres[last].genre_id == genre_id);
    next.genre_found_where_stored(last);
    if row.genre_id is Some && row.genre_id != Some(genre_id) {
        let g = row.genre_id->0;
        if catalog.holds_genre(g) {
            let at = catalog.genre_index(g);
            assert(next.genres[at] == catalog.genres[at]);
            next.genre_found_where_stored(at);
        } else if next.holds_genre(g) {
            let at = next.genre_index(g);
            assert(at < last);
            assert(catalog.genres[at] == next.genres[at]);
        }
    }
}

} // verus!
