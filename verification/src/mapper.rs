//! Decoding of request payloads into typed commands.
//!
//! A payload arrives as the fields of a decoded JSON object. Decoding checks
//! that each field has the type that is expected of it, that the required
//! fields are there, that identifiers are well-formed and that the release
//! year fits the column.

use vstd::prelude::*;
use crate::error::AppError;
use crate::ident::{checked_id, decode_id, uuid_parse};
use crate::model::{
    CreateGenreRequest, CreateSongData, CreateSongRequest, Id, UpdateSongData, UpdateSongRequest,
};

verus! {

/// One field of a decoded JSON object.
#[derive(Clone, Debug, PartialEq, Eq)]
pub enum Field {
    /// The field is missing or `null`.
    Absent,
    /// A string.
    Text(String),
    /// A number without a fraction.
    Integer(i64),
    /// A value of any other type.
    Other,
}

/// The body of a request that creates or updates a song.
#[derive(Clone, Debug, PartialEq, Eq)]
pub struct SongPayload {
    pub title: Field,
    pub artist: Field,
    pub genre_id: Field,
    pub release_year: Field,
    pub audio_file_path: Field,
}

/// The body of a request that creates a genre.
#[derive(Clone, Debug, PartialEq, Eq)]
pub struct GenrePayload {
    pub genre_name: Field,
}

/// The value of a field.
pub enum FieldData {
    Absent,
    Text(Seq<char>),
    Integer(i64),
    Other,
}

/// The value of a song payload.
pub struct SongPayloadData {
    pub title: FieldData,
    pub artist: FieldData,
    pub genre_id: FieldData,
    pub release_year: FieldData,
    pub audio_file_path: FieldData,
}

impl View for Field {
    type V = FieldData;

    open spec fn view(&self) -> FieldData {
        match self {
            Field::Absent => FieldData::Absent,
            Field::Text(t) => FieldData::Text(t@),
            Field::Integer(n) => FieldData::Integer(*n),
            Field::Other => FieldData::Other,
        }
    }
}

impl View for SongPayload {
    type V = SongPayloadData;

    open spec fn view(&self) -> SongPayloadData {
        SongPayloadData {
            title: self.title@,
            artist: self.artist@,
            genre_id: self.genre_id@,
            release_year: self.release_year@,
            audio_file_path: self.audio_file_path@,
        }
    }
}

impl View for GenrePayload {
    type V = FieldData;

    open spec fn view(&self) -> FieldData {
        self.genre_name@
    }
}

/// The text of an optional field: none if the field is absent, a failure
/// if it is no string.
pub open spec fn optional_text(field: FieldData) -> Result<Option<Seq<char>>, AppError> {
    match field {
        FieldData::Absent => Ok(None),
        FieldData::Text(t) => Ok(Some(t)),
        _ => Err(AppError::Validation),
    }
}

/// The text of a required field: a failure if the field is absent or no
/// string. The empty string is a text like any other.
pub open spec fn required_text(field: FieldData) -> Result<Seq<char>, AppError> {
    match field {
        FieldData::Text(t) => Ok(t),
        _ => Err(AppError::Validation),
    }
}

/// The release year of a field: none if the field is absent, a failure if
/// it is no integer or one that the column cannot hold.
pub open spec fn optional_year(field: FieldData) -> Result<Option<i32>, AppError> {
    match field {
        FieldData::Absent => Ok(None),
        FieldData::Integer(y) => if i32::MIN <= y <= i32::MAX {
            Ok(Some(y as i32))
        } else {
            Err(AppError::Validation)
        },
        _ => Err(AppError::Validation),
    }
}

/// The identifier that a field refers to: none if the field is absent, a
/// failure if it is no string or its text is no well-formed identifier.
pub open spec fn optional_reference(field: FieldData) -> Result<Option<Id>, AppError> {
    match field {
        FieldData::Absent => Ok(None),
        FieldData::Text(t) => match checked_id(uuid_parse(t)) {
            Ok(id) => Ok(Some(id)),
            Err(e) => Err(e),
        },
        _ => Err(AppError::Validation),
    }
}

/// The command that a payload creates a song with, given what its genre
/// reference was read as. Title and artist are required.
pub open spec fn create_song_command(
    payload: SongPayloadData,
    genre_id: Result<Option<Id>, AppError>,
) -> Result<CreateSongData, AppError> {
    if required_text(payload.title) is Err || required_text(payload.artist) is Err || genre_id is Err
        || optional_year(payload.release_year) is Err || optional_text(payload.audio_file_path) is Err {
        Err(AppError::Validation)
    } else {
        Ok(
            CreateSongData {
                title: required_text(payload.title)->Ok_0,
                artist: required_text(payload.artist)->Ok_0,
                genre_id: genre_id->Ok_0,
                release_year: optional_year(payload.release_year)->Ok_0,
                audio_file_path: optional_text(payload.audio_file_path)->Ok_0,
            },
        )
    }
}

/// The command that a payload updates a song with, given what its genre
/// reference was read as. No field is required, and a field that the
/// payload leaves out is left out of the command.
pub open spec fn update_song_command(
    payload: SongPayloadData,
    genre_id: Result<Option<Id>, AppError>,
) -> Result<UpdateSongData, AppError> {
    if optional_text(payload.title) is Err || optional_text(payload.artist) is Err || genre_id is Err
        || optional_year(payload.release_year) is Err || optional_text(payload.audio_file_path) is Err {
        Err(AppError::Validation)
    } else {
        Ok(
            UpdateSongData {
                title: optional_text(payload.title)->Ok_0,
                artist: optional_text(payload.artist)->Ok_0,
                genre_id: genre_id->Ok_0,
                release_year: optional_year(payload.release_year)->Ok_0,
                audio_file_path: optional_text(payload.audio_file_path)->Ok_0,
            },
        )
    }
}

/// The value of a decoded command, or the failure.
pub open spec fn decoded<T: View>(command: Result<T, AppError>) -> Result<T::V, AppError> {
    match command {
        Ok(c) => Ok(c@),
        Err(e) => Err(e),
    }
}

/// The value of a decoded optional text, or the failure.
pub open spec fn decoded_text(text: Result<Option<String>, AppError>) -> Result<
    Option<Seq<char>>,
    AppError,
> {
    match text {
        Ok(t) => Ok(crate::model::text_of(t)),
        Err(e) => Err(e),
    }
}

/// Reads an optional text field.
pub fn decode_optional_text(field: &Field) -> (text: Result<Option<String>, AppError>)
    ensures
        decoded_text(text) == optional_text(field@),
{
    match field {
        Field::Absent => Ok(None),
        Field::Text(t) => Ok(Some(t.clone())),
        _ => Err(AppError::Validation),
    }
}

/// Reads a required text field.
pub fn decode_required_text(field: &Field) -> (text: Result<String, AppError>)
    ensures
        decoded(text) == required_text(field@),
{
    match field {
        Field::Text(t) => Ok(t.clone()),
        _ => Err(AppError::Validation),
    }
}

/// Reads a release year and checks that it fits the column.
pub fn decode_year(field: &Field) -> (year: Result<Option<i32>, AppError>)
    ensures
        year == optional_year(field@),
{
    match field {
        Field::Absent => Ok(None),
        Field::Integer(y) => if -2147483648 <= *y && *y <= 2147483647 {
            Ok(Some(*y as i32))
        } else {
            Err(AppError::Validation)
        },
        _ => Err(AppError::Validation),
    }
}

/// Reads a reference to a genre. A text that is no well-formed identifier
/// is rejected, never coerced.
pub fn decode_reference(field: &Field) -> (genre_id: Result<Option<Id>, AppError>)
    ensures
        genre_id == optional_reference(field@),
{
    match field {
        Field::Absent => Ok(None),
        Field::Text(t) => match decode_id(t.as_str()) {
            Ok(id) => Ok(Some(id)),
            Err(e) => Err(e),
        },
        _ => Err(AppError::Validation),
    }
}

/// Builds the command that creates a song from a payload whose genre
/// reference has been read. Fails with `Validation` if the title or the
/// artist is missing, a field has the wrong type, the reference was not
/// well-formed, or the year does not fit.
pub fn assemble_create_song(payload: &SongPayload, genre_id: Result<Option<Id>, AppError>) -> (command:
    Result<CreateSongRequest, AppError>)
    ensures
        decoded(command) == create_song_command(payload@, genre_id),
{
    let title = decode_required_text(&payload.title);
    let artist = decode_required_text(&payload.artist);
    let release_year = decode_year(&payload.release_year);
    let audio_file_path = decode_optional_text(&payload.audio_file_path);
    match (title, artist, genre_id, release_year, audio_file_path) {
        (Ok(title), Ok(artist), Ok(genre_id), Ok(release_year), Ok(audio_file_path)) => Ok(
            CreateSongRequest { title, artist, genre_id, release_year, audio_file_path },
        ),
        _ => Err(AppError::Validation),
    }
}

/// Builds the command that updates a song from a payload whose genre
/// reference has been read. Fails with `Validation` if a field has the
/// wrong type, the reference was not well-formed, or the year does not fit.
pub fn assemble_update_song(payload: &SongPayload, genre_id: Result<Option<Id>, AppError>) -> (command:
    Result<UpdateSongRequest, AppError>)
    ensures
        decoded(command) == update_song_command(payload@, genre_id),
{
    let title = decode_optional_text(&payload.title);
    let artist = decode_optional_text(&payload.artist);
    let release_year = decode_year(&payload.release_year);
    let audio_file_path = decode_optional_text(&payload.audio_file_path);
    match (title, artist, genre_id, release_year, audio_file_path) {
        (Ok(title), Ok(artist), Ok(genre_id), Ok(release_year), Ok(audio_file_path)) => Ok(
            UpdateSongRequest { title, artist, genre_id, release_year, audio_file_path },
        ),
        _ => Err(AppError::Validation),
    }
}

/// Decodes the payload of a request that creates a song.
pub fn decode_create_song(payload: &SongPayload) -> (command: Result<CreateSongRequest, AppError>)
    ensures
        decoded(command) == create_song_command(payload@, optional_reference(payload@.genre_id)),
{
    assemble_create_song(payload, decode_reference(&payload.genre_id))
}

/// Decodes the payload of a request that updates a song.
pub fn decode_update_song(payload: &SongPayload) -> (command: Result<UpdateSongRequest, AppError>)
    ensures
        decoded(command) == update_song_command(payload@, optional_reference(payload@.genre_id)),
{
    assemble_update_song(payload, decode_reference(&payload.genre_id))
}

/// Decodes the payload of a request that creates a genre. Fails with
/// `Validation` exactly when the name is missing or no string.
pub fn decode_create_genre(payload: &GenrePayload) -> (command: Result<CreateGenreRequest, AppError>)
    ensures
        decoded(command) == required_text(payload@),
{
    match &payload.genre_name {
        Field::Text(name) => Ok(CreateGenreRequest { genre_name: name.clone() }),
        _ => Err(AppError::Validation),
    }
}

/// Decoding a song payload fails only with `Validation`, and a create fails
/// wherever the update of the same payload fails.
pub proof fn decoding_fails_with_validation(
    payload: SongPayloadData,
    genre_id: Result<Option<Id>, AppError>,
)
    ensures
        create_song_command(payload, genre_id) is Err ==> create_song_command(payload, genre_id)
            == Err::<CreateSongData, AppError>(AppError::Validation),
        update_song_command(payload, genre_id) is Err ==> update_song_command(payload, genre_id)
            == Err::<UpdateSongData, AppError>(AppError::Validation),
        update_song_command(payload, genre_id) is Err ==> create_song_command(payload, genre_id) is Err,
{
}

/// A payload that supplies only a title decodes into the update that
/// supplies only that title.
pub proof fn title_payload_updates_title_only(title: Seq<char>)
    ensures
        update_song_command(
            SongPayloadData {
                title: FieldData::Text(title),
                artist: FieldData::Absent,
                genre_id: FieldData::Absent,
                release_year: FieldData::Absent,
                audio_file_path: FieldData::Absent,
            },
            optional_reference(FieldData::Absent),
        ) == Ok::<UpdateSongData, AppError>(crate::laws::title_only(title)),
{
}

} // verus!
