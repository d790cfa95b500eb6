//! The route handlers: each decodes a request into a command, has the data
//! layer carry it out, and maps the outcome to a status and a body.

use vstd::prelude::*;
use crate::error::{AppError, STATUS_NO_CONTENT, STATUS_OK};
use crate::ident::{checked_id, decode_id, uuid_parse};
use crate::mapper::{
    create_song_command, decode_create_genre, decode_reference, decoded, optional_reference,
    required_text, update_song_command, FieldData, GenrePayload, SongPayload, SongPayloadData,
};
use crate::model::{
    CreateGenreRequest, CreateSongData, CreateSongRequest, Genre, GenreData, Id, SongView,
    SongViewData, UpdateSongData, UpdateSongRequest,
};
use crate::store::{answer_of, values_of, Catalog};
use crate::table::CatalogData;

verus! {

/// A request as the HTTP surface hands it over: the operation that method
/// and path select, the identifier of the path as text, and the body.
#[derive(Clone, Debug, PartialEq, Eq)]
pub enum Request {
    /// `GET /songs`
    ListSongs,
    /// `POST /songs`
    CreateSong(SongPayload),
    /// `GET /songs/{id}`
    GetSong(String),
    /// `PUT /songs/{id}`
    UpdateSong(String, SongPayload),
    /// `DELETE /songs/{id}`
    DeleteSong(String),
    /// `GET /genres`
    ListGenres,
    /// `POST /genres`
    CreateGenre(GenrePayload),
}

/// A request that has been validated: what the data layer is asked to do.
#[derive(Clone, Debug, PartialEq, Eq)]
pub enum Command {
    ListSongs,
    CreateSong(CreateSongRequest),
    GetSong(Id),
    UpdateSong(Id, UpdateSongRequest),
    DeleteSong(Id),
    ListGenres,
    CreateGenre(CreateGenreRequest),
}

/// What the data layer answers a command with when it succeeds.
#[derive(Clone, Debug, PartialEq, Eq)]
pub enum Reply {
    Songs(Vec<SongView>),
    Song(SongView),
    Deleted,
    Genres(Vec<Genre>),
    Genre(Genre),
}

/// The answer to a request: the HTTP status, and the records of the body or
/// the failure that the status stands for.
#[derive(Debug, PartialEq, Eq)]
pub struct Response {
    pub status: u16,
    pub outcome: Result<Reply, AppError>,
}

/// The value of a request.
pub enum RequestData {
    ListSongs,
    CreateSong(SongPayloadData),
    GetSong(Seq<char>),
    UpdateSong(Seq<char>, SongPayloadData),
    DeleteSong(Seq<char>),
    ListGenres,
    CreateGenre(FieldData),
}

/// The value of a command.
pub enum CommandData {
    ListSongs,
    CreateSong(CreateSongData),
    GetSong(Id),
    UpdateSong(Id, UpdateSongData),
    DeleteSong(Id),
    ListGenres,
    CreateGenre(Seq<char>),
}

/// The value of a reply.
pub enum ReplyData {
    Songs(Seq<SongViewData>),
    Song(SongViewData),
    Deleted,
    Genres(Seq<GenreData>),
    Genre(GenreData),
}

/// The value of a response.
pub struct ResponseData {
    pub status: u16,
    pub outcome: Result<ReplyData, AppError>,
}

impl View for Request {
    type V = RequestData;

    open spec fn view(&self) -> RequestData {
        match self {
            Request::ListSongs => RequestData::ListSongs,
            Request::CreateSong(body) => RequestData::CreateSong(body@),
            Request::GetSong(id) => RequestData::GetSong(id@),
            Request::UpdateSong(id, body) => RequestData::UpdateSong(id@, body@),
            Request::DeleteSong(id) => RequestData::DeleteSong(id@),
            Request::ListGenres => RequestData::ListGenres,
            Request::CreateGenre(body) => RequestData::CreateGenre(body@),
        }
    }
}

impl View for Command {
    type V = CommandData;

    open spec fn view(&self) -> CommandData {
        match self {
            Command::ListSongs => CommandData::ListSongs,
            Command::CreateSong(c) => CommandData::CreateSong(c@),
            Command::GetSong(id) => CommandData::GetSong(*id),
            Command::UpdateSong(id, c) => CommandData::UpdateSong(*id, c@),
            Command::DeleteSong(id) => CommandData::DeleteSong(*id),
            Command::ListGenres => CommandData::ListGenres,
            Command::CreateGenre(c) => CommandData::CreateGenre(c@),
        }
    }
}

impl View for Reply {
    type V = ReplyData;

    open spec fn view(&self) -> ReplyData {
        match self {
            Reply::Songs(views) => ReplyData::Songs(values_of(views@)),
            Reply::Song(view) => ReplyData::Song(view@),
            Reply::Deleted => ReplyData::Deleted,
            Reply::Genres(genres) => ReplyData::Genres(values_of(genres@)),
            Reply::Genre(genre) => ReplyData::Genre(genre@),
        }
    }
}

impl View for Response {
    type V = ResponseData;

    open spec fn view(&self) -> ResponseData {
        ResponseData { status: self.status, outcome: answer_of(self.outcome) }
    }
}

/// The command that a request decodes into, given what the identifier of
/// its path and the genre reference of its body were read as (each is
/// looked at only where the request has one).
pub open spec fn command_for(
    request: RequestData,
    path_id: Result<Id, AppError>,
    genre_id: Result<Option<Id>, AppError>,
) -> Result<CommandData, AppError> {
    match request {
        RequestData::ListSongs => Ok(CommandData::ListSongs),
        RequestData::CreateSong(body) => match create_song_command(body, genre_id) {
            Ok(c) => Ok(CommandData::CreateSong(c)),
            Err(e) => Err(e),
        },
        RequestData::GetSong(_) => match path_id {
            Ok(id) => Ok(CommandData::GetSong(id)),
            Err(e) => Err(e),
        },
        RequestData::UpdateSong(_, body) => match path_id {
            Ok(id) => match update_song_command(body, genre_id) {
                Ok(c) => Ok(CommandData::UpdateSong(id, c)),
                Err(e) => Err(e),
            },
            Err(e) => Err(e),
        },
        RequestData::DeleteSong(_) => match path_id {
            Ok(id) => Ok(CommandData::DeleteSong(id)),
            Err(e) => Err(e),
        },
        RequestData::ListGenres => Ok(CommandData::ListGenres),
        RequestData::CreateGenre(body) => match required_text(body) {
            Ok(c) => Ok(CommandData::CreateGenre(c)),
            Err(e) => Err(e),
        },
    }
}

/// The text of the identifier in a request's path, if it has one.
pub open spec fn path_text(request: RequestData) -> Option<Seq<char>> {
    match request {
        RequestData::GetSong(id) => Some(id),
        RequestData::UpdateSong(id, _) => Some(id),
        RequestData::DeleteSong(id) => Some(id),
        _ => None,
    }
}

/// The field of the genre reference in a request's body, if it has one.
pub open spec fn genre_field(request: RequestData) -> FieldData {
    match request {
        RequestData::CreateSong(body) => body.genre_id,
        RequestData::UpdateSong(_, body) => body.genre_id,
        _ => FieldData::Absent,
    }
}

/// The command that a request decodes into.
pub open spec fn decoded_command(request: RequestData) -> Result<CommandData, AppError> {
    command_for(
        request,
        match path_text(request) {
            Some(text) => checked_id(uuid_parse(text)),
            None => Err(AppError::Validation),
        },
        optional_reference(genre_field(request)),
    )
}

/// What the data layer answers a command with. `fresh` is the identifier
/// that a created row gets.
pub open spec fn answer_to(catalog: CatalogData, fresh: Id, command: CommandData) -> Result<
    ReplyData,
    AppError,
> {
    match command {
        CommandData::ListSongs => Ok(ReplyData::Songs(catalog.list_songs())),
        CommandData::CreateSong(c) => match catalog.create_song(fresh, c) {
            Ok(view) => Ok(ReplyData::Song(view)),
            Err(e) => Err(e),
        },
        CommandData::GetSong(id) => match catalog.get_song(id) {
            Ok(view) => Ok(ReplyData::Song(view)),
            Err(e) => Err(e),
        },
        CommandData::UpdateSong(id, c) => match catalog.update_song(id, c) {
            Ok(view) => Ok(ReplyData::Song(view)),
            Err(e) => Err(e),
        },
        CommandData::DeleteSong(_) => Ok(ReplyData::Deleted),
        CommandData::ListGenres => Ok(ReplyData::Genres(catalog.list_genres())),
        CommandData::CreateGenre(name) => match catalog.create_genre(fresh, name) {
            Ok(genre) => Ok(ReplyData::Genre(genre)),
            Err(e) => Err(e),
        },
    }
}

/// The catalog after the data layer has carried out a command.
pub open spec fn catalog_after(catalog: CatalogData, fresh: Id, command: CommandData) -> CatalogData {
    match command {
        CommandData::CreateSong(c) => catalog.after_create_song(fresh, c),
        CommandData::UpdateSong(id, c) => catalog.after_update_song(id, c),
        CommandData::DeleteSong(id) => catalog.after_delete_song(id),
        CommandData::CreateGenre(name) => catalog.after_create_genre(fresh, name),
        _ => catalog,
    }
}

/// The status that an outcome is answered with: 204 for a delete, 200 for
/// every other success, and for a failure the status of its kind.
pub open spec fn status_of(outcome: Result<ReplyData, AppError>) -> u16 {
    match outcome {
        Ok(ReplyData::Deleted) => STATUS_NO_CONTENT,
        Ok(_) => STATUS_OK,
        Err(e) => e.status(),
    }
}

/// The response to a request on a catalog: where decoding fails, the
/// failure and an unchanged catalog; else what the data layer answers.
pub open spec fn outcome_of(catalog: CatalogData, fresh: Id, request: RequestData) -> Result<
    ReplyData,
    AppError,
> {
    match decoded_command(request) {
        Ok(command) => answer_to(catalog, fresh, command),
        Err(e) => Err(e),
    }
}

/// The catalog after a request: unchanged where decoding fails.
pub open spec fn catalog_after_request(catalog: CatalogData, fresh: Id, request: RequestData) -> CatalogData {
    match decoded_command(request) {
        Ok(command) => catalog_after(catalog, fresh, command),
        Err(_) => catalog,
    }
}

/// Builds the command for a request whose identifier and genre reference
/// have been read. The first failure met is `Validation` in every case.
pub fn assemble(
    request: &Request,
    path_id: Result<Id, AppError>,
    genre_id: Result<Option<Id>, AppError>,
) -> (command: Result<Command, AppError>)
    ensures
        decoded(command) == command_for(request@, path_id, genre_id),
{
    match request {
        Request::ListSongs => Ok(Command::ListSongs),
        Request::CreateSong(body) => match crate::mapper::assemble_create_song(body, genre_id) {
            Ok(c) => Ok(Command::CreateSong(c)),
            Err(e) => Err(e),
        },
        Request::GetSong(_) => match path_id {
            Ok(id) => Ok(Command::GetSong(id)),
            Err(e) => Err(e),
        },
        Request::UpdateSong(_, body) => match path_id {
            Ok(id) => match crate::mapper::assemble_update_song(body, genre_id) {
                Ok(c) => Ok(Command::UpdateSong(id, c)),
                Err(e) => Err(e),
            },
            Err(e) => Err(e),
        },
        Request::DeleteSong(_) => match path_id {
            Ok(id) => Ok(Command::DeleteSong(id)),
            Err(e) => Err(e),
        },
        Request::ListGenres => Ok(Command::ListGenres),
        Request::CreateGenre(body) => match decode_create_genre(body) {
            Ok(c) => Ok(Command::CreateGenre(c)),
            Err(e) => Err(e),
        },
    }
}

/// Decodes a request into a command: reads the identifier of the path and
/// the genre reference of the body, where the request has them, and builds
/// the command from what was read. Fails with `Validation` if the
/// identifier is not well-formed or the body does not decode.
pub fn decode(request: &Request) -> (command: Result<Command, AppError>)
    ensures
        decoded(command) == decoded_command(request@),
{
    let path_id = match request {
        Request::GetSong(id) => decode_id(id.as_str()),
        Request::UpdateSong(id, _) => decode_id(id.as_str()),
        Request::DeleteSong(id) => decode_id(id.as_str()),
        _ => Err(AppError::Validation),
    };
    let genre_id = match request {
        Request::CreateSong(body) => decode_reference(&body.genre_id),
        Request::UpdateSong(_, body) => decode_reference(&body.genre_id),
        _ => Ok(None),
    };
    assemble(request, path_id, genre_id)
}

/// Maps the outcome of the data layer to a response: the records with
/// status 200, an empty body with 204 after a delete, and each failure with
/// the status of its kind.
pub fn respond(outcome: Result<Reply, AppError>) -> (response: Response)
    ensures
        response.outcome == outcome,
        response.status == status_of(answer_of(outcome)),
{
    let status = match &outcome {
        Ok(Reply::Deleted) => STATUS_NO_CONTENT,
        Ok(_) => STATUS_OK,
        Err(e) => e.status_code(),
    };
    Response { status, outcome }
}

impl Catalog {
    /// Carries out a command on this catalog. `fresh` is the identifier
    /// that a created row gets; the other commands do not look at it.
    pub fn execute(&mut self, fresh: Id, command: &Command) -> (outcome: Result<Reply, AppError>)
        requires
            old(self).wf(),
        ensures
            final(self).wf(),
            final(self)@ == catalog_after(old(self)@, fresh, command@),
            answer_of(outcome) == answer_to(old(self)@, fresh, command@),
    {
        match command {
            Command::ListSongs => Ok(Reply::Songs(self.list_songs())),
            Command::CreateSong(c) => match self.create_song(fresh, c) {
                Ok(view) => Ok(Reply::Song(view)),
                Err(e) => Err(e),
            },
            Command::GetSong(id) => match self.get_song(*id) {
                Ok(view) => Ok(Reply::Song(view)),
                Err(e) => Err(e),
            },
            Command::UpdateSong(id, c) => match self.update_song(*id, c) {
                Ok(view) => Ok(Reply::Song(view)),
                Err(e) => Err(e),
            },
            Command::DeleteSong(id) => match self.delete_song(*id) {
                Ok(()) => Ok(Reply::Deleted),
                Err(e) => Err(e),
            },
            Command::ListGenres => Ok(Reply::Genres(self.list_genres())),
            Command::CreateGenre(c) => match self.create_genre(fresh, c) {
                Ok(genre) => Ok(Reply::Genre(genre)),
                Err(e) => Err(e),
            },
        }
    }
}

/// Serves a request on an in-memory catalog: decodes it, carries the command
/// out, and maps the outcome to a response. A request that does not decode
/// is answered with status 400 and changes nothing.
pub fn handle(catalog: &mut Catalog, fresh: Id, request: &Request) -> (response: Response)
    requires
        old(catalog).wf(),
    ensures
        final(catalog).wf(),
        final(catalog)@ == catalog_after_request(old(catalog)@, fresh, request@),
        response@.outcome == outcome_of(old(catalog)@, fresh, request@),
        response.status == status_of(response@.outcome),
{
    match decode(request) {
        Ok(command) => {
            let outcome = catalog.execute(fresh, &command);
            respond(outcome)
        },
        Err(e) => respond(Err(e)),
    }
}

/// The status tells success from failure: it is below 300 exactly when the
/// outcome is a success, and 204 exactly when the outcome is that of a
/// delete.
pub proof fn status_reports_the_outcome(outcome: Result<ReplyData, AppError>)
    ensures
        outcome is Ok <==> status_of(outcome) < 300,
        outcome == Ok::<ReplyData, AppError>(ReplyData::Deleted) <==> status_of(outcome)
            == STATUS_NO_CONTENT,
{
}

/// A delete is answered with success whether or not the song is stored.
pub proof fn delete_always_succeeds(catalog: CatalogData, fresh: Id, song_id: Id)
    ensures
        answer_to(catalog, fresh, CommandData::DeleteSong(song_id)) == Ok::<ReplyData, AppError>(
            ReplyData::Deleted,
        ),
        !catalog.holds_song(song_id) ==> catalog_after(
            catalog,
            fresh,
            CommandData::DeleteSong(song_id),
        ) == catalog,
{
}

/// Only the four writing commands can change the catalog, and none of them
/// does when it fails.
pub proof fn failure_changes_nothing(catalog: CatalogData, fresh: Id, command: CommandData)
    requires
        answer_to(catalog, fresh, command) is Err,
    ensures
        catalog_after(catalog, fresh, command) == catalog,
{
}

/// Reading commands leave the catalog as it is.
pub proof fn reads_change_nothing(catalog: CatalogData, fresh: Id, command: CommandData)
    requires
        command is ListSongs || command is GetSong || command is ListGenres,
    ensures
        catalog_after(catalog, fresh, command) == catalog,
{
}

/// Every command keeps the catalog well-formed.
pub proof fn commands_keep_wf(catalog: CatalogData, fresh: Id, command: CommandData)
    requires
        catalog.wf(),
    ensures
        catalog_after(catalog, fresh, command).wf(),
{
    match command {
        CommandData::CreateSong(c) => catalog.create_song_keeps_wf(fresh, c),
        CommandData::UpdateSong(id, c) => catalog.update_song_keeps_wf(id, c),
        CommandData::DeleteSong(id) => catalog.delete_song_keeps_wf(id),
        CommandData::CreateGenre(name) => catalog.create_genre_keeps_wf(fresh, name),
        _ => {},
    }
}

} // verus!
