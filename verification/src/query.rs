//! The parameterized statement that each command is carried out with against
//! a relational database: a fixed text and the values bound to it, in order.

use vstd::prelude::*;
use crate::handler::{answer_to, Command, CommandData, ReplyData};
use crate::table::CatalogData;
use crate::model::{copy_text, text_of, Id};
use crate::store::values_of;

verus! {

/// The statements of the data layer. A statement's text is fixed: values
/// reach the database only as bound parameters.
#[derive(Clone, Copy, Debug, PartialEq, Eq, Structural)]
pub enum Statement {
    ListSongs,
    InsertSong,
    SelectSong,
    UpdateSong,
    DeleteSong,
    ListGenres,
    InsertGenre,
}

/// What the rows of a statement are read as.
#[derive(Clone, Copy, Debug, PartialEq, Eq, Structural)]
pub enum Shape {
    /// Any number of rows, each a song with its genre's name.
    Songs,
    /// Exactly one such row; none is a failure.
    Song,
    /// No rows are read.
    Nothing,
    /// Any number of rows, each a genre.
    Genres,
    /// Exactly one genre; none is a failure.
    Genre,
}

/// A value bound to a placeholder; each may be null.
#[derive(Clone, Debug, PartialEq, Eq)]
pub enum Param {
    Text(Option<String>),
    Identifier(Option<Id>),
    Integer(Option<i32>),
}

/// The value of a bound parameter.
pub enum ParamData {
    Text(Option<Seq<char>>),
    Identifier(Option<Id>),
    Integer(Option<i32>),
}

impl View for Param {
    type V = ParamData;

    open spec fn view(&self) -> ParamData {
        match self {
            Param::Text(t) => ParamData::Text(text_of(*t)),
            Param::Identifier(id) => ParamData::Identifier(*id),
            Param::Integer(n) => ParamData::Integer(*n),
        }
    }
}

pub const LIST_SONGS: &'static str =
    "SELECT s.song_id, s.title, s.artist, s.genre_id, g.genre_name, s.release_year, s.audio_file_path FROM songs s LEFT JOIN genres g ON s.genre_id = g.genre_id";

pub const INSERT_SONG: &'static str =
    "WITH s AS (INSERT INTO songs (title, artist, genre_id, release_year, audio_file_path) VALUES ($1, $2, $3, $4, $5) RETURNING song_id, title, artist, genre_id, release_year, audio_file_path) SELECT s.song_id, s.title, s.artist, s.genre_id, g.genre_name, s.release_year, s.audio_file_path FROM s LEFT JOIN genres g ON s.genre_id = g.genre_id";

pub const SELECT_SONG: &'static str =
    "SELECT s.song_id, s.title, s.artist, s.genre_id, g.genre_name, s.release_year, s.audio_file_path FROM songs s LEFT JOIN genres g ON s.genre_id = g.genre_id WHERE s.song_id = $1";

pub const UPDATE_SONG: &'static str =
    "WITH s AS (UPDATE songs SET title = COALESCE($1, title), artist = COALESCE($2, artist), genre_id = COALESCE($3, genre_id), release_year = COALESCE($4, release_year), audio_file_path = COALESCE($5, audio_file_path) WHERE song_id = $6 RETURNING song_id, title, artist, genre_id, release_year, audio_file_path) SELECT s.song_id, s.title, s.artist, s.genre_id, g.genre_name, s.release_year, s.audio_file_path FROM s LEFT JOIN genres g ON s.genre_id = g.genre_id";

pub const DELETE_SONG: &'static str = "DELETE FROM songs WHERE song_id = $1";

pub const LIST_GENRES: &'static str = "SELECT genre_id, genre_name FROM genres";

pub const INSERT_GENRE: &'static str =
    "INSERT INTO genres (genre_name) VALUES ($1) RETURNING genre_id, genre_name";

impl Statement {
    /// The text of the statement.
    pub open spec fn text(self) -> Seq<char> {
        match self {
            Statement::ListSongs => LIST_SONGS@,
            Statement::InsertSong => INSERT_SONG@,
            Statement::SelectSong => SELECT_SONG@,
            Statement::UpdateSong => UPDATE_SONG@,
            Statement::DeleteSong => DELETE_SONG@,
            Statement::ListGenres => LIST_GENRES@,
            Statement::InsertGenre => INSERT_GENRE@,
        }
    }

    /// The number of placeholders of the statement.
    pub open spec fn arity(self) -> nat {
        match self {
            Statement::ListSongs => 0,
            Statement::InsertSong => 5,
            Statement::SelectSong => 1,
            Statement::UpdateSong => 6,
            Statement::DeleteSong => 1,
            Statement::ListGenres => 0,
            Statement::InsertGenre => 1,
        }
    }

    /// What the rows of the statement are read as.
    pub open spec fn row_shape(self) -> Shape {
        match self {
            Statement::ListSongs => Shape::Songs,
            Statement::InsertSong => Shape::Song,
            Statement::SelectSong => Shape::Song,
            Statement::UpdateSong => Shape::Song,
            Statement::DeleteSong => Shape::Nothing,
            Statement::ListGenres => Shape::Genres,
            Statement::InsertGenre => Shape::Genre,
        }
    }

    /// The statement that carries out a command.
    pub open spec fn of(command: CommandData) -> Statement {
        match command {
            CommandData::ListSongs => Statement::ListSongs,
            CommandData::CreateSong(_) => Statement::InsertSong,
            CommandData::GetSong(_) => Statement::SelectSong,
            CommandData::UpdateSong(_, _) => Statement::UpdateSong,
            CommandData::DeleteSong(_) => Statement::DeleteSong,
            CommandData::ListGenres => Statement::ListGenres,
            CommandData::CreateGenre(_) => Statement::InsertGenre,
        }
    }

    /// The SQL of this statement, with `$1`, `$2`, ... for its parameters.
    pub fn sql(&self) -> (text: &'static str)
        ensures
            text@ == self.text(),
    {
        match self {
            Statement::ListSongs => LIST_SONGS,
            Statement::InsertSong => INSERT_SONG,
            Statement::SelectSong => SELECT_SONG,
            Statement::UpdateSong => UPDATE_SONG,
            Statement::DeleteSong => DELETE_SONG,
            Statement::ListGenres => LIST_GENRES,
            Statement::InsertGenre => INSERT_GENRE,
        }
    }

    /// What the rows of this statement are to be read as: a delete reads
    /// none, a listing any number, and every other statement exactly one.
    pub fn shape(&self) -> (shape: Shape)
        ensures
            shape == self.row_shape(),
    {
        match self {
            Statement::ListSongs => Shape::Songs,
            Statement::ListGenres => Shape::Genres,
            Statement::DeleteSong => Shape::Nothing,
            Statement::InsertGenre => Shape::Genre,
            _ => Shape::Song,
        }
    }
}

/// The shape of a reply.
pub open spec fn shape_of(reply: ReplyData) -> Shape {
    match reply {
        ReplyData::Songs(_) => Shape::Songs,
        ReplyData::Song(_) => Shape::Song,
        ReplyData::Deleted => Shape::Nothing,
        ReplyData::Genres(_) => Shape::Genres,
        ReplyData::Genre(_) => Shape::Genre,
    }
}

/// The values that a command binds, in the order of the placeholders. An
/// update binds each field that it leaves out as null, and the identifier
/// of the row last.
pub open spec fn bound_values(command: CommandData) -> Seq<ParamData> {
    match command {
        CommandData::ListSongs => seq![],
        CommandData::CreateSong(c) => seq![
            ParamData::Text(Some(c.title)),
            ParamData::Text(Some(c.artist)),
            ParamData::Identifier(c.genre_id),
            ParamData::Integer(c.release_year),
            ParamData::Text(c.audio_file_path),
        ],
        CommandData::GetSong(id) => seq![ParamData::Identifier(Some(id))],
        CommandData::UpdateSong(id, c) => seq![
            ParamData::Text(c.title),
            ParamData::Text(c.artist),
            ParamData::Identifier(c.genre_id),
            ParamData::Integer(c.release_year),
            ParamData::Text(c.audio_file_path),
            ParamData::Identifier(Some(id)),
        ],
        CommandData::DeleteSong(id) => seq![ParamData::Identifier(Some(id))],
        CommandData::ListGenres => seq![],
        CommandData::CreateGenre(name) => seq![ParamData::Text(Some(name))],
    }
}

impl Command {
    /// The statement that carries out this command.
    pub fn statement(&self) -> (statement: Statement)
        ensures
            statement == Statement::of(self@),
    {
        match self {
            Command::ListSongs => Statement::ListSongs,
            Command::CreateSong(_) => Statement::InsertSong,
            Command::GetSong(_) => Statement::SelectSong,
            Command::UpdateSong(_, _) => Statement::UpdateSong,
            Command::DeleteSong(_) => Statement::DeleteSong,
            Command::ListGenres => Statement::ListGenres,
            Command::CreateGenre(_) => Statement::InsertGenre,
        }
    }

    /// The values to bind to the statement of this command, in order: as
    /// many as the statement has placeholders.
    pub fn parameters(&self) -> (params: Vec<Param>)
        ensures
            values_of(params@) == bound_values(self@),
            params@.len() == Statement::of(self@).arity(),
    {
        let mut params: Vec<Param> = Vec::new();
        match self {
            Command::ListSongs => {},
            Command::CreateSong(c) => {
                params.push(Param::Text(Some(c.title.clone())));
                params.push(Param::Text(Some(c.artist.clone())));
                params.push(Param::Identifier(c.genre_id));
                params.push(Param::Integer(c.release_year));
                params.push(Param::Text(copy_text(&c.audio_file_path)));
            },
            Command::GetSong(id) => {
                params.push(Param::Identifier(Some(*id)));
            },
            Command::UpdateSong(id, c) => {
                params.push(Param::Text(copy_text(&c.title)));
                params.push(Param::Text(copy_text(&c.artist)));
                params.push(Param::Identifier(c.genre_id));
                params.push(Param::Integer(c.release_year));
                params.push(Param::Text(copy_text(&c.audio_file_path)));
                params.push(Param::Identifier(Some(*id)));
            },
            Command::DeleteSong(id) => {
                params.push(Param::Identifier(Some(*id)));
            },
            Command::ListGenres => {},
            Command::CreateGenre(c) => {
                params.push(Param::Text(Some(c.genre_name.clone())));
            },
        }
        assert(values_of(params@) =~= bound_values(self@));
        params
    }
}

/// The text of a statement does not depend on what a command carries: two
/// commands for the same operation are carried out with the same text and
/// the same number of parameters.
pub proof fn text_is_fixed_per_operation(a: CommandData, b: CommandData)
    requires
        Statement::of(a) == Statement::of(b),
    ensures
        Statement::of(a).text() == Statement::of(b).text(),
        bound_values(a).len() == bound_values(b).len(),
        bound_values(a).len() == Statement::of(a).arity(),
{
}

/// Whenever the data layer answers a command with success, the reply has
/// the shape that the rows of the command's statement are read as.
pub proof fn rows_have_the_shape_of_the_reply(catalog: CatalogData, fresh: Id, command: CommandData)
    requires
        answer_to(catalog, fresh, command) is Ok,
    ensures
        shape_of(answer_to(catalog, fresh, command)->Ok_0) == Statement::of(command).row_shape(),
{
}

} // verus!
