use song_catalog::error::AppError;
use song_catalog::handler::{assemble, decode, handle, respond, Command, Reply, Request, Response};
use song_catalog::mapper::{Field, GenrePayload, SongPayload};
use song_catalog::model::{CreateGenreRequest, Genre, Id, SongView, UpdateSongRequest};
use song_catalog::store::Catalog;

const G1: &str = "0a0b0c0d-0000-4000-8000-000000000001";
const S1: &str = "0a0b0c0d-0000-4000-8000-0000000000a1";
const UNUSED: &str = "ffffffff-ffff-4fff-8fff-ffffffffffff";

fn id(text: &str) -> Id {
    Id::parse(text).unwrap()
}

fn song_payload() -> SongPayload {
    SongPayload {
        title: Field::Absent,
        artist: Field::Absent,
        genre_id: Field::Absent,
        release_year: Field::Absent,
        audio_file_path: Field::Absent,
    }
}

fn text(value: &str) -> Field {
    Field::Text(value.to_string())
}

fn song_of(response: Response) -> SongView {
    match response.outcome {
        Ok(Reply::Song(view)) => view,
        other => panic!("no song in {:?}", other),
    }
}

#[test]
fn scenario_create_genre_create_song_update_year() {
    let mut catalog = Catalog::new(true);

    let request = Request::CreateGenre(GenrePayload { genre_name: text("Rock") });
    let response = handle(&mut catalog, id(G1), &request);
    assert_eq!(response.status, 200);
    assert_eq!(
        response.outcome,
        Ok(Reply::Genre(Genre { genre_id: id(G1), genre_name: "Rock".to_string() }))
    );

    let request = Request::CreateSong(SongPayload {
        title: text("X"),
        artist: text("Y"),
        genre_id: text(G1),
        ..song_payload()
    });
    let response = handle(&mut catalog, id(S1), &request);
    assert_eq!(response.status, 200);
    let created = song_of(response);
    assert_eq!(created.song_id, id(S1));
    assert_eq!(created.genre_name, Some("Rock".to_string()));

    let request =
        Request::UpdateSong(S1.to_string(), SongPayload { release_year: Field::Integer(1999), ..song_payload() });
    let response = handle(&mut catalog, id(UNUSED), &request);
    assert_eq!(response.status, 200);
    assert_eq!(
        song_of(response),
        SongView {
            song_id: id(S1),
            title: "X".to_string(),
            artist: "Y".to_string(),
            genre_id: Some(id(G1)),
            genre_name: Some("Rock".to_string()),
            release_year: Some(1999),
            audio_file_path: None,
        }
    );
}

#[test]
fn list_requests_answer_200_with_all_rows() {
    let mut catalog = Catalog::new(false);
    let response = handle(&mut catalog, id(UNUSED), &Request::ListSongs);
    assert_eq!(response, Response { status: 200, outcome: Ok(Reply::Songs(vec![])) });
    let response = handle(&mut catalog, id(UNUSED), &Request::ListGenres);
    assert_eq!(response, Response { status: 200, outcome: Ok(Reply::Genres(vec![])) });

    handle(&mut catalog, id(G1), &Request::CreateGenre(GenrePayload { genre_name: text("Pop") }));
    let response = handle(&mut catalog, id(UNUSED), &Request::ListGenres);
    assert_eq!(
        response.outcome,
        Ok(Reply::Genres(vec![Genre { genre_id: id(G1), genre_name: "Pop".to_string() }]))
    );
}

#[test]
fn get_of_created_song_answers_the_same_view() {
    let mut catalog = Catalog::new(false);
    let request = Request::CreateSong(SongPayload {
        title: text("X"),
        artist: text("Y"),
        audio_file_path: text("x.mp3"),
        ..song_payload()
    });
    let created = song_of(handle(&mut catalog, id(S1), &request));
    let text = created.song_id.to_text();
    assert_eq!(text, S1);
    let read = handle(&mut catalog, id(UNUSED), &Request::GetSong(text));
    assert_eq!(read.status, 200);
    assert_eq!(song_of(read), created);
}

#[test]
fn delete_answers_204_whether_or_not_the_song_exists() {
    let mut catalog = Catalog::new(false);
    let request = Request::CreateSong(SongPayload {
        title: text("X"),
        artist: text("Y"),
        ..song_payload()
    });
    handle(&mut catalog, id(S1), &request);
    let gone = Response { status: 204, outcome: Ok(Reply::Deleted) };
    assert_eq!(handle(&mut catalog, id(UNUSED), &Request::DeleteSong(S1.to_string())), gone);
    assert_eq!(handle(&mut catalog, id(UNUSED), &Request::DeleteSong(S1.to_string())), gone);
    assert_eq!(handle(&mut catalog, id(UNUSED), &Request::DeleteSong(UNUSED.to_string())), gone);
    assert_eq!(catalog.list_songs(), Vec::<SongView>::new());
}

#[test]
fn missing_song_answers_404() {
    let mut catalog = Catalog::new(false);
    let not_found = Response { status: 404, outcome: Err(AppError::NotFound) };
    assert_eq!(handle(&mut catalog, id(UNUSED), &Request::GetSong(S1.to_string())), not_found);
    let update = Request::UpdateSong(S1.to_string(), SongPayload { release_year: Field::Integer(1), ..song_payload() });
    assert_eq!(handle(&mut catalog, id(UNUSED), &update), not_found);
}

#[test]
fn malformed_requests_answer_400_and_change_nothing() {
    let mut catalog = Catalog::new(false);
    let invalid = Response { status: 400, outcome: Err(AppError::Validation) };
    let requests = vec![
        Request::GetSong("1".to_string()),
        Request::DeleteSong("".to_string()),
        Request::UpdateSong("song".to_string(), song_payload()),
        Request::UpdateSong(S1.to_string(), SongPayload { genre_id: text("g"), ..song_payload() }),
        Request::CreateSong(SongPayload { artist: text("Y"), ..song_payload() }),
        Request::CreateSong(SongPayload { title: text("X"), ..song_payload() }),
        Request::CreateSong(SongPayload {
            title: text("X"),
            artist: text("Y"),
            release_year: Field::Integer(3_000_000_000),
            ..song_payload()
        }),
        Request::CreateSong(SongPayload { title: Field::Integer(1), artist: text("Y"), ..song_payload() }),
        Request::CreateSong(SongPayload {
            title: text("X"),
            artist: text("Y"),
            genre_id: Field::Integer(7),
            ..song_payload()
        }),
        Request::UpdateSong(S1.to_string(), SongPayload { release_year: text("1999"), ..song_payload() }),
        Request::UpdateSong(S1.to_string(), SongPayload { audio_file_path: Field::Other, ..song_payload() }),
        Request::CreateGenre(GenrePayload { genre_name: Field::Absent }),
        Request::CreateGenre(GenrePayload { genre_name: Field::Other }),
    ];
    for request in requests.iter() {
        assert_eq!(handle(&mut catalog, id(S1), request), invalid);
    }
    assert_eq!(catalog.list_songs(), Vec::<SongView>::new());
    assert_eq!(catalog.list_genres(), Vec::<Genre>::new());
}

#[test]
fn violated_constraint_answers_409() {
    let mut catalog = Catalog::new(true);
    let request = Request::CreateSong(SongPayload {
        title: text("X"),
        artist: text("Y"),
        genre_id: text(G1),
        ..song_payload()
    });
    assert_eq!(
        handle(&mut catalog, id(S1), &request),
        Response { status: 409, outcome: Err(AppError::ConstraintViolation) }
    );
}

#[test]
fn respond_maps_each_outcome_to_its_status() {
    assert_eq!(respond(Ok(Reply::Deleted)).status, 204);
    assert_eq!(respond(Ok(Reply::Songs(vec![]))).status, 200);
    assert_eq!(respond(Ok(Reply::Genres(vec![]))).status, 200);
    let genre = Genre { genre_id: Id { value: 1 }, genre_name: "Rock".to_string() };
    let response = respond(Ok(Reply::Genre(genre.clone())));
    assert_eq!(response, Response { status: 200, outcome: Ok(Reply::Genre(genre)) });
    assert_eq!(respond(Err(AppError::Validation)).status, 400);
    assert_eq!(respond(Err(AppError::NotFound)).status, 404);
    assert_eq!(respond(Err(AppError::ConstraintViolation)).status, 409);
    assert_eq!(respond(Err(AppError::Storage)), Response { status: 500, outcome: Err(AppError::Storage) });
}

#[test]
fn status_codes_of_failures() {
    assert_eq!(AppError::Validation.status_code(), 400);
    assert_eq!(AppError::NotFound.status_code(), 404);
    assert_eq!(AppError::ConstraintViolation.status_code(), 409);
    assert_eq!(AppError::Storage.status_code(), 500);
    assert_eq!(song_catalog::error::STATUS_OK, 200);
    assert_eq!(song_catalog::error::STATUS_NO_CONTENT, 204);
}

#[test]
fn decode_reads_path_and_body() {
    assert_eq!(decode(&Request::ListSongs), Ok(Command::ListSongs));
    assert_eq!(decode(&Request::ListGenres), Ok(Command::ListGenres));
    assert_eq!(decode(&Request::GetSong(S1.to_string())), Ok(Command::GetSong(id(S1))));
    assert_eq!(decode(&Request::DeleteSong(S1.to_string())), Ok(Command::DeleteSong(id(S1))));
    assert_eq!(
        decode(&Request::UpdateSong(
            S1.to_string(),
            SongPayload { genre_id: text(G1), ..song_payload() }
        )),
        Ok(Command::UpdateSong(
            id(S1),
            UpdateSongRequest {
                title: None,
                artist: None,
                genre_id: Some(id(G1)),
                release_year: None,
                audio_file_path: None,
            }
        ))
    );
    assert_eq!(
        decode(&Request::CreateGenre(GenrePayload { genre_name: text("Rock") })),
        Ok(Command::CreateGenre(CreateGenreRequest { genre_name: "Rock".to_string() }))
    );
    assert_eq!(decode(&Request::GetSong("x".to_string())), Err(AppError::Validation));
}

#[test]
fn assemble_uses_what_was_read() {
    let request = Request::GetSong("ignored".to_string());
    assert_eq!(assemble(&request, Ok(Id { value: 5 }), Ok(None)), Ok(Command::GetSong(Id { value: 5 })));
    assert_eq!(assemble(&request, Err(AppError::Validation), Ok(None)), Err(AppError::Validation));
    let request = Request::UpdateSong("ignored".to_string(), song_payload());
    assert_eq!(
        assemble(&request, Ok(Id { value: 5 }), Err(AppError::Validation)),
        Err(AppError::Validation)
    );
    assert_eq!(assemble(&Request::ListSongs, Err(AppError::Validation), Ok(None)), Ok(Command::ListSongs));
}

#[test]
fn execute_runs_a_command() {
    let mut catalog = Catalog::new(false);
    let command = Command::CreateGenre(CreateGenreRequest { genre_name: "Rock".to_string() });
    let genre = Genre { genre_id: Id { value: 1 }, genre_name: "Rock".to_string() };
    assert_eq!(catalog.execute(Id { value: 1 }, &command), Ok(Reply::Genre(genre.clone())));
    assert_eq!(catalog.execute(Id { value: 1 }, &command), Err(AppError::ConstraintViolation));
    assert_eq!(catalog.execute(Id { value: 2 }, &Command::ListGenres), Ok(Reply::Genres(vec![genre])));
    assert_eq!(catalog.execute(Id { value: 2 }, &Command::GetSong(Id { value: 9 })), Err(AppError::NotFound));
    assert_eq!(catalog.execute(Id { value: 2 }, &Command::DeleteSong(Id { value: 9 })), Ok(Reply::Deleted));
}
