use song_catalog::handler::Command;
use song_catalog::model::{CreateGenreRequest, CreateSongRequest, Id, UpdateSongRequest};
use song_catalog::query::{Param, Shape, Statement};

fn id(value: u128) -> Id {
    Id { value }
}

fn placeholders(sql: &str) -> usize {
    let mut n = 0;
    while sql.contains(&format!("${}", n + 1)) {
        n += 1;
    }
    assert_eq!(sql.matches('$').count(), n);
    n
}

#[test]
fn create_song_binds_its_fields_in_order() {
    let command = Command::CreateSong(CreateSongRequest {
        title: "X".to_string(),
        artist: "Y".to_string(),
        genre_id: Some(id(7)),
        release_year: None,
        audio_file_path: Some("x.mp3".to_string()),
    });
    assert_eq!(command.statement(), Statement::InsertSong);
    assert_eq!(
        command.parameters(),
        vec![
            Param::Text(Some("X".to_string())),
            Param::Text(Some("Y".to_string())),
            Param::Identifier(Some(id(7))),
            Param::Integer(None),
            Param::Text(Some("x.mp3".to_string())),
        ]
    );
}

#[test]
fn update_song_binds_absent_fields_as_null_and_the_identifier_last() {
    let command = Command::UpdateSong(
        id(3),
        UpdateSongRequest {
            title: None,
            artist: Some("Y".to_string()),
            genre_id: None,
            release_year: Some(1999),
            audio_file_path: None,
        },
    );
    assert_eq!(command.statement(), Statement::UpdateSong);
    assert_eq!(
        command.parameters(),
        vec![
            Param::Text(None),
            Param::Text(Some("Y".to_string())),
            Param::Identifier(None),
            Param::Integer(Some(1999)),
            Param::Text(None),
            Param::Identifier(Some(id(3))),
        ]
    );
}

#[test]
fn commands_on_one_row_bind_its_identifier() {
    assert_eq!(Command::GetSong(id(4)).statement(), Statement::SelectSong);
    assert_eq!(Command::GetSong(id(4)).parameters(), vec![Param::Identifier(Some(id(4)))]);
    assert_eq!(Command::DeleteSong(id(5)).statement(), Statement::DeleteSong);
    assert_eq!(Command::DeleteSong(id(5)).parameters(), vec![Param::Identifier(Some(id(5)))]);
}

#[test]
fn listings_bind_nothing() {
    assert_eq!(Command::ListSongs.statement(), Statement::ListSongs);
    assert_eq!(Command::ListSongs.parameters(), Vec::<Param>::new());
    assert_eq!(Command::ListGenres.statement(), Statement::ListGenres);
    assert_eq!(Command::ListGenres.parameters(), Vec::<Param>::new());
}

#[test]
fn create_genre_binds_the_name() {
    let command = Command::CreateGenre(CreateGenreRequest { genre_name: "Rock'; DROP TABLE songs".to_string() });
    assert_eq!(command.statement(), Statement::InsertGenre);
    assert_eq!(command.parameters(), vec![Param::Text(Some("Rock'; DROP TABLE songs".to_string()))]);
    assert!(!command.statement().sql().contains("DROP"));
}

#[test]
fn every_statement_has_as_many_placeholders_as_parameters() {
    assert_eq!(placeholders(Statement::ListSongs.sql()), 0);
    assert_eq!(placeholders(Statement::InsertSong.sql()), 5);
    assert_eq!(placeholders(Statement::SelectSong.sql()), 1);
    assert_eq!(placeholders(Statement::UpdateSong.sql()), 6);
    assert_eq!(placeholders(Statement::DeleteSong.sql()), 1);
    assert_eq!(placeholders(Statement::ListGenres.sql()), 0);
    assert_eq!(placeholders(Statement::InsertGenre.sql()), 1);
}

#[test]
fn statements_read_rows_in_the_shape_of_their_reply() {
    assert_eq!(Statement::ListSongs.shape(), Shape::Songs);
    assert_eq!(Statement::ListGenres.shape(), Shape::Genres);
    assert_eq!(Statement::InsertSong.shape(), Shape::Song);
    assert_eq!(Statement::SelectSong.shape(), Shape::Song);
    assert_eq!(Statement::UpdateSong.shape(), Shape::Song);
    assert_eq!(Statement::InsertGenre.shape(), Shape::Genre);
    assert_eq!(Statement::DeleteSong.shape(), Shape::Nothing);
}

#[test]
fn statement_texts() {
    assert_eq!(Statement::DeleteSong.sql(), "DELETE FROM songs WHERE song_id = $1");
    assert_eq!(Statement::ListGenres.sql(), "SELECT genre_id, genre_name FROM genres");
    assert_eq!(
        Statement::InsertGenre.sql(),
        "INSERT INTO genres (genre_name) VALUES ($1) RETURNING genre_id, genre_name"
    );
    assert!(Statement::ListSongs.sql().contains("FROM songs s LEFT JOIN genres g ON s.genre_id = g.genre_id"));
    assert!(Statement::SelectSong.sql().ends_with("WHERE s.song_id = $1"));
    assert!(Statement::UpdateSong.sql().contains("title = COALESCE($1, title)"));
    assert!(Statement::UpdateSong.sql().contains("WHERE song_id = $6"));
    assert!(Statement::InsertSong.sql().contains("VALUES ($1, $2, $3, $4, $5)"));
    assert!(Statement::InsertSong.sql().ends_with("LEFT JOIN genres g ON s.genre_id = g.genre_id"));
}
