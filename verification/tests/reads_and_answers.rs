use chrono::{NaiveDate, NaiveDateTime};
use raffler::api::{
    delete_game_by_id, delete_game_reservation_by_id, delete_location_by_id, delete_note_for_game_by_id,
    get_all_locations, get_game_by_id, get_game_reservation_stats, get_games_by_location_id,
    get_location_by_id, map_conflict, map_db_error, map_internal, map_not_found, post_add_game_at_location,
    post_add_location, post_add_note_for_game, post_enable_game_by_id, put_update_game, ApiError,
    GameResponse, GameWithNotesResponse, LocationResponse, NoteResponse,
};
use raffler::cleanup::{
    Cleanup, CleanupAction, CleanupEvent, CLEANUP_INTERVAL_SECONDS, RESERVATION_TIMEOUT_MINUTES,
};
use raffler::db::{attach_notes, DbError, Game, GameWithNotes, Location, Note};
use raffler::outside::SqlErrorKind;
use raffler::reads::{ids_of, ReadAction, ReadEvent};

fn at(hour: u32, minute: u32) -> NaiveDateTime {
    NaiveDate::from_ymd_opt(2023, 5, 4).unwrap().and_hms_opt(hour, minute, 0).unwrap()
}

fn game(id: i64, abbreviation: &str) -> Game {
    Game {
        id,
        location_id: 1,
        name: format!("Game {id}"),
        abbreviation: abbreviation.to_string(),
        disabled_at: None,
        reserved_at: None,
        deleted_at: None,
        created_at: at(7, 0),
        reserved_minutes: 0,
    }
}

fn note(id: i64, game_id: i64, text: &str) -> Note {
    Note {
        id,
        game_id,
        player_id: None,
        note: text.to_string(),
        deleted_at: None,
        created_at: at(8, id as u32),
    }
}

fn db_failure() -> DbError {
    DbError::Db(sqlx::Error::Protocol("connection reset".to_string()))
}

#[test]
fn notes_go_to_their_games_in_order() {
    let games = vec![game(1, "AFM"), game(2, "SS"), game(3, "TAF")];
    let notes = vec![note(10, 2, "a"), note(11, 1, "b"), note(12, 2, "c"), note(13, 9, "d")];
    let out = attach_notes(games, notes);
    assert_eq!(out.len(), 3);
    assert_eq!(out[0].id, 1);
    assert_eq!(out[0].notes.iter().map(|n| n.id).collect::<Vec<_>>(), vec![11]);
    assert_eq!(out[1].notes.iter().map(|n| n.id).collect::<Vec<_>>(), vec![10, 12]);
    assert!(out[2].notes.is_empty());
    assert_eq!(out[1].abbreviation, "SS");
}

#[test]
fn a_repeated_game_gets_no_notes_twice() {
    let out = attach_notes(vec![game(1, "A"), game(1, "A")], vec![note(1, 1, "x")]);
    assert_eq!(out[0].notes.len(), 1);
    assert!(out[1].notes.is_empty());
}

#[test]
fn build_keeps_every_field() {
    let mut g = game(5, "MM");
    g.reserved_at = Some(at(9, 0));
    g.reserved_minutes = 42;
    let gw = GameWithNotes::build(g, vec![note(1, 5, "flipper")]);
    assert_eq!(gw.id, 5);
    assert_eq!(gw.reserved_at, Some(at(9, 0)));
    assert_eq!(gw.reserved_minutes, 42);
    assert_eq!(gw.notes[0].note, "flipper");
}

#[test]
fn reading_one_game_fetches_its_notes() {
    let (txn, a) = Game::find_by_id(7);
    assert!(matches!(a, ReadAction::FetchGame(7)));
    let (txn, a) = txn.advance(ReadEvent::Game(game(7, "X")));
    match a {
        ReadAction::FetchNotesOf(ids) => assert_eq!(ids, vec![7]),
        _ => panic!("expected a notes query"),
    }
    let (_, a) = txn.advance(ReadEvent::Notes(vec![note(1, 7, "tilt")]));
    match a {
        ReadAction::FinishGame(Ok(g)) => {
            assert_eq!(g.id, 7);
            assert_eq!(g.notes.len(), 1);
        }
        _ => panic!("expected the game"),
    }
}

#[test]
fn reading_a_missing_game_fails() {
    let (txn, _) = Game::find_by_id(7);
    let (_, a) = txn.advance(ReadEvent::Failed(DbError::NotFound));
    match a {
        ReadAction::FinishGame(r) => {
            assert_eq!(get_game_by_id(r).unwrap_err(), ApiError::NotFound("Game not found".to_string()))
        }
        _ => panic!("expected a finish"),
    }
}

#[test]
fn listing_an_empty_location_checks_that_it_exists() {
    let (txn, a) = Game::find_by_location_id(3);
    assert!(matches!(a, ReadAction::FetchGamesAt(3)));
    let (txn, a) = txn.advance(ReadEvent::Games(vec![]));
    assert!(matches!(a, ReadAction::CheckLocation(3)));
    assert!(txn.accepts(&ReadEvent::LocationFound));
    let (_, a) = txn.advance(ReadEvent::LocationFound);
    assert!(matches!(a, ReadAction::FinishGames(Ok(ref v)) if v.is_empty()));
}

#[test]
fn listing_a_missing_location_is_not_found() {
    let (txn, _) = Game::find_by_location_id(3);
    let (txn, _) = txn.advance(ReadEvent::Games(vec![]));
    let (_, a) = txn.advance(ReadEvent::Failed(DbError::NotFound));
    match a {
        ReadAction::FinishGames(r) => assert_eq!(
            get_games_by_location_id(r).unwrap_err(),
            ApiError::NotFound("Location not found".to_string())
        ),
        _ => panic!("expected a finish"),
    }
}

#[test]
fn listing_games_hands_out_their_notes() {
    let (txn, _) = Game::find_by_location_id(1);
    let (txn, a) = txn.advance(ReadEvent::Games(vec![game(1, "AFM"), game(2, "SS")]));
    match a {
        ReadAction::FetchNotesOf(ids) => assert_eq!(ids, vec![1, 2]),
        _ => panic!("expected a notes query"),
    }
    let (_, a) = txn.advance(ReadEvent::Notes(vec![note(1, 2, "cows"), note(2, 1, "dust")]));
    let games = match a {
        ReadAction::FinishGames(Ok(v)) => v,
        _ => panic!("expected the games"),
    };
    let shown = get_games_by_location_id(Ok(games)).unwrap();
    assert_eq!(shown[0].notes, vec![NoteResponse { id: 2, note: "dust".to_string(), created_at: at(8, 2) }]);
    assert_eq!(shown[1].notes[0].note, "cows");
}

#[test]
fn ids_keep_the_order() {
    assert_eq!(ids_of(&vec![game(4, "a"), game(2, "b"), game(9, "c")]), vec![4, 2, 9]);
}

#[test]
fn driver_errors_are_classified() {
    assert!(matches!(DbError::from(sqlx::Error::RowNotFound), DbError::NotFound));
    assert!(matches!(DbError::from(sqlx::Error::PoolTimedOut), DbError::Db(sqlx::Error::PoolTimedOut)));
    assert!(matches!(
        DbError::from_kind(SqlErrorKind::RowNotFound, sqlx::Error::PoolClosed),
        DbError::NotFound
    ));
}

#[test]
fn error_mappings() {
    assert_eq!(map_not_found("Game not found", DbError::NotFound), ApiError::NotFound("Game not found".to_string()));
    assert_eq!(map_not_found("Game not found", db_failure()), ApiError::Internal("Internal server error".to_string()));
    assert_eq!(map_conflict("busy", DbError::NotFound), ApiError::Conflict("busy".to_string()));
    assert_eq!(map_conflict("busy", db_failure()), ApiError::Internal("Internal server error".to_string()));
    assert_eq!(map_internal(DbError::NotFound), ApiError::Internal("Internal server error".to_string()));
    assert_eq!(map_db_error("Game not found", DbError::NotFound), ApiError::NotFound("Game not found".to_string()));
    assert_eq!(map_db_error("Game not found", DbError::Disabled), ApiError::Conflict("Game is disabled".to_string()));
    assert_eq!(map_db_error("Game not found", db_failure()), ApiError::Internal("Internal server error".to_string()));
}

#[test]
fn error_statuses() {
    assert_eq!(ApiError::NotFound("x".to_string()).into_response(), (404, "x".to_string()));
    assert_eq!(ApiError::Conflict("y".to_string()).into_response(), (409, "y".to_string()));
    assert_eq!(ApiError::Internal("z".to_string()).into_response(), (500, "z".to_string()));
}

fn location(id: i64, name: &str) -> Location {
    Location { id, name: name.to_string(), deleted_at: None, created_at: at(6, 0) }
}

#[test]
fn location_answers() {
    let all = get_all_locations(Ok(vec![location(1, "The Cow Pasture"), location(2, "Choclate Nudge Brownie")])).unwrap();
    assert_eq!(
        all,
        vec![
            LocationResponse { id: 1, name: "The Cow Pasture".to_string() },
            LocationResponse { id: 2, name: "Choclate Nudge Brownie".to_string() },
        ]
    );
    assert_eq!(get_all_locations(Err(db_failure())).unwrap_err(), ApiError::Internal("Internal server error".to_string()));
    assert_eq!(
        post_add_location(Ok(location(3, "The Church of Slap Saves"))).unwrap(),
        (201, LocationResponse { id: 3, name: "The Church of Slap Saves".to_string() })
    );
    assert_eq!(get_location_by_id(Err(DbError::NotFound)).unwrap_err(), ApiError::NotFound("Location not found".to_string()));
    assert_eq!(delete_location_by_id(Err(DbError::NotFound)).unwrap_err(), ApiError::NotFound("Location not found".to_string()));
    assert_eq!(delete_location_by_id(Ok(location(1, "P"))).unwrap().id, 1);
}

#[test]
fn game_answers() {
    assert_eq!(
        post_add_game_at_location(Ok(game(3, "SS"))).unwrap(),
        (201, GameResponse { id: 3, name: "Game 3".to_string(), abbreviation: "SS".to_string() })
    );
    assert_eq!(post_add_game_at_location(Err(DbError::NotFound)).unwrap_err(), ApiError::NotFound("Location not found".to_string()));
    assert_eq!(put_update_game(Err(DbError::NotFound)).unwrap_err(), ApiError::NotFound("Game not found".to_string()));
    assert_eq!(put_update_game(Ok(game(1, "AFL"))).unwrap().abbreviation, "AFL");
    assert_eq!(delete_game_by_id(Err(db_failure())).unwrap_err(), ApiError::Internal("Internal server error".to_string()));
    assert_eq!(delete_game_reservation_by_id(Err(DbError::NotFound)).unwrap_err(), ApiError::NotFound("Game not found".to_string()));
    assert_eq!(post_enable_game_by_id(Ok(game(1, "AFM"))).unwrap().id, 1);
    let mut g = GameWithNotes::build(game(1, "AFM"), vec![note(1, 1, "Autoplunger is infested with cows")]);
    g.disabled_at = Some(at(12, 22));
    let shown = get_game_by_id(Ok(g)).unwrap();
    assert_eq!(
        shown,
        GameWithNotesResponse {
            id: 1,
            name: "Game 1".to_string(),
            abbreviation: "AFM".to_string(),
            disabled_at: Some(at(12, 22)),
            reserved_at: None,
            reserved_minutes: 0,
            notes: vec![NoteResponse { id: 1, note: "Autoplunger is infested with cows".to_string(), created_at: at(8, 1) }],
        }
    );
}

#[test]
fn note_and_stats_answers() {
    assert_eq!(post_add_note_for_game(Ok(note(3, 1, "Auto plunger infested with cows"))).unwrap().0, 201);
    assert_eq!(post_add_note_for_game(Err(DbError::NotFound)).unwrap_err(), ApiError::NotFound("Game not found".to_string()));
    assert_eq!(delete_note_for_game_by_id(Err(DbError::NotFound)).unwrap_err(), ApiError::NotFound("Note not found".to_string()));
    assert_eq!(get_game_reservation_stats::<u8>(Ok(7)), Ok(7));
    assert_eq!(get_game_reservation_stats::<u8>(Err(DbError::NotFound)), Err(ApiError::NotFound("Game not found".to_string())));
}

#[test]
fn cleanup_releases_every_overdue_game_then_sleeps() {
    assert_eq!(RESERVATION_TIMEOUT_MINUTES, 90);
    assert_eq!(CLEANUP_INTERVAL_SECONDS, 900);
    let (c, a) = Cleanup::start();
    assert!(matches!(a, CleanupAction::Sleep(900)));
    let (c, a) = c.advance(CleanupEvent::Woke);
    assert!(matches!(a, CleanupAction::FindReservedLongerThan(90)));
    let (c, a) = c.advance(CleanupEvent::Found(vec![game(5, "a"), game(3, "b")]));
    assert!(matches!(a, CleanupAction::Release(5)));
    let (c, a) = c.advance(CleanupEvent::Released(Err(DbError::NotFound)));
    assert!(matches!(a, CleanupAction::Release(3)));
    let (c, a) = c.advance(CleanupEvent::Released(Ok(game(3, "b"))));
    assert!(matches!(a, CleanupAction::Sleep(900)));
    let (c, _) = c.advance(CleanupEvent::Woke);
    assert!(c.accepts(&CleanupEvent::FindFailed(DbError::NotFound)));
    let (c, a) = c.advance(CleanupEvent::Found(vec![]));
    assert!(matches!(a, CleanupAction::Sleep(900)));
    assert!(c.accepts(&CleanupEvent::Woke));
}
