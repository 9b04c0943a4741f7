use chrono::{NaiveDate, NaiveDateTime};
use raffler::api::{
    post_reserve_game_by_id, post_reserve_random_game_at_location, post_disable_game_by_id, ApiError,
};
use raffler::cleanup::{Cleanup, CleanupAction, CleanupEvent, RESERVATION_TIMEOUT_MINUTES};
use raffler::db::{DbError, Game, Location, Note};
use raffler::reads::{ReadAction, ReadEvent};
use raffler::txn::{
    GameTxn, LocationAction, LocationEvent, LocationTxn, TxnAction, TxnEvent,
};

fn at(hour: u32, minute: u32) -> NaiveDateTime {
    NaiveDate::from_ymd_opt(2024, 5, 1).unwrap().and_hms_opt(hour, minute, 0).unwrap()
}

fn game(id: i64, location_id: i64, disabled_at: Option<NaiveDateTime>, reserved_at: Option<NaiveDateTime>) -> Game {
    Game {
        id,
        location_id,
        name: format!("Game {id}"),
        abbreviation: format!("G{id}"),
        disabled_at,
        reserved_at,
        deleted_at: None,
        created_at: at(8, 0),
        reserved_minutes: 0,
    }
}

fn copy_game(g: &Game) -> Game {
    Game {
        id: g.id,
        location_id: g.location_id,
        name: g.name.clone(),
        abbreviation: g.abbreviation.clone(),
        disabled_at: g.disabled_at,
        reserved_at: g.reserved_at,
        deleted_at: g.deleted_at,
        created_at: g.created_at,
        reserved_minutes: g.reserved_minutes,
    }
}

fn note(id: i64, game_id: i64) -> Note {
    Note {
        id,
        game_id,
        player_id: None,
        note: format!("note {id}"),
        deleted_at: None,
        created_at: at(9, id as u32),
    }
}

fn copy_note(n: &Note) -> Note {
    Note {
        id: n.id,
        game_id: n.game_id,
        player_id: n.player_id,
        note: n.note.clone(),
        deleted_at: n.deleted_at,
        created_at: n.created_at,
    }
}

fn location(id: i64) -> Location {
    Location { id, name: format!("Location {id}"), deleted_at: None, created_at: at(7, 0) }
}

fn copy_location(l: &Location) -> Location {
    Location { id: l.id, name: l.name.clone(), deleted_at: l.deleted_at, created_at: l.created_at }
}

/// An in-memory stand-in for the database, answering the statements as the
/// application's SQL does.
struct FakeDb {
    locations: Vec<Location>,
    games: Vec<Game>,
    notes: Vec<Note>,
    reservations: Vec<(i64, NaiveDateTime, NaiveDateTime)>,
}

impl FakeDb {
    fn copy(&self) -> FakeDb {
        FakeDb {
            locations: self.locations.iter().map(copy_location).collect(),
            games: self.games.iter().map(copy_game).collect(),
            notes: self.notes.iter().map(copy_note).collect(),
            reservations: self.reservations.clone(),
        }
    }

    fn same_as(&self, other: &FakeDb) -> bool {
        self.locations == other.locations
            && self.games == other.games
            && self.notes == other.notes
            && self.reservations == other.reservations
    }

    fn game_mut(&mut self, id: i64) -> Option<&mut Game> {
        self.games.iter_mut().find(|g| g.id == id)
    }

    fn live_game(&self, id: i64) -> Option<&Game> {
        self.games.iter().find(|g| g.id == id && g.deleted_at.is_none())
    }

    fn update(&mut self, id: i64, f: impl FnOnce(&mut Game)) -> TxnEvent {
        match self.game_mut(id) {
            Some(g) => {
                f(g);
                TxnEvent::Row(copy_game(g))
            }
            None => TxnEvent::Failed(DbError::NotFound),
        }
    }

    fn respond(&mut self, action: &TxnAction, now: NaiveDateTime) -> TxnEvent {
        match action {
            TxnAction::Begin => TxnEvent::Begun,
            TxnAction::LockGame(id) => match self.live_game(*id) {
                Some(g) => TxnEvent::Row(copy_game(g)),
                None => TxnEvent::Failed(DbError::NotFound),
            },
            TxnAction::LockRandomAt(location_id) => match self.games.iter().find(|g| {
                g.location_id == *location_id
                    && g.deleted_at.is_none()
                    && g.disabled_at.is_none()
                    && g.reserved_at.is_none()
            }) {
                Some(g) => TxnEvent::Row(copy_game(g)),
                None => TxnEvent::Failed(DbError::NotFound),
            },
            TxnAction::SoftDeleteGame(id) => {
                if self.live_game(*id).is_some() {
                    self.update(*id, |g| g.deleted_at = Some(now))
                } else {
                    TxnEvent::Failed(DbError::NotFound)
                }
            }
            TxnAction::RecordReservation { game_id, reserved_at } => {
                self.reservations.push((*game_id, *reserved_at, now));
                TxnEvent::Executed
            }
            TxnAction::SetDisabled(id) => self.update(*id, |g| {
                g.disabled_at = Some(now);
                g.reserved_at = None;
            }),
            TxnAction::ClearDisabled(id) => self.update(*id, |g| g.disabled_at = None),
            TxnAction::SetReserved(id) => self.update(*id, |g| g.reserved_at = Some(now)),
            TxnAction::ClearReserved(id) => self.update(*id, |g| g.reserved_at = None),
            TxnAction::SoftDeleteNotesOf(id) => {
                for n in self.notes.iter_mut() {
                    if n.game_id == *id && n.deleted_at.is_none() {
                        n.deleted_at = Some(now);
                    }
                }
                TxnEvent::Executed
            }
            TxnAction::Commit => TxnEvent::Committed,
            TxnAction::Finish(_) => unreachable!(),
        }
    }

    fn respond_location(&mut self, action: &LocationAction, now: NaiveDateTime) -> LocationEvent {
        match action {
            LocationAction::Begin => LocationEvent::Begun,
            LocationAction::SoftDeleteLocation(id) => {
                match self.locations.iter_mut().find(|l| l.id == *id && l.deleted_at.is_none()) {
                    Some(l) => {
                        l.deleted_at = Some(now);
                        LocationEvent::Row(copy_location(l))
                    }
                    None => LocationEvent::Failed(DbError::NotFound),
                }
            }
            LocationAction::SoftDeleteNotesAt(id) => {
                let games: Vec<i64> = self
                    .games
                    .iter()
                    .filter(|g| g.location_id == *id && g.deleted_at.is_none())
                    .map(|g| g.id)
                    .collect();
                for n in self.notes.iter_mut() {
                    if games.contains(&n.game_id) && n.deleted_at.is_none() {
                        n.deleted_at = Some(now);
                    }
                }
                LocationEvent::Executed
            }
            LocationAction::SoftDeleteGamesAt(id) => {
                for g in self.games.iter_mut() {
                    if g.location_id == *id && g.deleted_at.is_none() {
                        g.deleted_at = Some(now);
                    }
                }
                LocationEvent::Executed
            }
            LocationAction::Commit => LocationEvent::Committed,
            LocationAction::Finish(_) => unreachable!(),
        }
    }
}

/// Runs a game transaction to its end; the work is kept only if it was
/// committed. Returns the result and the statements that ran.
fn run(start: (GameTxn, TxnAction), db: &mut FakeDb, now: NaiveDateTime) -> (Result<Game, DbError>, Vec<String>) {
    run_failing(start, db, now, None)
}

/// Like `run`, but the driver fails the statement numbered `failing`.
fn run_failing(
    start: (GameTxn, TxnAction),
    db: &mut FakeDb,
    now: NaiveDateTime,
    failing: Option<usize>,
) -> (Result<Game, DbError>, Vec<String>) {
    let (mut txn, mut action) = start;
    let mut work = db.copy();
    let mut committed = false;
    let mut log = Vec::new();
    loop {
        if let TxnAction::Finish(r) = action {
            if committed {
                *db = work;
            }
            return (r, log);
        }
        let name = match &action {
            TxnAction::Begin => "begin",
            TxnAction::LockGame(_) => "lock",
            TxnAction::LockRandomAt(_) => "lock_random",
            TxnAction::SoftDeleteGame(_) => "delete_game",
            TxnAction::RecordReservation { .. } => "record",
            TxnAction::SetDisabled(_) => "disable",
            TxnAction::ClearDisabled(_) => "enable",
            TxnAction::SetReserved(_) => "reserve",
            TxnAction::ClearReserved(_) => "release",
            TxnAction::SoftDeleteNotesOf(_) => "delete_notes",
            TxnAction::Commit => "commit",
            TxnAction::Finish(_) => unreachable!(),
        };
        log.push(name.to_string());
        let ev = if failing == Some(log.len() - 1) {
            TxnEvent::Failed(DbError::Db(sqlx::Error::PoolTimedOut))
        } else {
            work.respond(&action, now)
        };
        if let TxnEvent::Committed = ev {
            committed = true;
        }
        assert!(txn.accepts(&ev));
        let (t, a) = txn.advance(ev);
        txn = t;
        action = a;
    }
}

fn run_location_delete(id: i64, db: &mut FakeDb, now: NaiveDateTime) -> (Result<Location, DbError>, Vec<&'static str>) {
    run_location_delete_failing(id, db, now, None)
}

fn run_location_delete_failing(
    id: i64,
    db: &mut FakeDb,
    now: NaiveDateTime,
    failing: Option<usize>,
) -> (Result<Location, DbError>, Vec<&'static str>) {
    let (mut txn, mut action): (LocationTxn, LocationAction) = Location::delete_by_id(id);
    let mut work = db.copy();
    let mut committed = false;
    let mut log = Vec::new();
    loop {
        let name = match &action {
            LocationAction::Finish(_) => {
                if let LocationAction::Finish(r) = action {
                    if committed {
                        *db = work;
                    }
                    return (r, log);
                }
                unreachable!()
            }
            LocationAction::Begin => "begin",
            LocationAction::SoftDeleteLocation(_) => "delete_location",
            LocationAction::SoftDeleteNotesAt(_) => "delete_notes",
            LocationAction::SoftDeleteGamesAt(_) => "delete_games",
            LocationAction::Commit => "commit",
        };
        log.push(name);
        let ev = if failing == Some(log.len() - 1) {
            LocationEvent::Failed(DbError::Db(sqlx::Error::PoolTimedOut))
        } else {
            work.respond_location(&action, now)
        };
        if let LocationEvent::Committed = ev {
            committed = true;
        }
        assert!(txn.accepts(&ev));
        let (t, a) = txn.advance(ev);
        txn = t;
        action = a;
    }
}

fn sample_db() -> FakeDb {
    FakeDb {
        locations: vec![location(1), location(2)],
        games: vec![
            game(1, 1, None, None),
            game(2, 1, None, Some(at(10, 0))),
            game(3, 1, Some(at(9, 0)), None),
            game(4, 2, None, None),
        ],
        notes: vec![note(1, 1), note(2, 2), note(3, 4), note(4, 1)],
        reservations: vec![],
    }
}

#[test]
fn reserving_sets_the_reservation() {
    let mut db = sample_db();
    let (r, log) = run(Game::reserve_by_id(1), &mut db, at(11, 0));
    let g = r.unwrap();
    assert_eq!(g.reserved_at, Some(at(11, 0)));
    assert_eq!(db.games[0].reserved_at, Some(at(11, 0)));
    assert_eq!(log, vec!["begin", "lock", "reserve", "commit"]);
}

#[test]
fn reserving_is_idempotent() {
    let mut db = sample_db();
    run(Game::reserve_by_id(1), &mut db, at(11, 0)).0.unwrap();
    let before = db.copy();
    let (r, log) = run(Game::reserve_by_id(1), &mut db, at(11, 30));
    assert_eq!(r.unwrap().reserved_at, Some(at(11, 0)));
    assert!(db.same_as(&before));
    assert_eq!(log, vec!["begin", "lock", "commit"]);
}

#[test]
fn reserving_a_disabled_game_is_refused() {
    let mut db = sample_db();
    let before = db.copy();
    let (r, log) = run(Game::reserve_by_id(3), &mut db, at(11, 0));
    assert!(matches!(r, Err(DbError::Disabled)));
    assert!(db.same_as(&before));
    assert_eq!(log, vec!["begin", "lock"]);
    let answer = post_reserve_game_by_id(r);
    assert_eq!(answer, Err(ApiError::Conflict("Game is disabled".to_string())));
    assert_eq!(
        ApiError::Conflict("Game is disabled".to_string()).into_response(),
        (409, "Game is disabled".to_string())
    );
}

#[test]
fn a_missing_game_is_not_found() {
    let mut db = sample_db();
    let before = db.copy();
    let (r, _) = run(Game::reserve_by_id(99), &mut db, at(11, 0));
    assert!(matches!(r, Err(DbError::NotFound)));
    assert!(db.same_as(&before));
    assert_eq!(post_reserve_game_by_id(r), Err(ApiError::NotFound("Game not found".to_string())));
}

#[test]
fn disabling_a_reserved_game_releases_it() {
    let mut db = sample_db();
    let (r, log) = run(Game::disable_by_id(2), &mut db, at(12, 0));
    let g = r.unwrap();
    assert_eq!(g.disabled_at, Some(at(12, 0)));
    assert_eq!(g.reserved_at, None);
    assert_eq!(db.reservations, vec![(2, at(10, 0), at(12, 0))]);
    assert_eq!(log, vec!["begin", "lock", "record", "disable", "commit"]);
    let answer = post_disable_game_by_id(Ok(g)).unwrap();
    assert_eq!(answer.id, 2);
    assert_eq!(answer.name, "Game 2");
}

#[test]
fn disabling_is_idempotent() {
    let mut db = sample_db();
    let before = db.copy();
    let (r, log) = run(Game::disable_by_id(3), &mut db, at(12, 0));
    assert_eq!(r.unwrap().disabled_at, Some(at(9, 0)));
    assert!(db.same_as(&before));
    assert_eq!(log, vec!["begin", "lock", "commit"]);
}

#[test]
fn enabling_clears_the_disable_once() {
    let mut db = sample_db();
    let (r, log) = run(Game::enable_by_id(3), &mut db, at(12, 0));
    assert_eq!(r.unwrap().disabled_at, None);
    assert_eq!(log, vec!["begin", "lock", "enable", "commit"]);
    let before = db.copy();
    let (r, log) = run(Game::enable_by_id(3), &mut db, at(12, 5));
    assert_eq!(r.unwrap().disabled_at, None);
    assert!(db.same_as(&before));
    assert_eq!(log, vec!["begin", "lock", "commit"]);
}

#[test]
fn releasing_twice_records_once() {
    let mut db = sample_db();
    let (r, log) = run(Game::release_reservation_by_id(2), &mut db, at(10, 45));
    assert_eq!(r.unwrap().reserved_at, None);
    assert_eq!(log, vec!["begin", "lock", "record", "release", "commit"]);
    let (r, log) = run(Game::release_reservation_by_id(2), &mut db, at(10, 50));
    assert_eq!(r.unwrap().reserved_at, None);
    assert_eq!(log, vec!["begin", "lock", "commit"]);
    assert_eq!(db.reservations, vec![(2, at(10, 0), at(10, 45))]);
}

#[test]
fn random_reservation_takes_an_available_game() {
    let mut db = sample_db();
    let (r, log) = run(Game::reserve_random_by_location_id(1), &mut db, at(13, 0));
    let g = r.unwrap();
    assert_eq!(g.id, 1);
    assert_eq!(g.reserved_at, Some(at(13, 0)));
    assert_eq!(log, vec!["begin", "lock_random", "reserve", "commit"]);
    // Game 2 is reserved and game 3 disabled: nothing is left at location 1.
    let before = db.copy();
    let (r, _) = run(Game::reserve_random_by_location_id(1), &mut db, at(13, 5));
    assert!(matches!(r, Err(DbError::NotFound)));
    assert!(db.same_as(&before));
    assert_eq!(
        post_reserve_random_game_at_location(r),
        Err(ApiError::Conflict("No available games at this location".to_string()))
    );
}

#[test]
fn deleting_a_game_hides_it_and_its_notes() {
    let mut db = sample_db();
    let (r, log) = run(Game::delete_by_id(1), &mut db, at(14, 0));
    assert_eq!(r.unwrap().deleted_at, Some(at(14, 0)));
    assert_eq!(log, vec!["begin", "delete_game", "delete_notes", "commit"]);
    assert_eq!(db.notes[0].deleted_at, Some(at(14, 0)));
    assert_eq!(db.notes[3].deleted_at, Some(at(14, 0)));
    assert_eq!(db.notes[1].deleted_at, None);
    let before = db.copy();
    for start in [
        Game::reserve_by_id(1),
        Game::release_reservation_by_id(1),
        Game::enable_by_id(1),
        Game::disable_by_id(1),
        Game::delete_by_id(1),
    ] {
        let (r, _) = run(start, &mut db, at(14, 5));
        assert!(matches!(r, Err(DbError::NotFound)));
        assert!(db.same_as(&before));
    }
}

#[test]
fn deleting_a_location_cascades_to_games_and_notes() {
    let mut db = sample_db();
    let (r, log) = run_location_delete(1, &mut db, at(15, 0));
    let l = r.unwrap();
    assert_eq!(l.id, 1);
    assert_eq!(l.deleted_at, Some(at(15, 0)));
    assert_eq!(log, vec!["begin", "delete_location", "delete_notes", "delete_games", "commit"]);
    for g in &db.games {
        assert_eq!(g.deleted_at.is_some(), g.location_id == 1);
    }
    for n in &db.notes {
        assert_eq!(n.deleted_at.is_some(), n.game_id != 4);
    }
    let before = db.copy();
    let (r, _) = run_location_delete(1, &mut db, at(15, 5));
    assert!(matches!(r, Err(DbError::NotFound)));
    assert!(db.same_as(&before));
}

#[test]
fn a_failure_rolls_back() {
    let (txn, _) = Game::disable_by_id(2);
    assert!(txn.accepts(&TxnEvent::Begun));
    let (txn, a) = txn.advance(TxnEvent::Begun);
    assert!(matches!(a, TxnAction::LockGame(2)));
    let (txn, a) = txn.advance(TxnEvent::Row(game(2, 1, None, Some(at(10, 0)))));
    assert!(matches!(a, TxnAction::RecordReservation { game_id: 2, reserved_at } if reserved_at == at(10, 0)));
    let (txn, a) = txn.advance(TxnEvent::Failed(DbError::Db(sqlx::Error::PoolTimedOut)));
    assert!(matches!(a, TxnAction::Finish(Err(DbError::Db(_)))));
    assert!(!txn.accepts(&TxnEvent::Committed));
}

#[test]
fn a_cleanup_pass_releases_overdue_reservations() {
    let mut db = sample_db();
    db.games[0].reserved_at = Some(at(8, 0));
    db.games[3].reserved_at = Some(at(11, 0));
    let now = at(12, 0);
    let (mut task, mut action) = Cleanup::start();
    let mut released = Vec::new();
    loop {
        let event = match action {
            CleanupAction::Sleep(_) if !released.is_empty() => break,
            CleanupAction::Sleep(_) => CleanupEvent::Woke,
            CleanupAction::FindReservedLongerThan(minutes) => {
                assert_eq!(minutes, RESERVATION_TIMEOUT_MINUTES);
                let mut overdue: Vec<Game> = db
                    .games
                    .iter()
                    .filter(|g| {
                        g.deleted_at.is_none()
                            && g.reserved_at.map_or(false, |r| (now - r).num_minutes() > minutes as i64)
                    })
                    .map(copy_game)
                    .collect();
                overdue.sort_by_key(|g| g.reserved_at);
                CleanupEvent::Found(overdue)
            }
            CleanupAction::Release(id) => {
                released.push(id);
                CleanupEvent::Released(run(Game::release_reservation_by_id(id), &mut db, now).0)
            }
        };
        assert!(task.accepts(&event));
        let (t, a) = task.advance(event);
        task = t;
        action = a;
    }
    // Game 1 (reserved at 8:00) and game 2 (at 10:00) were overdue; game 4
    // (at 11:00) was not.
    assert_eq!(released, vec![1, 2]);
    assert_eq!(db.games[0].reserved_at, None);
    assert_eq!(db.games[1].reserved_at, None);
    assert_eq!(db.games[3].reserved_at, Some(at(11, 0)));
    assert_eq!(db.reservations, vec![(1, at(8, 0), now), (2, at(10, 0), now)]);
}

#[test]
fn disabling_fails_as_a_whole() {
    for failing in 0..5 {
        let mut db = sample_db();
        let before = db.copy();
        let (r, log) = run_failing(Game::disable_by_id(2), &mut db, at(12, 0), Some(failing));
        assert!(matches!(r, Err(DbError::Db(sqlx::Error::PoolTimedOut))));
        assert_eq!(log.len(), failing + 1);
        assert!(db.same_as(&before));
    }
}

#[test]
fn deleting_a_location_fails_as_a_whole() {
    for failing in 0..5 {
        let mut db = sample_db();
        let before = db.copy();
        let (r, log) = run_location_delete_failing(1, &mut db, at(15, 0), Some(failing));
        assert!(matches!(r, Err(DbError::Db(sqlx::Error::PoolTimedOut))));
        assert_eq!(log.len(), failing + 1);
        assert!(db.same_as(&before));
    }
}

#[test]
fn a_fresh_reservation_reports_no_minutes() {
    let mut db = sample_db();
    let (r, _) = run(Game::reserve_by_id(1), &mut db, at(11, 0));
    assert_eq!(r.unwrap().reserved_minutes, 0);
}

#[test]
fn a_deleted_game_stays_unread() {
    let mut db = sample_db();
    run(Game::delete_by_id(1), &mut db, at(14, 0)).0.unwrap();
    for start in [
        Game::enable_by_id(1),
        Game::reserve_by_id(1),
        Game::reserve_random_by_location_id(1),
        Game::release_reservation_by_id(1),
        Game::disable_by_id(1),
    ] {
        let _ = run(start, &mut db, at(14, 10));
    }
    run_location_delete(2, &mut db, at(14, 20)).0.unwrap();
    assert!(db.games[0].deleted_at.is_some());
    let (txn, action) = Game::find_by_id(1);
    let ev = match action {
        ReadAction::FetchGame(id) => match db.live_game(id) {
            Some(g) => ReadEvent::Game(copy_game(g)),
            None => ReadEvent::Failed(DbError::NotFound),
        },
        _ => panic!("a read of one game starts with the game"),
    };
    let (_, a) = txn.advance(ev);
    assert!(matches!(a, ReadAction::FinishGame(Err(DbError::NotFound))));
}
