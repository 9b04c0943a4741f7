//! What the database does with the statements of the application, and
//! what a whole transaction comes to.
//!
//! The tables are maps from ids to rows; `now` is the time of the
//! transaction and `elapsed(from, to)` the whole minutes the database
//! reports between two times. The statements are described as they are
//! written in the application's SQL; nothing here is checked against a
//! running database.
use chrono::NaiveDateTime;
use vstd::prelude::*;

use crate::db::{DbError, Game, Location, Note};
use crate::reads::{ReadAction, ReadEvent};
use crate::txn::{
    GameOp, GameTxn, LocationAction, LocationEvent, LocationStage, LocationTxn, TxnAction, TxnEvent,
};

verus! {

/// A game row as stored.
pub struct GameRow {
    pub id: i64,
    pub location_id: i64,
    pub name: String,
    pub abbreviation: String,
    pub disabled_at: Option<NaiveDateTime>,
    pub reserved_at: Option<NaiveDateTime>,
    pub deleted_at: Option<NaiveDateTime>,
    pub created_at: NaiveDateTime,
}

/// A finished reservation, kept for the statistics.
pub struct ReservationRow {
    pub game_id: i64,
    pub reserved_at: NaiveDateTime,
    pub released_at: NaiveDateTime,
}

/// The tables of the database.
pub struct Database {
    pub locations: Map<i64, Location>,
    pub games: Map<i64, GameRow>,
    pub notes: Map<i64, Note>,
    pub reservations: Seq<ReservationRow>,
}

/// Minutes reported between two times.
pub type Elapsed = spec_fn(NaiveDateTime, NaiveDateTime) -> i32;

/// Which statements of a run the driver fails, by their number in the run.
pub type Failures = spec_fn(nat) -> Option<DbError>;

/// No time passes between a time and itself.
pub open spec fn starts_at_zero(elapsed: Elapsed) -> bool {
    forall|t: NaiveDateTime| #[trigger] elapsed(t, t) == 0
}

/// A driver that fails no statement.
pub open spec fn reliably() -> Failures {
    |i: nat| None::<DbError>
}

/// The driver fails no statement.
pub open spec fn never_fails(fail: Failures) -> bool {
    forall|i: nat| #[trigger] fail(i) is None
}

impl Database {
    /// Every row is stored under its own id.
    pub open spec fn wf(self) -> bool {
        &&& forall|k: i64| #[trigger] self.locations.contains_key(k) ==> self.locations[k].id == k
        &&& forall|k: i64| #[trigger] self.games.contains_key(k) ==> self.games[k].id == k
        &&& forall|k: i64| #[trigger] self.notes.contains_key(k) ==> self.notes[k].id == k
    }

    pub open spec fn live_location(self, id: i64) -> bool {
        self.locations.contains_key(id) && self.locations[id].deleted_at is None
    }

    pub open spec fn live_game(self, id: i64) -> bool {
        self.games.contains_key(id) && self.games[id].deleted_at is None
    }

    pub open spec fn live_note(self, id: i64) -> bool {
        self.notes.contains_key(id) && self.notes[id].deleted_at is None
    }

    /// A live, enabled, unreserved game at the location.
    pub open spec fn available(self, location_id: i64, id: i64) -> bool {
        &&& self.live_game(id)
        &&& self.games[id].location_id == location_id
        &&& self.games[id].disabled_at is None
        &&& self.games[id].reserved_at is None
    }

    /// Every live game stands at a live location.
    pub open spec fn games_follow_locations(self) -> bool {
        forall|g: i64| #[trigger] self.live_game(g) ==> self.live_location(self.games[g].location_id)
    }

    /// Every live note belongs to a live game.
    pub open spec fn notes_follow_games(self) -> bool {
        forall|n: i64| #[trigger] self.live_note(n) ==> self.live_game(self.notes[n].game_id)
    }

    pub open spec fn with_game(self, row: GameRow) -> Database {
        Database { games: self.games.insert(row.id, row), ..self }
    }

    pub open spec fn with_reservation(self, game_id: i64, reserved_at: NaiveDateTime, now: NaiveDateTime) -> Database {
        Database {
            reservations: self.reservations.push(
                ReservationRow { game_id, reserved_at, released_at: now },
            ),
            ..self
        }
    }

    /// Soft-deletes the live notes that `doomed` selects.
    pub open spec fn without_notes(self, doomed: spec_fn(Note) -> bool, now: NaiveDateTime) -> Database {
        Database {
            notes: Map::new(
                |k: i64| self.notes.contains_key(k),
                |k: i64|
                    if self.notes[k].deleted_at is None && doomed(self.notes[k]) {
                        Note { deleted_at: Some(now), ..self.notes[k] }
                    } else {
                        self.notes[k]
                    },
            ),
            ..self
        }
    }

    /// Soft-deletes the live games at the location.
    pub open spec fn without_games_at(self, location_id: i64, now: NaiveDateTime) -> Database {
        Database {
            games: Map::new(
                |k: i64| self.games.contains_key(k),
                |k: i64|
                    if self.games[k].deleted_at is None && self.games[k].location_id == location_id {
                        GameRow { deleted_at: Some(now), ..self.games[k] }
                    } else {
                        self.games[k]
                    },
            ),
            ..self
        }
    }
}

/// Selects the notes of the game.
pub open spec fn of_game(id: i64) -> spec_fn(Note) -> bool {
    |n: Note| n.game_id == id
}

/// Selects the notes whose game is live and stands at the location.
pub open spec fn of_live_game_at(db: Database, location_id: i64) -> spec_fn(Note) -> bool {
    |n: Note| db.live_game(n.game_id) && db.games[n.game_id].location_id == location_id
}

/// The game as a statement returns it.
pub open spec fn report(row: GameRow, now: NaiveDateTime, elapsed: Elapsed) -> Game {
    Game {
        id: row.id,
        location_id: row.location_id,
        name: row.name,
        abbreviation: row.abbreviation,
        disabled_at: row.disabled_at,
        reserved_at: row.reserved_at,
        deleted_at: row.deleted_at,
        created_at: row.created_at,
        reserved_minutes: match row.reserved_at {
            None => 0,
            Some(at) => elapsed(at, now),
        },
    }
}

/// The game the random choice lands on: `pick` when it is available,
/// some available game otherwise.
pub open spec fn random_choice(db: Database, location_id: i64, pick: i64) -> i64 {
    if db.available(location_id, pick) {
        pick
    } else {
        choose|k: i64| db.available(location_id, k)
    }
}

/// An update of the game `id` that returns the updated row.
pub open spec fn update_game(db: Database, id: i64, row: GameRow, now: NaiveDateTime, elapsed: Elapsed) -> (Database, TxnEvent) {
    if db.games.contains_key(id) {
        (db.with_game(row), TxnEvent::Row(report(row, now, elapsed)))
    } else {
        (db, TxnEvent::Failed(DbError::NotFound))
    }
}

/// What the database does with one statement of a game transaction that
/// succeeds.
pub open spec fn execute(db: Database, action: TxnAction, now: NaiveDateTime, elapsed: Elapsed, pick: i64) -> (Database, TxnEvent) {
    match action {
        TxnAction::Begin => (db, TxnEvent::Begun),
        TxnAction::LockGame(id) => if db.live_game(id) {
            (db, TxnEvent::Row(report(db.games[id], now, elapsed)))
        } else {
            (db, TxnEvent::Failed(DbError::NotFound))
        },
        TxnAction::LockRandomAt(location_id) => if exists|k: i64| db.available(location_id, k) {
            (db, TxnEvent::Row(report(db.games[random_choice(db, location_id, pick)], now, elapsed)))
        } else {
            (db, TxnEvent::Failed(DbError::NotFound))
        },
        TxnAction::SoftDeleteGame(id) => if db.live_game(id) {
            update_game(db, id, GameRow { deleted_at: Some(now), ..db.games[id] }, now, elapsed)
        } else {
            (db, TxnEvent::Failed(DbError::NotFound))
        },
        TxnAction::RecordReservation { game_id, reserved_at } => (
            db.with_reservation(game_id, reserved_at, now),
            TxnEvent::Executed,
        ),
        TxnAction::SetDisabled(id) => update_game(
            db,
            id,
            GameRow { disabled_at: Some(now), reserved_at: None, ..db.games[id] },
            now,
            elapsed,
        ),
        TxnAction::ClearDisabled(id) => update_game(
            db,
            id,
            GameRow { disabled_at: None, ..db.games[id] },
            now,
            elapsed,
        ),
        TxnAction::SetReserved(id) => update_game(
            db,
            id,
            GameRow { reserved_at: Some(now), ..db.games[id] },
            now,
            elapsed,
        ),
        TxnAction::ClearReserved(id) => update_game(
            db,
            id,
            GameRow { reserved_at: None, ..db.games[id] },
            now,
            elapsed,
        ),
        TxnAction::SoftDeleteNotesOf(id) => (
            db.without_notes(of_game(id), now),
            TxnEvent::Executed,
        ),
        TxnAction::Commit => (db, TxnEvent::Committed),
        TxnAction::Finish(_) => (db, TxnEvent::Committed),
    }
}

/// What the database does with one statement of a game transaction: when
/// the driver reports `failure`, the statement has no effect and the
/// failure is the answer, a failed commit included.
pub open spec fn respond(
    db: Database,
    action: TxnAction,
    now: NaiveDateTime,
    elapsed: Elapsed,
    pick: i64,
    failure: Option<DbError>,
) -> (Database, TxnEvent) {
    match failure {
        Some(e) => (db, TxnEvent::Failed(e)),
        None => execute(db, action, now, elapsed, pick),
    }
}

/// Runs a game transaction from the answer `ev` on, against the working
/// state `work`; says whether it committed. The statement numbered `step`
/// fails when `fail(step)` holds a failure.
pub open spec fn drive(
    txn: GameTxn,
    ev: TxnEvent,
    work: Database,
    committed: bool,
    now: NaiveDateTime,
    elapsed: Elapsed,
    pick: i64,
    fail: Failures,
    step: nat,
    fuel: nat,
) -> (Database, bool, Result<Game, DbError>)
    decreases fuel,
{
    let (t, a) = txn.next(ev);
    match a {
        TxnAction::Finish(r) => (work, committed, r),
        _ => if fuel == 0 {
            (work, committed, Err(DbError::NotFound))
        } else {
            let (w, e) = respond(work, a, now, elapsed, pick, fail(step));
            drive(t, e, w, committed || e is Committed, now, elapsed, pick, fail, step + 1, (fuel - 1) as nat)
        },
    }
}

/// The database after the game transaction `op` on `id`, and its result;
/// statement `i`, the `Begin` being statement 0, fails when `fail(i)` holds
/// a failure. A transaction whose commit did not succeed leaves the
/// database as it was.
pub open spec fn run_game_txn(
    op: GameOp,
    id: i64,
    db: Database,
    now: NaiveDateTime,
    elapsed: Elapsed,
    pick: i64,
    fail: Failures,
) -> (Database, Result<Game, DbError>) {
    let (w0, e0) = respond(db, TxnAction::Begin, now, elapsed, pick, fail(0));
    let (w, c, r) = drive(GameTxn::started(op, id), e0, w0, false, now, elapsed, pick, fail, 1, 8);
    (if c { w } else { db }, r)
}

/// What the database does with one statement of a location deletion that
/// succeeds.
pub open spec fn execute_location(db: Database, action: LocationAction, now: NaiveDateTime) -> (Database, LocationEvent) {
    match action {
        LocationAction::Begin => (db, LocationEvent::Begun),
        LocationAction::SoftDeleteLocation(id) => if db.live_location(id) {
            let l = Location { deleted_at: Some(now), ..db.locations[id] };
            (Database { locations: db.locations.insert(id, l), ..db }, LocationEvent::Row(l))
        } else {
            (db, LocationEvent::Failed(DbError::NotFound))
        },
        LocationAction::SoftDeleteNotesAt(id) => (
            db.without_notes(of_live_game_at(db, id), now),
            LocationEvent::Executed,
        ),
        LocationAction::SoftDeleteGamesAt(id) => (db.without_games_at(id, now), LocationEvent::Executed),
        LocationAction::Commit => (db, LocationEvent::Committed),
        LocationAction::Finish(_) => (db, LocationEvent::Committed),
    }
}

/// What the database does with one statement of a location deletion: a
/// reported failure has no effect and is the answer.
pub open spec fn respond_location(db: Database, action: LocationAction, now: NaiveDateTime, failure: Option<DbError>) -> (Database, LocationEvent) {
    match failure {
        Some(e) => (db, LocationEvent::Failed(e)),
        None => execute_location(db, action, now),
    }
}

/// Runs a location deletion from the answer `ev` on.
pub open spec fn drive_location(
    txn: LocationTxn,
    ev: LocationEvent,
    work: Database,
    committed: bool,
    now: NaiveDateTime,
    fail: Failures,
    step: nat,
    fuel: nat,
) -> (Database, bool, Result<Location, DbError>)
    decreases fuel,
{
    let (t, a) = txn.next(ev);
    match a {
        LocationAction::Finish(r) => (work, committed, r),
        _ => if fuel == 0 {
            (work, committed, Err(DbError::NotFound))
        } else {
            let (w, e) = respond_location(work, a, now, fail(step));
            drive_location(t, e, w, committed || e is Committed, now, fail, step + 1, (fuel - 1) as nat)
        },
    }
}

/// The database after deleting the location `id`, and the result; statement
/// `i`, the `Begin` being statement 0, fails when `fail(i)` holds a failure.
pub open spec fn run_location_delete(id: i64, db: Database, now: NaiveDateTime, fail: Failures) -> (Database, Result<Location, DbError>) {
    let txn = LocationTxn { id, stage: LocationStage::Beginning };
    let (w0, e0) = respond_location(db, LocationAction::Begin, now, fail(0));
    let (w, c, r) = drive_location(txn, e0, w0, false, now, fail, 1, 8);
    (if c { w } else { db }, r)
}

/// `games` are, in some order and each once, the live games at the location
/// as the query returns them; none when the location is not live.
pub open spec fn lists_live_games_at(db: Database, location_id: i64, games: Seq<Game>, now: NaiveDateTime, elapsed: Elapsed) -> bool {
    &&& forall|i: int|
        0 <= i < games.len() ==> {
            &&& db.live_location(location_id)
            &&& db.live_game(#[trigger] games[i].id)
            &&& db.games[games[i].id].location_id == location_id
            &&& games[i] == report(db.games[games[i].id], now, elapsed)
        }
    &&& forall|i: int, j: int| 0 <= i < j < games.len() ==> #[trigger] games[i].id != #[trigger] games[j].id
    &&& db.live_location(location_id) ==> forall|k: i64|
        #[trigger] db.live_game(k) && db.games[k].location_id == location_id ==> exists|i: int|
            0 <= i < games.len() && #[trigger] games[i].id == k
}

/// The games come grouped by abbreviation, and those with the same
/// abbreviation by ascending id, as `ORDER BY abbreviation, id` gives them.
/// Which abbreviation comes first is the database's collation, which is
/// not written down here.
pub open spec fn ordered_by_abbreviation(games: Seq<Game>) -> bool {
    &&& forall|i: int, j: int|
        0 <= i < j < games.len() && #[trigger] games[i].abbreviation@ == #[trigger] games[j].abbreviation@
            ==> games[i].id < games[j].id
    &&& forall|i: int, j: int, k: int|
        0 <= i < j < k < games.len() && #[trigger] games[i].abbreviation@ == #[trigger] games[k].abbreviation@
            ==> #[trigger] games[j].abbreviation@ == games[i].abbreviation@
}

/// No note comes twice.
pub open spec fn distinct_notes(notes: Seq<Note>) -> bool {
    forall|i: int, j: int| 0 <= i < j < notes.len() ==> #[trigger] notes[i].id != #[trigger] notes[j].id
}

/// `notes` are the live notes of the games `ids`, each once; their order,
/// by creation time, is left to the database.
pub open spec fn lists_live_notes_of(db: Database, ids: Seq<i64>, notes: Seq<Note>) -> bool {
    &&& distinct_notes(notes)
    &&& forall|n: Note|
        #[trigger] notes.contains(n) <==> exists|k: i64|
            #[trigger] db.live_note(k) && db.notes[k] == n && ids.contains(n.game_id)
}

/// The answer the database gives to a query of a read when the driver does
/// not fail, as the application's SQL selects the rows. Games come grouped
/// by abbreviation and by id within one; the collation that orders
/// abbreviations, and the creation times that order notes, are the
/// database's and are left open.
pub open spec fn read_answer(db: Database, action: ReadAction, now: NaiveDateTime, elapsed: Elapsed, ev: ReadEvent) -> bool {
    match action {
        ReadAction::FetchGame(id) => if db.live_game(id) {
            ev == ReadEvent::Game(report(db.games[id], now, elapsed))
        } else {
            ev == ReadEvent::Failed(DbError::NotFound)
        },
        ReadAction::FetchGamesAt(location_id) => ev matches ReadEvent::Games(gs) && lists_live_games_at(
            db,
            location_id,
            gs@,
            now,
            elapsed,
        ) && ordered_by_abbreviation(gs@),
        ReadAction::CheckLocation(id) => if db.live_location(id) {
            ev is LocationFound
        } else {
            ev == ReadEvent::Failed(DbError::NotFound)
        },
        ReadAction::FetchNotesOf(ids) => ev matches ReadEvent::Notes(ns) && lists_live_notes_of(db, ids@, ns@),
        _ => false,
    }
}

/// Adding a location stores it under the fresh id `new_id`.
pub open spec fn add_location_outcome(db: Database, name: String, new_id: i64, now: NaiveDateTime) -> (Database, Location) {
    let l = Location { id: new_id, name, deleted_at: None, created_at: now };
    (Database { locations: db.locations.insert(new_id, l), ..db }, l)
}

/// Adding a game: stored under the fresh id `new_id` when the location is
/// live; otherwise the statement inserts nothing and finds no row.
pub open spec fn add_game_outcome(
    db: Database,
    location_id: i64,
    name: String,
    abbreviation: String,
    new_id: i64,
    now: NaiveDateTime,
    elapsed: Elapsed,
) -> (Database, Result<Game, DbError>) {
    if db.live_location(location_id) {
        let row = GameRow {
            id: new_id,
            location_id,
            name,
            abbreviation,
            disabled_at: None,
            reserved_at: None,
            deleted_at: None,
            created_at: now,
        };
        (db.with_game(row), Ok(report(row, now, elapsed)))
    } else {
        (db, Err(DbError::NotFound))
    }
}

/// Renaming a game: only a live game is renamed.
pub open spec fn update_game_outcome(
    db: Database,
    id: i64,
    name: String,
    abbreviation: String,
    now: NaiveDateTime,
    elapsed: Elapsed,
) -> (Database, Result<Game, DbError>) {
    if db.live_game(id) {
        let row = GameRow { name, abbreviation, ..db.games[id] };
        (db.with_game(row), Ok(report(row, now, elapsed)))
    } else {
        (db, Err(DbError::NotFound))
    }
}

/// Adding a note: stored under the fresh id `new_id` when the game is live.
pub open spec fn add_note_outcome(db: Database, game_id: i64, text: String, new_id: i64, now: NaiveDateTime) -> (Database, Result<Note, DbError>) {
    if db.live_game(game_id) {
        let n = Note { id: new_id, game_id, player_id: None, note: text, deleted_at: None, created_at: now };
        (Database { notes: db.notes.insert(new_id, n), ..db }, Ok(n))
    } else {
        (db, Err(DbError::NotFound))
    }
}

/// Deleting a note through a game: only a live note of that game, the game
/// being live, is soft-deleted.
pub open spec fn delete_note_outcome(db: Database, game_id: i64, id: i64, now: NaiveDateTime) -> (Database, Result<Note, DbError>) {
    if db.live_note(id) && db.notes[id].game_id == game_id && db.live_game(game_id) {
        let n = Note { deleted_at: Some(now), ..db.notes[id] };
        (Database { notes: db.notes.insert(id, n), ..db }, Ok(n))
    } else {
        (db, Err(DbError::NotFound))
    }
}

/// Every game that `before` holds soft-deleted is still held soft-deleted
/// in `after`.
pub open spec fn keeps_deleted(before: Database, after: Database) -> bool {
    forall|g: i64|
        #[trigger] before.games.contains_key(g) && before.games[g].deleted_at is Some ==> after.games.contains_key(g)
            && after.games[g].deleted_at is Some
}

/// One thing the application does to the database.
pub enum Operation {
    GameTransaction { op: GameOp, id: i64, now: NaiveDateTime, elapsed: Elapsed, pick: i64, fail: Failures },
    DeleteLocation { id: i64, now: NaiveDateTime, fail: Failures },
    AddLocation { name: String, new_id: i64, now: NaiveDateTime },
    AddGame { location_id: i64, name: String, abbreviation: String, new_id: i64, now: NaiveDateTime, elapsed: Elapsed },
    UpdateGame { id: i64, name: String, abbreviation: String, now: NaiveDateTime, elapsed: Elapsed },
    AddNote { game_id: i64, text: String, new_id: i64, now: NaiveDateTime },
    DeleteNote { game_id: i64, id: i64, now: NaiveDateTime },
}

/// The database after the operation.
pub open spec fn apply(db: Database, op: Operation) -> Database {
    match op {
        Operation::GameTransaction { op, id, now, elapsed, pick, fail } => run_game_txn(
            op,
            id,
            db,
            now,
            elapsed,
            pick,
            fail,
        ).0,
        Operation::DeleteLocation { id, now, fail } => run_location_delete(id, db, now, fail).0,
        Operation::AddLocation { name, new_id, now } => add_location_outcome(db, name, new_id, now).0,
        Operation::AddGame { location_id, name, abbreviation, new_id, now, elapsed } => add_game_outcome(
            db,
            location_id,
            name,
            abbreviation,
            new_id,
            now,
            elapsed,
        ).0,
        Operation::UpdateGame { id, name, abbreviation, now, elapsed } => update_game_outcome(
            db,
            id,
            name,
            abbreviation,
            now,
            elapsed,
        ).0,
        Operation::AddNote { game_id, text, new_id, now } => add_note_outcome(db, game_id, text, new_id, now).0,
        Operation::DeleteNote { game_id, id, now } => delete_note_outcome(db, game_id, id, now).0,
    }
}

/// The ids that the operation creates are not in use, as the database's
/// sequences hand them out.
pub open spec fn fresh_for(db: Database, op: Operation) -> bool {
    match op {
        Operation::AddLocation { new_id, .. } => !db.locations.contains_key(new_id),
        Operation::AddGame { new_id, .. } => !db.games.contains_key(new_id),
        Operation::AddNote { new_id, .. } => !db.notes.contains_key(new_id),
        _ => true,
    }
}

/// The database after the operations, one after the other.
pub open spec fn apply_all(db: Database, ops: Seq<Operation>) -> Database
    decreases ops.len(),
{
    if ops.len() == 0 {
        db
    } else {
        apply(apply_all(db, ops.drop_last()), ops.last())
    }
}

/// Every operation gets fresh ids for what it creates.
pub open spec fn fresh_throughout(db: Database, ops: Seq<Operation>) -> bool {
    forall|i: int| 0 <= i < ops.len() ==> fresh_for(#[trigger] apply_all(db, ops.take(i)), ops[i])
}

} // verus!
