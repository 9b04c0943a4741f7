//! What each transaction comes to against the database, and the promises
//! of the service that follow from it.
use chrono::NaiveDateTime;
use vstd::prelude::*;

use crate::db::{DbError, Game, Location, Note};
use crate::model::{
    drive, drive_location, of_game, of_live_game_at, random_choice, report, run_game_txn,
    run_location_delete, never_fails, starts_at_zero, add_location_outcome, add_game_outcome,
    update_game_outcome, add_note_outcome, delete_note_outcome, respond, respond_location, Database, Elapsed, Failures, GameRow, ReservationRow,
};
use crate::api::{game_or_db_error, post_reserve_random_answers, ApiError, GameResponse};
use crate::txn::{GameOp, GameTxn, LocationAction, LocationStage, LocationTxn, TxnAction, TxnEvent, LocationEvent};

verus! {

/// Disabling: a missing or deleted game is not found, a disabled one is
/// returned as it is; otherwise a reservation is recorded as released now
/// and dropped, and the game is disabled now.
pub open spec fn disable_outcome(db: Database, id: i64, now: NaiveDateTime, elapsed: Elapsed) -> (Database, Result<Game, DbError>) {
    if !db.live_game(id) {
        (db, Err(DbError::NotFound))
    } else {
        let g = db.games[id];
        if g.disabled_at is Some {
            (db, Ok(report(g, now, elapsed)))
        } else {
            let db1 = if g.reserved_at is Some {
                db.with_reservation(id, g.reserved_at->0, now)
            } else {
                db
            };
            let g2 = GameRow { disabled_at: Some(now), reserved_at: None, ..g };
            (db1.with_game(g2), Ok(report(g2, now, elapsed)))
        }
    }
}

/// Enabling: a missing or deleted game is not found, an enabled one is
/// returned as it is, a disabled one becomes enabled.
pub open spec fn enable_outcome(db: Database, id: i64, now: NaiveDateTime, elapsed: Elapsed) -> (Database, Result<Game, DbError>) {
    if !db.live_game(id) {
        (db, Err(DbError::NotFound))
    } else {
        let g = db.games[id];
        if g.disabled_at is None {
            (db, Ok(report(g, now, elapsed)))
        } else {
            let g2 = GameRow { disabled_at: None, ..g };
            (db.with_game(g2), Ok(report(g2, now, elapsed)))
        }
    }
}

/// Reserving: a missing or deleted game is not found, a disabled one is
/// refused, a reserved one is returned as it is, any other becomes
/// reserved now.
pub open spec fn reserve_outcome(db: Database, id: i64, now: NaiveDateTime, elapsed: Elapsed) -> (Database, Result<Game, DbError>) {
    if !db.live_game(id) {
        (db, Err(DbError::NotFound))
    } else {
        let g = db.games[id];
        if g.disabled_at is Some {
            (db, Err(DbError::Disabled))
        } else if g.reserved_at is Some {
            (db, Ok(report(g, now, elapsed)))
        } else {
            let g2 = GameRow { reserved_at: Some(now), ..g };
            (db.with_game(g2), Ok(report(g2, now, elapsed)))
        }
    }
}

/// Releasing: a missing or deleted game is not found, an unreserved one is
/// returned as it is; a reserved one has its reservation recorded as
/// released now, and dropped.
pub open spec fn release_outcome(db: Database, id: i64, now: NaiveDateTime, elapsed: Elapsed) -> (Database, Result<Game, DbError>) {
    if !db.live_game(id) {
        (db, Err(DbError::NotFound))
    } else {
        let g = db.games[id];
        if g.reserved_at is None {
            (db, Ok(report(g, now, elapsed)))
        } else {
            let g2 = GameRow { reserved_at: None, ..g };
            (db.with_reservation(id, g.reserved_at->0, now).with_game(g2), Ok(report(g2, now, elapsed)))
        }
    }
}

/// Reserving at random: with no available game at the location nothing is
/// found; otherwise the chosen available game becomes reserved now.
pub open spec fn reserve_random_outcome(db: Database, location_id: i64, now: NaiveDateTime, elapsed: Elapsed, pick: i64) -> (Database, Result<Game, DbError>) {
    if exists|k: i64| db.available(location_id, k) {
        let g = db.games[random_choice(db, location_id, pick)];
        let g2 = GameRow { reserved_at: Some(now), ..g };
        (db.with_game(g2), Ok(report(g2, now, elapsed)))
    } else {
        (db, Err(DbError::NotFound))
    }
}

/// Deleting a game: a missing or deleted game is not found; otherwise the
/// game and its live notes are soft-deleted now.
pub open spec fn delete_game_outcome(db: Database, id: i64, now: NaiveDateTime, elapsed: Elapsed) -> (Database, Result<Game, DbError>) {
    if !db.live_game(id) {
        (db, Err(DbError::NotFound))
    } else {
        let g2 = GameRow { deleted_at: Some(now), ..db.games[id] };
        (db.with_game(g2).without_notes(of_game(id), now), Ok(report(g2, now, elapsed)))
    }
}

/// Deleting a location: a missing or deleted location is not found;
/// otherwise the location, the live notes of its live games, and its live
/// games are soft-deleted now.
pub open spec fn delete_location_outcome(db: Database, id: i64, now: NaiveDateTime) -> (Database, Result<Location, DbError>) {
    if !db.live_location(id) {
        (db, Err(DbError::NotFound))
    } else {
        let l = Location { deleted_at: Some(now), ..db.locations[id] };
        let db1 = Database { locations: db.locations.insert(id, l), ..db };
        (db1.without_notes(of_live_game_at(db1, id), now).without_games_at(id, now), Ok(l))
    }
}

/// What the game transaction `op` comes to.
pub open spec fn game_txn_outcome(op: GameOp, id: i64, db: Database, now: NaiveDateTime, elapsed: Elapsed, pick: i64) -> (Database, Result<Game, DbError>) {
    match op {
        GameOp::Disable => disable_outcome(db, id, now, elapsed),
        GameOp::Enable => enable_outcome(db, id, now, elapsed),
        GameOp::Reserve => reserve_outcome(db, id, now, elapsed),
        GameOp::Release => release_outcome(db, id, now, elapsed),
        GameOp::ReserveRandom => reserve_random_outcome(db, id, now, elapsed, pick),
        GameOp::Delete => delete_game_outcome(db, id, now, elapsed),
    }
}

#[verifier::spinoff_prover]
proof fn lemma_disable(id: i64, db: Database, now: NaiveDateTime, elapsed: Elapsed, pick: i64, fail: Failures)
    requires
        db.wf(),
        never_fails(fail),
    ensures
        run_game_txn(GameOp::Disable, id, db, now, elapsed, pick, fail) == disable_outcome(db, id, now, elapsed),
{
    reveal_with_fuel(drive, 8);
}

#[verifier::spinoff_prover]
proof fn lemma_enable(id: i64, db: Database, now: NaiveDateTime, elapsed: Elapsed, pick: i64, fail: Failures)
    requires
        db.wf(),
        never_fails(fail),
    ensures
        run_game_txn(GameOp::Enable, id, db, now, elapsed, pick, fail) == enable_outcome(db, id, now, elapsed),
{
    reveal_with_fuel(drive, 8);
}

#[verifier::spinoff_prover]
proof fn lemma_reserve(id: i64, db: Database, now: NaiveDateTime, elapsed: Elapsed, pick: i64, fail: Failures)
    requires
        db.wf(),
        never_fails(fail),
    ensures
        run_game_txn(GameOp::Reserve, id, db, now, elapsed, pick, fail) == reserve_outcome(db, id, now, elapsed),
{
    reveal_with_fuel(drive, 8);
}

#[verifier::spinoff_prover]
proof fn lemma_release(id: i64, db: Database, now: NaiveDateTime, elapsed: Elapsed, pick: i64, fail: Failures)
    requires
        db.wf(),
        never_fails(fail),
    ensures
        run_game_txn(GameOp::Release, id, db, now, elapsed, pick, fail) == release_outcome(db, id, now, elapsed),
{
    reveal_with_fuel(drive, 8);
}

#[verifier::spinoff_prover]
proof fn lemma_reserve_random(id: i64, db: Database, now: NaiveDateTime, elapsed: Elapsed, pick: i64, fail: Failures)
    requires
        db.wf(),
        never_fails(fail),
    ensures
        run_game_txn(GameOp::ReserveRandom, id, db, now, elapsed, pick, fail) == reserve_random_outcome(db, id, now, elapsed, pick),
{
    reveal_with_fuel(drive, 8);
    if exists|k: i64| db.available(id, k) {
        let k = random_choice(db, id, pick);
        assert(db.available(id, k));
    }
}

#[verifier::spinoff_prover]
proof fn lemma_delete_game(id: i64, db: Database, now: NaiveDateTime, elapsed: Elapsed, pick: i64, fail: Failures)
    requires
        db.wf(),
        never_fails(fail),
    ensures
        run_game_txn(GameOp::Delete, id, db, now, elapsed, pick, fail) == delete_game_outcome(db, id, now, elapsed),
{
    reveal_with_fuel(drive, 8);
}

/// Each game transaction, run statement by statement against the
/// database, does exactly what its outcome above says.
pub proof fn game_txn_does_its_outcome(op: GameOp, id: i64, db: Database, now: NaiveDateTime, elapsed: Elapsed, pick: i64, fail: Failures)
    requires
        db.wf(),
        never_fails(fail),
    ensures
        run_game_txn(op, id, db, now, elapsed, pick, fail) == game_txn_outcome(op, id, db, now, elapsed, pick),
{
    match op {
        GameOp::Disable => lemma_disable(id, db, now, elapsed, pick, fail),
        GameOp::Enable => lemma_enable(id, db, now, elapsed, pick, fail),
        GameOp::Reserve => lemma_reserve(id, db, now, elapsed, pick, fail),
        GameOp::Release => lemma_release(id, db, now, elapsed, pick, fail),
        GameOp::ReserveRandom => lemma_reserve_random(id, db, now, elapsed, pick, fail),
        GameOp::Delete => lemma_delete_game(id, db, now, elapsed, pick, fail),
    }
}

/// Deleting a location, run statement by statement against the database,
/// does exactly what its outcome above says.
#[verifier::spinoff_prover]
pub proof fn location_delete_does_its_outcome(id: i64, db: Database, now: NaiveDateTime, fail: Failures)
    requires
        db.wf(),
        never_fails(fail),
    ensures
        run_location_delete(id, db, now, fail) == delete_location_outcome(db, id, now),
{
    reveal_with_fuel(drive_location, 8);
}

/// With a driver that fails nothing, a game transaction that is refused or
/// finds nothing changes nothing, and every run leaves every row under its
/// own id.
pub proof fn failed_txn_changes_nothing(op: GameOp, id: i64, db: Database, now: NaiveDateTime, elapsed: Elapsed, pick: i64, fail: Failures)
    requires
        db.wf(),
        never_fails(fail),
    ensures
        run_game_txn(op, id, db, now, elapsed, pick, fail).1 is Err ==> run_game_txn(op, id, db, now, elapsed, pick, fail).0 == db,
        run_game_txn(op, id, db, now, elapsed, pick, fail).0.wf(),
{
    game_txn_does_its_outcome(op, id, db, now, elapsed, pick, fail);
    let db1 = run_game_txn(op, id, db, now, elapsed, pick, fail).0;
    if op is ReserveRandom && exists|k: i64| db.available(id, k) {
        let k = random_choice(db, id, pick);
        assert(db.available(id, k));
    }
    assert(forall|k: i64| #[trigger] db1.notes.contains_key(k) ==> db.notes.contains_key(k));
}

/// Reserve, release, enable and disable are idempotent: once one has
/// succeeded, repeating it at any later time succeeds with the game as it
/// stands and changes nothing.
pub proof fn repeating_is_a_no_op(
    op: GameOp,
    id: i64,
    db: Database,
    now1: NaiveDateTime,
    elapsed1: Elapsed,
    pick1: i64,
    now2: NaiveDateTime,
    elapsed2: Elapsed,
    pick2: i64,
    fail: Failures,
)
    requires
        db.wf(),
        never_fails(fail),
        op is Disable || op is Enable || op is Reserve || op is Release,
        run_game_txn(op, id, db, now1, elapsed1, pick1, fail).1 is Ok,
    ensures
        ({
            let db1 = run_game_txn(op, id, db, now1, elapsed1, pick1, fail).0;
            run_game_txn(op, id, db1, now2, elapsed2, pick2, fail) == (db1, Ok::<Game, DbError>(report(db1.games[id], now2, elapsed2)))
        }),
{
    failed_txn_changes_nothing(op, id, db, now1, elapsed1, pick1, fail);
    game_txn_does_its_outcome(op, id, db, now1, elapsed1, pick1, fail);
    let db1 = run_game_txn(op, id, db, now1, elapsed1, pick1, fail).0;
    game_txn_does_its_outcome(op, id, db1, now2, elapsed2, pick2, fail);
}

/// Reserving a disabled game is refused and changes nothing.
pub proof fn disabled_game_cannot_be_reserved(id: i64, db: Database, now: NaiveDateTime, elapsed: Elapsed, pick: i64, fail: Failures)
    requires
        db.wf(),
        never_fails(fail),
        db.live_game(id),
        db.games[id].disabled_at is Some,
    ensures
        run_game_txn(GameOp::Reserve, id, db, now, elapsed, pick, fail) == (db, Err::<Game, DbError>(DbError::Disabled)),
{
    game_txn_does_its_outcome(GameOp::Reserve, id, db, now, elapsed, pick, fail);
}

/// Disabling a reserved game releases its reservation in the same
/// transaction: the reservation is recorded as released now, and the game
/// ends disabled and unreserved.
pub proof fn disabling_releases_the_reservation(id: i64, db: Database, now: NaiveDateTime, elapsed: Elapsed, pick: i64, fail: Failures)
    requires
        db.wf(),
        never_fails(fail),
        db.live_game(id),
        db.games[id].disabled_at is None,
        db.games[id].reserved_at is Some,
    ensures
        ({
            let (db1, r) = run_game_txn(GameOp::Disable, id, db, now, elapsed, pick, fail);
            &&& r is Ok
            &&& db1.reservations == db.reservations.push(
                ReservationRow { game_id: id, reserved_at: db.games[id].reserved_at->0, released_at: now },
            )
            &&& db1.games[id].disabled_at == Some(now)
            &&& db1.games[id].reserved_at is None
        }),
{
    game_txn_does_its_outcome(GameOp::Disable, id, db, now, elapsed, pick, fail);
}

/// Releasing twice records the reservation once: the first release writes
/// one record if the game was reserved and none otherwise, the second
/// writes none.
pub proof fn releasing_records_once(
    id: i64,
    db: Database,
    now1: NaiveDateTime,
    elapsed1: Elapsed,
    now2: NaiveDateTime,
    elapsed2: Elapsed,
    pick: i64,
    fail: Failures,
)
    requires
        db.wf(),
        never_fails(fail),
        db.live_game(id),
    ensures
        ({
            let db1 = run_game_txn(GameOp::Release, id, db, now1, elapsed1, pick, fail).0;
            let db2 = run_game_txn(GameOp::Release, id, db1, now2, elapsed2, pick, fail).0;
            &&& db2.reservations == db1.reservations
            &&& db1.reservations == (if db.games[id].reserved_at is Some {
                db.reservations.push(
                    ReservationRow { game_id: id, reserved_at: db.games[id].reserved_at->0, released_at: now1 },
                )
            } else {
                db.reservations
            })
        }),
{
    game_txn_does_its_outcome(GameOp::Release, id, db, now1, elapsed1, pick, fail);
    repeating_is_a_no_op(GameOp::Release, id, db, now1, elapsed1, pick, now2, elapsed2, pick, fail);
}

/// A game that does not exist or has been deleted is not found by any
/// transaction that names it, and nothing changes.
pub proof fn missing_game_is_not_found(op: GameOp, id: i64, db: Database, now: NaiveDateTime, elapsed: Elapsed, pick: i64, fail: Failures)
    requires
        db.wf(),
        never_fails(fail),
        !db.live_game(id),
        !(op is ReserveRandom),
    ensures
        run_game_txn(op, id, db, now, elapsed, pick, fail) == (db, Err::<Game, DbError>(DbError::NotFound)),
{
    game_txn_does_its_outcome(op, id, db, now, elapsed, pick, fail);
}

/// A deleted game is hidden from the transaction that follows its
/// deletion: every transaction that names it is not found, and no random
/// reservation can land on it. `history::deleted_game_stays_hidden_for_good`
/// carries this through any operations that follow.
pub proof fn deleted_game_stays_hidden(
    id: i64,
    db: Database,
    now1: NaiveDateTime,
    elapsed1: Elapsed,
    op: GameOp,
    target: i64,
    now2: NaiveDateTime,
    elapsed2: Elapsed,
    pick: i64,
    fail: Failures,
)
    requires
        db.wf(),
        never_fails(fail),
        run_game_txn(GameOp::Delete, id, db, now1, elapsed1, pick, fail).1 is Ok,
    ensures
        ({
            let db1 = run_game_txn(GameOp::Delete, id, db, now1, elapsed1, pick, fail).0;
            &&& !(op is ReserveRandom) ==> run_game_txn(op, id, db1, now2, elapsed2, pick, fail) == (db1, Err::<
                Game,
                DbError,
            >(DbError::NotFound))
            &&& match run_game_txn(GameOp::ReserveRandom, target, db1, now2, elapsed2, pick, fail).1 {
                Ok(g) => g.id != id,
                Err(_) => true,
            }
        }),
{
    failed_txn_changes_nothing(GameOp::Delete, id, db, now1, elapsed1, pick, fail);
    game_txn_does_its_outcome(GameOp::Delete, id, db, now1, elapsed1, pick, fail);
    let db1 = run_game_txn(GameOp::Delete, id, db, now1, elapsed1, pick, fail).0;
    assert(!db1.live_game(id));
    if !(op is ReserveRandom) {
        missing_game_is_not_found(op, id, db1, now2, elapsed2, pick, fail);
    }
    game_txn_does_its_outcome(GameOp::ReserveRandom, target, db1, now2, elapsed2, pick, fail);
    if exists|k: i64| db1.available(target, k) {
        let k = random_choice(db1, target, pick);
        assert(db1.available(target, k));
    }
}

/// Reserving at random lands on a game that was available at the location
/// and leaves it reserved now; when none is available it is refused and
/// nothing changes.
pub proof fn random_reservation_takes_an_available_game(location_id: i64, db: Database, now: NaiveDateTime, elapsed: Elapsed, pick: i64, fail: Failures)
    requires
        db.wf(),
        never_fails(fail),
    ensures
        ({
            let (db1, r) = run_game_txn(GameOp::ReserveRandom, location_id, db, now, elapsed, pick, fail);
            match r {
                Ok(g) => {
                    &&& db.available(location_id, g.id)
                    &&& g.reserved_at == Some(now)
                    &&& db1.games[g.id].reserved_at == Some(now)
                    &&& db1 == db.with_game(GameRow { reserved_at: Some(now), ..db.games[g.id] })
                },
                Err(e) => {
                    &&& e is NotFound
                    &&& db1 == db
                    &&& forall|k: i64| !db.available(location_id, k)
                },
            }
        }),
{
    game_txn_does_its_outcome(GameOp::ReserveRandom, location_id, db, now, elapsed, pick, fail);
    if exists|k: i64| db.available(location_id, k) {
        let k = random_choice(db, location_id, pick);
        assert(db.available(location_id, k));
    }
}

/// Deleting a location hides it, every game at it, and every note of
/// those games, in one transaction; a missing or deleted location is not
/// found and nothing changes.
pub proof fn deleting_a_location_cascades(id: i64, db: Database, now: NaiveDateTime, fail: Failures)
    requires
        db.wf(),
        never_fails(fail),
        db.notes_follow_games(),
    ensures
        ({
            let (db1, r) = run_location_delete(id, db, now, fail);
            &&& db.live_location(id) ==> {
                &&& r == Ok::<Location, DbError>(Location { deleted_at: Some(now), ..db.locations[id] })
                &&& !db1.live_location(id)
                &&& forall|g: i64|
                    #[trigger] db1.games.contains_key(g) && db1.games[g].location_id == id ==> !db1.live_game(g)
                &&& forall|n: i64| #[trigger]
                    db1.live_note(n) ==> db1.live_game(db1.notes[n].game_id)
                        && db1.games[db1.notes[n].game_id].location_id != id
            }
            &&& !db.live_location(id) ==> r == Err::<Location, DbError>(DbError::NotFound) && db1 == db
        }),
{
    location_delete_does_its_outcome(id, db, now, fail);
    if db.live_location(id) {
        let l = Location { deleted_at: Some(now), ..db.locations[id] };
        let db1 = Database { locations: db.locations.insert(id, l), ..db };
        let db2 = db1.without_notes(of_live_game_at(db1, id), now);
        let db3 = db2.without_games_at(id, now);
        assert(db3.games.dom() == db.games.dom());
        assert forall|n: i64| #[trigger] db3.live_note(n) implies db3.live_game(db3.notes[n].game_id)
            && db3.games[db3.notes[n].game_id].location_id != id by {
            assert(db2.notes[n] == db.notes[n]);
            assert(db.live_note(n));
        }
    }
}

/// Every game transaction keeps the database consistent: live games stand
/// at live locations, and live notes belong to live games.
pub proof fn game_txn_keeps_consistency(op: GameOp, id: i64, db: Database, now: NaiveDateTime, elapsed: Elapsed, pick: i64, fail: Failures)
    requires
        db.wf(),
        never_fails(fail),
        db.games_follow_locations(),
        db.notes_follow_games(),
    ensures
        ({
            let db1 = run_game_txn(op, id, db, now, elapsed, pick, fail).0;
            db1.wf() && db1.games_follow_locations() && db1.notes_follow_games()
        }),
{
    failed_txn_changes_nothing(op, id, db, now, elapsed, pick, fail);
    game_txn_does_its_outcome(op, id, db, now, elapsed, pick, fail);
    let db1 = run_game_txn(op, id, db, now, elapsed, pick, fail).0;
    if op is ReserveRandom && exists|k: i64| db.available(id, k) {
        let k = random_choice(db, id, pick);
        assert(db.available(id, k));
    }
    assert forall|g: i64| #[trigger] db1.live_game(g) implies db1.live_location(db1.games[g].location_id) by {
        assert(db.live_game(g));
    }
    assert forall|n: i64| #[trigger] db1.live_note(n) implies db1.live_game(db1.notes[n].game_id) by {
        assert(db.live_note(n));
    }
}

/// Deleting a location keeps the database consistent: live games stand at
/// live locations, and live notes belong to live games.
pub proof fn location_delete_keeps_consistency(id: i64, db: Database, now: NaiveDateTime, fail: Failures)
    requires
        db.wf(),
        never_fails(fail),
        db.games_follow_locations(),
        db.notes_follow_games(),
    ensures
        ({
            let db1 = run_location_delete(id, db, now, fail).0;
            db1.wf() && db1.games_follow_locations() && db1.notes_follow_games()
        }),
{
    location_delete_does_its_outcome(id, db, now, fail);
    deleting_a_location_cascades(id, db, now, fail);
    let db1 = run_location_delete(id, db, now, fail).0;
    if db.live_location(id) {
        assert forall|g: i64| #[trigger] db1.live_game(g) implies db1.live_location(db1.games[g].location_id) by {
            assert(db.live_game(g));
        }
        assert forall|k: i64| #[trigger] db1.notes.contains_key(k) implies db1.notes[k].id == k by {
            assert(db.notes.contains_key(k));
        }
        assert forall|k: i64| #[trigger] db1.games.contains_key(k) implies db1.games[k].id == k by {
            assert(db.games.contains_key(k));
        }
    }
}

/// Reserving a disabled game is answered 409 "Game is disabled".
pub proof fn disabled_reservation_is_a_conflict(
    id: i64,
    db: Database,
    now: NaiveDateTime,
    elapsed: Elapsed,
    pick: i64,
    fail: Failures,
    answer: Result<GameResponse, ApiError>,
)
    requires
        db.wf(),
        never_fails(fail),
        db.live_game(id),
        db.games[id].disabled_at is Some,
        game_or_db_error(run_game_txn(GameOp::Reserve, id, db, now, elapsed, pick, fail).1, answer),
    ensures
        answer matches Err(a) && a@ == (409u16, "Game is disabled"@),
{
    disabled_game_cannot_be_reserved(id, db, now, elapsed, pick, fail);
}

/// Reserving, releasing, enabling or disabling a game that does not exist
/// or has been deleted is answered 404 "Game not found".
pub proof fn missing_game_is_answered_not_found(
    op: GameOp,
    id: i64,
    db: Database,
    now: NaiveDateTime,
    elapsed: Elapsed,
    pick: i64,
    fail: Failures,
    answer: Result<GameResponse, ApiError>,
)
    requires
        db.wf(),
        never_fails(fail),
        !db.live_game(id),
        op is Disable || op is Enable || op is Reserve || op is Release,
        game_or_db_error(run_game_txn(op, id, db, now, elapsed, pick, fail).1, answer),
    ensures
        answer matches Err(a) && a@ == (404u16, "Game not found"@),
{
    missing_game_is_not_found(op, id, db, now, elapsed, pick, fail);
}

/// A random reservation at a location without an available game is
/// answered 409 "No available games at this location".
pub proof fn no_available_game_is_a_conflict(
    location_id: i64,
    db: Database,
    now: NaiveDateTime,
    elapsed: Elapsed,
    pick: i64,
    fail: Failures,
    answer: Result<GameResponse, ApiError>,
)
    requires
        db.wf(),
        never_fails(fail),
        forall|k: i64| !db.available(location_id, k),
        post_reserve_random_answers(run_game_txn(GameOp::ReserveRandom, location_id, db, now, elapsed, pick, fail).1, answer),
    ensures
        answer matches Err(a) && a@ == (409u16, "No available games at this location"@),
{
    game_txn_does_its_outcome(GameOp::ReserveRandom, location_id, db, now, elapsed, pick, fail);
}

/// A game that a transaction returns unreserved reports no reserved
/// minutes.
pub proof fn unreserved_games_report_no_minutes(op: GameOp, id: i64, db: Database, now: NaiveDateTime, elapsed: Elapsed, pick: i64, fail: Failures)
    requires
        db.wf(),
        never_fails(fail),
    ensures
        run_game_txn(op, id, db, now, elapsed, pick, fail).1 matches Ok(g) ==> (g.reserved_at is None ==> g.reserved_minutes == 0),
{
    game_txn_does_its_outcome(op, id, db, now, elapsed, pick, fail);
}

proof fn lemma_drive_atomic(
    txn: GameTxn,
    ev: TxnEvent,
    work: Database,
    now: NaiveDateTime,
    elapsed: Elapsed,
    pick: i64,
    fail: Failures,
    step: nat,
    fuel: nat,
)
    requires
        txn.stage.accepts(ev),
    ensures
        ({
            let (_, c, r) = drive(txn, ev, work, false, now, elapsed, pick, fail, step, fuel);
            r is Err ==> !c
        }),
    decreases fuel,
{
    let (t, a) = txn.next(ev);
    if !(a is Finish) && fuel > 0 {
        let (w, e) = respond(work, a, now, elapsed, pick, fail(step));
        assert(t.stage.accepts(e));
        if e is Committed {
            assert(t.stage is Committing);
            assert(drive(t, e, w, true, now, elapsed, pick, fail, step + 1, (fuel - 1) as nat).2 is Ok);
        } else {
            lemma_drive_atomic(t, e, w, now, elapsed, pick, fail, step + 1, (fuel - 1) as nat);
        }
    }
}

/// A game transaction is one transaction: whichever statement the driver
/// fails, the commit included, and whenever the transaction is refused,
/// the database is left as it was.
pub proof fn failed_game_txn_leaves_database_unchanged(
    op: GameOp,
    id: i64,
    db: Database,
    now: NaiveDateTime,
    elapsed: Elapsed,
    pick: i64,
    fail: Failures,
)
    ensures
        run_game_txn(op, id, db, now, elapsed, pick, fail).1 is Err ==> run_game_txn(op, id, db, now, elapsed, pick, fail).0 == db,
{
    let (w0, e0) = respond(db, TxnAction::Begin, now, elapsed, pick, fail(0));
    lemma_drive_atomic(GameTxn::started(op, id), e0, w0, now, elapsed, pick, fail, 1, 8);
}

proof fn lemma_drive_location_atomic(
    txn: LocationTxn,
    ev: LocationEvent,
    work: Database,
    now: NaiveDateTime,
    fail: Failures,
    step: nat,
    fuel: nat,
)
    requires
        txn.stage.accepts(ev),
    ensures
        ({
            let (_, c, r) = drive_location(txn, ev, work, false, now, fail, step, fuel);
            r is Err ==> !c
        }),
    decreases fuel,
{
    let (t, a) = txn.next(ev);
    if !(a is Finish) && fuel > 0 {
        let (w, e) = respond_location(work, a, now, fail(step));
        assert(t.stage.accepts(e));
        if e is Committed {
            assert(t.stage is Committing);
            assert(drive_location(t, e, w, true, now, fail, step + 1, (fuel - 1) as nat).2 is Ok);
        } else {
            lemma_drive_location_atomic(t, e, w, now, fail, step + 1, (fuel - 1) as nat);
        }
    }
}

/// Deleting a location is one transaction: whichever statement the driver
/// fails, the commit included, neither the location nor any of its games
/// or notes is deleted.
pub proof fn failed_location_delete_leaves_database_unchanged(id: i64, db: Database, now: NaiveDateTime, fail: Failures)
    ensures
        run_location_delete(id, db, now, fail).1 is Err ==> run_location_delete(id, db, now, fail).0 == db,
{
    let txn = LocationTxn { id, stage: LocationStage::Beginning };
    let (w0, e0) = respond_location(db, LocationAction::Begin, now, fail(0));
    lemma_drive_location_atomic(txn, e0, w0, now, fail, 1, 8);
}

/// Disabling a reserved game fails as a whole: when the driver fails the
/// lock, the reservation record, the update or the commit, the result is
/// that failure and neither the record nor the change of the game is kept.
#[verifier::spinoff_prover]
pub proof fn disabling_fails_as_a_whole(
    id: i64,
    db: Database,
    now: NaiveDateTime,
    elapsed: Elapsed,
    pick: i64,
    fail: Failures,
    k: nat,
    e: DbError,
)
    requires
        db.wf(),
        db.live_game(id),
        db.games[id].disabled_at is None,
        db.games[id].reserved_at is Some,
        k <= 4,
        forall|i: nat| i < k ==> #[trigger] fail(i) is None,
        fail(k) == Some(e),
    ensures
        run_game_txn(GameOp::Disable, id, db, now, elapsed, pick, fail) == (db, Err::<Game, DbError>(e)),
{
    reveal_with_fuel(drive, 6);
    assert(fail(0) is None || k == 0);
    assert(k < 1 || fail(0) is None);
    assert(k < 2 || fail(1) is None);
    assert(k < 3 || fail(2) is None);
    assert(k < 4 || fail(3) is None);
}

/// Deleting a location fails as a whole: when the driver fails the
/// location's update, the notes' update, the games' update or the commit,
/// the result is that failure and nothing is deleted.
#[verifier::spinoff_prover]
pub proof fn deleting_a_location_fails_as_a_whole(id: i64, db: Database, now: NaiveDateTime, fail: Failures, k: nat, e: DbError)
    requires
        db.wf(),
        db.live_location(id),
        k <= 4,
        forall|i: nat| i < k ==> #[trigger] fail(i) is None,
        fail(k) == Some(e),
    ensures
        run_location_delete(id, db, now, fail) == (db, Err::<Location, DbError>(e)),
{
    reveal_with_fuel(drive_location, 6);
    assert(k < 1 || fail(0) is None);
    assert(k < 2 || fail(1) is None);
    assert(k < 3 || fail(2) is None);
    assert(k < 4 || fail(3) is None);
}

/// A game reserved now reports no reserved minutes: reserving an enabled,
/// unreserved game, and reserving at random, give 0 minutes.
pub proof fn fresh_reservations_report_no_minutes(
    op: GameOp,
    id: i64,
    db: Database,
    now: NaiveDateTime,
    elapsed: Elapsed,
    pick: i64,
    fail: Failures,
)
    requires
        db.wf(),
        never_fails(fail),
        starts_at_zero(elapsed),
        op is Reserve || op is ReserveRandom,
    ensures
        op is Reserve && db.live_game(id) && db.games[id].disabled_at is None && db.games[id].reserved_at is None
            ==> (run_game_txn(op, id, db, now, elapsed, pick, fail).1 matches Ok(g) && g.reserved_at == Some(now)
            && g.reserved_minutes == 0),
        op is ReserveRandom ==> (run_game_txn(op, id, db, now, elapsed, pick, fail).1 matches Ok(g) ==> g.reserved_minutes
            == 0),
{
    game_txn_does_its_outcome(op, id, db, now, elapsed, pick, fail);
    assert(elapsed(now, now) == 0);
}

/// The single statements refuse what is missing or deleted, and change
/// nothing then: a game cannot be added at such a location, such a game
/// cannot be renamed or given a note, and a note can be deleted only while
/// it and its game are live, and only through its own game.
pub proof fn statements_refuse_missing_rows(
    db: Database,
    location_id: i64,
    game_id: i64,
    note_id: i64,
    name: String,
    abbreviation: String,
    text: String,
    new_id: i64,
    now: NaiveDateTime,
    elapsed: Elapsed,
)
    ensures
        !db.live_location(location_id) ==> add_game_outcome(db, location_id, name, abbreviation, new_id, now, elapsed)
            == (db, Err::<Game, DbError>(DbError::NotFound)),
        !db.live_game(game_id) ==> update_game_outcome(db, game_id, name, abbreviation, now, elapsed) == (db, Err::<
            Game,
            DbError,
        >(DbError::NotFound)),
        !db.live_game(game_id) ==> add_note_outcome(db, game_id, text, new_id, now) == (db, Err::<Note, DbError>(
            DbError::NotFound,
        )),
        !(db.live_note(note_id) && db.notes[note_id].game_id == game_id && db.live_game(game_id))
            ==> delete_note_outcome(db, game_id, note_id, now) == (db, Err::<Note, DbError>(DbError::NotFound)),
{
}

/// The single statements keep the database consistent: live games stand at
/// live locations and live notes belong to live games, every row under its
/// own id, when new rows get fresh ids.
#[verifier::spinoff_prover]
pub proof fn statements_keep_consistency(
    db: Database,
    location_id: i64,
    game_id: i64,
    note_id: i64,
    name: String,
    abbreviation: String,
    text: String,
    new_id: i64,
    now: NaiveDateTime,
    elapsed: Elapsed,
)
    requires
        db.wf(),
        db.games_follow_locations(),
        db.notes_follow_games(),
        !db.locations.contains_key(new_id),
        !db.games.contains_key(new_id),
        !db.notes.contains_key(new_id),
    ensures
        ({
            let d = add_location_outcome(db, name, new_id, now).0;
            d.wf() && d.games_follow_locations() && d.notes_follow_games()
        }),
        ({
            let d = add_game_outcome(db, location_id, name, abbreviation, new_id, now, elapsed).0;
            d.wf() && d.games_follow_locations() && d.notes_follow_games()
        }),
        ({
            let d = update_game_outcome(db, game_id, name, abbreviation, now, elapsed).0;
            d.wf() && d.games_follow_locations() && d.notes_follow_games()
        }),
        ({
            let d = add_note_outcome(db, game_id, text, new_id, now).0;
            d.wf() && d.games_follow_locations() && d.notes_follow_games()
        }),
        ({
            let d = delete_note_outcome(db, game_id, note_id, now).0;
            d.wf() && d.games_follow_locations() && d.notes_follow_games()
        }),
{
    let d1 = add_location_outcome(db, name, new_id, now).0;
    assert forall|g: i64| #[trigger] d1.live_game(g) implies d1.live_location(d1.games[g].location_id) by {
        assert(db.live_game(g));
        assert(db.live_location(db.games[g].location_id));
        assert(db.games[g].location_id != new_id);
    }
    assert forall|n: i64| #[trigger] d1.live_note(n) implies d1.live_game(d1.notes[n].game_id) by {
        assert(db.live_note(n));
    }
    assert forall|k: i64| #[trigger] d1.locations.contains_key(k) implies d1.locations[k].id == k by {
        if k != new_id {
            assert(db.locations.contains_key(k));
        }
    }
    let d2 = add_game_outcome(db, location_id, name, abbreviation, new_id, now, elapsed).0;
    assert forall|g: i64| #[trigger] d2.live_game(g) implies d2.live_location(d2.games[g].location_id) by {
        if g != new_id {
            assert(db.live_game(g));
        }
    }
    assert forall|n: i64| #[trigger] d2.live_note(n) implies d2.live_game(d2.notes[n].game_id) by {
        assert(db.live_note(n));
    }
    let d3 = update_game_outcome(db, game_id, name, abbreviation, now, elapsed).0;
    assert forall|g: i64| #[trigger] d3.live_game(g) implies d3.live_location(d3.games[g].location_id) by {
        assert(db.live_game(g));
    }
    assert forall|n: i64| #[trigger] d3.live_note(n) implies d3.live_game(d3.notes[n].game_id) by {
        assert(db.live_note(n));
    }
    let d4 = add_note_outcome(db, game_id, text, new_id, now).0;
    assert forall|n: i64| #[trigger] d4.live_note(n) implies d4.live_game(d4.notes[n].game_id) by {
        if n != new_id {
            assert(db.live_note(n));
        }
    }
    assert forall|k: i64| #[trigger] d4.notes.contains_key(k) implies d4.notes[k].id == k by {
        if k != new_id {
            assert(db.notes.contains_key(k));
        }
    }
    assert forall|g: i64| #[trigger] d4.live_game(g) implies d4.live_location(d4.games[g].location_id) by {
        assert(db.live_game(g));
    }
    let d5 = delete_note_outcome(db, game_id, note_id, now).0;
    assert forall|n: i64| #[trigger] d5.live_note(n) implies d5.live_game(d5.notes[n].game_id) by {
        assert(db.live_note(n));
    }
    assert forall|k: i64| #[trigger] d5.notes.contains_key(k) implies d5.notes[k].id == k by {
        assert(db.notes.contains_key(k));
    }
    assert forall|g: i64| #[trigger] d5.live_game(g) implies d5.live_location(d5.games[g].location_id) by {
        assert(db.live_game(g));
    }
}

/// The game transactions keep to their protocol: whatever the database
/// answers to the statement a transaction asks for, a failure included, is
/// an answer the transaction accepts next.
pub proof fn game_txn_accepts_every_answer(
    txn: GameTxn,
    ev: TxnEvent,
    work: Database,
    now: NaiveDateTime,
    elapsed: Elapsed,
    pick: i64,
    failure: Option<DbError>,
)
    requires
        txn.stage.accepts(ev),
    ensures
        ({
            let (t, a) = txn.next(ev);
            !(a is Finish) ==> t.stage.accepts(respond(work, a, now, elapsed, pick, failure).1)
        }),
{
}

/// A location deletion keeps to its protocol: whatever the database answers
/// to the statement it asks for, a failure included, it accepts next.
pub proof fn location_delete_accepts_every_answer(
    txn: LocationTxn,
    ev: LocationEvent,
    work: Database,
    now: NaiveDateTime,
    failure: Option<DbError>,
)
    requires
        txn.stage.accepts(ev),
    ensures
        ({
            let (t, a) = txn.next(ev);
            !(a is Finish) ==> t.stage.accepts(respond_location(work, a, now, failure).1)
        }),
{
}

} // verus!
